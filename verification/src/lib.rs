//! An adapter between the command line of an OCI runtime and the task
//! service of a per-container shim.
//!
//! The library holds the decisions of the adapter: how a bundle directory
//! is found from its template, how the shim is launched and its exit read,
//! how each command becomes a request, how checkpoint options are encoded,
//! and in which order a channel is opened, the shim launched, the handshake
//! made and the request sent. What touches the machine (sockets, processes,
//! files) is left to the caller, which carries out each action that the
//! library asks for and reports what happened.

pub mod backend;
pub mod command;
pub mod error;
pub mod exchange;
pub mod launch;
pub mod options;
pub mod path;
pub mod request;
pub mod signal;
pub mod template;
pub mod text;
