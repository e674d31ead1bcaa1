use vstd::prelude::*;

use crate::command::Command;

verus! {

/// A path that could not be read as text, with the role it played.
#[derive(Debug, Clone, PartialEq, Eq)]
pub struct InvalidPath {
    /// What the path was for, such as `socket` or `bundle`.
    pub kind: String,
    /// The bytes of the path as they were given.
    pub path: Vec<u8>,
}

/// The mathematical content of an [`InvalidPath`].
pub struct InvalidPathView {
    pub kind: Seq<char>,
    pub path: Seq<u8>,
}

impl View for InvalidPath {
    type V = InvalidPathView;

    open spec fn view(&self) -> InvalidPathView {
        InvalidPathView { kind: self.kind@, path: self.path@ }
    }
}

/// Why the shim could not be brought up.
#[derive(Debug, Clone, Copy, PartialEq, Eq, Structural)]
pub enum LaunchFailure {
    /// The bundle directory could not be entered.
    Directory,
    /// The log file could not be created in the bundle directory.
    Log,
    /// The shim executable could not be started.
    Spawn,
    /// The shim ran and exited with this code, which is not zero.
    ExitCode(i32),
    /// The shim was ended by this signal.
    Signal(i32),
    /// The shim ended, and neither an exit code nor a signal is known.
    Unidentified,
}

/// What went wrong in the conversation with the shim.
#[derive(Debug, Clone, Copy, PartialEq, Eq, Structural)]
pub enum ProtocolFault {
    /// The shim did not accept the handshake.
    HandshakeRejected,
    /// The shim did not accept the request.
    RequestRejected,
    /// What was reported does not answer the action that was pending.
    UnexpectedEvent,
}

/// The broad kinds of failure.
#[derive(Debug, Clone, Copy, PartialEq, Eq, Structural)]
pub enum ErrorKind {
    Config,
    ProcessLaunch,
    Connection,
    Protocol,
    Argument,
    Encoding,
    /// The backend that refuses every command was asked.
    Trivial,
}

/// Every way in which a command can fail.
#[derive(Debug, Clone, PartialEq, Eq)]
pub enum AdapterError {
    /// The bundle directory template does not hold the placeholder.
    MissingPlaceholder,
    /// A path of the configuration is not text.
    ConfigPath(InvalidPath),
    /// The shim could not be launched, or did not end well.
    Launch { shim: Vec<u8>, failure: LaunchFailure },
    /// No channel could be opened at the socket, even after a launch.
    Connection { socket: String },
    /// The shim rejected a message, or an event came out of turn.
    Protocol(ProtocolFault),
    /// The signal of a `kill` is not an unsigned 32-bit number.
    Signal { signal: String },
    /// A path among the arguments of a command is not text.
    ArgumentPath(InvalidPath),
    /// A path among the checkpoint options is not text.
    OptionPath(InvalidPath),
    /// The checkpoint options could not be packed into a payload.
    Payload,
    /// The backend that refuses every command was given this one.
    Trivial(Command),
}

/// The mathematical content of an [`AdapterError`].
pub enum AdapterErrorView {
    MissingPlaceholder,
    ConfigPath(InvalidPathView),
    Launch { shim: Seq<u8>, failure: LaunchFailure },
    Connection { socket: Seq<char> },
    Protocol(ProtocolFault),
    Signal { signal: Seq<char> },
    ArgumentPath(InvalidPathView),
    OptionPath(InvalidPathView),
    Payload,
    Trivial(Command),
}

impl View for AdapterError {
    type V = AdapterErrorView;

    open spec fn view(&self) -> AdapterErrorView {
        match self {
            AdapterError::MissingPlaceholder => AdapterErrorView::MissingPlaceholder,
            AdapterError::ConfigPath(p) => AdapterErrorView::ConfigPath(p@),
            AdapterError::Launch { shim, failure } => AdapterErrorView::Launch { shim: shim@, failure: *failure },
            AdapterError::Connection { socket } => AdapterErrorView::Connection { socket: socket@ },
            AdapterError::Protocol(fault) => AdapterErrorView::Protocol(*fault),
            AdapterError::Signal { signal } => AdapterErrorView::Signal { signal: signal@ },
            AdapterError::ArgumentPath(p) => AdapterErrorView::ArgumentPath(p@),
            AdapterError::OptionPath(p) => AdapterErrorView::OptionPath(p@),
            AdapterError::Payload => AdapterErrorView::Payload,
            AdapterError::Trivial(command) => AdapterErrorView::Trivial(*command),
        }
    }
}

impl AdapterErrorView {
    /// The kind that an error belongs to.
    pub open spec fn kind(self) -> ErrorKind {
        match self {
            AdapterErrorView::MissingPlaceholder => ErrorKind::Config,
            AdapterErrorView::ConfigPath(_) => ErrorKind::Config,
            AdapterErrorView::Launch { .. } => ErrorKind::ProcessLaunch,
            AdapterErrorView::Connection { .. } => ErrorKind::Connection,
            AdapterErrorView::Protocol(_) => ErrorKind::Protocol,
            AdapterErrorView::Signal { .. } => ErrorKind::Argument,
            AdapterErrorView::ArgumentPath(_) => ErrorKind::Argument,
            AdapterErrorView::OptionPath(_) => ErrorKind::Encoding,
            AdapterErrorView::Payload => ErrorKind::Encoding,
            AdapterErrorView::Trivial(_) => ErrorKind::Trivial,
        }
    }
}

impl AdapterError {
    /// The kind that this error belongs to.
    pub fn kind(&self) -> (kind: ErrorKind)
        ensures
            kind == self@.kind(),
    {
        match self {
            AdapterError::MissingPlaceholder => ErrorKind::Config,
            AdapterError::ConfigPath(_) => ErrorKind::Config,
            AdapterError::Launch { .. } => ErrorKind::ProcessLaunch,
            AdapterError::Connection { .. } => ErrorKind::Connection,
            AdapterError::Protocol(_) => ErrorKind::Protocol,
            AdapterError::Signal { .. } => ErrorKind::Argument,
            AdapterError::ArgumentPath(_) => ErrorKind::Argument,
            AdapterError::OptionPath(_) => ErrorKind::Encoding,
            AdapterError::Payload => ErrorKind::Encoding,
            AdapterError::Trivial(_) => ErrorKind::Trivial,
        }
    }
}

} // verus!
