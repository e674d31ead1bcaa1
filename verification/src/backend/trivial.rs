use vstd::prelude::*;

use crate::backend::Backend;
use crate::command::Command;
use crate::command::GlobalOpts;
use crate::error::AdapterError;
use crate::error::AdapterErrorView;
use crate::exchange::Action;
use crate::exchange::Exchange;
use crate::exchange::ExchangeView;

verus! {

/// The configuration of the backend that refuses every command. It holds
/// nothing.
#[derive(Debug, Clone, Copy, PartialEq, Eq, Structural)]
pub struct Config {}

/// The backend that refuses every command, and says which command it was
/// given. It serves to see what the adapter is asked.
#[derive(Debug, Clone, Copy, PartialEq, Eq, Structural)]
pub struct TrivialBackend {}

impl Config {
    /// The backend for this configuration.
    pub fn instantiate(self, global: GlobalOpts) -> (backend: Backend)
        ensures
            backend == Backend::Trivial(TrivialBackend {  }),
    {
        Backend::Trivial(TrivialBackend {  })
    }
}

impl TrivialBackend {
    /// Refuses the command: the error holds the command as it was given.
    pub fn command(&self, command: Command) -> (step: (Exchange, Action))
        ensures
            (step.0@, step.1@) == ExchangeView::refuse(
                Seq::empty(),
                AdapterErrorView::Trivial(command),
            ),
    {
        Exchange::refuse(String::new(), AdapterError::Trivial(command))
    }
}

} // verus!
