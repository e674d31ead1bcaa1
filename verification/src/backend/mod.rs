use vstd::prelude::*;

use crate::backend::shimv2::ShimV2Backend;
use crate::backend::trivial::TrivialBackend;
use crate::command::Command;
use crate::error::AdapterErrorView;
use crate::exchange::Action;
use crate::exchange::ActionView;
use crate::exchange::Exchange;
use crate::exchange::ExchangeView;

pub mod shimv2;
pub mod trivial;

verus! {

/// The backend that the commands are handed to. It is chosen once, by the
/// configuration.
#[derive(Debug, Clone, PartialEq, Eq)]
pub enum Backend {
    /// Relays each command to the shim of the container.
    ShimV2(ShimV2Backend),
    /// Refuses every command.
    Trivial(TrivialBackend),
}

impl Backend {
    /// How the backend takes up a command that does not rest on packing a
    /// payload.
    pub open spec fn takes_up(self, command: Command) -> (ExchangeView, ActionView) {
        match self {
            Backend::ShimV2(backend) => backend.takes_up(command),
            Backend::Trivial(_) => ExchangeView::refuse(
                Seq::empty(),
                AdapterErrorView::Trivial(command),
            ),
        }
    }

    /// Takes up a command: gives the exchange that it opens, and the first
    /// thing to do.
    pub fn command(&self, command: Command) -> (step: (Exchange, Action))
        ensures
            (step.0@, step.1@) == self.takes_up(command) || (self matches Backend::ShimV2(backend)
                && backend.may_fail_to_pack(command, (step.0@, step.1@))),
    {
        match self {
            Backend::ShimV2(backend) => backend.command(command),
            Backend::Trivial(backend) => backend.command(command),
        }
    }
}

} // verus!
