use vstd::prelude::*;
use vstd::string::*;

use crate::backend::Backend;
use crate::command::Checkpoint;
use crate::command::Command;
use crate::command::Create;
use crate::command::Delete;
use crate::command::GlobalOpts;
use crate::command::Kill;
use crate::command::Start;
use crate::command::State;
use crate::error::AdapterErrorView;
use crate::error::ErrorKind;
use crate::exchange::law_settled_stays_settled;
use crate::exchange::Event;
use crate::exchange::Stage;
use crate::exchange::Action;
use crate::exchange::ActionView;
use crate::exchange::Exchange;
use crate::exchange::ExchangeView;
use crate::request::checkpoint;
use crate::request::checkpoint_request_of;
use crate::request::create_request;
use crate::request::create_request_of;
use crate::request::delete_request;
use crate::request::kill_request;
use crate::request::kill_request_of;
use crate::request::start_request;
use crate::request::state_request;
use crate::request::TaskRequestView;
use crate::signal::signal_number;

verus! {

/// The configuration of the backend that talks to a shim.
#[derive(Debug, Clone, PartialEq, Eq)]
pub struct Config {
    /// The shim executable.
    pub shim: Vec<u8>,
    /// The socket at which the shim serves tasks.
    pub socket: Vec<u8>,
    /// The program that the shim publishes events with.
    pub events: Vec<u8>,
    /// The template of the bundle directory, with a placeholder for the
    /// container id.
    pub bundle_dir: Vec<u8>,
    /// Whether the shim is started with its debug flag.
    pub debug_shim: bool,
}

/// The backend that relays each command to the shim of the container.
#[derive(Debug, Clone, PartialEq, Eq)]
pub struct ShimV2Backend {
    pub shim: Vec<u8>,
    pub socket: Vec<u8>,
    pub events: Vec<u8>,
    pub bundle_dir: Vec<u8>,
    pub debug_shim: bool,
    pub global_opts: GlobalOpts,
}

impl Config {
    /// The backend for this configuration.
    pub fn instantiate(self, opts: GlobalOpts) -> (backend: Backend)
        ensures
            backend == Backend::ShimV2(
                ShimV2Backend {
                    shim: self.shim,
                    socket: self.socket,
                    events: self.events,
                    bundle_dir: self.bundle_dir,
                    debug_shim: self.debug_shim,
                    global_opts: opts,
                },
            ),
    {
        Backend::ShimV2(
            ShimV2Backend::new(
                self.shim,
                self.socket,
                self.events,
                self.bundle_dir,
                self.debug_shim,
                opts,
            ),
        )
    }
}

impl ShimV2Backend {
    /// A backend with the given configuration.
    pub fn new(
        shim: Vec<u8>,
        socket: Vec<u8>,
        events: Vec<u8>,
        bundle_dir: Vec<u8>,
        debug_shim: bool,
        global_opts: GlobalOpts,
    ) -> (backend: ShimV2Backend)
        ensures
            backend == (ShimV2Backend { shim, socket, events, bundle_dir, debug_shim, global_opts }),
    {
        ShimV2Backend { shim, socket, events, bundle_dir, debug_shim, global_opts }
    }

    /// How `create` is taken up: an exchange begins. A bundle directory
    /// that is not text ends it once the handshake is made.
    pub open spec fn takes_up_create(self, args: Create) -> (ExchangeView, ActionView) {
        ExchangeView::begin(self, args.container_id@, create_request_of(args))
    }

    /// How `kill` is taken up: an exchange begins, unless the signal is no
    /// number, which ends the command before anything is done.
    pub open spec fn takes_up_kill(self, args: Kill) -> (ExchangeView, ActionView) {
        match kill_request_of(args) {
            Ok(request) => ExchangeView::begin(
                self,
                args.container_id@,
                Ok::<TaskRequestView, AdapterErrorView>(request),
            ),
            Err(error) => ExchangeView::refuse(args.container_id@, error),
        }
    }

    /// How `checkpoint` is taken up where the options can be packed: an
    /// exchange begins. An image path or an option that is not text ends it
    /// once the handshake is made.
    pub open spec fn takes_up_checkpoint(self, args: Checkpoint) -> (ExchangeView, ActionView) {
        ExchangeView::begin(self, args.container_id@, checkpoint_request_of(args))
    }

    /// How a command that holds only a container id is taken up: an
    /// exchange begins.
    pub open spec fn takes_up_plain(self, request: TaskRequestView) -> (ExchangeView, ActionView) {
        ExchangeView::begin(self, request.id(), Ok::<TaskRequestView, AdapterErrorView>(request))
    }

    /// How a command is taken up where nothing fails to be packed. The
    /// commands that the shim is not asked anything for succeed at once.
    pub open spec fn takes_up(self, command: Command) -> (ExchangeView, ActionView) {
        match command {
            Command::Create(args) => self.takes_up_create(args),
            Command::Start(args) => self.takes_up_plain(
                TaskRequestView::Start { id: args.container_id@ },
            ),
            Command::Kill(args) => self.takes_up_kill(args),
            Command::Delete(args) => self.takes_up_plain(
                TaskRequestView::Delete { id: args.container_id@ },
            ),
            Command::State(args) => self.takes_up_plain(
                TaskRequestView::State { id: args.container_id@ },
            ),
            Command::Checkpoint(args) => self.takes_up_checkpoint(args),
            _ => ExchangeView::nothing_to_do(),
        }
    }

    /// Whether `step` is how a checkpoint is taken up whose options are
    /// good and yet could not be packed: an exchange begins, and ends with
    /// the failure to pack once the handshake is made.
    pub open spec fn may_fail_to_pack(self, command: Command, step: (ExchangeView, ActionView)) -> bool {
        &&& command is Checkpoint
        &&& checkpoint_request_of(command->Checkpoint_0) is Ok
        &&& step == ExchangeView::begin(
            self,
            command->Checkpoint_0.container_id@,
            Err::<TaskRequestView, AdapterErrorView>(AdapterErrorView::Payload),
        )
    }

    /// Takes up `create`.
    pub fn create(&self, args: Create) -> (step: (Exchange, Action))
        ensures
            (step.0@, step.1@) == self.takes_up_create(args),
    {
        let id = args.container_id.clone();
        Exchange::begin(self, id, create_request(args))
    }

    /// Takes up `start`.
    pub fn start(&self, args: Start) -> (step: (Exchange, Action))
        ensures
            (step.0@, step.1@) == self.takes_up_plain(
                TaskRequestView::Start { id: args.container_id@ },
            ),
    {
        let id = args.container_id.clone();
        Exchange::begin(self, id, Ok(start_request(args)))
    }

    /// Takes up `kill`. A signal that is no number ends the command here,
    /// before a channel is asked for.
    pub fn kill(&self, args: Kill) -> (step: (Exchange, Action))
        ensures
            (step.0@, step.1@) == self.takes_up_kill(args),
    {
        let id = args.container_id.clone();
        match kill_request(args) {
            Ok(request) => Exchange::begin(self, id, Ok(request)),
            Err(error) => Exchange::refuse(id, error),
        }
    }

    /// Takes up `delete`.
    pub fn delete(&self, args: Delete) -> (step: (Exchange, Action))
        ensures
            (step.0@, step.1@) == self.takes_up_plain(
                TaskRequestView::Delete { id: args.container_id@ },
            ),
    {
        let id = args.container_id.clone();
        Exchange::begin(self, id, Ok(delete_request(args)))
    }

    /// Takes up `state`.
    pub fn state(&self, args: State) -> (step: (Exchange, Action))
        ensures
            (step.0@, step.1@) == self.takes_up_plain(
                TaskRequestView::State { id: args.container_id@ },
            ),
    {
        let id = args.container_id.clone();
        Exchange::begin(self, id, Ok(state_request(args)))
    }

    /// Takes up `checkpoint`. Packing the options can fail; the exchange
    /// then begins all the same, and ends with that failure once the
    /// handshake is made.
    pub fn checkpoint(&self, args: Checkpoint) -> (step: (Exchange, Action))
        ensures
            (step.0@, step.1@) == self.takes_up_checkpoint(args) || self.may_fail_to_pack(
                Command::Checkpoint(args),
                (step.0@, step.1@),
            ),
    {
        let id = args.container_id.clone();
        Exchange::begin(self, id, checkpoint(args))
    }

    /// Takes up `events`: nothing is asked of the shim.
    pub fn events(&self) -> (step: (Exchange, Action))
        ensures
            (step.0@, step.1@) == ExchangeView::nothing_to_do(),
    {
        Exchange::nothing_to_do()
    }

    /// Takes up `exec`: nothing is asked of the shim.
    pub fn exec(&self) -> (step: (Exchange, Action))
        ensures
            (step.0@, step.1@) == ExchangeView::nothing_to_do(),
    {
        Exchange::nothing_to_do()
    }

    /// Takes up `features`: nothing is asked of the shim.
    pub fn features(&self) -> (step: (Exchange, Action))
        ensures
            (step.0@, step.1@) == ExchangeView::nothing_to_do(),
    {
        Exchange::nothing_to_do()
    }

    /// Takes up `list`: nothing is asked of the shim.
    pub fn list(&self) -> (step: (Exchange, Action))
        ensures
            (step.0@, step.1@) == ExchangeView::nothing_to_do(),
    {
        Exchange::nothing_to_do()
    }

    /// Takes up `pause`: nothing is asked of the shim.
    pub fn pause(&self) -> (step: (Exchange, Action))
        ensures
            (step.0@, step.1@) == ExchangeView::nothing_to_do(),
    {
        Exchange::nothing_to_do()
    }

    /// Takes up `ps`: nothing is asked of the shim.
    pub fn ps(&self) -> (step: (Exchange, Action))
        ensures
            (step.0@, step.1@) == ExchangeView::nothing_to_do(),
    {
        Exchange::nothing_to_do()
    }

    /// Takes up `resume`: nothing is asked of the shim.
    pub fn resume(&self) -> (step: (Exchange, Action))
        ensures
            (step.0@, step.1@) == ExchangeView::nothing_to_do(),
    {
        Exchange::nothing_to_do()
    }

    /// Takes up `run`: nothing is asked of the shim.
    pub fn run(&self) -> (step: (Exchange, Action))
        ensures
            (step.0@, step.1@) == ExchangeView::nothing_to_do(),
    {
        Exchange::nothing_to_do()
    }

    /// Takes up `update`: nothing is asked of the shim.
    pub fn update(&self) -> (step: (Exchange, Action))
        ensures
            (step.0@, step.1@) == ExchangeView::nothing_to_do(),
    {
        Exchange::nothing_to_do()
    }

    /// Takes up `spec`: nothing is asked of the shim.
    pub fn spec(&self) -> (step: (Exchange, Action))
        ensures
            (step.0@, step.1@) == ExchangeView::nothing_to_do(),
    {
        Exchange::nothing_to_do()
    }

    /// Takes up a command, whichever it is.
    pub fn command(&self, command: Command) -> (step: (Exchange, Action))
        ensures
            (step.0@, step.1@) == self.takes_up(command) || self.may_fail_to_pack(
                command,
                (step.0@, step.1@),
            ),
    {
        match command {
            Command::Create(args) => self.create(args),
            Command::Start(args) => self.start(args),
            Command::Kill(args) => self.kill(args),
            Command::Delete(args) => self.delete(args),
            Command::State(args) => self.state(args),
            Command::Checkpoint(args) => self.checkpoint(args),
            Command::Events => self.events(),
            Command::Exec => self.exec(),
            Command::Features => self.features(),
            Command::List => self.list(),
            Command::Pause => self.pause(),
            Command::Ps => self.ps(),
            Command::Resume => self.resume(),
            Command::Run => self.run(),
            Command::Update => self.update(),
            Command::Spec => self.spec(),
        }
    }
}

/// A `kill` whose signal is no number fails as a bad argument before
/// anything is done: the first answer is that failure, and the exchange is
/// over.
pub proof fn law_bad_signal_is_refused(backend: ShimV2Backend, args: Kill)
    requires
        signal_number(args.signal@) is None,
    ensures
        backend.takes_up_kill(args).1 == ActionView::Fail(
            AdapterErrorView::Signal { signal: args.signal@ },
        ),
        (AdapterErrorView::Signal { signal: args.signal@ }).kind() == ErrorKind::Argument,
        backend.takes_up_kill(args).0.stage == Stage::Closed,
{
}

/// After a `kill` whose signal is no number, whatever is reported, no
/// channel is ever asked for.
pub proof fn law_bad_signal_opens_no_channel(
    backend: ShimV2Backend,
    args: Kill,
    events: Seq<Event>,
    i: int,
)
    requires
        signal_number(args.signal@) is None,
        0 <= i < events.len(),
    ensures
        !(backend.takes_up_kill(args).0.actions(backend, events)[i] is OpenChannel),
{
    law_settled_stays_settled(backend.takes_up_kill(args).0, backend, events, i);
}

} // verus!
