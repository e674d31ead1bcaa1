use vstd::prelude::*;
use vstd::slice::slice_to_vec;
use vstd::string::*;

use crate::backend::shimv2::ShimV2Backend;
use crate::error::AdapterError;
use crate::error::AdapterErrorView;
use crate::error::InvalidPathView;
use crate::error::LaunchFailure;
use crate::error::ProtocolFault;
use crate::launch::build_arguments;
use crate::launch::classify;
use crate::launch::outcome_of;
use crate::launch::shim_arguments;
use crate::launch::LaunchPlan;
use crate::launch::LaunchPlanView;
use crate::path::is_text;
use crate::path::path_buf_to_str;
use crate::path::text_of;
use crate::request::outcome_view;
use crate::request::TaskRequest;
use crate::request::TaskRequestView;
use crate::template::occurs;
use crate::template::placeholder;
use crate::template::resolve;
use crate::template::substitute;

verus! {

/// How far the exchange with the shim has come.
#[derive(Debug, Clone, Copy, PartialEq, Eq, Structural)]
pub enum Stage {
    /// A channel is being opened, for the first time.
    Connecting,
    /// The shim is being launched.
    Launching,
    /// A channel is being opened again, after the launch.
    Reconnecting,
    /// The handshake is under way.
    Handshaking,
    /// The request is under way.
    Requesting,
    /// The exchange is over.
    Closed,
}

/// What the caller reports once it has carried out an action.
#[derive(Debug, Clone, Copy, PartialEq, Eq)]
pub enum Event {
    /// The channel is open.
    ChannelOpened,
    /// No channel could be opened.
    ChannelRefused,
    /// The bundle directory could not be entered.
    DirectoryRefused,
    /// The log file could not be created.
    LogRefused,
    /// The shim could not be started.
    SpawnRefused,
    /// The shim ran and ended, with this exit code or by this signal.
    ShimExited { code: Option<i32>, signal: Option<i32> },
    /// The shim answered the handshake.
    HandshakeAccepted,
    /// The shim rejected the handshake, or its answer could not be read.
    HandshakeRejected,
    /// The shim answered the request.
    RequestAccepted,
    /// The shim rejected the request, or its answer could not be read.
    RequestRejected,
}

/// What the caller is asked to do next.
#[derive(Debug, PartialEq)]
pub enum Action {
    /// Open a channel at this socket.
    OpenChannel { socket: String },
    /// Enter the bundle directory, create the log file, start the shim and
    /// wait for it to end.
    Launch(LaunchPlan),
    /// Make the handshake for this container.
    Handshake { id: String },
    /// Send this request.
    Request(TaskRequest),
    /// Nothing: the command has succeeded.
    Finish,
    /// Nothing: the command has failed.
    Fail(AdapterError),
}

/// The mathematical content of an [`Action`].
pub enum ActionView {
    OpenChannel { socket: Seq<char> },
    Launch(LaunchPlanView),
    Handshake { id: Seq<char> },
    Request(TaskRequestView),
    Finish,
    Fail(AdapterErrorView),
}

impl View for Action {
    type V = ActionView;

    open spec fn view(&self) -> ActionView {
        match self {
            Action::OpenChannel { socket } => ActionView::OpenChannel { socket: socket@ },
            Action::Launch(plan) => ActionView::Launch(plan@),
            Action::Handshake { id } => ActionView::Handshake { id: id@ },
            Action::Request(request) => ActionView::Request(request@),
            Action::Finish => ActionView::Finish,
            Action::Fail(error) => ActionView::Fail(error@),
        }
    }
}

/// The exchange of one command with the shim of one container.
#[derive(Debug, PartialEq)]
pub struct Exchange {
    /// The container that the command is about.
    pub container_id: String,
    /// What is sent once the handshake is made: the request, or the reason
    /// why there is none. Nothing once it has been handed out.
    pub request: Option<Result<TaskRequest, AdapterError>>,
    pub stage: Stage,
}

/// The mathematical content of an [`Exchange`].
pub struct ExchangeView {
    pub container_id: Seq<char>,
    pub request: Option<Result<TaskRequestView, AdapterErrorView>>,
    pub stage: Stage,
}

impl View for Exchange {
    type V = ExchangeView;

    open spec fn view(&self) -> ExchangeView {
        ExchangeView {
            container_id: self.container_id@,
            request: match self.request {
                Some(outcome) => Some(outcome_view(outcome)),
                None => None,
            },
            stage: self.stage,
        }
    }
}

impl ExchangeView {
    /// The exchange at another stage.
    pub open spec fn at(self, stage: Stage) -> ExchangeView {
        ExchangeView { stage: stage, ..self }
    }

    /// The exchange, over, with nothing left to send.
    pub open spec fn closed(self) -> ExchangeView {
        ExchangeView { stage: Stage::Closed, request: None, ..self }
    }

    /// The exchange ends with this error.
    pub open spec fn fail(self, error: AdapterErrorView) -> (ExchangeView, ActionView) {
        (self.closed(), ActionView::Fail(error))
    }

    /// The exchange ends because an event came out of turn.
    pub open spec fn out_of_turn(self) -> (ExchangeView, ActionView) {
        self.fail(AdapterErrorView::Protocol(ProtocolFault::UnexpectedEvent))
    }

    /// A channel is to be opened, and the exchange goes to `stage`. A
    /// socket whose path is not text ends the exchange.
    pub open spec fn open_channel(self, backend: ShimV2Backend, stage: Stage) -> (
        ExchangeView,
        ActionView,
    ) {
        if is_text(backend.socket@) {
            (self.at(stage), ActionView::OpenChannel { socket: text_of(backend.socket@) })
        } else {
            self.fail(
                AdapterErrorView::ConfigPath(
                    InvalidPathView { kind: "socket"@, path: backend.socket@ },
                ),
            )
        }
    }

    /// The handshake is to be made.
    pub open spec fn handshake(self) -> (ExchangeView, ActionView) {
        (self.at(Stage::Handshaking), ActionView::Handshake { id: self.container_id })
    }

    /// The shim is to be launched in the bundle directory of the
    /// container. A template that is not text, or that lacks the
    /// placeholder, ends the exchange.
    pub open spec fn launch(self, backend: ShimV2Backend) -> (ExchangeView, ActionView) {
        if !is_text(backend.bundle_dir@) {
            self.fail(
                AdapterErrorView::ConfigPath(
                    InvalidPathView { kind: "bundle_dir"@, path: backend.bundle_dir@ },
                ),
            )
        } else if !occurs(text_of(backend.bundle_dir@), placeholder()) {
            self.fail(AdapterErrorView::MissingPlaceholder)
        } else {
            (
                self.at(Stage::Launching),
                ActionView::Launch(
                    LaunchPlanView {
                        directory: substitute(
                            text_of(backend.bundle_dir@),
                            placeholder(),
                            self.container_id,
                        ),
                        log: "log"@,
                        program: backend.shim@,
                        arguments: shim_arguments(
                            backend.debug_shim,
                            backend.socket@,
                            self.container_id,
                            backend.events@,
                        ),
                    },
                ),
            )
        }
    }

    /// The launch has failed.
    pub open spec fn launch_failed(self, backend: ShimV2Backend, failure: LaunchFailure) -> (
        ExchangeView,
        ActionView,
    ) {
        self.fail(AdapterErrorView::Launch { shim: backend.shim@, failure: failure })
    }

    /// The request is to be sent, or the exchange ends with the reason why
    /// there is none.
    pub open spec fn send(self) -> (ExchangeView, ActionView) {
        match self.request {
            Some(Ok(request)) => (
                ExchangeView { stage: Stage::Requesting, request: None, ..self },
                ActionView::Request(request),
            ),
            Some(Err(error)) => self.fail(error),
            None => self.out_of_turn(),
        }
    }

    /// What follows an event: the exchange as it then stands, and what the
    /// caller is to do.
    pub open spec fn next(self, backend: ShimV2Backend, event: Event) -> (
        ExchangeView,
        ActionView,
    ) {
        match self.stage {
            Stage::Connecting => match event {
                Event::ChannelOpened => self.handshake(),
                Event::ChannelRefused => self.launch(backend),
                _ => self.out_of_turn(),
            },
            Stage::Launching => match event {
                Event::DirectoryRefused => self.launch_failed(backend, LaunchFailure::Directory),
                Event::LogRefused => self.launch_failed(backend, LaunchFailure::Log),
                Event::SpawnRefused => self.launch_failed(backend, LaunchFailure::Spawn),
                Event::ShimExited { code, signal } => match outcome_of(code, signal).failure() {
                    None => self.open_channel(backend, Stage::Reconnecting),
                    Some(failure) => self.launch_failed(backend, failure),
                },
                _ => self.out_of_turn(),
            },
            Stage::Reconnecting => match event {
                Event::ChannelOpened => self.handshake(),
                Event::ChannelRefused => if is_text(backend.socket@) {
                    self.fail(AdapterErrorView::Connection { socket: text_of(backend.socket@) })
                } else {
                    self.fail(
                        AdapterErrorView::ConfigPath(
                            InvalidPathView { kind: "socket"@, path: backend.socket@ },
                        ),
                    )
                },
                _ => self.out_of_turn(),
            },
            Stage::Handshaking => match event {
                Event::HandshakeAccepted => self.send(),
                Event::HandshakeRejected => self.fail(
                    AdapterErrorView::Protocol(ProtocolFault::HandshakeRejected),
                ),
                _ => self.out_of_turn(),
            },
            Stage::Requesting => match event {
                Event::RequestAccepted => (self.closed(), ActionView::Finish),
                Event::RequestRejected => self.fail(
                    AdapterErrorView::Protocol(ProtocolFault::RequestRejected),
                ),
                _ => self.out_of_turn(),
            },
            Stage::Closed => self.out_of_turn(),
        }
    }

    /// A command that comes to nothing before anything is done: the
    /// exchange is over from the start.
    pub open spec fn refuse(container_id: Seq<char>, error: AdapterErrorView) -> (
        ExchangeView,
        ActionView,
    ) {
        (
            ExchangeView { container_id: container_id, request: None, stage: Stage::Closed },
            ActionView::Fail(error),
        )
    }

    /// A command that asks nothing of the shim: the exchange is over from
    /// the start, and the command has succeeded.
    pub open spec fn nothing_to_do() -> (ExchangeView, ActionView) {
        (
            ExchangeView { container_id: Seq::empty(), request: None, stage: Stage::Closed },
            ActionView::Finish,
        )
    }

    /// How an exchange begins: a channel is to be opened.
    pub open spec fn begin(
        backend: ShimV2Backend,
        container_id: Seq<char>,
        request: Result<TaskRequestView, AdapterErrorView>,
    ) -> (ExchangeView, ActionView) {
        ExchangeView {
            container_id: container_id,
            request: Some(request),
            stage: Stage::Closed,
        }.open_channel(backend, Stage::Connecting)
    }
}

impl Exchange {
    /// The exchange, over, with this error for the caller.
    fn fail(self, error: AdapterError) -> (step: (Exchange, Action))
        ensures
            (step.0@, step.1@) == self@.fail(error@),
    {
        (
            Exchange { container_id: self.container_id, request: None, stage: Stage::Closed },
            Action::Fail(error),
        )
    }

    /// The exchange, over, because an event came out of turn.
    fn out_of_turn(self) -> (step: (Exchange, Action))
        ensures
            (step.0@, step.1@) == self@.out_of_turn(),
    {
        self.fail(AdapterError::Protocol(ProtocolFault::UnexpectedEvent))
    }

    /// Asks for a channel, and goes to `stage`.
    fn open_channel(self, backend: &ShimV2Backend, stage: Stage) -> (step: (Exchange, Action))
        ensures
            (step.0@, step.1@) == self@.open_channel(*backend, stage),
    {
        match path_buf_to_str("socket", backend.socket.as_slice()) {
            Ok(socket) => (
                Exchange { container_id: self.container_id, request: self.request, stage },
                Action::OpenChannel { socket: socket.to_owned() },
            ),
            Err(invalid) => self.fail(AdapterError::ConfigPath(invalid)),
        }
    }

    /// Asks for the handshake.
    fn handshake(self) -> (step: (Exchange, Action))
        ensures
            (step.0@, step.1@) == self@.handshake(),
    {
        let id = self.container_id.clone();
        (
            Exchange {
                container_id: self.container_id,
                request: self.request,
                stage: Stage::Handshaking,
            },
            Action::Handshake { id },
        )
    }

    /// Asks for the launch of the shim.
    fn launch(self, backend: &ShimV2Backend) -> (step: (Exchange, Action))
        ensures
            (step.0@, step.1@) == self@.launch(*backend),
    {
        let template = match path_buf_to_str("bundle_dir", backend.bundle_dir.as_slice()) {
            Ok(template) => template,
            Err(invalid) => {
                return self.fail(AdapterError::ConfigPath(invalid));
            },
        };
        let directory = match resolve(template, self.container_id.as_str()) {
            Ok(directory) => directory,
            Err(error) => {
                return self.fail(error);
            },
        };
        let plan = LaunchPlan {
            directory,
            log: "log".to_owned(),
            program: slice_to_vec(backend.shim.as_slice()),
            arguments: build_arguments(
                backend.debug_shim,
                backend.socket.as_slice(),
                self.container_id.as_str(),
                backend.events.as_slice(),
            ),
        };
        (
            Exchange {
                container_id: self.container_id,
                request: self.request,
                stage: Stage::Launching,
            },
            Action::Launch(plan),
        )
    }

    /// Ends the exchange because the launch has failed.
    fn launch_failed(self, backend: &ShimV2Backend, failure: LaunchFailure) -> (step: (
        Exchange,
        Action,
    ))
        ensures
            (step.0@, step.1@) == self@.launch_failed(*backend, failure),
    {
        let shim = slice_to_vec(backend.shim.as_slice());
        self.fail(AdapterError::Launch { shim, failure })
    }

    /// Hands out the request, or ends the exchange with the reason why
    /// there is none.
    fn send(self) -> (step: (Exchange, Action))
        ensures
            (step.0@, step.1@) == self@.send(),
    {
        match self.request {
            Some(Ok(request)) => (
                Exchange {
                    container_id: self.container_id,
                    request: None,
                    stage: Stage::Requesting,
                },
                Action::Request(request),
            ),
            Some(Err(error)) => (
                Exchange { container_id: self.container_id, request: None, stage: Stage::Closed },
                Action::Fail(error),
            ),
            None => (
                Exchange { container_id: self.container_id, request: None, stage: Stage::Closed },
                Action::Fail(AdapterError::Protocol(ProtocolFault::UnexpectedEvent)),
            ),
        }
    }

    /// Ends a command before anything is done.
    pub fn refuse(container_id: String, error: AdapterError) -> (step: (Exchange, Action))
        ensures
            (step.0@, step.1@) == ExchangeView::refuse(container_id@, error@),
    {
        (Exchange { container_id, request: None, stage: Stage::Closed }, Action::Fail(error))
    }

    /// Answers a command that asks nothing of the shim.
    pub fn nothing_to_do() -> (step: (Exchange, Action))
        ensures
            (step.0@, step.1@) == ExchangeView::nothing_to_do(),
    {
        (
            Exchange { container_id: String::new(), request: None, stage: Stage::Closed },
            Action::Finish,
        )
    }

    /// Begins the exchange of a command with the shim of a container: the
    /// first thing to do is to open a channel. `request` is what will be
    /// sent once the handshake is made, or the reason why there is nothing
    /// to send, which then ends the exchange at that point.
    pub fn begin(
        backend: &ShimV2Backend,
        container_id: String,
        request: Result<TaskRequest, AdapterError>,
    ) -> (step: (Exchange, Action))
        ensures
            (step.0@, step.1@) == ExchangeView::begin(
                *backend,
                container_id@,
                outcome_view(request),
            ),
    {
        let exchange = Exchange { container_id, request: Some(request), stage: Stage::Closed };
        exchange.open_channel(backend, Stage::Connecting)
    }

    /// Takes the event that the caller reports of the last action, and
    /// says what is to be done next.
    pub fn advance(self, backend: &ShimV2Backend, event: Event) -> (step: (Exchange, Action))
        ensures
            (step.0@, step.1@) == self@.next(*backend, event),
    {
        match self.stage {
            Stage::Connecting => match event {
                Event::ChannelOpened => self.handshake(),
                Event::ChannelRefused => self.launch(backend),
                _ => self.out_of_turn(),
            },
            Stage::Launching => match event {
                Event::DirectoryRefused => self.launch_failed(backend, LaunchFailure::Directory),
                Event::LogRefused => self.launch_failed(backend, LaunchFailure::Log),
                Event::SpawnRefused => self.launch_failed(backend, LaunchFailure::Spawn),
                Event::ShimExited { code, signal } => match classify(code, signal).to_failure() {
                    None => self.open_channel(backend, Stage::Reconnecting),
                    Some(failure) => self.launch_failed(backend, failure),
                },
                _ => self.out_of_turn(),
            },
            Stage::Reconnecting => match event {
                Event::ChannelOpened => self.handshake(),
                Event::ChannelRefused => match path_buf_to_str(
                    "socket",
                    backend.socket.as_slice(),
                ) {
                    Ok(socket) => {
                        let socket = socket.to_owned();
                        self.fail(AdapterError::Connection { socket })
                    },
                    Err(invalid) => self.fail(AdapterError::ConfigPath(invalid)),
                },
                _ => self.out_of_turn(),
            },
            Stage::Handshaking => match event {
                Event::HandshakeAccepted => self.send(),
                Event::HandshakeRejected => self.fail(
                    AdapterError::Protocol(ProtocolFault::HandshakeRejected),
                ),
                _ => self.out_of_turn(),
            },
            Stage::Requesting => match event {
                Event::RequestAccepted => (
                    Exchange {
                        container_id: self.container_id,
                        request: None,
                        stage: Stage::Closed,
                    },
                    Action::Finish,
                ),
                Event::RequestRejected => self.fail(
                    AdapterError::Protocol(ProtocolFault::RequestRejected),
                ),
                _ => self.out_of_turn(),
            },
            Stage::Closed => self.out_of_turn(),
        }
    }
}

impl ExchangeView {
    /// What the caller is asked to do in answer to each of a row of events,
    /// reported one after the other.
    pub open spec fn actions(self, backend: ShimV2Backend, events: Seq<Event>) -> Seq<ActionView>
        decreases events.len(),
    {
        if events.len() == 0 {
            Seq::empty()
        } else {
            let step = self.next(backend, events[0]);
            seq![step.1] + step.0.actions(backend, events.drop_first())
        }
    }

    /// Whether the exchange is past the launch of the shim: it waits for
    /// the channel that follows a launch, has its channel, or is over.
    pub open spec fn settled(self) -> bool {
        self.stage != Stage::Connecting && self.stage != Stage::Launching
    }
}

/// There is one answer to each event.
pub proof fn lemma_one_action_each(x: ExchangeView, backend: ShimV2Backend, events: Seq<Event>)
    ensures
        x.actions(backend, events).len() == events.len(),
    decreases events.len(),
{
    if events.len() > 0 {
        lemma_one_action_each(x.next(backend, events[0]).0, backend, events.drop_first());
    }
}

/// Once an exchange is past the launch of the shim, whatever is reported,
/// no channel is asked for any more and no shim is launched.
pub proof fn law_settled_stays_settled(
    x: ExchangeView,
    backend: ShimV2Backend,
    events: Seq<Event>,
    i: int,
)
    requires
        x.settled(),
        0 <= i < events.len(),
    ensures
        !(x.actions(backend, events)[i] is OpenChannel),
        !(x.actions(backend, events)[i] is Launch),
    decreases events.len(),
{
    let step = x.next(backend, events[0]);
    if i > 0 {
        lemma_one_action_each(step.0, backend, events.drop_first());
        law_settled_stays_settled(step.0, backend, events.drop_first(), i - 1);
    }
}

/// Where the channel opens at the first attempt, the shim is never
/// launched, whatever is reported afterwards.
pub proof fn law_open_channel_spares_launch(
    x: ExchangeView,
    backend: ShimV2Backend,
    events: Seq<Event>,
    i: int,
)
    requires
        x.stage == Stage::Connecting,
        0 <= i < events.len(),
        events[0] == Event::ChannelOpened,
    ensures
        !(x.actions(backend, events)[i] is Launch),
{
    let step = x.next(backend, events[0]);
    if i > 0 {
        lemma_one_action_each(step.0, backend, events.drop_first());
        law_settled_stays_settled(step.0, backend, events.drop_first(), i - 1);
    }
}

/// The exit of the shim decides what follows the launch. After an exit
/// with code zero a channel is asked for at the socket. After any other
/// exit the command fails, and the error names the shim and holds the
/// signal, or else the exit code.
pub proof fn law_exit_decides(
    x: ExchangeView,
    backend: ShimV2Backend,
    code: Option<i32>,
    signal: Option<i32>,
)
    requires
        x.stage == Stage::Launching,
    ensures
        code == Some(0i32) && is_text(backend.socket@) ==> x.next(
            backend,
            Event::ShimExited { code, signal },
        ).1 == (ActionView::OpenChannel { socket: text_of(backend.socket@) }),
        code != Some(0i32) ==> x.next(backend, Event::ShimExited { code, signal }).1
            == ActionView::Fail(
            AdapterErrorView::Launch {
                shim: backend.shim@,
                failure: if signal is Some {
                    LaunchFailure::Signal(signal->0)
                } else if code is Some {
                    LaunchFailure::ExitCode(code->0)
                } else {
                    LaunchFailure::Unidentified
                },
            },
        ),
{
}

/// After a launch that did not end with code zero, whatever is reported,
/// no channel is asked for any more.
pub proof fn law_failed_launch_opens_no_channel(
    x: ExchangeView,
    backend: ShimV2Backend,
    code: Option<i32>,
    signal: Option<i32>,
    later: Seq<Event>,
    i: int,
)
    requires
        x.stage == Stage::Launching,
        code != Some(0i32),
        0 <= i < later.len(),
    ensures
        !(x.next(backend, Event::ShimExited { code, signal }).0.actions(backend, later)[i]
            is OpenChannel),
{
    let step = x.next(backend, Event::ShimExited { code, signal });
    law_settled_stays_settled(step.0, backend, later, i);
}

/// A request is only ever sent in answer to an accepted handshake, and it
/// is the request that the exchange held.
proof fn lemma_request_follows_handshake(
    x: ExchangeView,
    backend: ShimV2Backend,
    events: Seq<Event>,
    i: int,
)
    requires
        0 <= i < events.len(),
        x.actions(backend, events)[i] is Request,
    ensures
        events[i] == Event::HandshakeAccepted,
        x.request == Some(
            Ok::<TaskRequestView, AdapterErrorView>(x.actions(backend, events)[i]->Request_0),
        ),
        i == 0 ==> x.stage == Stage::Handshaking,
        i > 0 ==> x.actions(backend, events)[i - 1] == (ActionView::Handshake {
            id: x.container_id,
        }),
    decreases events.len(),
{
    let step = x.next(backend, events[0]);
    let rest = events.drop_first();
    if i > 0 {
        lemma_one_action_each(step.0, backend, rest);
        lemma_request_follows_handshake(step.0, backend, rest, i - 1);
        if i > 1 {
            assert(x.actions(backend, events)[i - 1] == step.0.actions(backend, rest)[i - 2]);
        }
    }
}

/// The handshake comes first. In an exchange that begins by opening a
/// channel, whatever is reported, a request is sent only in answer to an
/// accepted handshake for the container of the exchange, which was the
/// action just before; and it is the request that the exchange began with.
pub proof fn law_handshake_precedes_request(
    x: ExchangeView,
    backend: ShimV2Backend,
    events: Seq<Event>,
    i: int,
)
    requires
        x.stage == Stage::Connecting,
        0 <= i < events.len(),
        x.actions(backend, events)[i] is Request,
    ensures
        i > 0,
        x.actions(backend, events)[i - 1] == (ActionView::Handshake { id: x.container_id }),
        events[i] == Event::HandshakeAccepted,
        x.request == Some(
            Ok::<TaskRequestView, AdapterErrorView>(x.actions(backend, events)[i]->Request_0),
        ),
{
    lemma_request_follows_handshake(x, backend, events, i);
}

/// There is one recovery, and one only. In an exchange that begins by
/// opening a channel, whatever is reported, the shim is launched only in
/// answer to the first report, and only where that report is that no
/// channel could be opened; and a channel is asked for again only in answer
/// to the second report, and only where that report is that the launched
/// shim exited with code zero.
pub proof fn law_single_recovery(
    x: ExchangeView,
    backend: ShimV2Backend,
    events: Seq<Event>,
    i: int,
)
    requires
        x.stage == Stage::Connecting,
        0 <= i < events.len(),
    ensures
        x.actions(backend, events)[i] is Launch ==> i == 0 && events[0] == Event::ChannelRefused,
        x.actions(backend, events)[i] is OpenChannel ==> i == 1 && events[0]
            == Event::ChannelRefused && events[1] is ShimExited && events[1]->ShimExited_code
            == Some(0i32),
{
    let first = x.next(backend, events[0]);
    let rest = events.drop_first();
    if i > 0 {
        lemma_one_action_each(first.0, backend, rest);
        if first.0.settled() {
            law_settled_stays_settled(first.0, backend, rest, i - 1);
        } else {
            assert(first.0.stage == Stage::Launching);
            assert(events[0] == Event::ChannelRefused);
            let second = first.0.next(backend, rest[0]);
            assert(second.0.settled());
            if i > 1 {
                lemma_one_action_each(second.0, backend, rest.drop_first());
                law_settled_stays_settled(second.0, backend, rest.drop_first(), i - 2);
            }
        }
    }
}

} // verus!
