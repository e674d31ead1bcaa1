use vstd::prelude::*;
use vstd::slice::slice_to_vec;
use vstd::string::*;
use vstd::utf8::encode_utf8;

use crate::error::LaunchFailure;

verus! {

/// How the shim is to be started.
#[derive(Debug, Clone, PartialEq, Eq)]
pub struct LaunchPlan {
    /// The bundle directory, which the shim is started in.
    pub directory: String,
    /// The name of the file, in that directory, that takes the shim's
    /// output. It is created, or emptied, before the shim starts.
    pub log: String,
    /// The shim executable.
    pub program: Vec<u8>,
    /// The arguments that the shim is given.
    pub arguments: Vec<Vec<u8>>,
}

/// The mathematical content of a [`LaunchPlan`].
pub struct LaunchPlanView {
    pub directory: Seq<char>,
    pub log: Seq<char>,
    pub program: Seq<u8>,
    pub arguments: Seq<Seq<u8>>,
}

/// The bytes of each argument in a row of arguments.
pub open spec fn each_in_bytes(arguments: Seq<Vec<u8>>) -> Seq<Seq<u8>> {
    Seq::new(arguments.len(), |i: int| arguments[i]@)
}

impl View for LaunchPlan {
    type V = LaunchPlanView;

    open spec fn view(&self) -> LaunchPlanView {
        LaunchPlanView {
            directory: self.directory@,
            log: self.log@,
            program: self.program@,
            arguments: each_in_bytes(self.arguments@),
        }
    }
}

/// The arguments that the shim is started with: the debug flag where it is
/// asked for, the namespace `default`, the address of the socket, the
/// container id, the program that publishes events, and the action `start`.
pub open spec fn shim_arguments(
    debug: bool,
    socket: Seq<u8>,
    container_id: Seq<char>,
    events: Seq<u8>,
) -> Seq<Seq<u8>> {
    let flag = if debug {
        seq![encode_utf8("-debug"@)]
    } else {
        Seq::empty()
    };
    flag + seq![
        encode_utf8("-namespace"@),
        encode_utf8("default"@),
        encode_utf8("-address"@),
        socket,
        encode_utf8("-id"@),
        encode_utf8(container_id),
        encode_utf8("-publish-binary"@),
        events,
        encode_utf8("start"@),
    ]
}

/// Builds the arguments that the shim is started with.
pub fn build_arguments(debug: bool, socket: &[u8], container_id: &str, events: &[u8]) -> (arguments:
    Vec<Vec<u8>>)
    ensures
        each_in_bytes(arguments@) == shim_arguments(debug, socket@, container_id@, events@),
{
    let mut arguments: Vec<Vec<u8>> = Vec::new();
    if debug {
        arguments.push("-debug".as_bytes_vec());
    }
    arguments.push("-namespace".as_bytes_vec());
    arguments.push("default".as_bytes_vec());
    arguments.push("-address".as_bytes_vec());
    arguments.push(slice_to_vec(socket));
    arguments.push("-id".as_bytes_vec());
    arguments.push(container_id.as_bytes_vec());
    arguments.push("-publish-binary".as_bytes_vec());
    arguments.push(slice_to_vec(events));
    arguments.push("start".as_bytes_vec());
    assert(each_in_bytes(arguments@) =~= shim_arguments(debug, socket@, container_id@, events@));
    arguments
}

/// What became of the shim once it had been started.
#[derive(Debug, Clone, Copy, PartialEq, Eq, Structural)]
pub enum ShimProcessOutcome {
    /// The shim exited with code zero: it is up, and can be connected to.
    Started,
    /// The shim exited with this code, which is not zero.
    ExitedWithCode(i32),
    /// The shim was ended by this signal.
    TerminatedBySignal(i32),
    /// The shim ended, and neither an exit code nor a signal is known.
    Indeterminate,
}

/// What an exit status says of the shim. An exit code of zero is success.
/// Short of that, a signal is reported where there is one, else the exit
/// code where there is one.
pub open spec fn outcome_of(code: Option<i32>, signal: Option<i32>) -> ShimProcessOutcome {
    if code == Some(0i32) {
        ShimProcessOutcome::Started
    } else if signal is Some {
        ShimProcessOutcome::TerminatedBySignal(signal->0)
    } else if code is Some {
        ShimProcessOutcome::ExitedWithCode(code->0)
    } else {
        ShimProcessOutcome::Indeterminate
    }
}

/// Reads the exit status of the shim.
pub fn classify(code: Option<i32>, signal: Option<i32>) -> (outcome: ShimProcessOutcome)
    ensures
        outcome == outcome_of(code, signal),
{
    match (code, signal) {
        (Some(0), _) => ShimProcessOutcome::Started,
        (_, Some(sig)) => ShimProcessOutcome::TerminatedBySignal(sig),
        (Some(code), None) => ShimProcessOutcome::ExitedWithCode(code),
        (None, None) => ShimProcessOutcome::Indeterminate,
    }
}

impl ShimProcessOutcome {
    /// The failure that an outcome amounts to; none where the shim is up.
    pub open spec fn failure(self) -> Option<LaunchFailure> {
        match self {
            ShimProcessOutcome::Started => None,
            ShimProcessOutcome::ExitedWithCode(code) => Some(LaunchFailure::ExitCode(code)),
            ShimProcessOutcome::TerminatedBySignal(signal) => Some(LaunchFailure::Signal(signal)),
            ShimProcessOutcome::Indeterminate => Some(LaunchFailure::Unidentified),
        }
    }

    /// The failure that this outcome amounts to; none where the shim is up.
    pub fn to_failure(&self) -> (failure: Option<LaunchFailure>)
        ensures
            failure == self.failure(),
    {
        match self {
            ShimProcessOutcome::Started => None,
            ShimProcessOutcome::ExitedWithCode(code) => Some(LaunchFailure::ExitCode(*code)),
            ShimProcessOutcome::TerminatedBySignal(signal) => Some(LaunchFailure::Signal(*signal)),
            ShimProcessOutcome::Indeterminate => Some(LaunchFailure::Unidentified),
        }
    }
}

} // verus!
