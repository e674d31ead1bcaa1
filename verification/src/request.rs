use protobuf::well_known_types::any::Any;
use vstd::prelude::*;
use vstd::string::*;

use crate::command::Checkpoint;
use crate::command::Create;
use crate::command::Delete;
use crate::command::Kill;
use crate::command::Start;
use crate::command::State;
use crate::error::AdapterError;
use crate::error::AdapterErrorView;
use crate::error::InvalidPathView;
use crate::options::checkpoint_options;
use crate::options::encode;
use crate::options::offending_option;
use crate::options::options_are_text;
use crate::options::pack_options;
use crate::options::options_type;
use crate::options::packed_fields;
use crate::options::packed_type;
use crate::options::FieldValue;
use crate::path::is_text;
use crate::path::path_buf_to_str;
use crate::path::text_of;
use crate::signal::parse_signal;
use crate::signal::signal_number;

verus! {

/// A request to the task service of the shim, for one container.
#[derive(Debug, PartialEq)]
pub enum TaskRequest {
    Create { id: String, bundle: String },
    Start { id: String },
    Kill { id: String, signal: u32, all: bool },
    Delete { id: String },
    State { id: String },
    Checkpoint { id: String, path: String, options: Any },
}

/// The mathematical content of a [`TaskRequest`]. Of the payload of a
/// checkpoint it holds the options that the payload carries.
pub enum TaskRequestView {
    Create { id: Seq<char>, bundle: Seq<char> },
    Start { id: Seq<char> },
    Kill { id: Seq<char>, signal: u32, all: bool },
    Delete { id: Seq<char> },
    State { id: Seq<char> },
    Checkpoint {
        id: Seq<char>,
        path: Seq<char>,
        payload_type: Seq<char>,
        options: Map<Seq<char>, FieldValue>,
    },
}

impl View for TaskRequest {
    type V = TaskRequestView;

    open spec fn view(&self) -> TaskRequestView {
        match self {
            TaskRequest::Create { id, bundle } => TaskRequestView::Create {
                id: id@,
                bundle: bundle@,
            },
            TaskRequest::Start { id } => TaskRequestView::Start { id: id@ },
            TaskRequest::Kill { id, signal, all } => TaskRequestView::Kill {
                id: id@,
                signal: *signal,
                all: *all,
            },
            TaskRequest::Delete { id } => TaskRequestView::Delete { id: id@ },
            TaskRequest::State { id } => TaskRequestView::State { id: id@ },
            TaskRequest::Checkpoint { id, path, options } => TaskRequestView::Checkpoint {
                id: id@,
                path: path@,
                payload_type: packed_type(*options),
                options: packed_fields(*options),
            },
        }
    }
}

impl TaskRequestView {
    /// The container that a request is about.
    pub open spec fn id(self) -> Seq<char> {
        match self {
            TaskRequestView::Create { id, .. } => id,
            TaskRequestView::Start { id } => id,
            TaskRequestView::Kill { id, .. } => id,
            TaskRequestView::Delete { id } => id,
            TaskRequestView::State { id } => id,
            TaskRequestView::Checkpoint { id, .. } => id,
        }
    }
}

/// The request that `create` stands for: the container id and the bundle
/// directory as text. A bundle directory that is not text is rejected.
pub open spec fn create_request_of(args: Create) -> Result<TaskRequestView, AdapterErrorView> {
    if is_text(args.bundle@) {
        Ok(TaskRequestView::Create { id: args.container_id@, bundle: text_of(args.bundle@) })
    } else {
        Err(
            AdapterErrorView::ArgumentPath(
                InvalidPathView { kind: "bundle"@, path: args.bundle@ },
            ),
        )
    }
}

/// The request that `kill` stands for: the container id, the signal as a
/// number, and whether all processes get it. A signal that is no unsigned
/// 32-bit number is rejected.
pub open spec fn kill_request_of(args: Kill) -> Result<TaskRequestView, AdapterErrorView> {
    match signal_number(args.signal@) {
        Some(signal) => Ok(
            TaskRequestView::Kill { id: args.container_id@, signal: signal, all: args.all },
        ),
        None => Err(AdapterErrorView::Signal { signal: args.signal@ }),
    }
}

/// The request that `checkpoint` stands for, where the options can be
/// packed: the container id, the image path as text, and a payload that
/// is marked as an options message and carries the options that were
/// given. An image path that is not text is
/// rejected first, then a path among the options that is not text.
pub open spec fn checkpoint_request_of(args: Checkpoint) -> Result<
    TaskRequestView,
    AdapterErrorView,
> {
    if !is_text(args.image_path@) {
        Err(
            AdapterErrorView::ArgumentPath(
                InvalidPathView { kind: "image_path"@, path: args.image_path@ },
            ),
        )
    } else if !options_are_text(args) {
        Err(AdapterErrorView::OptionPath(offending_option(args)))
    } else {
        Ok(
            TaskRequestView::Checkpoint {
                id: args.container_id@,
                path: text_of(args.image_path@),
                payload_type: options_type(),
                options: checkpoint_options(args),
            },
        )
    }
}

/// The view of a request or of the error in its place.
pub open spec fn outcome_view(outcome: Result<TaskRequest, AdapterError>) -> Result<
    TaskRequestView,
    AdapterErrorView,
> {
    match outcome {
        Ok(request) => Ok(request@),
        Err(error) => Err(error@),
    }
}

/// Makes the request that `create` stands for.
pub fn create_request(args: Create) -> (request: Result<TaskRequest, AdapterError>)
    ensures
        outcome_view(request) == create_request_of(args),
{
    match path_buf_to_str("bundle", args.bundle.as_slice()) {
        Ok(bundle) => Ok(TaskRequest::Create { id: args.container_id, bundle: bundle.to_owned() }),
        Err(invalid) => Err(AdapterError::ArgumentPath(invalid)),
    }
}

/// Makes the request that `start` stands for.
pub fn start_request(args: Start) -> (request: TaskRequest)
    ensures
        request@ == (TaskRequestView::Start { id: args.container_id@ }),
{
    TaskRequest::Start { id: args.container_id }
}

/// Makes the request that `kill` stands for.
pub fn kill_request(args: Kill) -> (request: Result<TaskRequest, AdapterError>)
    ensures
        outcome_view(request) == kill_request_of(args),
{
    match parse_signal(args.signal.as_str()) {
        Some(signal) => Ok(TaskRequest::Kill { id: args.container_id, signal, all: args.all }),
        None => Err(AdapterError::Signal { signal: args.signal }),
    }
}

/// Makes the request that `delete` stands for.
pub fn delete_request(args: Delete) -> (request: TaskRequest)
    ensures
        request@ == (TaskRequestView::Delete { id: args.container_id@ }),
{
    TaskRequest::Delete { id: args.container_id }
}

/// Makes the request that `state` stands for.
pub fn state_request(args: State) -> (request: TaskRequest)
    ensures
        request@ == (TaskRequestView::State { id: args.container_id@ }),
{
    TaskRequest::State { id: args.container_id }
}

/// Makes the request of a checkpoint from the container id, the image path
/// and what came of packing the options: the request that carries the
/// payload, or the failure to pack.
pub fn checkpoint_request(id: String, path: String, packed: Result<Any, protobuf::Error>) -> (request:
    Result<TaskRequest, AdapterError>)
    ensures
        packed is Ok ==> request is Ok && request->Ok_0 == (TaskRequest::Checkpoint {
            id: id,
            path: path,
            options: packed->Ok_0,
        }),
        packed is Err ==> request is Err && request->Err_0 == AdapterError::Payload,
{
    match packed {
        Ok(options) => Ok(TaskRequest::Checkpoint { id, path, options }),
        Err(_) => Err(AdapterError::Payload),
    }
}

/// Makes the request that `checkpoint` stands for. Packing the options is left
/// to protobuf, and can fail: the result is then the failure to pack. In
/// every other case it is the request, or the rejection, that the arguments
/// stand for.
pub fn checkpoint(args: Checkpoint) -> (request: Result<TaskRequest, AdapterError>)
    ensures
        checkpoint_request_of(args) is Err ==> outcome_view(request) == checkpoint_request_of(
            args,
        ),
        checkpoint_request_of(args) is Ok ==> outcome_view(request) == checkpoint_request_of(args)
            || outcome_view(request) == Err::<TaskRequestView, AdapterErrorView>(
            AdapterErrorView::Payload,
        ),
{
    let path = match path_buf_to_str("image_path", args.image_path.as_slice()) {
        Ok(text) => text.to_owned(),
        Err(invalid) => {
            return Err(AdapterError::ArgumentPath(invalid));
        },
    };
    let opts = match encode(&args) {
        Ok(opts) => opts,
        Err(error) => {
            return Err(error);
        },
    };
    let packed = pack_options(&opts);
    checkpoint_request(args.container_id, path, packed)
}

} // verus!
