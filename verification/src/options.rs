use protobuf::well_known_types::any::Any;
use protobuf::well_known_types::struct_::value::Kind;
use protobuf::well_known_types::struct_::Struct;
use protobuf::well_known_types::struct_::Value;
use vstd::prelude::*;

use crate::command::Checkpoint;
use crate::error::AdapterError;
use crate::error::AdapterErrorView;
use crate::error::InvalidPath;
use crate::error::InvalidPathView;
use crate::path::is_text;
use crate::path::path_buf_to_str;
use crate::path::text_of;

verus! {

/// What a checkpoint option holds.
pub enum FieldValue {
    Text(Seq<char>),
    Bool(bool),
    Number(u32),
}

/// The message of protobuf that takes the checkpoint options: a map from
/// names to loosely typed values.
#[verifier::external_type_specification]
#[verifier::external_body]
pub struct ExStruct(Struct);

/// The payload of protobuf that carries a message of any type.
#[verifier::external_type_specification]
#[verifier::external_body]
pub struct ExAny(Any);

/// The error of protobuf.
#[verifier::external_type_specification]
#[verifier::external_body]
pub struct ExProtobufError(protobuf::Error);

/// The fields of an options message: each name in it, with its value.
pub uninterp spec fn struct_fields(options: Struct) -> Map<Seq<char>, FieldValue>;

/// The fields of the options message that a payload carries.
pub uninterp spec fn packed_fields(payload: Any) -> Map<Seq<char>, FieldValue>;

/// The URL by which a payload names the type of the message that it
/// carries.
pub uninterp spec fn packed_type(payload: Any) -> Seq<char>;

/// The URL that names the type of an options message.
pub open spec fn options_type() -> Seq<char> {
    "type.googleapis.com/google.protobuf.Struct"@
}

/// No fields at all.
pub open spec fn no_fields() -> Map<Seq<char>, FieldValue> {
    Map::empty()
}

/// Calls `Struct::new`, which gives a message whose map of fields is
/// empty.
#[verifier::external_body]
fn new_options() -> (opts: Struct)
    ensures
        struct_fields(opts) == no_fields(),
{
    Struct::new()
}

/// Calls `HashMap::insert` on the map of fields of the message, with a
/// `Value` of the kind `StringValue` made of the text: the entry is added
/// under `kind`, or replaces the one of that name, and every other entry
/// stays.
#[verifier::external_body]
fn add_string_option(opts: &mut Struct, kind: &str, value: &str)
    ensures
        struct_fields(*final(opts)) == struct_fields(*old(opts)).insert(
            kind@,
            FieldValue::Text(value@),
        ),
{
    let value = Value { kind: Some(Kind::StringValue(value.to_string())), ..Default::default() };
    opts.fields.insert(kind.to_string(), value);
}

/// Calls `HashMap::insert` on the map of fields of the message, with a
/// `Value` of the kind `BoolValue`: the entry is added under `kind`, or
/// replaces the one of that name, and every other entry stays.
#[verifier::external_body]
fn add_bool_option(opts: &mut Struct, kind: &str, value: bool)
    ensures
        struct_fields(*final(opts)) == struct_fields(*old(opts)).insert(
            kind@,
            FieldValue::Bool(value),
        ),
{
    let value = Value { kind: Some(Kind::BoolValue(value)), ..Default::default() };
    opts.fields.insert(kind.to_string(), value);
}

/// Calls `HashMap::insert` on the map of fields of the message, with a
/// `Value` of the kind `NumberValue`: the entry is added under `kind`, or
/// replaces the one of that name, and every other entry stays. The message
/// holds numbers in double precision, which represents every unsigned
/// 32-bit number exactly.
#[verifier::external_body]
fn add_u32_option(opts: &mut Struct, kind: &str, value: u32)
    ensures
        struct_fields(*final(opts)) == struct_fields(*old(opts)).insert(
            kind@,
            FieldValue::Number(value),
        ),
{
    let value = Value { kind: Some(Kind::NumberValue(value.into())), ..Default::default() };
    opts.fields.insert(kind.to_string(), value);
}

/// Calls `Any::pack`, which serialises the message into a payload and
/// marks the payload with the URL of the message's type: the prefix
/// `type.googleapis.com`, a slash, and the full name of the message. The
/// call can fail; where it succeeds, the payload carries the fields of the
/// message.
#[verifier::external_body]
pub(crate) fn pack_options(opts: &Struct) -> (packed: Result<Any, protobuf::Error>)
    ensures
        packed matches Ok(payload) ==> packed_fields(payload) == struct_fields(*opts),
        packed matches Ok(payload) ==> packed_type(payload) == options_type(),
{
    Any::pack(opts)
}

/// Stores a path under `kind`, as text. A path that is not text is
/// rejected, and the message stays as it was.
fn add_path_option(opts: &mut Struct, kind: &str, path: &[u8]) -> (done: Result<(), InvalidPath>)
    ensures
        is_text(path@) ==> done is Ok && struct_fields(*final(opts)) == struct_fields(
            *old(opts),
        ).insert(kind@, FieldValue::Text(text_of(path@))),
        !is_text(path@) ==> done is Err && done->Err_0@.kind == kind@ && done->Err_0@.path
            == path@ && *final(opts) == *old(opts),
{
    match path_buf_to_str(kind, path) {
        Ok(text) => {
            add_string_option(opts, kind, text);
            Ok(())
        },
        Err(invalid) => Err(invalid),
    }
}

/// A path option as it is supplied: given, and read as text.
pub open spec fn path_option(path: Option<Vec<u8>>) -> Option<FieldValue> {
    match path {
        Some(p) => Some(FieldValue::Text(text_of(p@))),
        None => None,
    }
}

/// A flag as it is supplied: only when it is set.
pub open spec fn flag_option(flag: bool) -> Option<FieldValue> {
    if flag {
        Some(FieldValue::Bool(true))
    } else {
        None
    }
}

/// A number option as it is supplied.
pub open spec fn number_option(number: Option<u32>) -> Option<FieldValue> {
    match number {
        Some(n) => Some(FieldValue::Number(n)),
        None => None,
    }
}

/// A text option as it is supplied.
pub open spec fn text_option(text: Option<String>) -> Option<FieldValue> {
    match text {
        Some(t) => Some(FieldValue::Text(t@)),
        None => None,
    }
}

/// What the arguments of a checkpoint supply under an option's name:
/// nothing for an option that was not given, and nothing for any other
/// name.
pub open spec fn option_named(args: Checkpoint, name: Seq<char>) -> Option<FieldValue> {
    if name == "work-path"@ {
        path_option(args.work_path)
    } else if name == "parent-path"@ {
        path_option(args.parent_path)
    } else if name == "leave-running"@ {
        flag_option(args.leave_running)
    } else if name == "tcp-established"@ {
        flag_option(args.tcp_established)
    } else if name == "ext-unix-sk"@ {
        flag_option(args.ext_unix_sk)
    } else if name == "shell-job"@ {
        flag_option(args.shell_job)
    } else if name == "lazy-pages"@ {
        flag_option(args.lazy_pages)
    } else if name == "status-fd"@ {
        number_option(args.status_fd)
    } else if name == "page-server"@ {
        text_option(args.page_server)
    } else if name == "file-locks"@ {
        flag_option(args.file_locks)
    } else if name == "pre-dump"@ {
        flag_option(args.pre_dump)
    } else if name == "manage-cgroups-mode"@ {
        text_option(args.manage_cgroups_mode)
    } else if name == "empty-ns"@ {
        flag_option(args.empty_ns)
    } else if name == "auto-dedup"@ {
        flag_option(args.auto_dedup)
    } else {
        None
    }
}

/// The options that the arguments of a checkpoint supply: the names of
/// the options that were given, each with its value, and no other name.
pub open spec fn checkpoint_options(args: Checkpoint) -> Map<Seq<char>, FieldValue> {
    Map::new(
        |name: Seq<char>| option_named(args, name) is Some,
        |name: Seq<char>| option_named(args, name)->0,
    )
}

/// Whether every path among the options of a checkpoint is text.
pub open spec fn options_are_text(args: Checkpoint) -> bool {
    &&& args.work_path matches Some(p) ==> is_text(p@)
    &&& args.parent_path matches Some(p) ==> is_text(p@)
}

/// The path among the options of a checkpoint that is found not to be
/// text: the work path is looked at before the parent path.
pub open spec fn offending_option(args: Checkpoint) -> InvalidPathView
    recommends
        !options_are_text(args),
{
    if args.work_path is Some && !is_text(args.work_path->0@) {
        InvalidPathView { kind: "work-path"@, path: args.work_path->0@ }
    } else {
        InvalidPathView { kind: "parent-path"@, path: args.parent_path->0@ }
    }
}

/// The place of an option's name in the order in which the options are
/// encoded; fourteen for any other name.
spec fn place_of(name: Seq<char>) -> int {
    if name == "work-path"@ {
        0
    } else if name == "parent-path"@ {
        1
    } else if name == "leave-running"@ {
        2
    } else if name == "tcp-established"@ {
        3
    } else if name == "ext-unix-sk"@ {
        4
    } else if name == "shell-job"@ {
        5
    } else if name == "lazy-pages"@ {
        6
    } else if name == "status-fd"@ {
        7
    } else if name == "page-server"@ {
        8
    } else if name == "file-locks"@ {
        9
    } else if name == "pre-dump"@ {
        10
    } else if name == "manage-cgroups-mode"@ {
        11
    } else if name == "empty-ns"@ {
        12
    } else if name == "auto-dedup"@ {
        13
    } else {
        14
    }
}

/// The options that the arguments supply among the first `count` names.
spec fn options_so_far(args: Checkpoint, count: int) -> Map<Seq<char>, FieldValue> {
    Map::new(
        |name: Seq<char>| place_of(name) < count && option_named(args, name) is Some,
        |name: Seq<char>| option_named(args, name)->0,
    )
}

/// The names of the options differ from each other.
proof fn lemma_names_differ()
    ensures
        "work-path"@.len() == 9 && "work-path"@[1] == 'o',
        "parent-path"@.len() == 11 && "parent-path"@[2] == 'r',
        "leave-running"@.len() == 13,
        "tcp-established"@.len() == 15,
        "ext-unix-sk"@.len() == 11 && "ext-unix-sk"@[2] == 't',
        "shell-job"@.len() == 9 && "shell-job"@[1] == 'h',
        "lazy-pages"@.len() == 10 && "lazy-pages"@[0] == 'l',
        "status-fd"@.len() == 9 && "status-fd"@[1] == 't',
        "page-server"@.len() == 11 && "page-server"@[2] == 'g',
        "file-locks"@.len() == 10 && "file-locks"@[0] == 'f',
        "pre-dump"@.len() == 8 && "pre-dump"@[0] == 'p',
        "manage-cgroups-mode"@.len() == 19,
        "empty-ns"@.len() == 8 && "empty-ns"@[0] == 'e',
        "auto-dedup"@.len() == 10 && "auto-dedup"@[0] == 'a',
{
    reveal_strlit("work-path");
    reveal_strlit("parent-path");
    reveal_strlit("leave-running");
    reveal_strlit("tcp-established");
    reveal_strlit("ext-unix-sk");
    reveal_strlit("shell-job");
    reveal_strlit("lazy-pages");
    reveal_strlit("status-fd");
    reveal_strlit("page-server");
    reveal_strlit("file-locks");
    reveal_strlit("pre-dump");
    reveal_strlit("manage-cgroups-mode");
    reveal_strlit("empty-ns");
    reveal_strlit("auto-dedup");
}

/// Each name has its place in the order of encoding.
proof fn lemma_places()
    ensures
        place_of("work-path"@) == 0,
        place_of("parent-path"@) == 1,
        place_of("leave-running"@) == 2,
        place_of("tcp-established"@) == 3,
        place_of("ext-unix-sk"@) == 4,
        place_of("shell-job"@) == 5,
        place_of("lazy-pages"@) == 6,
        place_of("status-fd"@) == 7,
        place_of("page-server"@) == 8,
        place_of("file-locks"@) == 9,
        place_of("pre-dump"@) == 10,
        place_of("manage-cgroups-mode"@) == 11,
        place_of("empty-ns"@) == 12,
        place_of("auto-dedup"@) == 13,
{
    lemma_names_differ();
}

/// What is encoded can be read back. Under the name of each option the
/// encoded options hold what the arguments give for that option, and
/// nothing where the option was not given; under any other name they hold
/// nothing.
pub proof fn law_options_read_back(args: Checkpoint, name: Seq<char>)
    ensures
        checkpoint_options(args).contains_key(name) <==> option_named(args, name) is Some,
        checkpoint_options(args).contains_key(name) ==> checkpoint_options(args)[name]
            == option_named(args, name)->0,
        option_named(args, "work-path"@) == path_option(args.work_path),
        option_named(args, "parent-path"@) == path_option(args.parent_path),
        option_named(args, "leave-running"@) == flag_option(args.leave_running),
        option_named(args, "tcp-established"@) == flag_option(args.tcp_established),
        option_named(args, "ext-unix-sk"@) == flag_option(args.ext_unix_sk),
        option_named(args, "shell-job"@) == flag_option(args.shell_job),
        option_named(args, "lazy-pages"@) == flag_option(args.lazy_pages),
        option_named(args, "status-fd"@) == number_option(args.status_fd),
        option_named(args, "page-server"@) == text_option(args.page_server),
        option_named(args, "file-locks"@) == flag_option(args.file_locks),
        option_named(args, "pre-dump"@) == flag_option(args.pre_dump),
        option_named(args, "manage-cgroups-mode"@) == text_option(args.manage_cgroups_mode),
        option_named(args, "empty-ns"@) == flag_option(args.empty_ns),
        option_named(args, "auto-dedup"@) == flag_option(args.auto_dedup),
{
    lemma_names_differ();
}

/// Taking the next name into account adds its option, where one is
/// supplied, and changes nothing else.
proof fn lemma_next_option(
    args: Checkpoint,
    before: Map<Seq<char>, FieldValue>,
    after: Map<Seq<char>, FieldValue>,
    name: Seq<char>,
    count: int,
)
    requires
        before == options_so_far(args, count),
        0 <= count < 14,
        place_of(name) == count,
        after == match option_named(args, name) {
            Some(value) => before.insert(name, value),
            None => before,
        },
    ensures
        after == options_so_far(args, count + 1),
{
    assert forall|other: Seq<char>| place_of(other) == count implies other == name by {}
    assert(after =~= options_so_far(args, count + 1));
}

/// Encodes the options of a checkpoint as a message: one field for each
/// option that was given, under the option's name, and none for the others.
/// A path that is not text is rejected.
pub fn encode(args: &Checkpoint) -> (encoded: Result<Struct, AdapterError>)
    ensures
        options_are_text(*args) ==> encoded is Ok && struct_fields(encoded->Ok_0)
            == checkpoint_options(*args),
        !options_are_text(*args) ==> encoded is Err && encoded->Err_0@
            == AdapterErrorView::OptionPath(offending_option(*args)),
{
    let mut opts = new_options();
    let ghost mut before = struct_fields(opts);
    proof {
        lemma_places();
        law_options_read_back(*args, Seq::empty());
        assert(before =~= options_so_far(*args, 0));
    }
    if let Some(work_path) = &args.work_path {
        if let Err(invalid) = add_path_option(&mut opts, "work-path", work_path.as_slice()) {
            return Err(AdapterError::OptionPath(invalid));
        }
    }
    proof {
        lemma_next_option(*args, before, struct_fields(opts), "work-path"@, 0);
        before = struct_fields(opts);
    }
    if let Some(parent_path) = &args.parent_path {
        if let Err(invalid) = add_path_option(&mut opts, "parent-path", parent_path.as_slice()) {
            return Err(AdapterError::OptionPath(invalid));
        }
    }
    proof {
        lemma_next_option(*args, before, struct_fields(opts), "parent-path"@, 1);
        before = struct_fields(opts);
    }
    if args.leave_running {
        add_bool_option(&mut opts, "leave-running", args.leave_running);
    }
    proof {
        lemma_next_option(*args, before, struct_fields(opts), "leave-running"@, 2);
        before = struct_fields(opts);
    }
    if args.tcp_established {
        add_bool_option(&mut opts, "tcp-established", args.tcp_established);
    }
    proof {
        lemma_next_option(*args, before, struct_fields(opts), "tcp-established"@, 3);
        before = struct_fields(opts);
    }
    if args.ext_unix_sk {
        add_bool_option(&mut opts, "ext-unix-sk", args.ext_unix_sk);
    }
    proof {
        lemma_next_option(*args, before, struct_fields(opts), "ext-unix-sk"@, 4);
        before = struct_fields(opts);
    }
    if args.shell_job {
        add_bool_option(&mut opts, "shell-job", args.shell_job);
    }
    proof {
        lemma_next_option(*args, before, struct_fields(opts), "shell-job"@, 5);
        before = struct_fields(opts);
    }
    if args.lazy_pages {
        add_bool_option(&mut opts, "lazy-pages", args.lazy_pages);
    }
    proof {
        lemma_next_option(*args, before, struct_fields(opts), "lazy-pages"@, 6);
        before = struct_fields(opts);
    }
    if let Some(status_fd) = args.status_fd {
        add_u32_option(&mut opts, "status-fd", status_fd);
    }
    proof {
        lemma_next_option(*args, before, struct_fields(opts), "status-fd"@, 7);
        before = struct_fields(opts);
    }
    if let Some(page_server) = &args.page_server {
        add_string_option(&mut opts, "page-server", page_server.as_str());
    }
    proof {
        lemma_next_option(*args, before, struct_fields(opts), "page-server"@, 8);
        before = struct_fields(opts);
    }
    if args.file_locks {
        add_bool_option(&mut opts, "file-locks", args.file_locks);
    }
    proof {
        lemma_next_option(*args, before, struct_fields(opts), "file-locks"@, 9);
        before = struct_fields(opts);
    }
    if args.pre_dump {
        add_bool_option(&mut opts, "pre-dump", args.pre_dump);
    }
    proof {
        lemma_next_option(*args, before, struct_fields(opts), "pre-dump"@, 10);
        before = struct_fields(opts);
    }
    if let Some(manage_cgroups_mode) = &args.manage_cgroups_mode {
        add_string_option(&mut opts, "manage-cgroups-mode", manage_cgroups_mode.as_str());
    }
    proof {
        lemma_next_option(*args, before, struct_fields(opts), "manage-cgroups-mode"@, 11);
        before = struct_fields(opts);
    }
    if args.empty_ns {
        add_bool_option(&mut opts, "empty-ns", args.empty_ns);
    }
    proof {
        lemma_next_option(*args, before, struct_fields(opts), "empty-ns"@, 12);
        before = struct_fields(opts);
    }
    if args.auto_dedup {
        add_bool_option(&mut opts, "auto-dedup", args.auto_dedup);
    }
    proof {
        lemma_next_option(*args, before, struct_fields(opts), "auto-dedup"@, 13);
        assert(options_so_far(*args, 14) =~= checkpoint_options(*args));
    }
    Ok(opts)
}

} // verus!
