use vstd::prelude::*;

verus! {

/// The options shared by all commands, as far as the adapter reads them.
#[derive(Debug, Clone, Copy, PartialEq, Eq, Structural)]
pub struct GlobalOpts {
    /// Whether the exchange with the shim is to be reported as it goes.
    pub debug: bool,
}

/// The arguments of `create`.
#[derive(Debug, Clone, PartialEq, Eq)]
pub struct Create {
    /// The bundle directory of the container.
    pub bundle: Vec<u8>,
    /// A socket that would receive the console.
    pub console_socket: Option<Vec<u8>>,
    /// A file that would receive the process id.
    pub pid_file: Option<Vec<u8>>,
    pub no_pivot: bool,
    pub no_new_keyring: bool,
    /// How many further file descriptors would be kept open.
    pub preserve_fds: i32,
    pub container_id: String,
}

/// An option of `create` that is taken and reported, and has no effect.
#[derive(Debug, Clone, Copy, PartialEq, Eq, Structural)]
pub enum Ignored {
    ConsoleSocket,
    PidFile,
    NoPivot,
    NoNewKeyring,
    PreserveFds,
}

/// One thing, or nothing.
pub open spec fn only_if(present: bool, option: Ignored) -> Seq<Ignored> {
    if present {
        seq![option]
    } else {
        Seq::empty()
    }
}

impl Create {
    /// The options among the arguments that have no effect, in the order in
    /// which they are reported.
    pub open spec fn ignored(self) -> Seq<Ignored> {
        only_if(self.console_socket is Some, Ignored::ConsoleSocket) + only_if(
            self.pid_file is Some,
            Ignored::PidFile,
        ) + only_if(self.no_pivot, Ignored::NoPivot) + only_if(
            self.no_new_keyring,
            Ignored::NoNewKeyring,
        ) + only_if(self.preserve_fds > 0, Ignored::PreserveFds)
    }

    /// Lists the options among the arguments that have no effect, for the
    /// caller to report.
    pub fn ignored_options(&self) -> (ignored: Vec<Ignored>)
        ensures
            ignored@ == self.ignored(),
    {
        let mut ignored: Vec<Ignored> = Vec::new();
        if self.console_socket.is_some() {
            ignored.push(Ignored::ConsoleSocket);
        }
        if self.pid_file.is_some() {
            ignored.push(Ignored::PidFile);
        }
        if self.no_pivot {
            ignored.push(Ignored::NoPivot);
        }
        if self.no_new_keyring {
            ignored.push(Ignored::NoNewKeyring);
        }
        if self.preserve_fds > 0 {
            ignored.push(Ignored::PreserveFds);
        }
        assert(ignored@ =~= self.ignored());
        ignored
    }
}

/// The arguments of `start`.
#[derive(Debug, Clone, PartialEq, Eq)]
pub struct Start {
    pub container_id: String,
}

/// The arguments of `kill`.
#[derive(Debug, Clone, PartialEq, Eq)]
pub struct Kill {
    pub container_id: String,
    /// The signal, as it was written on the command line.
    pub signal: String,
    /// Whether every process of the container gets the signal.
    pub all: bool,
}

/// The arguments of `delete`.
#[derive(Debug, Clone, PartialEq, Eq)]
pub struct Delete {
    pub container_id: String,
}

/// The arguments of `state`.
#[derive(Debug, Clone, PartialEq, Eq)]
pub struct State {
    pub container_id: String,
}

/// The arguments of `checkpoint`. An option that is `None` or `false` was
/// not given, and is left to the shim's own default.
#[derive(Debug, Clone, PartialEq, Eq)]
pub struct Checkpoint {
    /// Where the image files are saved.
    pub image_path: Vec<u8>,
    pub work_path: Option<Vec<u8>>,
    pub parent_path: Option<Vec<u8>>,
    pub leave_running: bool,
    pub tcp_established: bool,
    pub ext_unix_sk: bool,
    pub shell_job: bool,
    pub lazy_pages: bool,
    pub status_fd: Option<u32>,
    pub page_server: Option<String>,
    pub file_locks: bool,
    pub pre_dump: bool,
    pub manage_cgroups_mode: Option<String>,
    pub empty_ns: bool,
    pub auto_dedup: bool,
    pub container_id: String,
}

/// A command of the runtime, with the arguments that the adapter reads.
#[derive(Debug, Clone, PartialEq, Eq)]
pub enum Command {
    Create(Create),
    Start(Start),
    Kill(Kill),
    Delete(Delete),
    State(State),
    Checkpoint(Checkpoint),
    Events,
    Exec,
    Features,
    List,
    Pause,
    Ps,
    Resume,
    Run,
    Update,
    Spec,
}

} // verus!
