use ociplex::backend::shimv2;
use ociplex::backend::shimv2::ShimV2Backend;
use ociplex::backend::trivial;
use ociplex::backend::trivial::TrivialBackend;
use ociplex::backend::Backend;
use ociplex::command::Checkpoint;
use ociplex::command::Command;
use ociplex::command::Create;
use ociplex::command::Delete;
use ociplex::command::GlobalOpts;
use ociplex::command::Kill;
use ociplex::command::Start;
use ociplex::command::State;
use ociplex::error::AdapterError;
use ociplex::error::ErrorKind;
use ociplex::error::InvalidPath;
use ociplex::exchange::Action;
use ociplex::exchange::Event;
use ociplex::exchange::Exchange;
use ociplex::exchange::Stage;
use ociplex::launch::LaunchPlan;
use ociplex::request::TaskRequest;
use protobuf::well_known_types::struct_::value::Kind;
use protobuf::well_known_types::struct_::Struct;

fn config() -> shimv2::Config {
    shimv2::Config {
        shim: b"/bin/true".to_vec(),
        socket: b"/tmp/s.sock".to_vec(),
        events: b"/usr/bin/events".to_vec(),
        bundle_dir: b"/run/{container-id}".to_vec(),
        debug_shim: false,
    }
}

fn shim() -> ShimV2Backend {
    match config().instantiate(GlobalOpts { debug: false }) {
        Backend::ShimV2(backend) => backend,
        other => panic!("not the shim backend: {:?}", other),
    }
}

fn create(bundle: &[u8]) -> Create {
    Create {
        bundle: bundle.to_vec(),
        console_socket: None,
        pid_file: None,
        no_pivot: false,
        no_new_keyring: false,
        preserve_fds: 0,
        container_id: "id1".to_string(),
    }
}

fn checkpoint() -> Checkpoint {
    Checkpoint {
        image_path: b"/img".to_vec(),
        work_path: None,
        parent_path: None,
        leave_running: true,
        tcp_established: false,
        ext_unix_sk: false,
        shell_job: false,
        lazy_pages: false,
        status_fd: None,
        page_server: None,
        file_locks: false,
        pre_dump: false,
        manage_cgroups_mode: None,
        empty_ns: false,
        auto_dedup: false,
        container_id: "id1".to_string(),
    }
}

fn open() -> Action {
    Action::OpenChannel { socket: "/tmp/s.sock".to_string() }
}

fn all_events() -> Vec<Event> {
    vec![
        Event::ChannelOpened,
        Event::ChannelRefused,
        Event::DirectoryRefused,
        Event::LogRefused,
        Event::SpawnRefused,
        Event::ShimExited { code: Some(0), signal: None },
        Event::ShimExited { code: Some(1), signal: None },
        Event::ShimExited { code: None, signal: Some(9) },
        Event::HandshakeAccepted,
        Event::HandshakeRejected,
        Event::RequestAccepted,
        Event::RequestRejected,
    ]
}

#[test]
fn instantiate_keeps_the_configuration() {
    let backend = config().instantiate(GlobalOpts { debug: true });
    assert_eq!(
        backend,
        Backend::ShimV2(ShimV2Backend {
            shim: b"/bin/true".to_vec(),
            socket: b"/tmp/s.sock".to_vec(),
            events: b"/usr/bin/events".to_vec(),
            bundle_dir: b"/run/{container-id}".to_vec(),
            debug_shim: false,
            global_opts: GlobalOpts { debug: true },
        })
    );
}

#[test]
fn instantiate_of_the_trivial_backend() {
    let backend = trivial::Config {}.instantiate(GlobalOpts { debug: false });
    assert_eq!(backend, Backend::Trivial(TrivialBackend {}));
}

#[test]
fn create_with_no_shim_yet_launches_one_and_connects() {
    let backend = shim();
    let (exchange, action) = backend.create(create(b"/b"));
    assert_eq!(action, open());
    let (exchange, action) = exchange.advance(&backend, Event::ChannelRefused);
    assert_eq!(
        action,
        Action::Launch(LaunchPlan {
            directory: "/run/id1".to_string(),
            log: "log".to_string(),
            program: b"/bin/true".to_vec(),
            arguments: vec![
                b"-namespace".to_vec(),
                b"default".to_vec(),
                b"-address".to_vec(),
                b"/tmp/s.sock".to_vec(),
                b"-id".to_vec(),
                b"id1".to_vec(),
                b"-publish-binary".to_vec(),
                b"/usr/bin/events".to_vec(),
                b"start".to_vec(),
            ],
        })
    );
    let (exchange, action) =
        exchange.advance(&backend, Event::ShimExited { code: Some(0), signal: None });
    assert_eq!(action, open());
    let (exchange, action) = exchange.advance(&backend, Event::ChannelRefused);
    assert_eq!(
        action,
        Action::Fail(AdapterError::Connection { socket: "/tmp/s.sock".to_string() })
    );
    assert_eq!(exchange.stage, Stage::Closed);
}

#[test]
fn create_with_a_shim_that_comes_up_sends_the_request() {
    let backend = shim();
    let (mut exchange, mut action) = backend.create(create(b"/b"));
    let mut actions = vec![];
    for event in [
        Event::ChannelRefused,
        Event::ShimExited { code: Some(0), signal: None },
        Event::ChannelOpened,
        Event::HandshakeAccepted,
        Event::RequestAccepted,
    ] {
        actions.push(action);
        (exchange, action) = exchange.advance(&backend, event);
    }
    assert_eq!(action, Action::Finish);
    assert_eq!(actions.len(), 5);
    assert_eq!(actions[0], open());
    assert!(matches!(actions[1], Action::Launch(_)));
    assert_eq!(actions[2], open());
    assert_eq!(actions[3], Action::Handshake { id: "id1".to_string() });
    assert_eq!(
        actions[4],
        Action::Request(TaskRequest::Create { id: "id1".to_string(), bundle: "/b".to_string() })
    );
    assert_eq!(exchange.stage, Stage::Closed);
}

#[test]
fn create_with_a_bundle_that_is_not_text_fails_after_the_handshake() {
    let backend = shim();
    let (exchange, action) = backend.create(create(&[0xff]));
    assert_eq!(action, open());
    let (exchange, action) = exchange.advance(&backend, Event::ChannelOpened);
    assert_eq!(action, Action::Handshake { id: "id1".to_string() });
    let (exchange, action) = exchange.advance(&backend, Event::HandshakeAccepted);
    assert_eq!(
        action,
        Action::Fail(AdapterError::ArgumentPath(InvalidPath {
            kind: "bundle".to_string(),
            path: vec![0xff],
        }))
    );
    assert_eq!(exchange.stage, Stage::Closed);
}

#[test]
fn start_delete_and_state_send_the_id() {
    let backend = shim();
    let steps = [
        (
            backend.start(Start { container_id: "a".to_string() }),
            TaskRequest::Start { id: "a".to_string() },
        ),
        (
            backend.delete(Delete { container_id: "a".to_string() }),
            TaskRequest::Delete { id: "a".to_string() },
        ),
        (
            backend.state(State { container_id: "a".to_string() }),
            TaskRequest::State { id: "a".to_string() },
        ),
    ];
    for ((exchange, action), request) in steps {
        assert_eq!(action, open());
        assert_eq!(exchange.container_id, "a");
        let (exchange, action) = exchange.advance(&backend, Event::ChannelOpened);
        assert_eq!(action, Action::Handshake { id: "a".to_string() });
        let (_, action) = exchange.advance(&backend, Event::HandshakeAccepted);
        assert_eq!(action, Action::Request(request));
    }
}

#[test]
fn kill_sends_the_signal() {
    let backend = shim();
    let (exchange, action) = backend.kill(Kill {
        container_id: "id1".to_string(),
        signal: "9".to_string(),
        all: true,
    });
    assert_eq!(action, open());
    let (exchange, _) = exchange.advance(&backend, Event::ChannelOpened);
    let (_, action) = exchange.advance(&backend, Event::HandshakeAccepted);
    assert_eq!(
        action,
        Action::Request(TaskRequest::Kill { id: "id1".to_string(), signal: 9, all: true })
    );
}

#[test]
fn kill_with_a_signal_that_is_no_number_opens_no_channel() {
    let backend = shim();
    for signal in ["KILL", "", "-9", "9.0", "4294967296"] {
        let kill = Kill { container_id: "id1".to_string(), signal: signal.to_string(), all: false };
        let (exchange, action) = backend.kill(kill);
        let error = AdapterError::Signal { signal: signal.to_string() };
        assert_eq!(error.kind(), ErrorKind::Argument);
        assert_eq!(action, Action::Fail(error));
        assert_eq!(
            exchange,
            Exchange { container_id: "id1".to_string(), request: None, stage: Stage::Closed }
        );
        for event in all_events() {
            let (next, action) = Exchange {
                container_id: "id1".to_string(),
                request: None,
                stage: Stage::Closed,
            }
            .advance(&backend, event);
            assert!(!matches!(action, Action::OpenChannel { .. }));
            assert_eq!(next.stage, Stage::Closed);
        }
    }
}

#[test]
fn checkpoint_sends_the_image_path_and_the_options() {
    let backend = shim();
    let (exchange, action) = backend.checkpoint(checkpoint());
    assert_eq!(action, open());
    let (exchange, _) = exchange.advance(&backend, Event::ChannelOpened);
    let (_, action) = exchange.advance(&backend, Event::HandshakeAccepted);
    match action {
        Action::Request(TaskRequest::Checkpoint { id, path, options }) => {
            assert_eq!(id, "id1");
            assert_eq!(path, "/img");
            let unpacked: Struct = options.unpack().unwrap().unwrap();
            assert_eq!(unpacked.fields.len(), 1);
            assert_eq!(unpacked.fields["leave-running"].kind, Some(Kind::BoolValue(true)));
        }
        other => panic!("not a checkpoint: {:?}", other),
    }
}

#[test]
fn checkpoint_with_an_option_that_is_not_text_fails_after_the_handshake() {
    let backend = shim();
    let mut args = checkpoint();
    args.work_path = Some(vec![0xff]);
    let (exchange, action) = backend.checkpoint(args);
    assert_eq!(action, open());
    let (exchange, _) = exchange.advance(&backend, Event::ChannelOpened);
    let (_, action) = exchange.advance(&backend, Event::HandshakeAccepted);
    assert_eq!(
        action,
        Action::Fail(AdapterError::OptionPath(InvalidPath {
            kind: "work-path".to_string(),
            path: vec![0xff],
        }))
    );
}

#[test]
fn the_other_commands_succeed_at_once() {
    let backend = shim();
    let steps = [
        backend.events(),
        backend.exec(),
        backend.features(),
        backend.list(),
        backend.pause(),
        backend.ps(),
        backend.resume(),
        backend.run(),
        backend.update(),
        backend.spec(),
    ];
    for (exchange, action) in steps {
        assert_eq!(action, Action::Finish);
        assert_eq!(exchange.stage, Stage::Closed);
        assert_eq!(exchange.request, None);
    }
}

#[test]
fn command_hands_each_command_to_its_own() {
    let backend = Backend::ShimV2(shim());
    let (exchange, action) = backend.command(Command::Create(create(b"/b")));
    assert_eq!(action, open());
    assert_eq!(
        exchange.request,
        Some(Ok(TaskRequest::Create { id: "id1".to_string(), bundle: "/b".to_string() }))
    );
    let (exchange, action) =
        backend.command(Command::State(State { container_id: "s".to_string() }));
    assert_eq!(action, open());
    assert_eq!(exchange.request, Some(Ok(TaskRequest::State { id: "s".to_string() })));
    let (_, action) = backend.command(Command::Kill(Kill {
        container_id: "id1".to_string(),
        signal: "TERM".to_string(),
        all: false,
    }));
    assert_eq!(action, Action::Fail(AdapterError::Signal { signal: "TERM".to_string() }));
    for command in [
        Command::Events,
        Command::Exec,
        Command::Features,
        Command::List,
        Command::Pause,
        Command::Ps,
        Command::Resume,
        Command::Run,
        Command::Update,
        Command::Spec,
    ] {
        let (_, action) = backend.command(command);
        assert_eq!(action, Action::Finish);
    }
}

#[test]
fn the_trivial_backend_refuses_every_command() {
    let backend = Backend::Trivial(TrivialBackend {});
    let commands = [
        Command::Create(create(b"/b")),
        Command::Start(Start { container_id: "id1".to_string() }),
        Command::Kill(Kill { container_id: "id1".to_string(), signal: "9".to_string(), all: false }),
        Command::Delete(Delete { container_id: "id1".to_string() }),
        Command::State(State { container_id: "id1".to_string() }),
        Command::Checkpoint(checkpoint()),
        Command::Events,
        Command::Spec,
    ];
    for command in commands {
        let (exchange, action) = backend.command(command.clone());
        let error = AdapterError::Trivial(command);
        assert_eq!(error.kind(), ErrorKind::Trivial);
        assert_eq!(action, Action::Fail(error));
        assert_eq!(exchange.stage, Stage::Closed);
    }
}
