use ociplex::backend::shimv2::ShimV2Backend;
use ociplex::command::GlobalOpts;
use ociplex::error::AdapterError;
use ociplex::error::ErrorKind;
use ociplex::error::InvalidPath;
use ociplex::error::LaunchFailure;
use ociplex::error::ProtocolFault;
use ociplex::exchange::Action;
use ociplex::exchange::Event;
use ociplex::exchange::Exchange;
use ociplex::exchange::Stage;
use ociplex::launch::LaunchPlan;
use ociplex::request::TaskRequest;

fn backend() -> ShimV2Backend {
    ShimV2Backend::new(
        b"/bin/true".to_vec(),
        b"/tmp/s.sock".to_vec(),
        b"/usr/bin/events".to_vec(),
        b"/run/{container-id}".to_vec(),
        false,
        GlobalOpts { debug: false },
    )
}

fn start() -> Result<TaskRequest, AdapterError> {
    Ok(TaskRequest::Start { id: "id1".to_string() })
}

fn open() -> Action {
    Action::OpenChannel { socket: "/tmp/s.sock".to_string() }
}

fn plan() -> LaunchPlan {
    LaunchPlan {
        directory: "/run/id1".to_string(),
        log: "log".to_string(),
        program: b"/bin/true".to_vec(),
        arguments: [
            "-namespace",
            "default",
            "-address",
            "/tmp/s.sock",
            "-id",
            "id1",
            "-publish-binary",
            "/usr/bin/events",
            "start",
        ]
        .iter()
        .map(|text| text.as_bytes().to_vec())
        .collect(),
    }
}

fn unexpected() -> Action {
    Action::Fail(AdapterError::Protocol(ProtocolFault::UnexpectedEvent))
}

fn run(backend: &ShimV2Backend, exchange: Exchange, events: &[Event]) -> (Exchange, Vec<Action>) {
    let mut exchange = exchange;
    let mut actions = Vec::new();
    for event in events {
        let (next, action) = exchange.advance(backend, *event);
        exchange = next;
        actions.push(action);
    }
    (exchange, actions)
}

fn all_events() -> Vec<Event> {
    vec![
        Event::ChannelOpened,
        Event::ChannelRefused,
        Event::DirectoryRefused,
        Event::LogRefused,
        Event::SpawnRefused,
        Event::ShimExited { code: Some(0), signal: None },
        Event::ShimExited { code: Some(1), signal: None },
        Event::ShimExited { code: None, signal: Some(9) },
        Event::HandshakeAccepted,
        Event::HandshakeRejected,
        Event::RequestAccepted,
        Event::RequestRejected,
    ]
}

fn at(stage: Stage) -> Exchange {
    Exchange { container_id: "id1".to_string(), request: Some(start()), stage }
}

#[test]
fn begin_asks_for_a_channel() {
    let (exchange, action) = Exchange::begin(&backend(), "id1".to_string(), start());
    assert_eq!(action, open());
    assert_eq!(exchange, at(Stage::Connecting));
}

#[test]
fn begin_rejects_a_socket_that_is_not_text() {
    let mut backend = backend();
    backend.socket = vec![b'/', 0xff];
    let (exchange, action) = Exchange::begin(&backend, "id1".to_string(), start());
    let error = AdapterError::ConfigPath(InvalidPath {
        kind: "socket".to_string(),
        path: vec![b'/', 0xff],
    });
    assert_eq!(error.kind(), ErrorKind::Config);
    assert_eq!(action, Action::Fail(error));
    assert_eq!(exchange.stage, Stage::Closed);
    assert_eq!(exchange.request, None);
}

#[test]
fn a_channel_at_the_first_attempt_goes_straight_to_the_request() {
    let backend = backend();
    let (exchange, _) = Exchange::begin(&backend, "id1".to_string(), start());
    let (exchange, actions) = run(
        &backend,
        exchange,
        &[Event::ChannelOpened, Event::HandshakeAccepted, Event::RequestAccepted],
    );
    assert_eq!(
        actions,
        vec![
            Action::Handshake { id: "id1".to_string() },
            Action::Request(TaskRequest::Start { id: "id1".to_string() }),
            Action::Finish,
        ]
    );
    assert_eq!(exchange.stage, Stage::Closed);
}

#[test]
fn a_channel_at_the_first_attempt_never_launches() {
    let backend = backend();
    for second in all_events() {
        for third in all_events() {
            for fourth in all_events() {
                let (exchange, _) = Exchange::begin(&backend, "id1".to_string(), start());
                let (_, actions) =
                    run(&backend, exchange, &[Event::ChannelOpened, second, third, fourth]);
                for action in actions {
                    assert!(!matches!(action, Action::Launch(_)));
                    assert!(!matches!(action, Action::OpenChannel { .. }));
                }
            }
        }
    }
}

#[test]
fn a_refused_channel_launches_the_shim() {
    let backend = backend();
    let (exchange, _) = Exchange::begin(&backend, "id1".to_string(), start());
    let (exchange, action) = exchange.advance(&backend, Event::ChannelRefused);
    assert_eq!(action, Action::Launch(plan()));
    assert_eq!(exchange, at(Stage::Launching));
}

#[test]
fn the_shim_is_launched_with_its_debug_flag_where_asked() {
    let mut backend = backend();
    backend.debug_shim = true;
    let (exchange, _) = Exchange::begin(&backend, "id1".to_string(), start());
    let (_, action) = exchange.advance(&backend, Event::ChannelRefused);
    let mut expected = plan();
    expected.arguments.insert(0, b"-debug".to_vec());
    assert_eq!(action, Action::Launch(expected));
}

#[test]
fn a_launch_needs_the_placeholder() {
    let mut backend = backend();
    backend.bundle_dir = b"/run/bundles".to_vec();
    let (exchange, _) = Exchange::begin(&backend, "id1".to_string(), start());
    let (exchange, action) = exchange.advance(&backend, Event::ChannelRefused);
    assert_eq!(action, Action::Fail(AdapterError::MissingPlaceholder));
    assert_eq!(exchange.stage, Stage::Closed);
}

#[test]
fn a_launch_needs_a_template_that_is_text() {
    let mut backend = backend();
    backend.bundle_dir = vec![0xff, b'{'];
    let (exchange, _) = Exchange::begin(&backend, "id1".to_string(), start());
    let (exchange, action) = exchange.advance(&backend, Event::ChannelRefused);
    assert_eq!(
        action,
        Action::Fail(AdapterError::ConfigPath(InvalidPath {
            kind: "bundle_dir".to_string(),
            path: vec![0xff, b'{'],
        }))
    );
    assert_eq!(exchange.stage, Stage::Closed);
}

#[test]
fn exit_code_zero_opens_the_channel_again() {
    let backend = backend();
    let (exchange, action) =
        at(Stage::Launching).advance(&backend, Event::ShimExited { code: Some(0), signal: None });
    assert_eq!(action, open());
    assert_eq!(exchange, at(Stage::Reconnecting));
}

#[test]
fn another_exit_code_fails_with_that_code() {
    let backend = backend();
    for code in [1, 2, 127, 255, -1] {
        let (exchange, action) = at(Stage::Launching)
            .advance(&backend, Event::ShimExited { code: Some(code), signal: None });
        let error = AdapterError::Launch {
            shim: b"/bin/true".to_vec(),
            failure: LaunchFailure::ExitCode(code),
        };
        assert_eq!(error.kind(), ErrorKind::ProcessLaunch);
        assert_eq!(action, Action::Fail(error));
        assert_eq!(exchange.stage, Stage::Closed);
    }
}

#[test]
fn a_signal_fails_with_that_signal() {
    let backend = backend();
    for signal in [1, 9, 11, 15] {
        let (exchange, action) = at(Stage::Launching)
            .advance(&backend, Event::ShimExited { code: None, signal: Some(signal) });
        assert_eq!(
            action,
            Action::Fail(AdapterError::Launch {
                shim: b"/bin/true".to_vec(),
                failure: LaunchFailure::Signal(signal),
            })
        );
        assert_eq!(exchange.stage, Stage::Closed);
    }
}

#[test]
fn an_exit_of_which_nothing_is_known_fails() {
    let (exchange, action) = at(Stage::Launching)
        .advance(&backend(), Event::ShimExited { code: None, signal: None });
    assert_eq!(
        action,
        Action::Fail(AdapterError::Launch {
            shim: b"/bin/true".to_vec(),
            failure: LaunchFailure::Unidentified,
        })
    );
    assert_eq!(exchange.stage, Stage::Closed);
}

#[test]
fn after_a_failed_launch_no_channel_is_opened() {
    let backend = backend();
    let exits = [
        Event::ShimExited { code: Some(1), signal: None },
        Event::ShimExited { code: None, signal: Some(9) },
        Event::ShimExited { code: None, signal: None },
        Event::DirectoryRefused,
        Event::LogRefused,
        Event::SpawnRefused,
    ];
    for exit in exits {
        for second in all_events() {
            for third in all_events() {
                let (_, actions) = run(&backend, at(Stage::Launching), &[exit, second, third]);
                for action in actions {
                    assert!(!matches!(action, Action::OpenChannel { .. }));
                    assert!(!matches!(action, Action::Launch(_)));
                }
            }
        }
    }
}

#[test]
fn a_launch_that_cannot_be_made_fails() {
    let backend = backend();
    let cases = [
        (Event::DirectoryRefused, LaunchFailure::Directory),
        (Event::LogRefused, LaunchFailure::Log),
        (Event::SpawnRefused, LaunchFailure::Spawn),
    ];
    for (event, failure) in cases {
        let (exchange, action) = at(Stage::Launching).advance(&backend, event);
        assert_eq!(
            action,
            Action::Fail(AdapterError::Launch { shim: b"/bin/true".to_vec(), failure })
        );
        assert_eq!(exchange.stage, Stage::Closed);
    }
}

#[test]
fn a_channel_after_the_launch_goes_on_to_the_handshake() {
    let (exchange, action) = at(Stage::Reconnecting).advance(&backend(), Event::ChannelOpened);
    assert_eq!(action, Action::Handshake { id: "id1".to_string() });
    assert_eq!(exchange, at(Stage::Handshaking));
}

#[test]
fn no_channel_after_the_launch_is_a_connection_error() {
    let (exchange, action) = at(Stage::Reconnecting).advance(&backend(), Event::ChannelRefused);
    let error = AdapterError::Connection { socket: "/tmp/s.sock".to_string() };
    assert_eq!(error.kind(), ErrorKind::Connection);
    assert_eq!(action, Action::Fail(error));
    assert_eq!(exchange.stage, Stage::Closed);
}

#[test]
fn a_rejected_handshake_is_a_protocol_error() {
    let (exchange, action) = at(Stage::Handshaking).advance(&backend(), Event::HandshakeRejected);
    let error = AdapterError::Protocol(ProtocolFault::HandshakeRejected);
    assert_eq!(error.kind(), ErrorKind::Protocol);
    assert_eq!(action, Action::Fail(error));
    assert_eq!(exchange.stage, Stage::Closed);
}

#[test]
fn a_rejected_request_is_a_protocol_error() {
    let backend = backend();
    let (exchange, _) = at(Stage::Handshaking).advance(&backend, Event::HandshakeAccepted);
    assert_eq!(exchange.stage, Stage::Requesting);
    let (exchange, action) = exchange.advance(&backend, Event::RequestRejected);
    assert_eq!(action, Action::Fail(AdapterError::Protocol(ProtocolFault::RequestRejected)));
    assert_eq!(exchange.stage, Stage::Closed);
}

#[test]
fn what_has_no_request_fails_after_the_handshake() {
    let backend = backend();
    let reason = AdapterError::ArgumentPath(InvalidPath {
        kind: "bundle".to_string(),
        path: vec![0xff],
    });
    let (exchange, action) = Exchange::begin(&backend, "id1".to_string(), Err(reason.clone()));
    assert_eq!(action, open());
    let (exchange, actions) =
        run(&backend, exchange, &[Event::ChannelOpened, Event::HandshakeAccepted]);
    assert_eq!(
        actions,
        vec![Action::Handshake { id: "id1".to_string() }, Action::Fail(reason)]
    );
    assert_eq!(exchange.stage, Stage::Closed);
}

#[test]
fn an_event_out_of_turn_ends_the_exchange() {
    let backend = backend();
    let stages = [
        (Stage::Connecting, vec![Event::ChannelOpened, Event::ChannelRefused]),
        (
            Stage::Launching,
            vec![
                Event::DirectoryRefused,
                Event::LogRefused,
                Event::SpawnRefused,
                Event::ShimExited { code: Some(0), signal: None },
                Event::ShimExited { code: Some(1), signal: None },
                Event::ShimExited { code: None, signal: Some(9) },
            ],
        ),
        (Stage::Reconnecting, vec![Event::ChannelOpened, Event::ChannelRefused]),
        (Stage::Handshaking, vec![Event::HandshakeAccepted, Event::HandshakeRejected]),
        (Stage::Requesting, vec![Event::RequestAccepted, Event::RequestRejected]),
        (Stage::Closed, vec![]),
    ];
    for (stage, in_turn) in stages {
        for event in all_events() {
            if !in_turn.contains(&event) {
                let (exchange, action) = at(stage).advance(&backend, event);
                assert_eq!(action, unexpected());
                assert_eq!(exchange.stage, Stage::Closed);
                assert_eq!(exchange.request, None);
            }
        }
    }
}

#[test]
fn a_request_only_follows_an_accepted_handshake() {
    let backend = backend();
    for first in all_events() {
        for second in all_events() {
            for third in all_events() {
                for fourth in all_events() {
                    let events = [first, second, third, fourth];
                    let (exchange, _) = Exchange::begin(&backend, "id1".to_string(), start());
                    let (_, actions) = run(&backend, exchange, &events);
                    for i in 0..actions.len() {
                        if let Action::Request(request) = &actions[i] {
                            assert!(i > 0);
                            assert_eq!(actions[i - 1], Action::Handshake { id: "id1".to_string() });
                            assert_eq!(events[i], Event::HandshakeAccepted);
                            assert_eq!(request, &TaskRequest::Start { id: "id1".to_string() });
                        }
                    }
                }
            }
        }
    }
}

#[test]
fn there_is_one_recovery_only() {
    let backend = backend();
    for first in all_events() {
        for second in all_events() {
            for third in all_events() {
                for fourth in all_events() {
                    let events = [first, second, third, fourth];
                    let (exchange, _) = Exchange::begin(&backend, "id1".to_string(), start());
                    let (_, actions) = run(&backend, exchange, &events);
                    for i in 0..actions.len() {
                        if matches!(actions[i], Action::Launch(_)) {
                            assert_eq!(i, 0);
                            assert_eq!(events[0], Event::ChannelRefused);
                        }
                        if matches!(actions[i], Action::OpenChannel { .. }) {
                            assert_eq!(i, 1);
                            assert_eq!(events[1], Event::ShimExited { code: Some(0), signal: None });
                        }
                    }
                }
            }
        }
    }
}

#[test]
fn refuse_is_over_at_once() {
    let (exchange, action) =
        Exchange::refuse("id1".to_string(), AdapterError::Signal { signal: "x".to_string() });
    assert_eq!(action, Action::Fail(AdapterError::Signal { signal: "x".to_string() }));
    assert_eq!(
        exchange,
        Exchange { container_id: "id1".to_string(), request: None, stage: Stage::Closed }
    );
}

#[test]
fn nothing_to_do_is_over_at_once() {
    let (exchange, action) = Exchange::nothing_to_do();
    assert_eq!(action, Action::Finish);
    assert_eq!(
        exchange,
        Exchange { container_id: String::new(), request: None, stage: Stage::Closed }
    );
}
