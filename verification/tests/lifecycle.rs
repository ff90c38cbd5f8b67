use coap::addr::PeerAddr;
use coap::server::{bind_target, CoAPServer, CoAPServerError, RunState, StartOutcome, DEFAULT_WORKER_NUM};

#[test]
fn stop_on_never_started_controller_is_noop() {
    let mut server = CoAPServer::new();
    assert_eq!(server.state, RunState::Idle);
    assert!(!server.stop());
    assert_eq!(server.state, RunState::Idle);
    assert!(!server.stop());
    assert_eq!(server.state, RunState::Idle);
}

#[test]
fn stop_after_completed_stop_is_noop() {
    let mut server = CoAPServer::new();
    assert!(server.handle().is_ok());
    assert!(server.handle_outcome(StartOutcome::Registered).is_ok());
    assert_eq!(server.state, RunState::Running);

    assert!(server.stop());
    assert_eq!(server.state, RunState::Stopping);
    server.stop_joined();
    assert_eq!(server.state, RunState::Idle);

    assert!(!server.stop());
    assert_eq!(server.state, RunState::Idle);
}

#[test]
fn second_start_yields_already_running() {
    let mut server = CoAPServer::new();
    assert_eq!(server.handle(), Ok(DEFAULT_WORKER_NUM));
    assert!(server.handle_outcome(StartOutcome::Registered).is_ok());

    let worker_num_before = server.worker_num;
    assert_eq!(
        server.handle(),
        Err(CoAPServerError::AnotherHandlerIsRunning)
    );
    assert_eq!(server.state, RunState::Running);
    assert_eq!(server.worker_num, worker_num_before);
}

#[test]
fn start_while_starting_yields_already_running() {
    let mut server = CoAPServer::new();
    assert!(server.handle().is_ok());
    assert_eq!(server.state, RunState::Starting);
    assert_eq!(
        server.handle(),
        Err(CoAPServerError::AnotherHandlerIsRunning)
    );
    assert_eq!(server.state, RunState::Starting);
}

#[test]
fn clone_failure_yields_network_error_and_idle() {
    let mut server = CoAPServer::new();
    assert!(server.handle().is_ok());
    assert_eq!(
        server.handle_outcome(StartOutcome::CloneFailed),
        Err(CoAPServerError::NetworkError)
    );
    assert_eq!(server.state, RunState::Idle);
}

#[test]
fn lost_readiness_signal_yields_event_loop_error_and_idle() {
    let mut server = CoAPServer::new();
    assert!(server.handle().is_ok());
    assert_eq!(
        server.handle_outcome(StartOutcome::ThreadGone),
        Err(CoAPServerError::EventLoopError)
    );
    assert_eq!(server.state, RunState::Idle);
}

#[test]
fn start_succeeds_only_on_registration() {
    let mut server = CoAPServer::new();
    assert!(server.handle().is_ok());
    assert_eq!(server.state, RunState::Starting);
    assert_eq!(server.handle_outcome(StartOutcome::Registered), Ok(()));
    assert_eq!(server.state, RunState::Running);
}

#[test]
fn worker_num_defaults_to_four_and_feeds_the_next_start() {
    let mut server = CoAPServer::new();
    assert_eq!(server.worker_num, 4);
    server.set_worker_num(9);
    assert_eq!(server.worker_num, 9);
    assert_eq!(server.handle(), Ok(9));
}

#[test]
fn restart_after_stop_is_accepted() {
    let mut server = CoAPServer::new();
    assert!(server.handle().is_ok());
    assert!(server.handle_outcome(StartOutcome::Registered).is_ok());
    assert!(server.stop());
    server.stop_joined();
    assert_eq!(server.handle(), Ok(DEFAULT_WORKER_NUM));
}

#[test]
fn bind_target_takes_the_first_candidate() {
    let first = PeerAddr::new(vec![127, 0, 0, 1], 5683);
    let second = PeerAddr::new(vec![10, 0, 0, 7], 8080);
    let picked = bind_target(vec![first, second]).unwrap();
    assert_eq!(picked.host, vec![127, 0, 0, 1]);
    assert_eq!(picked.port, 5683);
}

#[test]
fn bind_target_with_no_candidate_is_a_network_error() {
    let r = bind_target(Vec::new());
    assert!(matches!(r, Err(CoAPServerError::NetworkError)));
}
