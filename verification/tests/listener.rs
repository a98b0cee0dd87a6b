use named_pipes::channel::PIPE_BUFFER_SIZE;
use named_pipes::error::IoError;
use named_pipes::error::IoErrorKind;
use named_pipes::handle::PipeHandle;
use named_pipes::listener::replacement_config;
use named_pipes::listener::AcceptAction;
use named_pipes::listener::AcceptEvent;
use named_pipes::listener::AcceptStep;
use named_pipes::NamedPipeListener;
use named_pipes::readiness::ReadyPoll;

fn bound_listener(path: &str, id: u64) -> NamedPipeListener {
    NamedPipeListener::bind(path.to_string(), Ok(PipeHandle { id })).unwrap()
}

#[test]
fn bind_starts_waiting_for_readiness() {
    let listener = bound_listener(r"\\.\pipe\test-bind", 1);
    assert_eq!(listener.raw_handle(), 1);
    assert_eq!(listener.path().as_str(), r"\\.\pipe\test-bind");
    assert!(matches!(listener.pending_action(), AcceptAction::PollReadReady));
}

#[test]
fn bind_error_passthrough() {
    let os_error = IoError { kind: IoErrorKind::PermissionDenied, code: 5 };
    match NamedPipeListener::bind(r"\\.\pipe\test-denied".to_string(), Err(os_error)) {
        Err(e) => {
            assert_eq!(e.kind, IoErrorKind::PermissionDenied);
            assert_eq!(e.code, 5);
        }
        Ok(l) => panic!("err={:?}", l),
    }
}

#[test]
fn from_pipe_starts_waiting_for_readiness() {
    let listener =
        NamedPipeListener::from_pipe(PipeHandle { id: 33 }, r"\\.\pipe\test-wrap".to_string());
    assert_eq!(listener.raw_handle(), 33);
    assert!(matches!(listener.pending_action(), AcceptAction::PollReadReady));
}

#[test]
fn accept_hands_off_connected_instance() {
    let mut listener = bound_listener(r"\\.\pipe\test-accept", 1);
    let step = listener.poll_accept(AcceptEvent::Readiness(ReadyPoll::Ready));
    assert!(matches!(step, AcceptStep::Pending(AcceptAction::Connect)));
    let step = listener.poll_accept(AcceptEvent::ConnectDone(Ok(())));
    assert!(matches!(step, AcceptStep::Pending(AcceptAction::CreateInstance)));
    let accepted = match listener.poll_accept(AcceptEvent::InstanceDone(Ok(PipeHandle { id: 2 })))
    {
        AcceptStep::Accepted(stream) => stream,
        e => panic!("err={:?}", e),
    };
    // The caller gets the instance that was connected; the listener's live
    // handle is the fresh replacement, and the two never alias.
    assert_eq!(accepted.raw_handle(), 1);
    assert_eq!(listener.raw_handle(), 2);
    assert_ne!(accepted.raw_handle(), listener.raw_handle());
    assert_eq!(accepted.path().as_str(), r"\\.\pipe\test-accept");
}

#[test]
fn accept_then_immediate_poll_is_not_ready() {
    let mut listener = bound_listener(r"\\.\pipe\test-again", 1);
    listener.poll_accept(AcceptEvent::Readiness(ReadyPoll::Ready));
    listener.poll_accept(AcceptEvent::ConnectDone(Ok(())));
    let step = listener.poll_accept(AcceptEvent::InstanceDone(Ok(PipeHandle { id: 2 })));
    assert!(matches!(step, AcceptStep::Accepted(_)));
    // Before any new client connects the fresh instance is not read-ready:
    // the next poll suspends instead of yielding something stale.
    assert!(matches!(listener.pending_action(), AcceptAction::PollReadReady));
    let step = listener.poll_accept(AcceptEvent::Readiness(ReadyPoll::NotReady));
    assert!(matches!(step, AcceptStep::NotReady));
}

#[test]
fn would_block_clears_flag_and_suspends() {
    let mut listener = bound_listener(r"\\.\pipe\test-spurious", 1);
    let step = listener.poll_accept(AcceptEvent::Readiness(ReadyPoll::Ready));
    assert!(matches!(step, AcceptStep::Pending(AcceptAction::Connect)));
    // No client actually connected: the benign would-block condition leads
    // to a cleared readiness flag and a suspension, never to an error.
    let would_block = IoError { kind: IoErrorKind::WouldBlock, code: 997 };
    let step = listener.poll_accept(AcceptEvent::ConnectDone(Err(would_block)));
    assert!(matches!(step, AcceptStep::Pending(AcceptAction::ClearReadReady)));
    let step = listener.poll_accept(AcceptEvent::ClearDone(Ok(())));
    assert!(matches!(step, AcceptStep::NotReady));
    // Re-armed: the next accept starts from scratch.
    assert!(matches!(listener.pending_action(), AcceptAction::PollReadReady));
    assert_eq!(listener.raw_handle(), 1);
}

#[test]
fn real_connect_error_is_surfaced() {
    let mut listener = bound_listener(r"\\.\pipe\test-broken", 1);
    listener.poll_accept(AcceptEvent::Readiness(ReadyPoll::Ready));
    let os_error = IoError { kind: IoErrorKind::BrokenPipe, code: 109 };
    match listener.poll_accept(AcceptEvent::ConnectDone(Err(os_error))) {
        AcceptStep::Failed(e) => {
            assert_eq!(e.kind, IoErrorKind::BrokenPipe);
            assert_eq!(e.code, 109);
        }
        s => panic!("err={:?}", s),
    }
    assert!(matches!(listener.pending_action(), AcceptAction::PollReadReady));
}

#[test]
fn readiness_error_is_surfaced() {
    let mut listener = bound_listener(r"\\.\pipe\test-readiness", 1);
    let os_error = IoError { kind: IoErrorKind::Other, code: 6 };
    match listener.poll_accept(AcceptEvent::Readiness(ReadyPoll::Failed(os_error))) {
        AcceptStep::Failed(e) => assert_eq!(e.code, 6),
        s => panic!("err={:?}", s),
    }
}

#[test]
fn clear_error_is_surfaced() {
    let mut listener = bound_listener(r"\\.\pipe\test-clear", 1);
    listener.poll_accept(AcceptEvent::Readiness(ReadyPoll::Ready));
    let would_block = IoError { kind: IoErrorKind::WouldBlock, code: 997 };
    listener.poll_accept(AcceptEvent::ConnectDone(Err(would_block)));
    let os_error = IoError { kind: IoErrorKind::Other, code: 1168 };
    match listener.poll_accept(AcceptEvent::ClearDone(Err(os_error))) {
        AcceptStep::Failed(e) => assert_eq!(e.code, 1168),
        s => panic!("err={:?}", s),
    }
}

#[test]
fn replacement_error_keeps_live_handle() {
    let mut listener = bound_listener(r"\\.\pipe\test-exhausted", 1);
    listener.poll_accept(AcceptEvent::Readiness(ReadyPoll::Ready));
    listener.poll_accept(AcceptEvent::ConnectDone(Ok(())));
    let os_error = IoError { kind: IoErrorKind::Other, code: 1450 };
    match listener.poll_accept(AcceptEvent::InstanceDone(Err(os_error))) {
        AcceptStep::Failed(e) => assert_eq!(e.code, 1450),
        s => panic!("err={:?}", s),
    }
    assert_eq!(listener.raw_handle(), 1);
}

#[test]
fn replacement_config_is_fixed_policy() {
    let config = replacement_config();
    assert!(!config.first);
    assert!(config.inbound);
    assert!(config.outbound);
    assert_eq!(config.in_buffer_size, 65536);
    assert_eq!(config.out_buffer_size, 65536);
    assert_eq!(config.in_buffer_size, PIPE_BUFFER_SIZE);
}
