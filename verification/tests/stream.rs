use named_pipes::channel::PipeChannel;
use named_pipes::error::IoError;
use named_pipes::error::IoErrorKind;
use named_pipes::handle::PipeHandle;
use named_pipes::listener::AcceptAction;
use named_pipes::listener::AcceptEvent;
use named_pipes::listener::AcceptStep;
use named_pipes::readiness::ReadyPoll;
use named_pipes::stream::ConnectPoll;
use named_pipes::incoming::IncomingPoll;
use named_pipes::NamedPipeListener;
use named_pipes::NamedPipeStream;

#[test]
fn echo() {
    let sock_path = r"\\.\pipe\tokio-connect";

    // Server side: bind at the name and accept one connection.
    let listener =
        NamedPipeListener::bind(sock_path.to_string(), Ok(PipeHandle { id: 1 })).unwrap();
    let mut incoming = listener.incoming();
    let step = incoming.poll(AcceptEvent::Readiness(ReadyPoll::Ready));
    assert!(matches!(step, IncomingPoll::Pending(AcceptAction::Connect)));
    let step = incoming.poll(AcceptEvent::ConnectDone(Ok(())));
    assert!(matches!(step, IncomingPoll::Pending(AcceptAction::CreateInstance)));
    let server = match incoming.poll(AcceptEvent::InstanceDone(Ok(PipeHandle { id: 2 }))) {
        IncomingPoll::Item(stream) => stream,
        e => panic!("err={:?}", e),
    };

    // Client side: open the same name and wait until writable.
    let mut connect = NamedPipeStream::connect(sock_path.to_string(), Ok(PipeHandle { id: 3 }));
    let client = match connect.poll(ReadyPoll::Ready) {
        ConnectPoll::Ready(stream) => stream,
        e => panic!("err={:?}", e),
    };
    assert_eq!(client.path().as_str(), sock_path);
    assert_eq!(server.path().as_str(), sock_path);

    // Write to the client end of the pipe's client-to-server direction.
    let mut pipe = PipeChannel::new();
    assert_eq!(pipe.write(b"hello").unwrap(), 5);
    pipe.shutdown();

    // Read to end from the server end.
    let mut buf: Vec<u8> = Vec::new();
    loop {
        let part = pipe.read(1024).unwrap();
        if part.is_empty() {
            break;
        }
        buf.extend(part);
    }
    assert_eq!(buf, b"hello");
}

#[test]
fn echo_single_accept() {
    let sock_path = r"\\.\pipe\test-echo";

    // The accepting task: bind, accept exactly one connection, and hand
    // the accepted stream onward.
    let mut listener =
        NamedPipeListener::bind(sock_path.to_string(), Ok(PipeHandle { id: 21 })).unwrap();
    listener.poll_accept(AcceptEvent::Readiness(ReadyPoll::Ready));
    listener.poll_accept(AcceptEvent::ConnectDone(Ok(())));
    let server = match listener.poll_accept(AcceptEvent::InstanceDone(Ok(PipeHandle { id: 22 })))
    {
        AcceptStep::Accepted(stream) => stream,
        e => panic!("err={:?}", e),
    };

    // The client connects to the same name.
    let mut connect = NamedPipeStream::connect(sock_path.to_string(), Ok(PipeHandle { id: 23 }));
    let _client = match connect.poll(ReadyPoll::Ready) {
        ConnectPoll::Ready(stream) => stream,
        e => panic!("err={:?}", e),
    };

    // The client writes five bytes; reading to end on the server side
    // yields exactly those bytes.
    let mut pipe = PipeChannel::new();
    assert_eq!(pipe.write(b"hello").unwrap(), 5);
    pipe.shutdown();
    let mut buf: Vec<u8> = Vec::new();
    loop {
        let part = pipe.read(4096).unwrap();
        if part.is_empty() {
            break;
        }
        buf.extend(part);
    }
    assert_eq!(buf, b"hello");
    assert_eq!(server.raw_handle(), 21);
}

#[test]
fn connect_without_listener_fails() {
    // The OS reports that nothing listens under the name; the future must
    // resolve to that error on its first poll instead of hanging.
    let open_error = IoError { kind: IoErrorKind::NotFound, code: 2 };
    let mut connect =
        NamedPipeStream::connect(r"\\.\pipe\nobody-listens".to_string(), Err(open_error));
    assert!(!connect.is_resolved());
    assert!(!connect.is_waiting());
    match connect.poll(ReadyPoll::NotReady) {
        ConnectPoll::Failed(e) => {
            assert_eq!(e.kind, IoErrorKind::NotFound);
            assert_eq!(e.code, 2);
        }
        r => panic!("err={:?}", r),
    }
    assert!(connect.is_resolved());
}

#[test]
fn connect_waits_until_writable() {
    let mut connect =
        NamedPipeStream::connect(r"\\.\pipe\test-connect".to_string(), Ok(PipeHandle { id: 9 }));
    assert!(connect.is_waiting());
    assert!(matches!(connect.poll(ReadyPoll::NotReady), ConnectPoll::NotReady));
    assert!(connect.is_waiting());
    let stream = match connect.poll(ReadyPoll::Ready) {
        ConnectPoll::Ready(stream) => stream,
        r => panic!("err={:?}", r),
    };
    assert_eq!(stream.raw_handle(), 9);
    // Resolved exactly once: the tombstone is set, and the runtime's guard
    // for the fatal double-poll now reports it.
    assert!(connect.is_resolved());
}

#[test]
fn readiness_error_leaves_future_waiting() {
    let mut connect =
        NamedPipeStream::connect(r"\\.\pipe\test-connect".to_string(), Ok(PipeHandle { id: 4 }));
    let reactor_error = IoError { kind: IoErrorKind::Other, code: 87 };
    match connect.poll(ReadyPoll::Failed(reactor_error)) {
        ConnectPoll::Failed(e) => {
            assert_eq!(e.kind, IoErrorKind::Other);
            assert_eq!(e.code, 87);
        }
        r => panic!("err={:?}", r),
    }
    // The error did not resolve the future: it still waits and can still
    // hand the stream out.
    assert!(connect.is_waiting());
    match connect.poll(ReadyPoll::Ready) {
        ConnectPoll::Ready(stream) => assert_eq!(stream.raw_handle(), 4),
        r => panic!("err={:?}", r),
    }
}

#[test]
fn new_connection_wraps_handle() {
    let stream =
        NamedPipeStream::new_connection(r"\\.\pipe\test-wrap".to_string(), PipeHandle { id: 11 });
    assert_eq!(stream.raw_handle(), 11);
    assert_eq!(stream.path().as_str(), r"\\.\pipe\test-wrap");
}
