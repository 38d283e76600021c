use waywire::shutdown::{finish_shutdown, Component, ShutdownErrors, Stop};
use waywire::socket::{
    stream_incoming, write_outcome, CloseFrame, SocketEnd, StreamIncoming, Written,
};

fn none() -> ShutdownErrors {
    ShutdownErrors {
        trigger: None,
        sockets: None,
        daemon: None,
        server: None,
    }
}

#[test]
fn socket_close_reasons_keep_peer_details() {
    let peer_close = SocketEnd::ClientClosed(Some(CloseFrame {
        code: 1008,
        reason: "policy".to_owned(),
    }));
    assert_eq!(
        peer_close.describe(),
        "client sent WebSocket close frame 1008: policy"
    );
    assert!(!peer_close.is_failure());
    assert!(SocketEnd::failed("write timeout".to_owned()).is_failure());
    assert!(!SocketEnd::Shutdown.is_failure());
}

#[test]
fn a_clean_shutdown_reports_nothing() {
    let (reported, failure) = finish_shutdown(Stop::Signal, &none());
    assert_eq!(reported, vec![]);
    assert_eq!(failure, None);
}

#[test]
fn every_failure_of_a_shutdown_is_reported() {
    let mut errors = none();
    errors.daemon = Some("daemon failed".to_owned());
    errors.server = Some("server failed".to_owned());
    let (reported, failure) = finish_shutdown(Stop::Daemon, &errors);
    let failure = failure.expect("failures should be returned");
    assert!(failure.contains("failed"));
    let count = reported.len();
    assert!(count >= 1);
    assert!(reported
        .iter()
        .all(|part| *part == Component::Daemon || *part == Component::Server));
}

#[test]
fn writes_to_a_socket_end_it_when_they_fail() {
    assert!(write_outcome(Written::Done).is_ok());
    assert!(matches!(
        write_outcome(Written::Cancelled),
        Err(SocketEnd::Shutdown)
    ));
    match write_outcome(Written::Elapsed) {
        Err(end) => assert!(end.is_failure()),
        Ok(()) => panic!("a stalled write should end the socket"),
    }
    assert!(stream_incoming(StreamIncoming::Other).is_none());
    assert!(matches!(
        stream_incoming(StreamIncoming::Ended),
        Some(SocketEnd::Disconnected)
    ));
    assert!(matches!(
        stream_incoming(StreamIncoming::Close(None)),
        Some(SocketEnd::ClientClosed(None))
    ));
}
