//! Client-side helpers: request ids, HelloAck, connection failures.

use winmux::client::{
    hello_outcome, message_id_for, open_failure, retry_failure, should_start_server, ConnectError, EnsureFailure,
    MessageCounter,
};
use winmux::errors::{ErrorCode, ErrorPayload};
use winmux::ids::MessageId;
use winmux::messages::ServerMessage;

#[test]
fn message_ids_are_twenty_hex_digits() {
    assert_eq!(message_id_for(0).as_str(), "msg-00000000000000000000");
    assert_eq!(message_id_for(255).as_str(), "msg-000000000000000000ff");
    assert_eq!(message_id_for(u64::MAX).as_str(), "msg-0000ffffffffffffffff");
}

#[test]
fn counter_counts_from_one() {
    let mut c = MessageCounter::new();
    assert_eq!(c.next_message_id().as_str(), "msg-00000000000000000001");
    assert_eq!(c.next_message_id().as_str(), "msg-00000000000000000002");
    let mut w = MessageCounter::starting_at(u64::MAX);
    assert_eq!(w.next_message_id().as_str(), "msg-0000ffffffffffffffff");
    assert_eq!(w.next_message_id().as_str(), "msg-00000000000000000000");
}

#[test]
fn hello_answers() {
    let ack = ServerMessage::HelloAck {
        v: 1,
        id: MessageId::from_body("1").unwrap(),
        server_version: "0.2.0".to_owned(),
        user: "bob".to_owned(),
    };
    let info = hello_outcome(ack).unwrap();
    assert_eq!(info.server_version, "0.2.0");
    assert_eq!(info.user, "bob");
    assert_eq!(info.protocol_version, 1);
    let err = ServerMessage::Error {
        v: 1,
        payload: ErrorPayload { id: None, code: ErrorCode::VersionMismatch, message: "old".to_owned(), recoverable: false },
    };
    assert_eq!(hello_outcome(err).unwrap_err(), "server rejected Hello: old (VERSION_MISMATCH)");
    assert!(hello_outcome(ServerMessage::ServerBye { v: 1 }).unwrap_err().starts_with("expected HelloAck, got "));
}

#[test]
fn connection_failures_are_classified() {
    let e = || std::io::Error::other("x");
    assert!(matches!(open_failure("p", Some(2), e()), ConnectError::NotRunning(p) if p == "p"));
    assert!(matches!(open_failure("p", Some(5), e()), ConnectError::Io(_)));
    assert!(matches!(retry_failure("p", Some(231), e()), ConnectError::RetriesExhausted { pipe } if pipe == "p"));
    assert!(matches!(retry_failure("p", None, e()), ConnectError::Io(_)));
    assert_eq!(
        ConnectError::NotRunning("p".to_owned()).message(),
        "server is not running (pipe not found): p"
    );
    assert_eq!(
        ConnectError::RetriesExhausted { pipe: "p".to_owned() }.message(),
        "connect retries exhausted for pipe `p`"
    );
    assert_eq!(ConnectError::Io(e()).message(), "pipe connect failed: x");
}

#[test]
fn server_start_failures() {
    assert!(should_start_server(&ConnectError::NotRunning("p".to_owned())));
    assert!(!should_start_server(&ConnectError::RetriesExhausted { pipe: "p".to_owned() }));
    assert_eq!(
        EnsureFailure::Connect(ConnectError::RetriesExhausted { pipe: "p".to_owned() }).into_tuple(),
        (1, "connect failed: connect retries exhausted for pipe `p`".to_owned())
    );
    assert_eq!(
        EnsureFailure::Locate("`C:\\w\\winmux-server.exe` not found".to_owned()).into_tuple(),
        (2, "server is not running and `C:\\w\\winmux-server.exe` not found".to_owned())
    );
    assert_eq!(
        EnsureFailure::Spawn { exe: "s.exe".to_owned(), error: "denied".to_owned() }.into_tuple(),
        (2, "failed to spawn `s.exe`: denied".to_owned())
    );
    assert_eq!(
        EnsureFailure::Start(ConnectError::NotRunning("p".to_owned())).into_tuple(),
        (2, "server failed to start: server is not running (pipe not found): p".to_owned())
    );
    let (code, text) = EnsureFailure::Connect(ConnectError::Io(std::io::Error::other("boom"))).into_tuple();
    assert_eq!(code, 1);
    assert_eq!(text, "connect failed: pipe connect failed: boom");
}
