//! The tray's commands and message routing.

use winmux::errors::{ErrorCode, ErrorPayload};
use winmux::ids::{MessageId, PaneId, SessionId};
use winmux::messages::{response_id, server_message_type, AttachTarget, KillSessionTarget, ServerMessage};
use winmux::tray::{
    ack_outcome, attach_outcome, disconnected_status, error_from_server, hello_status, route_server_message, unexpected, CommandError,
    Disconnect, Route, ServerStatus, SessionRef,
};

const PROTOCOL_VERSION: u32 = winmux::version::PROTOCOL_VERSION;

#[test]
fn command_error_carries_code_when_from_server() {
    let payload = ErrorPayload {
        id: None,
        code: ErrorCode::SessionNotFound,
        message: "missing".to_owned(),
        recoverable: true,
    };
    let err = error_from_server(payload);
    assert_eq!(err.code.as_deref(), Some("SESSION_NOT_FOUND"));
    assert!(err.recoverable);
}

#[test]
fn command_error_from_anyhow_has_no_code() {
    let err: CommandError = anyhow::Error::msg("oops").into();
    assert!(err.code.is_none());
    assert!(err.message.contains("oops"));
}

#[test]
fn response_id_for_known_variants() {
    let id = MessageId::from_body("ABCD").expect("msg id");
    let pong = ServerMessage::Pong { v: PROTOCOL_VERSION, id: id.clone() };
    assert_eq!(response_id(&pong).map(MessageId::as_str), Some(id.as_str()));

    let err = ServerMessage::Error {
        v: PROTOCOL_VERSION,
        payload: ErrorPayload {
            id: Some(id.clone()),
            code: ErrorCode::Internal,
            message: "x".to_owned(),
            recoverable: true,
        },
    };
    assert_eq!(response_id(&err).map(MessageId::as_str), Some(id.as_str()));
}

#[test]
fn response_id_returns_none_for_pty_output() {
    let pid = PaneId::from_body("ABCD").expect("pane id");
    let msg = ServerMessage::PtyOutput { v: PROTOCOL_VERSION, pane_id: pid, bytes_base64: "Zg==".to_owned() };
    assert!(response_id(&msg).is_none());
}

#[test]
fn session_refs_become_targets() {
    let name = SessionRef::Name { name: "work".to_owned() };
    assert_eq!(name.into_attach_target(), AttachTarget::Name("work".to_owned()));
    let id = SessionId::from_body("S").unwrap();
    let by_id = SessionRef::Id { id: id.clone() };
    assert_eq!(by_id.into_kill_target(), KillSessionTarget::Id(id));
}

#[test]
fn answers_become_results() {
    let id = MessageId::from_body("1").unwrap();
    assert!(ack_outcome(ServerMessage::Pong { v: 1, id: id.clone() }, true).is_ok());
    assert!(ack_outcome(ServerMessage::Okay { v: 1, id: id.clone() }, false).is_ok());
    let wrong = ack_outcome(ServerMessage::Pong { v: 1, id: id.clone() }, false).unwrap_err();
    assert!(wrong.code.is_none());
    assert!(wrong.message.starts_with("unexpected server response: "));
    assert!(matches!(attach_outcome(ServerMessage::Okay { v: 1, id: id.clone() }, true), Ok(None)));
    assert!(attach_outcome(ServerMessage::Okay { v: 1, id: id.clone() }, false).is_err());
    let u = unexpected(ServerMessage::ServerBye { v: 1 });
    assert!(u.recoverable);
}

#[test]
fn hello_answers_set_the_status() {
    let ack = ServerMessage::HelloAck {
        v: 1,
        id: MessageId::from_body("0").unwrap(),
        server_version: "0.1.0".to_owned(),
        user: "alice".to_owned(),
    };
    match hello_status(ack) {
        ServerStatus::Connected { server_version, user } => {
            assert_eq!(server_version, "0.1.0");
            assert_eq!(user, "alice");
        }
        other => panic!("expected Connected, got {other:?}"),
    }
    match hello_status(ServerMessage::ServerBye { v: 1 }) {
        ServerStatus::Disconnected { reason } => assert_eq!(reason, "unexpected HelloAck"),
        other => panic!("expected Disconnected, got {other:?}"),
    }
}

#[test]
fn server_messages_are_routed() {
    let pid = PaneId::from_body("P").unwrap();
    match route_server_message(ServerMessage::PtyOutput { v: 1, pane_id: pid.clone(), bytes_base64: "Zg==".to_owned() }) {
        Route::PtyOutput(p) => {
            assert_eq!(p.pane_id, pid);
            assert_eq!(p.bytes_base64, "Zg==");
        }
        other => panic!("expected PtyOutput, got {other:?}"),
    }
    assert!(matches!(route_server_message(ServerMessage::AlertBell { v: 1, pane_id: pid.clone() }), Route::Event(_)));
    assert!(matches!(route_server_message(ServerMessage::ServerBye { v: 1 }), Route::Bye));
    let id = MessageId::from_body("7").unwrap();
    match route_server_message(ServerMessage::Okay { v: 1, id: id.clone() }) {
        Route::Response(i, _) => assert_eq!(i, id),
        other => panic!("expected Response, got {other:?}"),
    }
    let orphan = ServerMessage::Error {
        v: 1,
        payload: ErrorPayload { id: None, code: ErrorCode::Internal, message: String::new(), recoverable: false },
    };
    assert!(matches!(route_server_message(orphan), Route::Unmatched(_)));
}

#[test]
fn server_message_type_names_the_variant_only() {
    let id = MessageId::from_body("7").unwrap();
    assert_eq!(server_message_type(&ServerMessage::Okay { v: 1, id: id.clone() }), "Ok");
    assert_eq!(server_message_type(&ServerMessage::Pong { v: 1, id }), "Pong");
    assert_eq!(server_message_type(&ServerMessage::ServerBye { v: 1 }), "ServerBye");
    let pid = PaneId::from_body("P").unwrap();
    assert_eq!(
        server_message_type(&ServerMessage::PtyOutput { v: 1, pane_id: pid, bytes_base64: "secret".to_owned() }),
        "PtyOutput"
    );
}

#[test]
fn disconnection_reasons() {
    for (why, text) in [
        (Disconnect::PipeClosed, "pipe closed"),
        (Disconnect::HelloTimedOut, "HelloAck timed out"),
        (Disconnect::Failed("read: broken".to_owned()), "read: broken"),
    ] {
        match disconnected_status(why) {
            ServerStatus::Disconnected { reason } => assert_eq!(reason, text),
            other => panic!("expected Disconnected, got {other:?}"),
        }
    }
}
