//! Server decisions: handshake, dispatch, send-keys.

use winmux::codec::{base64_encode, CodecError};
use winmux::errors::ErrorCode;
use winmux::ids::{MessageId, PaneId, SessionId, WindowId};
use winmux::messages::{AttachTarget, ClientMessage, KillSessionTarget, ServerMessage};
use winmux::server::{
    build_env, dispatch_message, finish_new_session, finish_resize, first_frame_error, handshake_reply,
    keys_written, parse_send_keys_args, resolve_send_keys_target, resolve_shell, spawn_request, DispatchStep,
};
use winmux::session::{PaneRuntime, Registry};
use winmux::types::{ClientKind, CommandRequest, EnvMap, NewSessionRequest, PaneSize, SelectDirection};

fn mid(n: &str) -> MessageId {
    MessageId::from_body(n).unwrap()
}

fn req(name: Option<&str>, detached: bool) -> NewSessionRequest {
    NewSessionRequest { name: name.map(str::to_owned), shell: None, cwd: None, env: EnvMap::new(), detached }
}

fn strings(v: &[&str]) -> Vec<String> {
    v.iter().map(|s| (*s).to_owned()).collect()
}

fn runtime(n: &str) -> PaneRuntime<u32> {
    PaneRuntime {
        pane_id: PaneId::from_body(n).unwrap(),
        window_id: WindowId::from_body(n).unwrap(),
        session_id: SessionId::from_body(n).unwrap(),
        pty: 1,
    }
}

fn error_of(m: &ServerMessage) -> (ErrorCode, String, bool) {
    match m {
        ServerMessage::Error { payload, .. } => (payload.code, payload.message.clone(), payload.recoverable),
        other => panic!("expected Error, got {other:?}"),
    }
}

#[test]
fn handshake_accepts_compatible_hello() {
    let hello = ClientMessage::Hello { v: 1, id: mid("1"), client: ClientKind::Cli, pid: 42, version: "0.1".to_owned() };
    let (ack, auth) = handshake_reply(hello, "alice", "9.9.9").expect("accepted");
    match ack {
        ServerMessage::HelloAck { v, id, server_version, user } => {
            assert_eq!(v, 1);
            assert_eq!(id, mid("1"));
            assert_eq!(server_version, "9.9.9");
            assert_eq!(user, "alice");
        }
        other => panic!("expected HelloAck, got {other:?}"),
    }
    assert_eq!(auth.client_kind, ClientKind::Cli);
    assert_eq!(auth.client_pid, 42);
    assert_eq!(auth.username, "alice");
}

#[test]
fn handshake_refuses_other_versions_and_messages() {
    let hello = ClientMessage::Hello { v: 2, id: mid("1"), client: ClientKind::Tray, pid: 1, version: String::new() };
    let refused = handshake_reply(hello, "a", "v").unwrap_err();
    assert_eq!(
        error_of(&refused),
        (ErrorCode::VersionMismatch, "client protocol v2, server accepts v1..=v1".to_owned(), false)
    );
    let refused = handshake_reply(ClientMessage::Ping { v: 1, id: mid("2") }, "a", "v").unwrap_err();
    assert_eq!(
        error_of(&refused),
        (ErrorCode::ProtocolViolation, "Hello required before any other message".to_owned(), false)
    );
    assert_eq!(
        error_of(&first_frame_error(&CodecError::NotUtf8)).1,
        "invalid first frame: message is not valid UTF-8"
    );
}

#[test]
fn send_keys_arguments() {
    assert_eq!(
        parse_send_keys_args(&strings(&["-t", "work", "echo", "Enter"])),
        Ok((Some("work".to_owned()), strings(&["echo", "Enter"])))
    );
    assert_eq!(parse_send_keys_args(&strings(&["ls"])), Ok((None, strings(&["ls"]))));
    assert_eq!(parse_send_keys_args(&strings(&["-", "x"])), Ok((None, strings(&["-", "x"]))));
    assert_eq!(
        parse_send_keys_args(&strings(&["-t", "a", "-t", "b", "k"])),
        Ok((Some("b".to_owned()), strings(&["k"])))
    );
    assert_eq!(
        parse_send_keys_args(&strings(&["-t"])),
        Err("send-keys: -t requires a target argument".to_owned())
    );
    assert_eq!(
        parse_send_keys_args(&strings(&["-x", "k"])),
        Err("send-keys: unknown flag `-x` in M0 PoC".to_owned())
    );
    assert_eq!(parse_send_keys_args(&strings(&["-t", "w"])), Err("send-keys: no key tokens given".to_owned()));
    assert_eq!(parse_send_keys_args(&Vec::<String>::new()), Err("send-keys: no key tokens given".to_owned()));
}

#[test]
fn send_keys_arguments_round_trip_through_the_wire_form() {
    let keys = strings(&["echo hi", "Enter"]);
    let wire = winmux::cli::send_keys_wire_args(Some("work:0"), &keys);
    assert_eq!(parse_send_keys_args(&wire), Ok((Some("work:0".to_owned()), keys)));
}

#[test]
fn shell_and_environment() {
    let mut r = req(None, false);
    assert_eq!(resolve_shell(&r, Some("C:\\cmd.exe".to_owned())), "C:\\cmd.exe");
    assert_eq!(resolve_shell(&r, Some(String::new())), "powershell.exe");
    assert_eq!(resolve_shell(&r, None), "powershell.exe");
    r.shell = Some("pwsh".to_owned());
    assert_eq!(resolve_shell(&r, None), "pwsh");
    r.shell = Some(String::new());
    assert_eq!(resolve_shell(&r, Some("cmd".to_owned())), "cmd");

    let mut env = EnvMap::new();
    env.insert("FOO".to_owned(), "1".to_owned());
    env.insert("WINMUX_PANE_INDEX".to_owned(), "9".to_owned());
    r.env = env;
    let sid = SessionId::from_body("S").unwrap();
    let built = build_env(&r, &sid, "0.1.0");
    assert_eq!(built.len(), 5);
    assert_eq!(built.get("FOO").map(String::as_str), Some("1"));
    assert_eq!(built.get("WINMUX_VERSION").map(String::as_str), Some("0.1.0"));
    assert_eq!(built.get("WINMUX_SESSION_ID").map(String::as_str), Some("ses-S"));
    assert_eq!(built.get("WINMUX_WINDOW_INDEX").map(String::as_str), Some("0"));
    assert_eq!(built.get("WINMUX_PANE_INDEX").map(String::as_str), Some("0"));
    r.cwd = Some(String::new());
    let spawn = spawn_request(&r, &sid, None, "v");
    assert_eq!(spawn.cwd, None);
    assert_eq!((spawn.rows, spawn.cols), (40, 120));
}

#[test]
fn dispatch_simple_messages() {
    let mut reg: Registry<u32> = Registry::new();
    let mut attached: Option<SessionId> = None;
    match dispatch_message(&mut reg, &mut attached, ClientMessage::Ping { v: 1, id: mid("p") }) {
        DispatchStep::Reply(ServerMessage::Pong { id, .. }) => assert_eq!(id, mid("p")),
        other => panic!("expected Pong, got {other:?}"),
    }
    assert!(matches!(dispatch_message(&mut reg, &mut attached, ClientMessage::Bye { v: 1 }), DispatchStep::Close));
    match dispatch_message(
        &mut reg,
        &mut attached,
        ClientMessage::Hello { v: 1, id: mid("h"), client: ClientKind::Cli, pid: 1, version: String::new() },
    ) {
        DispatchStep::ReplyAndClose(m) => {
            assert_eq!(
                error_of(&m),
                (ErrorCode::ProtocolViolation, "Hello already completed for this connection".to_owned(), false)
            )
        }
        other => panic!("expected a closing error, got {other:?}"),
    }
    match dispatch_message(&mut reg, &mut attached, ClientMessage::KillWindow {
        v: 1,
        id: mid("k"),
        window_id: WindowId::from_body("W").unwrap(),
    }) {
        DispatchStep::Reply(m) => {
            assert_eq!(error_of(&m), (ErrorCode::WindowNotFound, "window not found".to_owned(), true))
        }
        other => panic!("expected an error, got {other:?}"),
    }
    match dispatch_message(&mut reg, &mut attached, ClientMessage::SelectWindow {
        v: 1,
        id: mid("s"),
        direction: SelectDirection::Left,
    }) {
        DispatchStep::Reply(m) => {
            assert_eq!(error_of(&m), (ErrorCode::Internal, "`SelectWindow` is parsed but not yet dispatched".to_owned(), true))
        }
        other => panic!("expected an error, got {other:?}"),
    }
}

#[test]
fn dispatch_kill_pane_and_window() {
    let mut reg: Registry<u32> = Registry::new();
    let mut attached: Option<SessionId> = None;
    let _ = finish_new_session(&mut reg, &mut attached, mid("n"), &req(Some("victim"), false), Ok(runtime("A")));
    let _ = finish_new_session(&mut reg, &mut attached, mid("m"), &req(Some("winvictim"), true), Ok(runtime("B")));
    let a = SessionId::from_body("A").unwrap();
    assert_eq!(attached.as_ref(), Some(&a));

    // Unknown targets.
    match dispatch_message(&mut reg, &mut attached, ClientMessage::KillPane {
        v: 1,
        id: mid("p0"),
        pane_id: PaneId::from_raw("pane-DOESNOTEXIST".to_owned()),
    }) {
        DispatchStep::Reply(m) => assert_eq!(error_of(&m), (ErrorCode::PaneNotFound, "pane not found".to_owned(), true)),
        other => panic!("expected an error, got {other:?}"),
    }

    // The only pane of the attached session: the session ends and so does the attachment.
    let step = dispatch_message(&mut reg, &mut attached, ClientMessage::KillPane {
        v: 1,
        id: mid("p1"),
        pane_id: PaneId::from_body("A").unwrap(),
    });
    assert!(matches!(step, DispatchStep::Reply(ServerMessage::Okay { .. })));
    assert_eq!(attached, None);
    assert_eq!(reg.session_id_by_name("victim"), None);
    assert_eq!(reg.pty_for_pane(&PaneId::from_body("A").unwrap()), None);

    // The only window of the other session: it ends too.
    let step = dispatch_message(&mut reg, &mut attached, ClientMessage::KillWindow {
        v: 1,
        id: mid("w1"),
        window_id: WindowId::from_body("B").unwrap(),
    });
    assert!(matches!(step, DispatchStep::Reply(ServerMessage::Okay { .. })));
    assert!(reg.list_summaries().is_empty());
    assert_eq!(reg.session_id_by_name("winvictim"), None);
}

#[test]
fn dispatch_session_lifecycle() {
    let mut reg: Registry<u32> = Registry::new();
    let mut attached: Option<SessionId> = None;
    let step = dispatch_message(&mut reg, &mut attached, ClientMessage::NewSession {
        v: 1,
        id: mid("n"),
        request: req(Some("work"), false),
    });
    let request = match step {
        DispatchStep::SpawnSession { request, .. } => request,
        other => panic!("expected SpawnSession, got {other:?}"),
    };
    let step = finish_new_session(&mut reg, &mut attached, mid("n"), &request, Ok(runtime("A")));
    let sid = match step {
        DispatchStep::Attached { result, .. } => result.session_id,
        other => panic!("expected Attached, got {other:?}"),
    };
    assert_eq!(attached.as_ref(), Some(&sid));
    assert_eq!(reg.attached_clients(&sid), Some(1));

    // A second session, detached: the client stays where it is.
    let step = finish_new_session(&mut reg, &mut attached, mid("m"), &req(Some("bg"), true), Ok(runtime("B")));
    assert!(matches!(step, DispatchStep::Reply(ServerMessage::Okay { .. })));
    assert_eq!(attached.as_ref(), Some(&sid));

    // The same name again is refused.
    let step = finish_new_session(&mut reg, &mut attached, mid("x"), &req(Some("bg"), false), Ok(runtime("C")));
    match step {
        DispatchStep::Reply(m) => assert_eq!(error_of(&m).1, "session name `bg` already exists"),
        other => panic!("expected an error, got {other:?}"),
    }
    let step = finish_new_session(&mut reg, &mut attached, mid("y"), &req(None, false), Err("no shell".to_owned()));
    match step {
        DispatchStep::Reply(m) => assert_eq!(error_of(&m).1, "spawn failed: no shell"),
        other => panic!("expected an error, got {other:?}"),
    }

    // Attaching to the other session leaves the first one.
    let bg = SessionId::from_body("B").unwrap();
    let step = dispatch_message(&mut reg, &mut attached, ClientMessage::Attach {
        v: 1,
        id: mid("a"),
        session: AttachTarget::Name("bg".to_owned()),
        client_size: PaneSize { rows: 1, cols: 1 },
    });
    assert!(matches!(step, DispatchStep::Attached { .. }));
    assert_eq!(reg.attached_clients(&sid), Some(0));
    assert_eq!(reg.attached_clients(&bg), Some(1));

    // Detach.
    let step = dispatch_message(&mut reg, &mut attached, ClientMessage::Detach { v: 1, id: mid("d") });
    assert!(matches!(step, DispatchStep::Reply(ServerMessage::Okay { .. })));
    assert_eq!(attached, None);
    assert_eq!(reg.attached_clients(&bg), Some(0));

    // List, then kill.
    match dispatch_message(&mut reg, &mut attached, ClientMessage::ListSessions { v: 1, id: mid("l") }) {
        DispatchStep::Reply(ServerMessage::SessionList { sessions, .. }) => assert_eq!(sessions.len(), 2),
        other => panic!("expected SessionList, got {other:?}"),
    }
    let step = dispatch_message(&mut reg, &mut attached, ClientMessage::KillSession {
        v: 1,
        id: mid("k"),
        session: KillSessionTarget::Name("work".to_owned()),
    });
    assert!(matches!(step, DispatchStep::Reply(ServerMessage::Okay { .. })));
    let step = dispatch_message(&mut reg, &mut attached, ClientMessage::KillSession {
        v: 1,
        id: mid("k2"),
        session: KillSessionTarget::Name("work".to_owned()),
    });
    match step {
        DispatchStep::Reply(m) => assert_eq!(error_of(&m), (ErrorCode::SessionNotFound, "session not found".to_owned(), true)),
        other => panic!("expected an error, got {other:?}"),
    }
}

#[test]
fn dispatch_input_resize_and_keys() {
    let mut reg: Registry<u32> = Registry::new();
    let mut attached: Option<SessionId> = None;
    finish_new_session(&mut reg, &mut attached, mid("n"), &req(Some("w"), false), Ok(runtime("A"))).unwrap_attached();
    let pane = PaneId::from_body("A").unwrap();

    match dispatch_message(&mut reg, &mut attached, ClientMessage::PtyInput {
        v: 1,
        pane_id: pane.clone(),
        bytes_base64: base64_encode(b"ls\r"),
    }) {
        DispatchStep::WriteInput { bytes, .. } => assert_eq!(bytes, b"ls\r"),
        other => panic!("expected WriteInput, got {other:?}"),
    }
    assert!(matches!(
        dispatch_message(&mut reg, &mut attached, ClientMessage::PtyInput { v: 1, pane_id: pane.clone(), bytes_base64: "!!".to_owned() }),
        DispatchStep::Nothing
    ));
    let unknown = PaneId::from_body("Z").unwrap();
    match dispatch_message(&mut reg, &mut attached, ClientMessage::Resize { v: 1, id: mid("r"), pane_id: unknown, rows: 1, cols: 1 }) {
        DispatchStep::Reply(m) => assert_eq!(error_of(&m).0, ErrorCode::PaneNotFound),
        other => panic!("expected an error, got {other:?}"),
    }
    assert!(matches!(
        dispatch_message(&mut reg, &mut attached, ClientMessage::Resize { v: 1, id: mid("r"), pane_id: pane.clone(), rows: 2, cols: 3 }),
        DispatchStep::ResizePane { rows: 2, cols: 3, .. }
    ));
    assert!(matches!(finish_resize(&mut reg, mid("r"), &pane, 2, 3, None), ServerMessage::Okay { .. }));
    assert_eq!(error_of(&finish_resize(&mut reg, mid("r"), &pane, 2, 3, Some("busy".to_owned()))).1, "resize failed: busy");

    let keys = |args: &[&str]| ClientMessage::Command {
        v: 1,
        id: mid("c"),
        request: CommandRequest { tmux: "send-keys".to_owned(), args: strings(args) },
    };
    match dispatch_message(&mut reg, &mut attached, keys(&["echo", "Enter"])) {
        DispatchStep::WriteKeys { pane_id, bytes, .. } => {
            assert_eq!(pane_id, pane);
            assert_eq!(bytes, b"echo\r");
        }
        other => panic!("expected WriteKeys, got {other:?}"),
    }
    match dispatch_message(&mut reg, &mut attached, keys(&["-t", "w:0.0", "x"])) {
        DispatchStep::WriteKeys { pane_id, .. } => assert_eq!(pane_id, pane),
        other => panic!("expected WriteKeys, got {other:?}"),
    }
    let stderr_of = |step: DispatchStep| match step {
        DispatchStep::Reply(ServerMessage::CommandResult { result, .. }) => {
            assert!(!result.ok);
            result.stderr.unwrap()
        }
        other => panic!("expected a failed CommandResult, got {other:?}"),
    };
    assert_eq!(stderr_of(dispatch_message(&mut reg, &mut attached, keys(&["F1"]))), "unsupported key in M0 PoC: `F1` (see docs/spec/04-key-handling.md)");
    assert_eq!(stderr_of(dispatch_message(&mut reg, &mut attached, keys(&["-t", "nope", "x"]))), "send-keys: session not found: nope");
    assert_eq!(stderr_of(dispatch_message(&mut reg, &mut attached, keys(&["-t", "pane-Q", "x"]))), "send-keys: pane not found: pane-Q");
    let other = ClientMessage::Command { v: 1, id: mid("c"), request: CommandRequest { tmux: "list-keys".to_owned(), args: Vec::new() } };
    assert_eq!(stderr_of(dispatch_message(&mut reg, &mut attached, other)), "unsupported tmux command: list-keys");
    match keys_written(mid("c"), Some("gone".to_owned())) {
        ServerMessage::CommandResult { result, .. } => assert_eq!(result.stderr.as_deref(), Some("write failed: gone")),
        other => panic!("expected CommandResult, got {other:?}"),
    }
    let none: Option<SessionId> = None;
    assert_eq!(
        resolve_send_keys_target(&reg, &none, None),
        Err("send-keys: no target and client is not attached".to_owned())
    );
}

trait UnwrapAttached {
    fn unwrap_attached(self);
}

impl UnwrapAttached for DispatchStep {
    fn unwrap_attached(self) {
        assert!(matches!(self, DispatchStep::Attached { .. }), "expected Attached");
    }
}
