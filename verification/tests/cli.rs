//! Command-line logic.

use winmux::cli::args::{Command, LsArgs, NewSessionArgs, TargetOnlyArgs};
use winmux::cli::exit;
use winmux::cli::{
    command_name, exit_code_label, kill_failure_exit, kill_outcome, ls_outcome, new_session_lines,
    new_session_outcome, new_session_request, parse_kill_target, parse_pane_target, parse_window_target,
    read_only_connect_failure, send_keys_outcome, send_keys_wire_args, session_list_lines, unimplemented_stub,
    version_lines, KillFailure, NewSessionResult,
};
use winmux::errors::{ErrorCode, ErrorPayload};
use winmux::ids::{MessageId, PaneId, SessionId, WindowId};
use winmux::messages::{KillSessionTarget, ServerMessage};
use winmux::types::{CommandResultPayload, PaneSize, PaneSummary, SessionSummary};

fn mid() -> MessageId {
    MessageId::from_body("1").unwrap()
}

fn error(code: ErrorCode, message: &str) -> ServerMessage {
    ServerMessage::Error {
        v: 1,
        payload: ErrorPayload { id: Some(mid()), code, message: message.to_owned(), recoverable: true },
    }
}

#[test]
fn parse_kill_target_id_form() {
    let t = parse_kill_target("ses-01HKJ4Z6PXA7G3M2F9XQ7VWERT");
    match t {
        KillSessionTarget::Id(id) => assert_eq!(id.as_str(), "ses-01HKJ4Z6PXA7G3M2F9XQ7VWERT"),
        other => panic!("expected Id, got {other:?}"),
    }
}

#[test]
fn parse_kill_target_name_form() {
    let t = parse_kill_target("work");
    match t {
        KillSessionTarget::Name(n) => assert_eq!(n, "work"),
        other => panic!("expected Name, got {other:?}"),
    }
}

#[test]
fn parse_kill_target_ses_prefix_without_body_falls_back_to_name() {
    let t = parse_kill_target("ses-");
    match t {
        KillSessionTarget::Name(n) => assert_eq!(n, "ses-"),
        other => panic!("expected Name fallback, got {other:?}"),
    }
}

#[test]
fn exit_code_labels_cover_known_codes() {
    assert_eq!(exit_code_label(exit::NO_SERVER), "NO_SERVER");
    assert_eq!(exit_code_label(exit::TARGET_NOT_FOUND), "SESSION_NOT_FOUND");
    assert_eq!(exit_code_label(exit::USAGE_ERROR), "USAGE_ERROR");
    assert_eq!(exit_code_label(exit::GENERAL_ERROR), "ERROR");
}

#[test]
fn exit_code_labels_of_other_codes() {
    assert_eq!(exit_code_label(exit::PROTOCOL_MISMATCH), "PROTOCOL_MISMATCH");
    assert_eq!(exit_code_label(exit::PERMISSION_DENIED), "PERMISSION_DENIED");
    assert_eq!(exit_code_label(exit::SUCCESS), "ERROR");
    assert_eq!(exit_code_label(200), "ERROR");
}

#[test]
fn command_names() {
    assert_eq!(command_name(&Command::Ls(LsArgs { all: false })), "ls");
    assert_eq!(command_name(&Command::KillPane(TargetOnlyArgs { target: "x".to_owned() })), "kill-pane");
    assert_eq!(command_name(&Command::StartServer), "start-server");
    assert_eq!(command_name(&Command::Version), "version");
}

#[test]
fn kill_target_with_other_prefix_is_a_name() {
    assert!(matches!(parse_kill_target("sesx-1"), KillSessionTarget::Name(_)));
    assert!(matches!(parse_kill_target("ses"), KillSessionTarget::Name(_)));
}

#[test]
fn pane_and_window_targets() {
    assert_eq!(parse_pane_target("pane-AB").unwrap().as_str(), "pane-AB");
    assert_eq!(
        parse_pane_target("ses-AB").unwrap_err(),
        "kill-pane target must be a pane id (`pane-...`), got `ses-AB`"
    );
    assert_eq!(
        parse_pane_target("pane-").unwrap_err(),
        "invalid pane id `pane-`: identifier body is empty after prefix `pane-`"
    );
    assert_eq!(
        parse_pane_target("panex").unwrap_err(),
        "invalid pane id `panex`: expected prefix `pane-`, got `panex`"
    );
    assert_eq!(parse_window_target("win-1").unwrap().as_str(), "win-1");
    assert_eq!(
        parse_window_target("w").unwrap_err(),
        "kill-window target must be a window id (`win-...`), got `w`"
    );
}

#[test]
fn send_keys_wire_args_put_the_target_first() {
    let keys = vec!["echo hi".to_owned(), "Enter".to_owned()];
    assert_eq!(send_keys_wire_args(Some("work"), &keys), vec!["-t", "work", "echo hi", "Enter"]);
    assert_eq!(send_keys_wire_args(None, &keys), vec!["echo hi", "Enter"]);
}

#[test]
fn new_session_request_from_arguments() {
    let args = NewSessionArgs {
        session: Some("wsl".to_owned()),
        detached: true,
        cwd: Some(String::new()),
        shell: None,
        shell_argv: vec!["wsl.exe".to_owned(), "-d".to_owned()],
    };
    let req = new_session_request(&args);
    assert_eq!(req.name.as_deref(), Some("wsl"));
    assert_eq!(req.shell.as_deref(), Some("wsl.exe"));
    assert_eq!(req.cwd, None);
    assert!(req.env.is_empty());
    assert!(req.detached);
    let explicit = NewSessionArgs {
        session: None,
        detached: false,
        cwd: Some("C:\\w".to_owned()),
        shell: Some("pwsh".to_owned()),
        shell_argv: vec!["cmd".to_owned()],
    };
    let req = new_session_request(&explicit);
    assert_eq!(req.shell.as_deref(), Some("pwsh"));
    assert_eq!(req.cwd.as_deref(), Some("C:\\w"));
}

#[test]
fn new_session_answers() {
    let attached = ServerMessage::Attached {
        v: 1,
        id: mid(),
        session_id: SessionId::from_body("S").unwrap(),
        active_window: WindowId::from_body("W").unwrap(),
        windows: Vec::new(),
        panes: Vec::new(),
        initial_snapshots: Vec::new(),
    };
    match new_session_outcome(attached, Some("n".to_owned())).unwrap() {
        NewSessionResult::Attached { session_id, name, .. } => {
            assert_eq!(session_id.as_str(), "ses-S");
            assert_eq!(name.as_deref(), Some("n"));
        }
        other => panic!("expected Attached, got {other:?}"),
    }
    assert!(matches!(
        new_session_outcome(ServerMessage::Okay { v: 1, id: mid() }, None).unwrap(),
        NewSessionResult::Detached { name: None }
    ));
    assert_eq!(
        new_session_outcome(error(ErrorCode::Internal, "boom"), None).unwrap_err(),
        "server error: boom (INTERNAL)"
    );
    assert!(new_session_outcome(ServerMessage::Pong { v: 1, id: mid() }, None)
        .unwrap_err()
        .starts_with("unexpected response: "));
}

#[test]
fn kill_answers() {
    assert_eq!(kill_outcome(&ServerMessage::Okay { v: 1, id: mid() }, ErrorCode::SessionNotFound, "w"), Ok(()));
    assert_eq!(
        kill_outcome(&error(ErrorCode::SessionNotFound, "x"), ErrorCode::SessionNotFound, "w"),
        Err(KillFailure::NotFound("w".to_owned()))
    );
    assert_eq!(
        kill_outcome(&error(ErrorCode::Internal, "x"), ErrorCode::SessionNotFound, "w"),
        Err(KillFailure::Server("x (INTERNAL)".to_owned()))
    );
    let (code, msg) = kill_failure_exit(&KillFailure::NotFound("w".to_owned()), "session");
    assert_eq!(code, exit::TARGET_NOT_FOUND);
    assert_eq!(msg, "session not found: 'w'");
    let (code, msg) = kill_failure_exit(&KillFailure::Server("x".to_owned()), "pane");
    assert_eq!(code, exit::GENERAL_ERROR);
    assert_eq!(msg, "x");
}

#[test]
fn send_keys_answers() {
    let ok = ServerMessage::CommandResult {
        v: 1,
        id: mid(),
        result: CommandResultPayload { ok: true, stdout: None, stderr: None },
    };
    assert_eq!(send_keys_outcome(ok), Ok(()));
    let failed = ServerMessage::CommandResult {
        v: 1,
        id: mid(),
        result: CommandResultPayload { ok: false, stdout: None, stderr: None },
    };
    assert_eq!(send_keys_outcome(failed), Err("send-keys failed".to_owned()));
    assert_eq!(send_keys_outcome(error(ErrorCode::Internal, "e")), Err("e (INTERNAL)".to_owned()));
}

fn summary(name: &str, windows: u16, attached: u16) -> SessionSummary {
    SessionSummary {
        id: SessionId::from_body(name).unwrap(),
        name: name.to_owned(),
        created_at: "t".to_owned(),
        windows,
        attached_clients: attached,
    }
}

#[test]
fn ls_output() {
    assert_eq!(session_list_lines(&[]), vec!["(no sessions)"]);
    let lines = session_list_lines(&[summary("a", 1, 0), summary("b", 3, 2)]);
    assert_eq!(lines, vec!["a\t1 window", "b\t3 windows  (attached)"]);
    let sessions = vec![summary("a", 1, 0)];
    let listed = ls_outcome(ServerMessage::SessionList { v: 1, id: mid(), sessions }).unwrap();
    assert_eq!(listed.len(), 1);
    assert_eq!(ls_outcome(error(ErrorCode::Internal, "no")).unwrap_err(), "server error: no (INTERNAL)");
}

#[test]
fn new_session_output() {
    let r = NewSessionResult::Attached {
        session_id: SessionId::from_body("S").unwrap(),
        name: None,
        active_window: WindowId::from_body("W").unwrap(),
        panes: vec![PaneSummary {
            id: PaneId::from_body("P").unwrap(),
            size: PaneSize { rows: 40, cols: 120 },
            index: 0,
            title: None,
            alive: true,
        }],
    };
    assert_eq!(new_session_lines(&r, false), vec!["created session '(unnamed)' (ses-S)", "  pane pane-P (40x120)"]);
    assert!(new_session_lines(&r, true).is_empty());
    let d = NewSessionResult::Detached { name: Some("w".to_owned()) };
    assert_eq!(new_session_lines(&d, false), vec!["created session 'w' (detached)"]);
}

#[test]
fn version_output() {
    assert_eq!(
        version_lines("0.1.0", Some("0.2.0")),
        vec!["winmux 0.1.0".to_owned(), "server 0.2.0".to_owned(), "protocol v1".to_owned()]
    );
    assert_eq!(
        version_lines("0.1.0", None),
        vec!["winmux 0.1.0".to_owned(), "server unknown (not running)".to_owned(), "protocol v1".to_owned()]
    );
}

#[test]
fn stub_and_read_only_connection_failures() {
    assert_eq!(
        unimplemented_stub("split-window"),
        (exit::GENERAL_ERROR, "`split-window` is parsed but not yet wired to the server in this build".to_owned())
    );
    assert_eq!(
        read_only_connect_failure(&winmux::client::ConnectError::NotRunning("p".to_owned())),
        (exit::NO_SERVER, "server is not running".to_owned())
    );
    assert_eq!(
        read_only_connect_failure(&winmux::client::ConnectError::RetriesExhausted { pipe: "p".to_owned() }),
        (exit::GENERAL_ERROR, "connect failed: connect retries exhausted for pipe `p`".to_owned())
    );
    let (code, text) = read_only_connect_failure(&winmux::client::ConnectError::Io(std::io::Error::other("boom")));
    assert_eq!((code, text.as_str()), (exit::GENERAL_ERROR, "connect failed: pipe connect failed: boom"));
}
