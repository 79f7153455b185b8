//! The logic of the `winmux` command line: naming commands, reading targets,
//! building requests, reading the server's answers and wording the output.
//!
//! Connecting to the server, sending and printing happen around these
//! functions; everything they decide is here.
use vstd::prelude::*;

pub mod args;
pub mod exit;

use crate::cli::args::{Command, NewSessionArgs};
use crate::client::{connect_error_text, ConnectError};
use crate::errors::error_code_text;
use crate::ids::{id_error_text, id_parse_spec, IdError, PaneId, SessionId, WindowId};
use crate::keys::string_views;
use crate::messages::{server_message_debug, KillSessionTarget, ServerMessage};
use crate::session::opt_view;
use crate::text::{decimal_spec, push_decimal, push_str, str_starts_with};
use crate::types::{EnvMap, NewSessionRequest, PaneSummary, SessionSummary};
use crate::version::PROTOCOL_VERSION;

verus! {

/// The label of an exit code in JSON error output.
pub open spec fn exit_code_label_spec(code: u8) -> Seq<char> {
    if code == exit::NO_SERVER {
        "NO_SERVER"@
    } else if code == exit::TARGET_NOT_FOUND {
        "SESSION_NOT_FOUND"@
    } else if code == exit::PROTOCOL_MISMATCH {
        "PROTOCOL_MISMATCH"@
    } else if code == exit::PERMISSION_DENIED {
        "PERMISSION_DENIED"@
    } else if code == exit::USAGE_ERROR {
        "USAGE_ERROR"@
    } else {
        "ERROR"@
    }
}

/// The label of an exit code in JSON error output.
pub fn exit_code_label(code: u8) -> (r: &'static str)
    ensures
        r@ == exit_code_label_spec(code),
{
    if code == exit::NO_SERVER {
        "NO_SERVER"
    } else if code == exit::TARGET_NOT_FOUND {
        "SESSION_NOT_FOUND"
    } else if code == exit::PROTOCOL_MISMATCH {
        "PROTOCOL_MISMATCH"
    } else if code == exit::PERMISSION_DENIED {
        "PERMISSION_DENIED"
    } else if code == exit::USAGE_ERROR {
        "USAGE_ERROR"
    } else {
        "ERROR"
    }
}

/// The name of a subcommand as the user types it.
pub open spec fn command_name_spec(c: Command) -> Seq<char> {
    match c {
        Command::Ls(_) => "ls"@,
        Command::NewSession(_) => "new-session"@,
        Command::Attach(_) => "attach"@,
        Command::Detach => "detach"@,
        Command::KillSession(_) => "kill-session"@,
        Command::KillWindow(_) => "kill-window"@,
        Command::KillPane(_) => "kill-pane"@,
        Command::SendKeys(_) => "send-keys"@,
        Command::ListWindows(_) => "list-windows"@,
        Command::ListPanes(_) => "list-panes"@,
        Command::SplitWindow(_) => "split-window"@,
        Command::SelectPane(_) => "select-pane"@,
        Command::ResizePane(_) => "resize-pane"@,
        Command::CapturePane(_) => "capture-pane"@,
        Command::DisplayMessage(_) => "display-message"@,
        Command::SourceFile(_) => "source-file"@,
        Command::ShowOptions(_) => "show-options"@,
        Command::BindKey(_) => "bind-key"@,
        Command::UnbindKey(_) => "unbind-key"@,
        Command::KillServer => "kill-server"@,
        Command::StartServer => "start-server"@,
        Command::Version => "version"@,
    }
}

/// The name of a subcommand as the user types it.
pub fn command_name(c: &Command) -> (r: &'static str)
    ensures
        r@ == command_name_spec(*c),
{
    match c {
        Command::Ls(_) => "ls",
        Command::NewSession(_) => "new-session",
        Command::Attach(_) => "attach",
        Command::Detach => "detach",
        Command::KillSession(_) => "kill-session",
        Command::KillWindow(_) => "kill-window",
        Command::KillPane(_) => "kill-pane",
        Command::SendKeys(_) => "send-keys",
        Command::ListWindows(_) => "list-windows",
        Command::ListPanes(_) => "list-panes",
        Command::SplitWindow(_) => "split-window",
        Command::SelectPane(_) => "select-pane",
        Command::ResizePane(_) => "resize-pane",
        Command::CapturePane(_) => "capture-pane",
        Command::DisplayMessage(_) => "display-message",
        Command::SourceFile(_) => "source-file",
        Command::ShowOptions(_) => "show-options",
        Command::BindKey(_) => "bind-key",
        Command::UnbindKey(_) => "unbind-key",
        Command::KillServer => "kill-server",
        Command::StartServer => "start-server",
        Command::Version => "version",
    }
}

/// The session a `kill-session` target names: an identifier when the text
/// reads as one (`ses-` and a body), else a name.
pub fn parse_kill_target(s: &str) -> (r: KillSessionTarget)
    ensures
        match r {
            KillSessionTarget::Id(id) => id_parse_spec(SessionId::prefix_spec(), s@) is Ok && id@ == s@,
            KillSessionTarget::Name(n) => id_parse_spec(SessionId::prefix_spec(), s@) is Err && n@
                == s@,
        },
{
    let starts = str_starts_with(s, SessionId::prefix());
    if starts {
        match SessionId::parse(s) {
            Ok(id) => {
                return KillSessionTarget::Id(id);
            },
            Err(_) => {},
        }
    }
    proof {
        let p = SessionId::prefix_spec();
        if !starts && crate::ids::has_id_prefix(p, s@) {
            assert(s@.subrange(0, 3) =~= s@.subrange(0, 4).subrange(0, 3));
            assert((p + seq!['-']).subrange(0, 3) =~= p);
        }
    }
    KillSessionTarget::Name(s.to_owned())
}

/// Whether `s` begins with `p`.
pub open spec fn str_starts_with_spec(p: Seq<char>, s: Seq<char>) -> bool {
    p.len() <= s.len() && s.subrange(0, p.len() as int) == p
}

/// The message of a rejected id target: one that does not start with the
/// kind's prefix, or one that does but does not read as an identifier.
pub open spec fn id_target_error(
    command: Seq<char>,
    what: Seq<char>,
    prefix: Seq<char>,
    s: Seq<char>,
    e: IdError,
) -> Seq<char> {
    if !str_starts_with_spec(prefix, s) {
        command + " target must be a "@ + what + " id (`"@ + prefix + "-...`), got `"@ + s + "`"@
    } else {
        "invalid "@ + what + " id `"@ + s + "`: "@ + id_error_text(e)
    }
}

fn wrong_kind_message(command: &str, what: &str, prefix: &str, s: &str) -> (r: String)
    ensures
        r@ == command@ + " target must be a "@ + what@ + " id (`"@ + prefix@ + "-...`), got `"@ + s@
            + "`"@,
{
    let mut m = String::new();
    push_str(&mut m, command);
    push_str(&mut m, " target must be a ");
    push_str(&mut m, what);
    push_str(&mut m, " id (`");
    push_str(&mut m, prefix);
    push_str(&mut m, "-...`), got `");
    push_str(&mut m, s);
    push_str(&mut m, "`");
    assert(m@ =~= command@ + " target must be a "@ + what@ + " id (`"@ + prefix@ + "-...`), got `"@
        + s@ + "`"@);
    m
}

fn invalid_id_message(what: &str, s: &str, e: &IdError) -> (r: String)
    ensures
        r@ == "invalid "@ + what@ + " id `"@ + s@ + "`: "@ + id_error_text(*e),
{
    let mut m = String::new();
    push_str(&mut m, "invalid ");
    push_str(&mut m, what);
    push_str(&mut m, " id `");
    push_str(&mut m, s);
    push_str(&mut m, "`: ");
    let t = e.message();
    push_str(&mut m, t.as_str());
    assert(m@ =~= "invalid "@ + what@ + " id `"@ + s@ + "`: "@ + id_error_text(*e));
    m
}

/// Reads a `kill-pane` target, which must be a pane identifier.
pub fn parse_pane_target(s: &str) -> (r: Result<PaneId, String>)
    ensures
        match r {
            Ok(id) => id_parse_spec(PaneId::prefix_spec(), s@) == Ok::<Seq<char>, bool>(id@),
            Err(m) => id_parse_spec(PaneId::prefix_spec(), s@) is Err && exists|e: IdError|
                crate::ids::id_error_matches(
                    e,
                    PaneId::prefix_spec(),
                    s@,
                    id_parse_spec(PaneId::prefix_spec(), s@)->Err_0,
                ) && m@ == #[trigger] id_target_error(
                    "kill-pane"@,
                    "pane"@,
                    PaneId::prefix_spec(),
                    s@,
                    e,
                ),
        },
{
    let p = PaneId::prefix();
    let parsed = PaneId::parse(s);
    match parsed {
        Ok(id) => Ok(id),
        Err(e) => {
            if !str_starts_with(s, p) {
                let m = wrong_kind_message("kill-pane", "pane", p, s);
                assert(m@ == id_target_error("kill-pane"@, "pane"@, PaneId::prefix_spec(), s@, e));
                Err(m)
            } else {
                let m = invalid_id_message("pane", s, &e);
                assert(m@ == id_target_error("kill-pane"@, "pane"@, PaneId::prefix_spec(), s@, e));
                Err(m)
            }
        },
    }
}

/// Reads a `kill-window` target, which must be a window identifier.
pub fn parse_window_target(s: &str) -> (r: Result<WindowId, String>)
    ensures
        match r {
            Ok(id) => id_parse_spec(WindowId::prefix_spec(), s@) == Ok::<Seq<char>, bool>(id@),
            Err(m) => id_parse_spec(WindowId::prefix_spec(), s@) is Err && exists|e: IdError|
                crate::ids::id_error_matches(
                    e,
                    WindowId::prefix_spec(),
                    s@,
                    id_parse_spec(WindowId::prefix_spec(), s@)->Err_0,
                ) && m@ == #[trigger] id_target_error(
                    "kill-window"@,
                    "window"@,
                    WindowId::prefix_spec(),
                    s@,
                    e,
                ),
        },
{
    let p = WindowId::prefix();
    let parsed = WindowId::parse(s);
    match parsed {
        Ok(id) => Ok(id),
        Err(e) => {
            if !str_starts_with(s, p) {
                let m = wrong_kind_message("kill-window", "window", p, s);
                assert(m@ == id_target_error("kill-window"@, "window"@, WindowId::prefix_spec(), s@, e));
                Err(m)
            } else {
                let m = invalid_id_message("window", s, &e);
                assert(m@ == id_target_error("kill-window"@, "window"@, WindowId::prefix_spec(), s@, e));
                Err(m)
            }
        },
    }
}

/// The wire arguments of `send-keys`: `-t TARGET` when a target is given, then the key tokens.
pub open spec fn send_keys_args_spec(target: Option<Seq<char>>, keys: Seq<Seq<char>>) -> Seq<Seq<char>> {
    match target {
        Some(t) => seq!["-t"@, t] + keys,
        None => keys,
    }
}

/// Builds the wire arguments of `send-keys`.
pub fn send_keys_wire_args(target: Option<&str>, keys: &[String]) -> (r: Vec<String>)
    ensures
        string_views(r@) == send_keys_args_spec(
            match target {
                Some(t) => Some(t@),
                None => None,
            },
            string_views(keys@),
        ),
{
    let mut args: Vec<String> = Vec::new();
    match target {
        Some(t) => {
            args.push("-t".to_owned());
            args.push(t.to_owned());
        },
        None => {},
    }
    let ghost start = string_views(args@);
    let n = keys.len();
    let mut i: usize = 0;
    while i < n
        invariant
            n == keys@.len(),
            i <= n,
            string_views(args@) == start + string_views(keys@).take(i as int),
        decreases n - i,
    {
        let ghost before = args@;
        let k = keys[i].clone();
        args.push(k);
        assert(args@ =~= before.push(keys@[i as int]));
        assert(string_views(args@) =~= string_views(before).push(keys@[i as int]@));
        assert(string_views(keys@).take(i + 1) =~= string_views(keys@).take(i as int).push(
            keys@[i as int]@,
        ));
        assert(string_views(args@) =~= start + string_views(keys@).take(i + 1));
        i = i + 1;
    }
    assert(string_views(keys@).take(n as int) =~= string_views(keys@));
    assert(string_views(args@) =~= send_keys_args_spec(
        match target {
            Some(t) => Some(t@),
            None => None,
        },
        string_views(keys@),
    ));
    args
}

/// The shell `new-session` asks for: `--shell`, else the first word after `--`.
pub open spec fn requested_shell(args: NewSessionArgs) -> Option<Seq<char>> {
    match args.shell {
        Some(s) => Some(s@),
        None => if args.shell_argv@.len() > 0 {
            Some(args.shell_argv@[0]@)
        } else {
            None
        },
    }
}

/// The `NewSession` request of a `new-session` command: the name, the shell
/// (`--shell`, else the first word after `--`), the working directory unless
/// empty, no extra environment, and whether to stay detached.
pub fn new_session_request(args: &NewSessionArgs) -> (r: NewSessionRequest)
    ensures
        opt_view(r.name) == opt_view(args.session),
        opt_view(r.shell) == requested_shell(*args),
        opt_view(r.cwd) == match args.cwd {
            Some(c) => if c@.len() > 0 {
                Some(c@)
            } else {
                None
            },
            None => None,
        },
        r.env@ == Map::<Seq<char>, Seq<char>>::empty(),
        r.detached == args.detached,
{
    let shell = match &args.shell {
        Some(s) => Some(s.clone()),
        None => if args.shell_argv.len() > 0 {
            Some(args.shell_argv[0].clone())
        } else {
            None
        },
    };
    let cwd = match &args.cwd {
        Some(c) => if c.as_str().unicode_len() > 0 {
            Some(c.clone())
        } else {
            None
        },
        None => None,
    };
    let name = match &args.session {
        Some(n) => Some(n.clone()),
        None => None,
    };
    NewSessionRequest { name, shell, cwd, env: EnvMap::new(), detached: args.detached }
}

/// The text of a server `Error` answer: `<message> (<CODE>)`.
pub open spec fn server_error_text(message: Seq<char>, code: crate::errors::ErrorCode) -> Seq<char> {
    message + " ("@ + error_code_text(code) + ")"@
}

fn server_error_message(payload: &crate::errors::ErrorPayload) -> (r: String)
    ensures
        r@ == server_error_text(payload.message@, payload.code),
{
    let mut m = payload.message.clone();
    push_str(&mut m, " (");
    push_str(&mut m, payload.code.as_str());
    push_str(&mut m, ")");
    assert(m@ =~= server_error_text(payload.message@, payload.code));
    m
}

fn prefixed(prefix: &str, body: String) -> (r: String)
    ensures
        r@ == prefix@ + body@,
{
    let mut m = String::from_str(prefix);
    push_str(&mut m, body.as_str());
    m
}

/// Whether a text reports an unexpected answer.
pub open spec fn is_unexpected_text(m: Seq<char>) -> bool {
    exists|d: Seq<char>| m == "unexpected response: "@ + d
}

fn unexpected_message(resp: &ServerMessage) -> (r: String)
    ensures
        is_unexpected_text(r@),
{
    let d = server_message_debug(resp);
    let r = prefixed("unexpected response: ", d);
    assert(r@ == "unexpected response: "@ + d@);
    r
}

/// The outcome of `new-session` as the command line reports it.
#[derive(Debug)]
pub enum NewSessionResult {
    /// The client was attached to the new session.
    Attached {
        /// The new session.
        session_id: SessionId,
        /// The name the user asked for, if any.
        name: Option<String>,
        /// Its active window.
        active_window: crate::ids::WindowId,
        /// The panes of the active window.
        panes: Vec<PaneSummary>,
    },
    /// Created with `-d`; the server reports no identifier.
    Detached {
        /// The name the user asked for, if any.
        name: Option<String>,
    },
}

/// Reads the answer to `NewSession`: `Attached` and `Ok` are successes; an
/// `Error` becomes `server error: <message> (<CODE>)`; anything else is unexpected.
pub fn new_session_outcome(resp: ServerMessage, name: Option<String>) -> (r: Result<NewSessionResult, String>)
    ensures
        match resp {
            ServerMessage::Attached { session_id, active_window, panes, .. } => r matches Ok(
                NewSessionResult::Attached { session_id: s, name: n, active_window: w, panes: p },
            ) && s@ == session_id@ && opt_view(n) == opt_view(name) && w@ == active_window@ && p
                == panes,
            ServerMessage::Okay { .. } => r matches Ok(NewSessionResult::Detached { name: n })
                && opt_view(n) == opt_view(name),
            ServerMessage::Error { payload, .. } => r matches Err(m) && m@ == "server error: "@
                + server_error_text(payload.message@, payload.code),
            _ => r matches Err(m) && is_unexpected_text(m@),
        },
{
    match resp {
        ServerMessage::Attached { session_id, active_window, panes, .. } => Ok(
            NewSessionResult::Attached { session_id, name, active_window, panes },
        ),
        ServerMessage::Okay { .. } => Ok(NewSessionResult::Detached { name }),
        ServerMessage::Error { payload, .. } => {
            let m = server_error_message(&payload);
            Err(prefixed("server error: ", m))
        },
        other => Err(unexpected_message(&other)),
    }
}

/// Why a kill command failed.
#[derive(Debug, PartialEq, Eq)]
pub enum KillFailure {
    /// The target does not exist (exit code 3).
    NotFound(String),
    /// Any other server or wire error (exit code 1).
    Server(String),
}

/// Reads an answer to a kill request: `Ok` succeeds; an `Error` with the
/// given not-found code becomes `NotFound(shown)`; another `Error` becomes
/// `Server("<message> (<CODE>)")`; anything else is unexpected.
pub fn kill_outcome(resp: &ServerMessage, not_found: crate::errors::ErrorCode, shown: &str) -> (r: Result<(), KillFailure>)
    ensures
        match *resp {
            ServerMessage::Okay { .. } => r is Ok,
            ServerMessage::Error { payload, .. } => if payload.code == not_found {
                r matches Err(KillFailure::NotFound(t)) && t@ == shown@
            } else {
                r matches Err(KillFailure::Server(m)) && m@ == server_error_text(
                    payload.message@,
                    payload.code,
                )
            },
            _ => r matches Err(KillFailure::Server(m)) && is_unexpected_text(m@),
        },
{
    match resp {
        ServerMessage::Okay { .. } => Ok(()),
        ServerMessage::Error { payload, .. } => {
            if payload.code == not_found {
                Err(KillFailure::NotFound(shown.to_owned()))
            } else {
                Err(KillFailure::Server(server_error_message(payload)))
            }
        },
        _ => Err(KillFailure::Server(unexpected_message(resp))),
    }
}

/// Reads the answer to `send-keys`: a successful `CommandResult` succeeds; a
/// failed one gives its standard error (or `send-keys failed`); an `Error`
/// gives `<message> (<CODE>)`; anything else is unexpected.
pub fn send_keys_outcome(resp: ServerMessage) -> (r: Result<(), String>)
    ensures
        match resp {
            ServerMessage::CommandResult { result, .. } => if result.ok {
                r is Ok
            } else {
                r matches Err(m) && m@ == match result.stderr {
                    Some(e) => e@,
                    None => "send-keys failed"@,
                }
            },
            ServerMessage::Error { payload, .. } => r matches Err(m) && m@ == server_error_text(
                payload.message@,
                payload.code,
            ),
            _ => r matches Err(m) && is_unexpected_text(m@),
        },
{
    match resp {
        ServerMessage::CommandResult { result, .. } => {
            if result.ok {
                Ok(())
            } else {
                match result.stderr {
                    Some(e) => Err(e),
                    None => Err("send-keys failed".to_owned()),
                }
            }
        },
        ServerMessage::Error { payload, .. } => Err(server_error_message(&payload)),
        other => Err(unexpected_message(&other)),
    }
}

/// Reads the answer to `ListSessions`.
pub fn ls_outcome(resp: ServerMessage) -> (r: Result<Vec<SessionSummary>, String>)
    ensures
        match resp {
            ServerMessage::SessionList { sessions, .. } => r == Ok::<Vec<SessionSummary>, String>(
                sessions,
            ),
            ServerMessage::Error { payload, .. } => r matches Err(m) && m@ == "server error: "@
                + server_error_text(payload.message@, payload.code),
            _ => r matches Err(m) && is_unexpected_text(m@),
        },
{
    match resp {
        ServerMessage::SessionList { sessions, .. } => Ok(sessions),
        ServerMessage::Error { payload, .. } => {
            let m = server_error_message(&payload);
            Err(prefixed("server error: ", m))
        },
        other => Err(unexpected_message(&other)),
    }
}

/// The exit code and message of a failed kill command (`what` names the kind of target).
pub fn kill_failure_exit(f: &KillFailure, what: &str) -> (r: (u8, String))
    ensures
        match *f {
            KillFailure::NotFound(t) => r.0 == exit::TARGET_NOT_FOUND && r.1@ == what@
                + " not found: '"@ + t@ + "'"@,
            KillFailure::Server(m) => r.0 == exit::GENERAL_ERROR && r.1@ == m@,
        },
{
    match f {
        KillFailure::NotFound(t) => {
            let mut m = String::from_str(what);
            push_str(&mut m, " not found: '");
            push_str(&mut m, t.as_str());
            push_str(&mut m, "'");
            assert(m@ =~= what@ + " not found: '"@ + t@ + "'"@);
            (exit::TARGET_NOT_FOUND, m)
        },
        KillFailure::Server(m) => (exit::GENERAL_ERROR, m.clone()),
    }
}

/// One line of `ls` output: `<name>\t<windows> window(s)` and `  (attached)`
/// when a client is attached.
pub open spec fn session_line(s: SessionSummary) -> Seq<char> {
    s.name@ + "\t"@ + decimal_spec(s.windows as nat) + " "@ + (if s.windows == 1 {
        "window"@
    } else {
        "windows"@
    }) + (if s.attached_clients > 0 {
        "  (attached)"@
    } else {
        ""@
    })
}

/// The lines of human-readable `ls` output: one per session, or `(no sessions)`.
pub fn session_list_lines(sessions: &[SessionSummary]) -> (r: Vec<String>)
    ensures
        sessions@.len() == 0 ==> string_views(r@) == seq!["(no sessions)"@],
        sessions@.len() > 0 ==> r@.len() == sessions@.len() && forall|k: int|
            0 <= k < sessions@.len() ==> (#[trigger] r@[k])@ == session_line(sessions@[k]),
{
    let mut out: Vec<String> = Vec::new();
    let n = sessions.len();
    if n == 0 {
        out.push("(no sessions)".to_owned());
        assert(string_views(out@) =~= seq!["(no sessions)"@]);
        return out;
    }
    let mut i: usize = 0;
    while i < n
        invariant
            n == sessions@.len(),
            i <= n,
            out@.len() == i,
            forall|k: int| 0 <= k < i ==> (#[trigger] out@[k])@ == session_line(sessions@[k]),
        decreases n - i,
    {
        let s = &sessions[i];
        let mut line = s.name.clone();
        push_str(&mut line, "\t");
        push_decimal(&mut line, s.windows as u64);
        push_str(&mut line, " ");
        if s.windows == 1 {
            push_str(&mut line, "window");
        } else {
            push_str(&mut line, "windows");
        }
        if s.attached_clients > 0 {
            push_str(&mut line, "  (attached)");
        } else {
            push_str(&mut line, "");
        }
        assert(line@ =~= session_line(*s));
        out.push(line);
        i = i + 1;
    }
    out
}

/// The name shown for a new session: the requested one or `(unnamed)`.
pub open spec fn shown_name(name: Option<String>) -> Seq<char> {
    match name {
        Some(n) => n@,
        None => "(unnamed)"@,
    }
}

/// The lines of human-readable `new-session` output (none when quiet):
/// `created session '<name>' (<id>)` and the first pane with its size, or
/// `created session '<name>' (detached)`.
pub open spec fn new_session_lines_spec(result: NewSessionResult) -> Seq<Seq<char>> {
    match result {
        NewSessionResult::Attached { session_id, name, panes, .. } => {
            let first = "created session '"@ + shown_name(name) + "' ("@ + session_id@ + ")"@;
            if panes@.len() > 0 {
                let p = panes@[0];
                seq![
                    first,
                    "  pane "@ + p.id@ + " ("@ + decimal_spec(p.size.rows as nat) + "x"@
                        + decimal_spec(p.size.cols as nat) + ")"@,
                ]
            } else {
                seq![first]
            }
        },
        NewSessionResult::Detached { name } => seq![
            "created session '"@ + shown_name(name) + "' (detached)"@,
        ],
    }
}

/// Human-readable `new-session` output.
pub fn new_session_lines(result: &NewSessionResult, quiet: bool) -> (r: Vec<String>)
    ensures
        quiet ==> r@.len() == 0,
        !quiet ==> string_views(r@) == new_session_lines_spec(*result),
{
    let mut out: Vec<String> = Vec::new();
    if quiet {
        return out;
    }
    match result {
        NewSessionResult::Attached { session_id, name, panes, .. } => {
            let mut first = String::from_str("created session '");
            match name {
                Some(n) => push_str(&mut first, n.as_str()),
                None => push_str(&mut first, "(unnamed)"),
            }
            push_str(&mut first, "' (");
            push_str(&mut first, session_id.as_str());
            push_str(&mut first, ")");
            out.push(first);
            if panes.len() > 0 {
                let p = &panes[0];
                let mut line = String::from_str("  pane ");
                push_str(&mut line, p.id.as_str());
                push_str(&mut line, " (");
                push_decimal(&mut line, p.size.rows as u64);
                push_str(&mut line, "x");
                push_decimal(&mut line, p.size.cols as u64);
                push_str(&mut line, ")");
                out.push(line);
            }
        },
        NewSessionResult::Detached { name } => {
            let mut first = String::from_str("created session '");
            match name {
                Some(n) => push_str(&mut first, n.as_str()),
                None => push_str(&mut first, "(unnamed)"),
            }
            push_str(&mut first, "' (detached)");
            out.push(first);
        },
    }
    assert(string_views(out@) =~= new_session_lines_spec(*result));
    out
}

/// The lines of human-readable `version` output: the program's version, the
/// server's (or that it is unknown, when none answered) and the protocol's.
pub open spec fn version_lines_spec(cli_version: Seq<char>, server: Option<Seq<char>>) -> Seq<Seq<char>> {
    seq![
        "winmux "@ + cli_version,
        match server {
            Some(s) => "server "@ + s,
            None => "server unknown (not running)"@,
        },
        "protocol v"@ + decimal_spec(PROTOCOL_VERSION as nat),
    ]
}

/// Human-readable `version` output.
pub fn version_lines(cli_version: &str, server: Option<&str>) -> (r: Vec<String>)
    ensures
        string_views(r@) == version_lines_spec(
            cli_version@,
            match server {
                Some(s) => Some(s@),
                None => None,
            },
        ),
{
    let mut out: Vec<String> = Vec::new();
    let mut first = String::from_str("winmux ");
    push_str(&mut first, cli_version);
    out.push(first);
    match server {
        Some(s) => {
            let mut line = String::from_str("server ");
            push_str(&mut line, s);
            out.push(line);
        },
        None => out.push("server unknown (not running)".to_owned()),
    }
    let mut last = String::from_str("protocol v");
    push_decimal(&mut last, PROTOCOL_VERSION as u64);
    out.push(last);
    assert(string_views(out@) =~= version_lines_spec(
        cli_version@,
        match server {
            Some(s) => Some(s@),
            None => None,
        },
    ));
    out
}

/// The exit code and message of a subcommand that is read but not served yet.
pub fn unimplemented_stub(name: &str) -> (r: (u8, String))
    ensures
        r.0 == exit::GENERAL_ERROR,
        r.1@ == "`"@ + name@ + "` is parsed but not yet wired to the server in this build"@,
{
    let mut m = String::from_str("`");
    push_str(&mut m, name);
    push_str(&mut m, "` is parsed but not yet wired to the server in this build");
    (exit::GENERAL_ERROR, m)
}

/// Whether `(code, text)` is what a read-only command reports when its one
/// connection attempt failed, for some text of an I/O error.
pub open spec fn is_read_only_connect_failure(e: ConnectError, code: u8, text: Seq<char>) -> bool {
    if e is NotRunning {
        code == exit::NO_SERVER && text == "server is not running"@
    } else {
        code == exit::GENERAL_ERROR && exists|io_text: Seq<char>|
            text == "connect failed: "@ + #[trigger] connect_error_text(e, io_text)
    }
}

/// The exit code and message of a read-only command (one that never starts
/// the server) whose connection attempt failed: a missing server exits 2,
/// any other failure 1 with the connection error's text.
pub fn read_only_connect_failure(e: &ConnectError) -> (r: (u8, String))
    ensures
        is_read_only_connect_failure(*e, r.0, r.1@),
{
    match e {
        ConnectError::NotRunning(_) => (exit::NO_SERVER, "server is not running".to_owned()),
        _ => {
            let t = e.message();
            let ghost io = choose|io_text: Seq<char>| t@ == connect_error_text(*e, io_text);
            let mut m = String::from_str("connect failed: ");
            push_str(&mut m, t.as_str());
            assert(m@ == "connect failed: "@ + connect_error_text(*e, io));
            (exit::GENERAL_ERROR, m)
        },
    }
}

} // verus!
