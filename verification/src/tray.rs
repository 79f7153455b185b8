//! The tray's side of the wire: how the webview's commands become requests,
//! how answers become results or errors, and where each server message goes.
use vstd::prelude::*;

use crate::errors::{error_code_text, ErrorPayload};
use crate::ids::{MessageId, PaneId, SessionId, WindowId};
use crate::messages::{
    response_id, response_id_spec, server_message_debug, AttachTarget, KillSessionTarget, PaneSnapshot,
    ServerMessage,
};
use crate::session::opt_view;
use crate::text::push_str;
use crate::types::{EnvMap, NewSessionRequest, PaneSummary, WindowSummary};

verus! {

/// The state of the tray's connection, as the webview is told.
#[derive(Clone, Debug)]
pub enum ServerStatus {
    /// Connecting; the handshake has not completed.
    Connecting,
    /// The handshake completed.
    Connected {
        /// The server's build version.
        server_version: String,
        /// The user name the server verified.
        user: String,
    },
    /// The connection ended.
    Disconnected {
        /// Why, in one line.
        reason: String,
    },
}

/// Terminal output for the webview.
#[derive(Debug)]
pub struct PtyOutputPayload {
    /// The pane it came from.
    pub pane_id: PaneId,
    /// The raw bytes in base64.
    pub bytes_base64: String,
}

/// The result of attaching, for the webview.
#[derive(Debug)]
pub struct AttachOutcome {
    /// The attached session.
    pub session_id: SessionId,
    /// Its active window.
    pub active_window: WindowId,
    /// Its windows.
    pub windows: Vec<WindowSummary>,
    /// The panes of the active window.
    pub panes: Vec<PaneSummary>,
    /// The panes' screens.
    pub initial_snapshots: Vec<PaneSnapshot>,
}

/// An error returned to the webview.
#[derive(Debug)]
pub struct CommandError {
    /// Human-readable message.
    pub message: String,
    /// The server's error code, when the server reported the error.
    pub code: Option<String>,
    /// Whether the connection can still be used.
    pub recoverable: bool,
}

impl CommandError {
    /// An error of the tray itself: no server code, recoverable.
    pub fn from_message(message: String) -> (r: Self)
        ensures
            r.message == message,
            r.code is None,
            r.recoverable,
    {
        CommandError { message, code: None, recoverable: true }
    }
}

#[verifier::external_type_specification]
#[verifier::external_body]
pub struct ExAnyhowError(anyhow::Error);

/// The text of an `anyhow` error with its causes (`{:#}`).
///
/// Trusted: `format!` of the error; nothing is stated of the text.
#[verifier::external_body]
fn anyhow_text(e: &anyhow::Error) -> String {
    format!("{e:#}")
}

impl From<anyhow::Error> for CommandError {
    /// The error's text with its causes, no server code, recoverable.
    fn from(e: anyhow::Error) -> (r: Self)
        ensures
            r.code is None,
            r.recoverable,
    {
        CommandError::from_message(anyhow_text(&e))
    }
}

impl vstd::std_specs::convert::FromSpecImpl<anyhow::Error> for CommandError {
    open spec fn obeys_from_spec() -> bool {
        false
    }

    open spec fn from_spec(e: anyhow::Error) -> CommandError {
        CommandError { message: vstd::pervasive::arbitrary(), code: None, recoverable: true }
    }
}

/// The error a server `Error` answer becomes: its message, its code's text and its recoverability.
pub fn error_from_server(payload: ErrorPayload) -> (r: CommandError)
    ensures
        r.message@ == payload.message@,
        opt_view(r.code) == Some(error_code_text(payload.code)),
        r.recoverable == payload.recoverable,
{
    CommandError {
        message: payload.message,
        code: Some(payload.code.as_str().to_owned()),
        recoverable: payload.recoverable,
    }
}

/// The error an unexpected answer becomes: `unexpected server response: …`, no code, recoverable.
pub fn unexpected(msg: ServerMessage) -> (r: CommandError)
    ensures
        exists|d: Seq<char>| r.message@ == "unexpected server response: "@ + d,
        r.code is None,
        r.recoverable,
{
    let d = server_message_debug(&msg);
    let mut m = String::from_str("unexpected server response: ");
    push_str(&mut m, d.as_str());
    assert(m@ == "unexpected server response: "@ + d@);
    CommandError::from_message(m)
}

/// A session as the webview names it.
#[derive(Debug)]
pub enum SessionRef {
    /// By name.
    Name {
        /// The session's name.
        name: String,
    },
    /// By identifier.
    Id {
        /// The session's id.
        id: SessionId,
    },
}

impl SessionRef {
    /// The attach target naming the same session.
    pub fn into_attach_target(self) -> (r: AttachTarget)
        ensures
            match self {
                SessionRef::Name { name } => r == AttachTarget::Name(name),
                SessionRef::Id { id } => r == (AttachTarget::Id { id }),
            },
    {
        match self {
            SessionRef::Name { name } => AttachTarget::Name(name),
            SessionRef::Id { id } => AttachTarget::Id { id },
        }
    }

    /// The kill target naming the same session.
    pub fn into_kill_target(self) -> (r: KillSessionTarget)
        ensures
            match self {
                SessionRef::Name { name } => r == KillSessionTarget::Name(name),
                SessionRef::Id { id } => r == KillSessionTarget::Id(id),
            },
    {
        match self {
            SessionRef::Name { name } => KillSessionTarget::Name(name),
            SessionRef::Id { id } => KillSessionTarget::Id(id),
        }
    }
}

/// The webview's `NewSession` arguments.
#[derive(Debug)]
pub struct NewSessionArgs {
    /// Session name (the server picks `untitled-N` when absent).
    pub name: Option<String>,
    /// Shell path or alias.
    pub shell: Option<String>,
    /// Working directory of the first pane.
    pub cwd: Option<String>,
    /// Extra environment variables.
    pub env: EnvMap,
    /// `true`: create without attaching.
    pub detached: bool,
}

impl NewSessionArgs {
    /// The `NewSession` request with the same fields.
    pub fn into_request(self) -> (r: NewSessionRequest)
        ensures
            r.name == self.name,
            r.shell == self.shell,
            r.cwd == self.cwd,
            r.env == self.env,
            r.detached == self.detached,
    {
        NewSessionRequest {
            name: self.name,
            shell: self.shell,
            cwd: self.cwd,
            env: self.env,
            detached: self.detached,
        }
    }
}

/// The webview's `Attach` arguments.
#[derive(Debug)]
pub struct AttachArgs {
    /// The session.
    pub session: SessionRef,
    /// The client's rows.
    pub rows: u16,
    /// The client's columns.
    pub cols: u16,
}

/// Reads an answer that only acknowledges (`Pong` for `Ping`, `Ok` for the
/// others): that answer succeeds, an `Error` becomes the server's error, and
/// anything else is unexpected.
pub fn ack_outcome(resp: ServerMessage, pong: bool) -> (r: Result<(), CommandError>)
    ensures
        match resp {
            ServerMessage::Pong { .. } => pong ==> r is Ok,
            ServerMessage::Okay { .. } => !pong ==> r is Ok,
            ServerMessage::Error { payload, .. } => r matches Err(e) && e.message@ == payload.message@
                && opt_view(e.code) == Some(error_code_text(payload.code)) && e.recoverable
                == payload.recoverable,
            _ => r matches Err(e) && e.code is None,
        },
        (resp is Pong && !pong) || (resp is Okay && pong) ==> (r matches Err(e) && e.code is None),
{
    match resp {
        ServerMessage::Pong { .. } => {
            if pong {
                Ok(())
            } else {
                Err(unexpected(resp))
            }
        },
        ServerMessage::Okay { .. } => {
            if !pong {
                Ok(())
            } else {
                Err(unexpected(resp))
            }
        },
        ServerMessage::Error { payload, .. } => Err(error_from_server(payload)),
        other => Err(unexpected(other)),
    }
}

/// Reads the answer to `ListSessions`.
pub fn list_outcome(resp: ServerMessage) -> (r: Result<Vec<crate::types::SessionSummary>, CommandError>)
    ensures
        match resp {
            ServerMessage::SessionList { sessions, .. } => r == Ok::<
                Vec<crate::types::SessionSummary>,
                CommandError,
            >(sessions),
            ServerMessage::Error { payload, .. } => r matches Err(e) && e.message@ == payload.message@
                && opt_view(e.code) == Some(error_code_text(payload.code)) && e.recoverable
                == payload.recoverable,
            _ => r matches Err(e) && e.code is None,
        },
{
    match resp {
        ServerMessage::SessionList { sessions, .. } => Ok(sessions),
        ServerMessage::Error { payload, .. } => Err(error_from_server(payload)),
        other => Err(unexpected(other)),
    }
}

/// Reads an answer to `Attach` or `NewSession`: `Attached` gives the
/// outcome; for `NewSession` (`detached_ok`) an `Ok` gives none; an `Error`
/// becomes the server's error; anything else is unexpected.
pub fn attach_outcome(resp: ServerMessage, detached_ok: bool) -> (r: Result<Option<AttachOutcome>, CommandError>)
    ensures
        match resp {
            ServerMessage::Attached { session_id, active_window, windows, panes, initial_snapshots, .. } => r
                matches Ok(Some(o)) && o.session_id == session_id && o.active_window == active_window
                && o.windows == windows && o.panes == panes && o.initial_snapshots == initial_snapshots,
            ServerMessage::Okay { .. } => if detached_ok {
                r matches Ok(None)
            } else {
                r matches Err(e) && e.code is None
            },
            ServerMessage::Error { payload, .. } => r matches Err(e) && e.message@ == payload.message@
                && opt_view(e.code) == Some(error_code_text(payload.code)) && e.recoverable
                == payload.recoverable,
            _ => r matches Err(e) && e.code is None,
        },
{
    match resp {
        ServerMessage::Attached { session_id, active_window, windows, panes, initial_snapshots, .. } => Ok(
            Some(AttachOutcome { session_id, active_window, windows, panes, initial_snapshots }),
        ),
        ServerMessage::Okay { .. } => {
            if detached_ok {
                Ok(None)
            } else {
                Err(unexpected(resp))
            }
        },
        ServerMessage::Error { payload, .. } => Err(error_from_server(payload)),
        other => Err(unexpected(other)),
    }
}

/// The connection state after the answer to the tray's `Hello`.
pub fn hello_status(ack: ServerMessage) -> (r: ServerStatus)
    ensures
        match ack {
            ServerMessage::HelloAck { server_version, user, .. } => r matches ServerStatus::Connected {
                server_version: sv,
                user: u,
            } && sv == server_version && u == user,
            ServerMessage::Error { payload, .. } => r matches ServerStatus::Disconnected { reason }
                && reason == payload.message,
            _ => r matches ServerStatus::Disconnected { reason } && reason@ == "unexpected HelloAck"@,
        },
{
    match ack {
        ServerMessage::HelloAck { server_version, user, .. } => ServerStatus::Connected { server_version, user },
        ServerMessage::Error { payload, .. } => ServerStatus::Disconnected { reason: payload.message },
        _ => ServerStatus::Disconnected { reason: "unexpected HelloAck".to_owned() },
    }
}

/// Where a message from the server goes.
#[derive(Debug)]
pub enum Route {
    /// Terminal output, to the webview.
    PtyOutput(PtyOutputPayload),
    /// A pushed event, to the webview.
    Event(ServerMessage),
    /// The server is going away.
    Bye,
    /// The answer to the request with this id.
    Response(MessageId, ServerMessage),
    /// An answer that names no request.
    Unmatched(ServerMessage),
}

/// Whether a server message is a pushed event.
pub open spec fn is_event(m: ServerMessage) -> bool {
    ||| m is PaneExited
    ||| m is WindowClosed
    ||| m is SessionRenamed
    ||| m is PaneTitleChanged
    ||| m is AlertBell
    ||| m is PaneCursorVisibility
}

/// Whether `r` is where a message from the server goes: its output and its
/// pushed events to the webview, its goodbye, and answers to the request
/// whose id they carry.
pub open spec fn routed_as(msg: ServerMessage, r: Route) -> bool {
    match msg {
        ServerMessage::PtyOutput { pane_id, bytes_base64, .. } => r matches Route::PtyOutput(p)
            && p.pane_id == pane_id && p.bytes_base64 == bytes_base64,
        ServerMessage::ServerBye { .. } => r is Bye,
        _ => if is_event(msg) {
            r == Route::Event(msg)
        } else {
            match response_id_spec(msg) {
                Some(id) => r matches Route::Response(i, m) && i@ == id@ && m == msg,
                None => r == Route::Unmatched(msg),
            }
        },
    }
}

/// Law: every event the server pushes (a pane's shell exited, a window
/// closed, a session renamed, a pane's title changed, a bell, the cursor
/// shown or hidden) goes to the webview as an event; none is dropped.
pub proof fn lemma_pushed_events_reach_the_webview(msg: ServerMessage, r: Route)
    requires
        routed_as(msg, r),
        msg is PaneExited || msg is WindowClosed || msg is SessionRenamed || msg is PaneTitleChanged
            || msg is AlertBell || msg is PaneCursorVisibility,
    ensures
        r == Route::Event(msg),
{
}

/// Routes a message from the server: output and events to the webview, the
/// server's goodbye, and answers to the request whose id they carry.
pub fn route_server_message(msg: ServerMessage) -> (r: Route)
    ensures
        routed_as(msg, r),
        msg is PaneExited ==> r == Route::Event(msg),
        msg is WindowClosed ==> r == Route::Event(msg),
        msg is SessionRenamed ==> r == Route::Event(msg),
        msg is PaneTitleChanged ==> r == Route::Event(msg),
        msg is AlertBell ==> r == Route::Event(msg),
        msg is PaneCursorVisibility ==> r == Route::Event(msg),
{
    match msg {
        ServerMessage::PtyOutput { pane_id, bytes_base64, .. } => Route::PtyOutput(
            PtyOutputPayload { pane_id, bytes_base64 },
        ),
        ServerMessage::PaneExited { .. }
        | ServerMessage::WindowClosed { .. }
        | ServerMessage::SessionRenamed { .. }
        | ServerMessage::PaneTitleChanged { .. }
        | ServerMessage::AlertBell { .. }
        | ServerMessage::PaneCursorVisibility { .. } => Route::Event(msg),
        ServerMessage::ServerBye { .. } => Route::Bye,
        _ => {
            let id = match response_id(&msg) {
                Some(id) => Some(id.clone()),
                None => None,
            };
            match id {
                Some(id) => Route::Response(id, msg),
                None => Route::Unmatched(msg),
            }
        },
    }
}

/// Why the tray's connection ended.
#[derive(Debug)]
pub enum Disconnect {
    /// Reaching the server, sending `Hello` or reading its answer failed, with the failure's text.
    Failed(String),
    /// The server did not answer `Hello` in time.
    HelloTimedOut,
    /// The server closed the pipe.
    PipeClosed,
}

/// The reason the webview is shown for an ended connection.
pub open spec fn disconnect_reason(why: Disconnect) -> Seq<char> {
    match why {
        Disconnect::Failed(t) => t@,
        Disconnect::HelloTimedOut => "HelloAck timed out"@,
        Disconnect::PipeClosed => "pipe closed"@,
    }
}

/// The status of an ended connection.
pub fn disconnected_status(why: Disconnect) -> (r: ServerStatus)
    ensures
        r matches ServerStatus::Disconnected { reason } && reason@ == disconnect_reason(why),
{
    let reason = match why {
        Disconnect::Failed(t) => t,
        Disconnect::HelloTimedOut => "HelloAck timed out".to_owned(),
        Disconnect::PipeClosed => "pipe closed".to_owned(),
    };
    ServerStatus::Disconnected { reason }
}

} // verus!
