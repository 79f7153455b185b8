//! The v1 message catalogue: client-to-server and server-to-client messages.
//!
//! Every wire message is an object `{ "v": 1, "type": "<Name>", ... }`; the
//! library holds them as two enums, one per direction.
use vstd::prelude::*;

use crate::errors::ErrorPayload;
use crate::ids::{MessageId, PaneId, SessionId, WindowId};
use crate::types::{
    ClientKind, CommandRequest, CommandResultPayload, NewSessionRequest, PaneSize, PaneSummary,
    SelectDirection, SessionSummary, SplitDirection, WindowSummary,
};

verus! {

/// How `Attach` (and `NewWindow`) name a session: by name or by exact id.
#[derive(Debug, PartialEq, Eq)]
pub enum AttachTarget {
    /// Name the user gave.
    Name(String),
    /// Exact session id.
    Id {
        /// Session identifier.
        id: SessionId,
    },
}

/// How `KillSession` names a session.
#[derive(Debug, PartialEq, Eq)]
pub enum KillSessionTarget {
    /// By name.
    Name(String),
    /// By id.
    Id(SessionId),
}

/// Initial screen of one pane in an attach answer (escape sequences in base64).
#[derive(Debug, PartialEq, Eq)]
pub struct PaneSnapshot {
    /// The pane.
    pub pane_id: PaneId,
    /// The screen bytes in base64.
    pub bytes_base64: String,
}

/// Client-to-server message.
#[derive(Debug, PartialEq, Eq)]
pub enum ClientMessage {
    /// Mandatory first message: the client introduces itself.
    Hello {
        /// Protocol version.
        v: u32,
        /// Correlation id.
        id: MessageId,
        /// Kind of client.
        client: ClientKind,
        /// Operating-system process id.
        pid: u32,
        /// Client build version.
        version: String,
    },
    /// Health check; answered by `Pong`.
    Ping {
        /// Protocol version.
        v: u32,
        /// Correlation id.
        id: MessageId,
    },
    /// Clean goodbye; not answered.
    Bye {
        /// Protocol version.
        v: u32,
    },
    /// List every session.
    ListSessions {
        /// Protocol version.
        v: u32,
        /// Correlation id.
        id: MessageId,
    },
    /// Create a session; answered by `Attached`, `Ok` or `Error`.
    NewSession {
        /// Protocol version.
        v: u32,
        /// Correlation id.
        id: MessageId,
        /// Request details.
        request: NewSessionRequest,
    },
    /// Attach to an existing session.
    Attach {
        /// Protocol version.
        v: u32,
        /// Correlation id.
        id: MessageId,
        /// Session to attach.
        session: AttachTarget,
        /// Client's current size.
        client_size: PaneSize,
    },
    /// Detach.
    Detach {
        /// Protocol version.
        v: u32,
        /// Correlation id.
        id: MessageId,
    },
    /// End a session.
    KillSession {
        /// Protocol version.
        v: u32,
        /// Correlation id.
        id: MessageId,
        /// Session to end.
        session: KillSessionTarget,
    },
    /// Create a window.
    NewWindow {
        /// Protocol version.
        v: u32,
        /// Correlation id.
        id: MessageId,
        /// Session that gets the window.
        session: AttachTarget,
        /// Shell alias or path; the session default when absent.
        shell: Option<String>,
    },
    /// Split a pane.
    SplitPane {
        /// Protocol version.
        v: u32,
        /// Correlation id.
        id: MessageId,
        /// Pane to split.
        pane_id: PaneId,
        /// Split direction.
        direction: SplitDirection,
        /// Size of the new pane in percent (50 when absent).
        percentage: Option<u8>,
    },
    /// End a pane.
    KillPane {
        /// Protocol version.
        v: u32,
        /// Correlation id.
        id: MessageId,
        /// Pane to end.
        pane_id: PaneId,
    },
    /// End a window.
    KillWindow {
        /// Protocol version.
        v: u32,
        /// Correlation id.
        id: MessageId,
        /// Window to end.
        window_id: WindowId,
    },
    /// Resize a pane.
    Resize {
        /// Protocol version.
        v: u32,
        /// Correlation id.
        id: MessageId,
        /// Pane.
        pane_id: PaneId,
        /// New rows.
        rows: u16,
        /// New columns.
        cols: u16,
    },
    /// Change the active pane.
    SelectPane {
        /// Protocol version.
        v: u32,
        /// Correlation id.
        id: MessageId,
        /// Direction.
        direction: SelectDirection,
    },
    /// Change the active window.
    SelectWindow {
        /// Protocol version.
        v: u32,
        /// Correlation id.
        id: MessageId,
        /// Direction.
        direction: SelectDirection,
    },
    /// Run a tmux-equivalent command.
    Command {
        /// Protocol version.
        v: u32,
        /// Correlation id.
        id: MessageId,
        /// Command payload.
        request: CommandRequest,
    },
    /// Streamed key input; no answer and no id.
    PtyInput {
        /// Protocol version.
        v: u32,
        /// Target pane.
        pane_id: PaneId,
        /// Raw bytes in base64.
        bytes_base64: String,
    },
}

/// The protocol version a message carries.
pub open spec fn client_message_version(m: ClientMessage) -> u32 {
    match m {
        ClientMessage::Hello { v, .. } => v,
        ClientMessage::Ping { v, .. } => v,
        ClientMessage::Bye { v, .. } => v,
        ClientMessage::ListSessions { v, .. } => v,
        ClientMessage::NewSession { v, .. } => v,
        ClientMessage::Attach { v, .. } => v,
        ClientMessage::Detach { v, .. } => v,
        ClientMessage::KillSession { v, .. } => v,
        ClientMessage::NewWindow { v, .. } => v,
        ClientMessage::SplitPane { v, .. } => v,
        ClientMessage::KillPane { v, .. } => v,
        ClientMessage::KillWindow { v, .. } => v,
        ClientMessage::Resize { v, .. } => v,
        ClientMessage::SelectPane { v, .. } => v,
        ClientMessage::SelectWindow { v, .. } => v,
        ClientMessage::Command { v, .. } => v,
        ClientMessage::PtyInput { v, .. } => v,
    }
}

impl ClientMessage {
    /// The protocol version this message announced.
    pub fn protocol_version(&self) -> (r: u32)
        ensures
            r == client_message_version(*self),
    {
        match self {
            ClientMessage::Hello { v, .. } => *v,
            ClientMessage::Ping { v, .. } => *v,
            ClientMessage::Bye { v, .. } => *v,
            ClientMessage::ListSessions { v, .. } => *v,
            ClientMessage::NewSession { v, .. } => *v,
            ClientMessage::Attach { v, .. } => *v,
            ClientMessage::Detach { v, .. } => *v,
            ClientMessage::KillSession { v, .. } => *v,
            ClientMessage::NewWindow { v, .. } => *v,
            ClientMessage::SplitPane { v, .. } => *v,
            ClientMessage::KillPane { v, .. } => *v,
            ClientMessage::KillWindow { v, .. } => *v,
            ClientMessage::Resize { v, .. } => *v,
            ClientMessage::SelectPane { v, .. } => *v,
            ClientMessage::SelectWindow { v, .. } => *v,
            ClientMessage::Command { v, .. } => *v,
            ClientMessage::PtyInput { v, .. } => *v,
        }
    }
}

/// Server-to-client message. Push events are variants of their own.
#[derive(Debug, PartialEq, Eq)]
pub enum ServerMessage {
    /// Answer to `Hello`.
    HelloAck {
        /// Protocol version.
        v: u32,
        /// Id of the request.
        id: MessageId,
        /// Server build version.
        server_version: String,
        /// Verified user name.
        user: String,
    },
    /// Answer to `Ping`.
    Pong {
        /// Protocol version.
        v: u32,
        /// Id of the request.
        id: MessageId,
    },
    /// Goodbye before the server stops.
    ServerBye {
        /// Protocol version.
        v: u32,
    },
    /// Answer to `ListSessions`.
    SessionList {
        /// Protocol version.
        v: u32,
        /// Id of the request.
        id: MessageId,
        /// Session summaries.
        sessions: Vec<SessionSummary>,
    },
    /// Successful answer to `Attach` or `NewSession`.
    Attached {
        /// Protocol version.
        v: u32,
        /// Id of the request.
        id: MessageId,
        /// Attached session.
        session_id: SessionId,
        /// Active window.
        active_window: WindowId,
        /// Window summaries.
        windows: Vec<WindowSummary>,
        /// Panes of the active window.
        panes: Vec<PaneSummary>,
        /// Initial screen of each pane.
        initial_snapshots: Vec<PaneSnapshot>,
    },
    /// Result of a `Command`.
    CommandResult {
        /// Protocol version.
        v: u32,
        /// Id of the request.
        id: MessageId,
        /// Result payload.
        result: CommandResultPayload,
    },
    /// Plain success for commands with only side effects (wire `type` `Ok`).
    Okay {
        /// Protocol version.
        v: u32,
        /// Id of the request.
        id: MessageId,
    },
    /// Streamed terminal output, sent to every attached client.
    PtyOutput {
        /// Protocol version.
        v: u32,
        /// Source pane.
        pane_id: PaneId,
        /// Raw bytes in base64.
        bytes_base64: String,
    },
    /// The shell of a pane exited.
    PaneExited {
        /// Protocol version.
        v: u32,
        /// The pane.
        pane_id: PaneId,
        /// Exit code of the shell.
        exit_code: i32,
    },
    /// A window closed.
    WindowClosed {
        /// Protocol version.
        v: u32,
        /// The window.
        window_id: WindowId,
    },
    /// A session was renamed.
    SessionRenamed {
        /// Protocol version.
        v: u32,
        /// The session.
        session_id: SessionId,
        /// New name.
        name: String,
    },
    /// A pane title changed (OSC 0/2).
    PaneTitleChanged {
        /// Protocol version.
        v: u32,
        /// The pane.
        pane_id: PaneId,
        /// New title.
        title: String,
    },
    /// A pane rang the bell.
    AlertBell {
        /// Protocol version.
        v: u32,
        /// The pane.
        pane_id: PaneId,
    },
    /// The terminal cursor was shown or hidden (DECTCEM); sent only on a change.
    PaneCursorVisibility {
        /// Protocol version.
        v: u32,
        /// The pane.
        pane_id: PaneId,
        /// Whether the cursor is shown.
        visible: bool,
    },
    /// Error answer.
    Error {
        /// Protocol version.
        v: u32,
        /// Error payload.
        payload: ErrorPayload,
    },
}

/// The protocol version a message carries.
pub open spec fn server_message_version(m: ServerMessage) -> u32 {
    match m {
        ServerMessage::HelloAck { v, .. } => v,
        ServerMessage::Pong { v, .. } => v,
        ServerMessage::ServerBye { v, .. } => v,
        ServerMessage::SessionList { v, .. } => v,
        ServerMessage::Attached { v, .. } => v,
        ServerMessage::CommandResult { v, .. } => v,
        ServerMessage::Okay { v, .. } => v,
        ServerMessage::PtyOutput { v, .. } => v,
        ServerMessage::PaneExited { v, .. } => v,
        ServerMessage::WindowClosed { v, .. } => v,
        ServerMessage::SessionRenamed { v, .. } => v,
        ServerMessage::PaneTitleChanged { v, .. } => v,
        ServerMessage::AlertBell { v, .. } => v,
        ServerMessage::PaneCursorVisibility { v, .. } => v,
        ServerMessage::Error { v, .. } => v,
    }
}

impl ServerMessage {
    /// The protocol version this message announced.
    pub fn protocol_version(&self) -> (r: u32)
        ensures
            r == server_message_version(*self),
    {
        match self {
            ServerMessage::HelloAck { v, .. } => *v,
            ServerMessage::Pong { v, .. } => *v,
            ServerMessage::ServerBye { v, .. } => *v,
            ServerMessage::SessionList { v, .. } => *v,
            ServerMessage::Attached { v, .. } => *v,
            ServerMessage::CommandResult { v, .. } => *v,
            ServerMessage::Okay { v, .. } => *v,
            ServerMessage::PtyOutput { v, .. } => *v,
            ServerMessage::PaneExited { v, .. } => *v,
            ServerMessage::WindowClosed { v, .. } => *v,
            ServerMessage::SessionRenamed { v, .. } => *v,
            ServerMessage::PaneTitleChanged { v, .. } => *v,
            ServerMessage::AlertBell { v, .. } => *v,
            ServerMessage::PaneCursorVisibility { v, .. } => *v,
            ServerMessage::Error { v, .. } => *v,
        }
    }
}

/// The wire `type` name of a message.
pub open spec fn client_message_type(m: ClientMessage) -> Seq<char> {
    match m {
        ClientMessage::Hello { .. } => "Hello"@,
        ClientMessage::Ping { .. } => "Ping"@,
        ClientMessage::Bye { .. } => "Bye"@,
        ClientMessage::ListSessions { .. } => "ListSessions"@,
        ClientMessage::NewSession { .. } => "NewSession"@,
        ClientMessage::Attach { .. } => "Attach"@,
        ClientMessage::Detach { .. } => "Detach"@,
        ClientMessage::KillSession { .. } => "KillSession"@,
        ClientMessage::NewWindow { .. } => "NewWindow"@,
        ClientMessage::SplitPane { .. } => "SplitPane"@,
        ClientMessage::KillPane { .. } => "KillPane"@,
        ClientMessage::KillWindow { .. } => "KillWindow"@,
        ClientMessage::Resize { .. } => "Resize"@,
        ClientMessage::SelectPane { .. } => "SelectPane"@,
        ClientMessage::SelectWindow { .. } => "SelectWindow"@,
        ClientMessage::Command { .. } => "Command"@,
        ClientMessage::PtyInput { .. } => "PtyInput"@,
    }
}

/// The `type` name of a client message (safe to log: it holds no payload).
pub fn message_type_name(msg: &ClientMessage) -> (r: &'static str)
    ensures
        r@ == client_message_type(*msg),
{
    match msg {
        ClientMessage::Hello { .. } => "Hello",
        ClientMessage::Ping { .. } => "Ping",
        ClientMessage::Bye { .. } => "Bye",
        ClientMessage::ListSessions { .. } => "ListSessions",
        ClientMessage::NewSession { .. } => "NewSession",
        ClientMessage::Attach { .. } => "Attach",
        ClientMessage::Detach { .. } => "Detach",
        ClientMessage::KillSession { .. } => "KillSession",
        ClientMessage::NewWindow { .. } => "NewWindow",
        ClientMessage::SplitPane { .. } => "SplitPane",
        ClientMessage::KillPane { .. } => "KillPane",
        ClientMessage::KillWindow { .. } => "KillWindow",
        ClientMessage::Resize { .. } => "Resize",
        ClientMessage::SelectPane { .. } => "SelectPane",
        ClientMessage::SelectWindow { .. } => "SelectWindow",
        ClientMessage::Command { .. } => "Command",
        ClientMessage::PtyInput { .. } => "PtyInput",
    }
}

/// The wire `type` name of a message.
pub open spec fn server_message_type_spec(m: ServerMessage) -> Seq<char> {
    match m {
        ServerMessage::HelloAck { .. } => "HelloAck"@,
        ServerMessage::Pong { .. } => "Pong"@,
        ServerMessage::ServerBye { .. } => "ServerBye"@,
        ServerMessage::SessionList { .. } => "SessionList"@,
        ServerMessage::Attached { .. } => "Attached"@,
        ServerMessage::CommandResult { .. } => "CommandResult"@,
        ServerMessage::Okay { .. } => "Ok"@,
        ServerMessage::PtyOutput { .. } => "PtyOutput"@,
        ServerMessage::PaneExited { .. } => "PaneExited"@,
        ServerMessage::WindowClosed { .. } => "WindowClosed"@,
        ServerMessage::SessionRenamed { .. } => "SessionRenamed"@,
        ServerMessage::PaneTitleChanged { .. } => "PaneTitleChanged"@,
        ServerMessage::AlertBell { .. } => "AlertBell"@,
        ServerMessage::PaneCursorVisibility { .. } => "PaneCursorVisibility"@,
        ServerMessage::Error { .. } => "Error"@,
    }
}

/// The `type` name of a server message (safe to log: it holds no payload).
pub fn server_message_type(msg: &ServerMessage) -> (r: &'static str)
    ensures
        r@ == server_message_type_spec(*msg),
{
    match msg {
        ServerMessage::HelloAck { .. } => "HelloAck",
        ServerMessage::Pong { .. } => "Pong",
        ServerMessage::ServerBye { .. } => "ServerBye",
        ServerMessage::SessionList { .. } => "SessionList",
        ServerMessage::Attached { .. } => "Attached",
        ServerMessage::CommandResult { .. } => "CommandResult",
        ServerMessage::Okay { .. } => "Ok",
        ServerMessage::PtyOutput { .. } => "PtyOutput",
        ServerMessage::PaneExited { .. } => "PaneExited",
        ServerMessage::WindowClosed { .. } => "WindowClosed",
        ServerMessage::SessionRenamed { .. } => "SessionRenamed",
        ServerMessage::PaneTitleChanged { .. } => "PaneTitleChanged",
        ServerMessage::AlertBell { .. } => "AlertBell",
        ServerMessage::PaneCursorVisibility { .. } => "PaneCursorVisibility",
        ServerMessage::Error { .. } => "Error",
    }
}

/// The correlation id of a client message; `Bye` and `PtyInput` carry none.
pub open spec fn client_message_id_spec(m: ClientMessage) -> Option<MessageId> {
    match m {
        ClientMessage::Hello { id, .. } => Some(id),
        ClientMessage::Ping { id, .. } => Some(id),
        ClientMessage::ListSessions { id, .. } => Some(id),
        ClientMessage::NewSession { id, .. } => Some(id),
        ClientMessage::Attach { id, .. } => Some(id),
        ClientMessage::Detach { id, .. } => Some(id),
        ClientMessage::KillSession { id, .. } => Some(id),
        ClientMessage::NewWindow { id, .. } => Some(id),
        ClientMessage::SplitPane { id, .. } => Some(id),
        ClientMessage::KillPane { id, .. } => Some(id),
        ClientMessage::KillWindow { id, .. } => Some(id),
        ClientMessage::Resize { id, .. } => Some(id),
        ClientMessage::SelectPane { id, .. } => Some(id),
        ClientMessage::SelectWindow { id, .. } => Some(id),
        ClientMessage::Command { id, .. } => Some(id),
        ClientMessage::Bye { .. } => None,
        ClientMessage::PtyInput { .. } => None,
    }
}

/// Extracts the `id` of a client message; streaming messages (`Bye`, `PtyInput`) give `None`.
pub fn client_message_id(msg: &ClientMessage) -> (r: Option<MessageId>)
    ensures
        match (r, client_message_id_spec(*msg)) {
            (Some(a), Some(b)) => a@ == b@,
            (None, None) => true,
            _ => false,
        },
{
    match msg {
        ClientMessage::Hello { id, .. } => Some(id.clone()),
        ClientMessage::Ping { id, .. } => Some(id.clone()),
        ClientMessage::ListSessions { id, .. } => Some(id.clone()),
        ClientMessage::NewSession { id, .. } => Some(id.clone()),
        ClientMessage::Attach { id, .. } => Some(id.clone()),
        ClientMessage::Detach { id, .. } => Some(id.clone()),
        ClientMessage::KillSession { id, .. } => Some(id.clone()),
        ClientMessage::NewWindow { id, .. } => Some(id.clone()),
        ClientMessage::SplitPane { id, .. } => Some(id.clone()),
        ClientMessage::KillPane { id, .. } => Some(id.clone()),
        ClientMessage::KillWindow { id, .. } => Some(id.clone()),
        ClientMessage::Resize { id, .. } => Some(id.clone()),
        ClientMessage::SelectPane { id, .. } => Some(id.clone()),
        ClientMessage::SelectWindow { id, .. } => Some(id.clone()),
        ClientMessage::Command { id, .. } => Some(id.clone()),
        ClientMessage::Bye { .. } => None,
        ClientMessage::PtyInput { .. } => None,
    }
}

/// The request id a server message answers: the `id` of a response, the `id`
/// in an error payload, and `None` for push messages.
pub open spec fn response_id_spec(m: ServerMessage) -> Option<MessageId> {
    match m {
        ServerMessage::HelloAck { id, .. } => Some(id),
        ServerMessage::Pong { id, .. } => Some(id),
        ServerMessage::SessionList { id, .. } => Some(id),
        ServerMessage::Attached { id, .. } => Some(id),
        ServerMessage::CommandResult { id, .. } => Some(id),
        ServerMessage::Okay { id, .. } => Some(id),
        ServerMessage::Error { payload, .. } => payload.id,
        _ => None,
    }
}

/// The id of the request that a server message answers, if it answers one.
pub fn response_id(msg: &ServerMessage) -> (r: Option<&MessageId>)
    ensures
        match (r, response_id_spec(*msg)) {
            (Some(a), Some(b)) => *a == b,
            (None, None) => true,
            _ => false,
        },
{
    match msg {
        ServerMessage::HelloAck { id, .. } => Some(id),
        ServerMessage::Pong { id, .. } => Some(id),
        ServerMessage::SessionList { id, .. } => Some(id),
        ServerMessage::Attached { id, .. } => Some(id),
        ServerMessage::CommandResult { id, .. } => Some(id),
        ServerMessage::Okay { id, .. } => Some(id),
        ServerMessage::Error { payload, .. } => payload.id.as_ref(),
        _ => None,
    }
}

/// The `Debug` text of a server message, for error reports.
///
/// Trusted: `format!` with the derived `Debug`; nothing is stated of the text.
#[verifier::external_body]
pub(crate) fn server_message_debug(m: &ServerMessage) -> String {
    format!("{m:?}")
}

} // verus!
