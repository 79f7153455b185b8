//! The server's decisions: the handshake, what each client message does to
//! the registry and what is answered, how `send-keys` arguments are read,
//! and how a new session's shell and environment are chosen.
//!
//! The server loop reads a message, asks [`dispatch_message`] what to do,
//! performs the step it returns (sending, spawning a shell, writing to a
//! terminal) and, where a step needs an outside result, hands it back to the
//! matching `finish_*` function.
use vstd::prelude::*;

use crate::codec::{base64_decode, base64_decode_spec, CodecError};
use crate::errors::{codec_error_text, ErrorCode, ErrorPayload};
use crate::ids::{MessageId, PaneId, SessionId};
use crate::keys::{string_views, tokens_bytes_spec, tokens_to_bytes, KeyError};
use crate::messages::{
    client_message_type, message_type_name, response_id_spec, AttachTarget, ClientMessage, ServerMessage,
};
use crate::session::{
    opt_view, resolve_attach_spec, sat_dec, with_attached, with_session, AttachResult,
    KillOutcome, PaneRuntime, Registry, RegistryError, RegistryView,
};
use crate::text::{decimal_spec, push_decimal, push_str, str_eq};
use crate::types::{ClientKind, CommandRequest, CommandResultPayload, EnvMap, NewSessionRequest, PaneSize};
use crate::version::{compatible, is_compatible, MAX_COMPATIBLE_VERSION, MIN_COMPATIBLE_VERSION, PROTOCOL_VERSION};
use vstd::utf8::encode_utf8;

verus! {

/// Default size of a new pane until the client reports its own.
pub const DEFAULT_PANE_ROWS: u16 = 40;
/// Default size of a new pane until the client reports its own.
pub const DEFAULT_PANE_COLS: u16 = 120;

/// What the server knows of a client once the handshake succeeded.
#[derive(Debug)]
pub struct AuthenticatedClient {
    /// The kind the client announced.
    pub client_kind: ClientKind,
    /// The client's process id.
    pub client_pid: u32,
    /// The client's build version.
    pub client_version: String,
    /// The verified user name.
    pub username: String,
}

/// What is needed to start a shell in a pseudo terminal.
#[derive(Debug)]
pub struct SpawnRequest {
    /// The shell binary.
    pub shell: String,
    /// Its arguments.
    pub args: Vec<String>,
    /// Working directory (the server's own when absent).
    pub cwd: Option<String>,
    /// Extra environment variables.
    pub env: EnvMap,
    /// Rows of the terminal.
    pub rows: u16,
    /// Columns of the terminal.
    pub cols: u16,
}

/// What a shell's terminal reports.
#[derive(Clone, Debug)]
pub enum PtyEvent {
    /// Output bytes.
    Output(Vec<u8>),
    /// The shell ended (with its exit code when known).
    Exited { code: Option<i32> },
}

/// An `Error` message of the current protocol version.
pub open spec fn error_message_spec(
    id: Option<MessageId>,
    code: ErrorCode,
    message: Seq<char>,
    recoverable: bool,
    m: ServerMessage,
) -> bool {
    m matches ServerMessage::Error { v, payload } && v == PROTOCOL_VERSION && payload.code == code
        && payload.message@ == message && payload.recoverable == recoverable && match (
        payload.id,
        id,
    ) {
        (Some(a), Some(b)) => a@ == b@,
        (None, None) => true,
        _ => false,
    }
}

fn error_message(id: Option<MessageId>, code: ErrorCode, message: String, recoverable: bool) -> (r: ServerMessage)
    ensures
        r == (ServerMessage::Error {
            v: PROTOCOL_VERSION,
            payload: ErrorPayload { id, code, message, recoverable },
        }),
{
    ServerMessage::Error { v: PROTOCOL_VERSION, payload: ErrorPayload { id, code, message, recoverable } }
}

// ---------------------------------------------------------------------------
// Handshake
// ---------------------------------------------------------------------------

/// The message refusing an incompatible protocol version.
pub open spec fn version_mismatch_text(v: u32) -> Seq<char> {
    "client protocol v"@ + decimal_spec(v as nat) + ", server accepts v"@ + decimal_spec(
        MIN_COMPATIBLE_VERSION as nat,
    ) + "..=v"@ + decimal_spec(MAX_COMPATIBLE_VERSION as nat)
}

fn version_mismatch_message(v: u32) -> (r: String)
    ensures
        r@ == version_mismatch_text(v),
{
    let mut s = String::from_str("client protocol v");
    push_decimal(&mut s, v as u64);
    push_str(&mut s, ", server accepts v");
    push_decimal(&mut s, MIN_COMPATIBLE_VERSION as u64);
    push_str(&mut s, "..=v");
    push_decimal(&mut s, MAX_COMPATIBLE_VERSION as u64);
    assert(s@ =~= version_mismatch_text(v));
    s
}

/// The server's answer to the first message of a connection.
///
/// A `Hello` of a compatible version is acknowledged with `HelloAck` (this
/// server's version and the user name) and gives the authenticated client. A
/// `Hello` of another version is refused with `VERSION_MISMATCH`, any other
/// first message with `PROTOCOL_VIOLATION`; both refusals close the connection.
pub fn handshake_reply(first: ClientMessage, username: &str, server_version: &str) -> (r: Result<
    (ServerMessage, AuthenticatedClient),
    ServerMessage,
>)
    ensures
        match first {
            ClientMessage::Hello { v, id, client, pid, version } => if compatible(v) {
                r matches Ok((ack, auth)) && ack matches ServerMessage::HelloAck {
                    v: av,
                    id: aid,
                    server_version: sv,
                    user,
                } && av == PROTOCOL_VERSION && aid@ == id@ && sv@ == server_version@ && user@
                    == username@ && auth.client_kind == client && auth.client_pid == pid
                    && auth.client_version@ == version@ && auth.username@ == username@
            } else {
                r matches Err(m) && error_message_spec(
                    Some(id),
                    ErrorCode::VersionMismatch,
                    version_mismatch_text(v),
                    false,
                    m,
                )
            },
            _ => r matches Err(m) && error_message_spec(
                None,
                ErrorCode::ProtocolViolation,
                "Hello required before any other message"@,
                false,
                m,
            ),
        },
{
    match first {
        ClientMessage::Hello { v, id, client, pid, version } => {
            if !is_compatible(v) {
                let text = version_mismatch_message(v);
                return Err(error_message(Some(id), ErrorCode::VersionMismatch, text, false));
            }
            let ack = ServerMessage::HelloAck {
                v: PROTOCOL_VERSION,
                id,
                server_version: server_version.to_owned(),
                user: username.to_owned(),
            };
            let auth = AuthenticatedClient {
                client_kind: client,
                client_pid: pid,
                client_version: version,
                username: username.to_owned(),
            };
            Ok((ack, auth))
        },
        _ => Err(
            error_message(
                None,
                ErrorCode::ProtocolViolation,
                "Hello required before any other message".to_owned(),
                false,
            ),
        ),
    }
}

/// The answer to a first line that is not a valid frame (the connection then closes).
pub fn first_frame_error(e: &CodecError) -> (r: ServerMessage)
    ensures
        error_message_spec(
            None,
            ErrorCode::ProtocolViolation,
            "invalid first frame: "@ + codec_error_text(*e),
            false,
            r,
        ),
{
    let mut s = String::from_str("invalid first frame: ");
    let t = e.message();
    push_str(&mut s, t.as_str());
    error_message(None, ErrorCode::ProtocolViolation, s, false)
}

/// The answer to a later line that is not a valid frame (the connection stays open).
pub fn frame_error(e: &CodecError) -> (r: ServerMessage)
    ensures
        error_message_spec(
            None,
            ErrorCode::ProtocolViolation,
            "frame error: "@ + codec_error_text(*e),
            true,
            r,
        ),
{
    let mut s = String::from_str("frame error: ");
    let t = e.message();
    push_str(&mut s, t.as_str());
    error_message(None, ErrorCode::ProtocolViolation, s, true)
}

// ---------------------------------------------------------------------------
// New sessions: shell and environment
// ---------------------------------------------------------------------------

/// The shell of a new session: the requested one unless empty, else the
/// `COMSPEC` value unless absent or empty, else `powershell.exe`.
pub open spec fn resolve_shell_spec(requested: Option<Seq<char>>, comspec: Option<Seq<char>>) -> Seq<char> {
    match requested {
        Some(s) if s.len() > 0 => s,
        _ => match comspec {
            Some(c) if c.len() > 0 => c,
            _ => "powershell.exe"@,
        },
    }
}

/// Chooses the shell of a new session (`comspec` is the `COMSPEC` environment variable).
pub fn resolve_shell(req: &NewSessionRequest, comspec: Option<String>) -> (r: String)
    ensures
        r@ == resolve_shell_spec(opt_view(req.shell), opt_view(comspec)),
{
    match &req.shell {
        Some(s) => {
            if s.as_str().unicode_len() > 0 {
                return s.clone();
            }
        },
        None => {},
    }
    match comspec {
        Some(c) => {
            if c.as_str().unicode_len() > 0 {
                return c;
            }
        },
        None => {},
    }
    "powershell.exe".to_owned()
}

/// The environment of a new session's shell: the requested variables, then
/// `WINMUX_VERSION`, `WINMUX_SESSION_ID`, `WINMUX_WINDOW_INDEX=0` and
/// `WINMUX_PANE_INDEX=0`, which override requested ones of the same name.
pub open spec fn session_env_spec(
    requested: Map<Seq<char>, Seq<char>>,
    session_id: Seq<char>,
    server_version: Seq<char>,
) -> Map<Seq<char>, Seq<char>> {
    requested.insert("WINMUX_VERSION"@, server_version).insert("WINMUX_SESSION_ID"@, session_id).insert(
        "WINMUX_WINDOW_INDEX"@,
        "0"@,
    ).insert("WINMUX_PANE_INDEX"@, "0"@)
}

/// Builds the environment of a new session's shell.
pub fn build_env(req: &NewSessionRequest, session_id: &SessionId, server_version: &str) -> (r: EnvMap)
    ensures
        r@ == session_env_spec(req.env@, session_id@, server_version@),
{
    let mut env = req.env.copy();
    env.insert("WINMUX_VERSION".to_owned(), server_version.to_owned());
    env.insert("WINMUX_SESSION_ID".to_owned(), session_id.as_str().to_owned());
    env.insert("WINMUX_WINDOW_INDEX".to_owned(), "0".to_owned());
    env.insert("WINMUX_PANE_INDEX".to_owned(), "0".to_owned());
    env
}

/// The request that starts a new session's shell, in the default pane size.
pub fn spawn_request(
    req: &NewSessionRequest,
    session_id: &SessionId,
    comspec: Option<String>,
    server_version: &str,
) -> (r: SpawnRequest)
    ensures
        r.shell@ == resolve_shell_spec(opt_view(req.shell), opt_view(comspec)),
        r.args@.len() == 0,
        opt_view(r.cwd) == match req.cwd {
            Some(c) => if c@.len() > 0 {
                Some(c@)
            } else {
                None
            },
            None => None,
        },
        r.env@ == session_env_spec(req.env@, session_id@, server_version@),
        r.rows == DEFAULT_PANE_ROWS,
        r.cols == DEFAULT_PANE_COLS,
{
    let shell = resolve_shell(req, comspec);
    let cwd = match &req.cwd {
        Some(c) => if c.as_str().unicode_len() > 0 {
            Some(c.clone())
        } else {
            None
        },
        None => None,
    };
    let env = build_env(req, session_id, server_version);
    SpawnRequest { shell, args: Vec::new(), cwd, env, rows: DEFAULT_PANE_ROWS, cols: DEFAULT_PANE_COLS }
}

// ---------------------------------------------------------------------------
// send-keys arguments
// ---------------------------------------------------------------------------

/// Whether an argument is a flag (`-` and at least one more character).
pub open spec fn is_flag(a: Seq<char>) -> bool {
    a.len() > 1 && a[0] == '-'
}

/// Reads `send-keys` arguments from position `i` on, with the target found so far.
pub open spec fn parse_send_keys_from(
    args: Seq<Seq<char>>,
    i: nat,
    target: Option<Seq<char>>,
) -> Result<(Option<Seq<char>>, Seq<Seq<char>>), Seq<char>>
    decreases args.len() - i,
{
    if i < args.len() && args[i as int] == "-t"@ {
        if i + 1 < args.len() {
            parse_send_keys_from(args, i + 2, Some(args[i + 1int]))
        } else {
            Err("send-keys: -t requires a target argument"@)
        }
    } else if i < args.len() && is_flag(args[i as int]) {
        Err("send-keys: unknown flag `"@ + args[i as int] + "` in M0 PoC"@)
    } else if i >= args.len() {
        Err("send-keys: no key tokens given"@)
    } else {
        Ok((target, args.skip(i as int)))
    }
}

/// Splits `send-keys` arguments into the target and the key tokens: leading
/// `-t TARGET` pairs set the target (the last one wins); any other leading
/// flag is refused; at least one key token must follow.
pub open spec fn parse_send_keys_spec(args: Seq<Seq<char>>) -> Result<
    (Option<Seq<char>>, Seq<Seq<char>>),
    Seq<char>,
> {
    parse_send_keys_from(args, 0, None)
}

/// Splits `send-keys` arguments into the target and the key tokens.
pub fn parse_send_keys_args(args: &[String]) -> (r: Result<(Option<String>, Vec<String>), String>)
    ensures
        match r {
            Ok((t, keys)) => parse_send_keys_spec(string_views(args@)) == Ok::<
                (Option<Seq<char>>, Seq<Seq<char>>),
                Seq<char>,
            >((opt_view(t), string_views(keys@))),
            Err(m) => parse_send_keys_spec(string_views(args@)) == Err::<
                (Option<Seq<char>>, Seq<Seq<char>>),
                Seq<char>,
            >(m@),
        },
{
    let ghost a = string_views(args@);
    let n = args.len();
    let mut i: usize = 0;
    let mut target: Option<String> = None;
    proof {
        reveal_strlit("-t");
    }
    loop
        invariant
            n == args@.len(),
            a == string_views(args@),
            i <= n,
            parse_send_keys_spec(a) == parse_send_keys_from(a, i as nat, opt_view(target)),
        decreases n - i,
    {
        if i < n && str_eq(args[i].as_str(), "-t") {
            if i + 1 < n {
                target = Some(args[i + 1].clone());
                i = i + 2;
            } else {
                return Err("send-keys: -t requires a target argument".to_owned());
            }
        } else if i < n && args[i].as_str().unicode_len() > 1 && args[i].as_str().get_char(0) == '-' {
            let mut m = String::from_str("send-keys: unknown flag `");
            push_str(&mut m, args[i].as_str());
            push_str(&mut m, "` in M0 PoC");
            return Err(m);
        } else if i >= n {
            return Err("send-keys: no key tokens given".to_owned());
        } else {
            let mut keys: Vec<String> = Vec::new();
            let mut j: usize = i;
            while j < n
                invariant
                    n == args@.len(),
                    a == string_views(args@),
                    i <= j <= n,
                    string_views(keys@) == a.subrange(i as int, j as int),
                decreases n - j,
            {
                let ghost before = keys@;
                keys.push(args[j].clone());
                assert(string_views(keys@) =~= string_views(before).push(a[j as int]));
                assert(a.subrange(i as int, j + 1) =~= a.subrange(i as int, j as int).push(a[j as int]));
                j = j + 1;
            }
            assert(a.skip(i as int) =~= a.subrange(i as int, n as int));
            return Ok((target, keys));
        }
    }
}

/// Law: the arguments the command line sends for `send-keys` read back as
/// the same target and keys, when the first key is not itself a flag.
pub proof fn lemma_send_keys_args_roundtrip(target: Option<Seq<char>>, keys: Seq<Seq<char>>)
    requires
        keys.len() > 0,
        !is_flag(keys[0]),
    ensures
        parse_send_keys_spec(crate::cli::send_keys_args_spec(target, keys)) == Ok::<
            (Option<Seq<char>>, Seq<Seq<char>>),
            Seq<char>,
        >((target, keys)),
{
    reveal_strlit("-t");
    let a = crate::cli::send_keys_args_spec(target, keys);
    assert(keys[0] != "-t"@);
    match target {
        Some(t) => {
            assert(a[0] == "-t"@);
            assert(a[1] == t);
            assert(a[2] == keys[0]);
            assert(a.skip(2) =~= keys);
            assert(parse_send_keys_from(a, 2, Some(t)) == Ok::<
                (Option<Seq<char>>, Seq<Seq<char>>),
                Seq<char>,
            >((target, keys)));
        },
        None => {
            assert(a.skip(0) =~= keys);
        },
    }
}

// ---------------------------------------------------------------------------
// Dispatch
// ---------------------------------------------------------------------------

/// What the server loop does after a client message.
#[derive(Debug)]
pub enum DispatchStep {
    /// Send this message and read on.
    Reply(ServerMessage),
    /// Send this message, then close the connection.
    ReplyAndClose(ServerMessage),
    /// Close the connection without an answer.
    Close,
    /// Send nothing and read on.
    Nothing,
    /// The client is now attached to `result.session_id`: forward its panes'
    /// output and answer `Attached` with the result and the panes' snapshots.
    Attached { request_id: MessageId, result: AttachResult },
    /// Start the shell of a new session, then call `finish_new_session`.
    SpawnSession { request_id: MessageId, request: NewSessionRequest },
    /// Write these bytes to the pane's shell; no answer.
    WriteInput { pane_id: PaneId, bytes: Vec<u8> },
    /// Resize the pane's terminal, then call `finish_resize`.
    ResizePane { request_id: MessageId, pane_id: PaneId, rows: u16, cols: u16 },
    /// Write these key bytes to the pane's shell, then answer with `keys_written`.
    WriteKeys { request_id: MessageId, pane_id: PaneId, bytes: Vec<u8> },
}

/// Whether `m` is the `Ok` answer to request `id`.
pub open spec fn is_ok_reply(id: MessageId, m: ServerMessage) -> bool {
    m matches ServerMessage::Okay { v, id: i } && v == PROTOCOL_VERSION && i@ == id@
}

/// The registry after the client's attachment moves from `from` to another
/// session: the session it leaves loses one attached client.
pub open spec fn after_leaving<P>(v: RegistryView<P>, from: Option<Seq<char>>) -> RegistryView<P> {
    match from {
        Some(id) => if v.sessions.contains_key(id) {
            with_session(v, with_attached(v.sessions[id], sat_dec(v.sessions[id].attached_clients)))
        } else {
            v
        },
        None => v,
    }
}

/// The view of an optional session id.
pub open spec fn opt_id(o: Option<SessionId>) -> Option<Seq<char>> {
    match o {
        Some(s) => Some(s@),
        None => None,
    }
}

/// Ends the client's current attachment, if any.
pub fn leave_session<P>(registry: &mut Registry<P>, attached: &mut Option<SessionId>)
    ensures
        final(registry)@ == after_leaving(old(registry)@, opt_id(*old(attached))),
        *final(attached) is None,
{
    match attached.take() {
        Some(id) => registry.detach(&id),
        None => {},
    }
}

/// A `CommandResult` answer.
pub open spec fn command_result_spec(id: MessageId, ok: bool, stderr: Option<Seq<char>>, m: ServerMessage) -> bool {
    m matches ServerMessage::CommandResult { v, id: i, result } && v == PROTOCOL_VERSION && i@ == id@
        && result.ok == ok && result.stdout is None && opt_view(result.stderr) == stderr
}

fn command_result(id: MessageId, ok: bool, stderr: Option<String>) -> (r: ServerMessage)
    ensures
        command_result_spec(id, ok, opt_view(stderr), r),
{
    ServerMessage::CommandResult {
        v: PROTOCOL_VERSION,
        id,
        result: CommandResultPayload { ok, stdout: None, stderr },
    }
}

/// The position of the first `:` in a text (its length when there is none).
pub open spec fn first_colon(t: Seq<char>) -> nat
    decreases t.len(),
{
    if t.len() == 0 {
        0
    } else if t[0] == ':' {
        0
    } else {
        1 + first_colon(t.drop_first())
    }
}

/// Whether `s` begins with `p`.
pub open spec fn begins_with(s: Seq<char>, p: Seq<char>) -> bool {
    p.len() <= s.len() && s.subrange(0, p.len() as int) == p
}

/// The active pane of a session of the registry, if both exist.
pub open spec fn active_pane_in<P>(v: RegistryView<P>, id: Seq<char>) -> Option<Seq<char>> {
    if v.sessions.contains_key(id) {
        crate::session::active_pane_spec(v.sessions[id])
    } else {
        None
    }
}

/// The pane a `send-keys` target names.
///
/// No target: the active pane of the session the client is attached to.
/// `pane-…`: that pane, when it has a shell. `ses-…`: that session's active
/// pane. Anything else is a session name, read up to the first `:`, whose
/// active pane is taken.
pub open spec fn send_keys_target_spec<P>(
    v: RegistryView<P>,
    attached: Option<Seq<char>>,
    target: Option<Seq<char>>,
) -> Result<Seq<char>, Seq<char>> {
    match target {
        None => match attached {
            None => Err("send-keys: no target and client is not attached"@),
            Some(sid) => match active_pane_in(v, sid) {
                Some(p) => Ok(p),
                None => Err("send-keys: session has no active pane: "@ + sid),
            },
        },
        Some(t) => if begins_with(t, "pane-"@) {
            if v.runtimes.contains_key(t) {
                Ok(t)
            } else {
                Err("send-keys: pane not found: "@ + t)
            }
        } else if begins_with(t, "ses-"@) {
            match active_pane_in(v, t) {
                Some(p) => Ok(p),
                None => Err("send-keys: session not found: "@ + t),
            }
        } else {
            let name = t.take(first_colon(t) as int);
            if !v.names.contains_key(name) {
                Err("send-keys: session not found: "@ + name)
            } else {
                match active_pane_in(v, v.names[name]) {
                    Some(p) => Ok(p),
                    None => Err("send-keys: session has no active pane: "@ + name),
                }
            }
        },
    }
}

/// Law: a `send-keys` target that is a session id (`ses-…`) resolves by that
/// id, whatever names the registry holds and whether or not the client is
/// attached: to the session's active pane when the session exists and has
/// one, and otherwise to `session not found`.
pub proof fn lemma_session_id_target_resolves_by_id<P>(
    v: RegistryView<P>,
    attached: Option<Seq<char>>,
    t: Seq<char>,
)
    requires
        t.len() >= 4,
        t[0] == 's' && t[1] == 'e' && t[2] == 's' && t[3] == '-',
    ensures
        v.sessions.contains_key(t) && crate::session::active_pane_spec(v.sessions[t]) is Some
            ==> send_keys_target_spec(v, attached, Some(t)) == Ok::<Seq<char>, Seq<char>>(
            crate::session::active_pane_spec(v.sessions[t])->Some_0,
        ),
        !v.sessions.contains_key(t) ==> send_keys_target_spec(v, attached, Some(t)) == Err::<
            Seq<char>,
            Seq<char>,
        >("send-keys: session not found: "@ + t),
{
    reveal_strlit("pane-");
    reveal_strlit("ses-");
    assert(!begins_with(t, "pane-"@)) by {
        if begins_with(t, "pane-"@) {
            assert(t.subrange(0, 5)[0] == 'p');
        }
    }
    assert(begins_with(t, "ses-"@)) by {
        assert(t.subrange(0, 4) =~= "ses-"@);
    }
}

fn name_before_colon(t: &str) -> (r: &str)
    ensures
        r@ == t@.take(first_colon(t@) as int),
{
    let n = t.unicode_len();
    let mut i: usize = 0;
    assert(t@.skip(0) =~= t@);
    while i < n && t.get_char(i) != ':'
        invariant
            n == t@.len(),
            i <= n,
            first_colon(t@) == i + first_colon(t@.skip(i as int)),
        decreases n - i,
    {
        assert(t@.skip(i as int).drop_first() =~= t@.skip(i + 1));
        i = i + 1;
    }
    proof {
        if i < n {
            assert(t@.skip(i as int)[0] == ':');
        }
    }
    let r = t.substring_char(0, i);
    assert(r@ =~= t@.take(i as int));
    r
}

fn prefixed_text(prefix: &str, t: &str) -> (r: String)
    ensures
        r@ == prefix@ + t@,
{
    let mut s = String::from_str(prefix);
    push_str(&mut s, t);
    s
}

/// Resolves a `send-keys` target to a pane id.
pub fn resolve_send_keys_target<P>(
    registry: &Registry<P>,
    attached: &Option<SessionId>,
    target: Option<&str>,
) -> (r: Result<PaneId, String>)
    ensures
        match (r, send_keys_target_spec(
            registry@,
            opt_id(*attached),
            match target {
                Some(t) => Some(t@),
                None => None,
            },
        )) {
            (Ok(p), Ok(q)) => p@ == q,
            (Err(m), Err(n)) => m@ == n,
            _ => false,
        },
{
    proof {
        reveal_strlit("pane-");
        reveal_strlit("ses-");
    }
    match target {
        None => match attached {
            None => Err("send-keys: no target and client is not attached".to_owned()),
            Some(sid) => match registry.active_pane_of_session(sid) {
                Some(p) => Ok(p),
                None => Err(prefixed_text("send-keys: session has no active pane: ", sid.as_str())),
            },
        },
        Some(t) => {
            if crate::text::str_starts_with(t, "pane-") {
                let pid = PaneId::from_raw(t.to_owned());
                if registry.pty_for_pane(&pid).is_some() {
                    return Ok(pid);
                }
                return Err(prefixed_text("send-keys: pane not found: ", t));
            }
            if crate::text::str_starts_with(t, "ses-") {
                let sid = SessionId::from_raw(t.to_owned());
                return match registry.active_pane_of_session(&sid) {
                    Some(p) => Ok(p),
                    None => Err(prefixed_text("send-keys: session not found: ", t)),
                };
            }
            let name = name_before_colon(t);
            match registry.session_id_by_name(name) {
                None => Err(prefixed_text("send-keys: session not found: ", name)),
                Some(sid) => match registry.active_pane_of_session(&sid) {
                    Some(p) => Ok(p),
                    None => Err(prefixed_text("send-keys: session has no active pane: ", name)),
                },
            }
        },
    }
}

/// The message for a key name that cannot be translated.
pub open spec fn unsupported_key_text(name: Seq<char>) -> Seq<char> {
    "unsupported key in M0 PoC: `"@ + name + "` (see docs/spec/04-key-handling.md)"@
}

/// What `command_step` decides for a `Command` request, over the registry's view.
pub open spec fn command_step_spec<P>(
    v: RegistryView<P>,
    attached: Option<Seq<char>>,
    request_id: MessageId,
    request: CommandRequest,
    r: DispatchStep,
) -> bool {
    &&& request.tmux@ != "send-keys"@ ==> (r matches DispatchStep::Reply(m) && command_result_spec(
            request_id,
            false,
            Some("unsupported tmux command: "@ + request.tmux@),
            m,
        ))
    &&& request.tmux@ == "send-keys"@ ==> match parse_send_keys_spec(string_views(request.args@)) {
            Err(msg) => r matches DispatchStep::Reply(m) && command_result_spec(
                request_id,
                false,
                Some(msg),
                m,
            ),
            Ok((target, keys)) => match tokens_bytes_spec(keys) {
                Err(name) => r matches DispatchStep::Reply(m) && command_result_spec(
                    request_id,
                    false,
                    Some(unsupported_key_text(name)),
                    m,
                ),
                Ok(bytes) => match send_keys_target_spec(v, attached, target) {
                    Err(msg) => r matches DispatchStep::Reply(m) && command_result_spec(
                        request_id,
                        false,
                        Some(msg),
                        m,
                    ),
                    Ok(pane) => if v.runtimes.contains_key(pane) {
                        r matches DispatchStep::WriteKeys { request_id: i, pane_id, bytes: b } && i@
                            == request_id@ && pane_id@ == pane && b@ == bytes
                    } else {
                        r matches DispatchStep::Reply(m) && command_result_spec(
                            request_id,
                            false,
                            Some("pane has no live PTY"@),
                            m,
                        )
                    },
                },
            },
        }
}

/// What a `Command` message leads to.
///
/// Only `send-keys` is served; another command is answered with a failed
/// `CommandResult` naming it. For `send-keys` the arguments are read, the key
/// tokens translated and the target resolved; the first of these that fails
/// is answered with a failed `CommandResult` carrying its message. A target
/// pane without a shell is answered `pane has no live PTY`. Otherwise the
/// key bytes are to be written to the pane.
pub fn command_step<P>(
    registry: &Registry<P>,
    attached: &Option<SessionId>,
    request_id: MessageId,
    request: CommandRequest,
) -> (r: DispatchStep)
    ensures
        command_step_spec(registry@, opt_id(*attached), request_id, request, r),
{
    if !str_eq(request.tmux.as_str(), "send-keys") {
        let msg = prefixed_text("unsupported tmux command: ", request.tmux.as_str());
        return DispatchStep::Reply(command_result(request_id, false, Some(msg)));
    }
    let (target, tokens) = match parse_send_keys_args(request.args.as_slice()) {
        Ok(p) => p,
        Err(msg) => {
            return DispatchStep::Reply(command_result(request_id, false, Some(msg)));
        },
    };
    let bytes = match tokens_to_bytes(tokens.as_slice()) {
        Ok(b) => b,
        Err(KeyError::Unsupported(name)) => {
            let mut msg = String::from_str("unsupported key in M0 PoC: `");
            push_str(&mut msg, name.as_str());
            push_str(&mut msg, "` (see docs/spec/04-key-handling.md)");
            assert(msg@ =~= unsupported_key_text(name@));
            return DispatchStep::Reply(command_result(request_id, false, Some(msg)));
        },
    };
    let t = match &target {
        Some(t) => Some(t.as_str()),
        None => None,
    };
    let pane_id = match resolve_send_keys_target(registry, attached, t) {
        Ok(p) => p,
        Err(msg) => {
            return DispatchStep::Reply(command_result(request_id, false, Some(msg)));
        },
    };
    if registry.pty_for_pane(&pane_id).is_none() {
        return DispatchStep::Reply(
            command_result(request_id, false, Some("pane has no live PTY".to_owned())),
        );
    }
    DispatchStep::WriteKeys { request_id, pane_id, bytes }
}

/// The answer after key bytes were written (or failed to be, with the error's text).
pub fn keys_written(request_id: MessageId, write_error: Option<String>) -> (r: ServerMessage)
    ensures
        match write_error {
            None => command_result_spec(request_id, true, None, r),
            Some(e) => command_result_spec(request_id, false, Some("write failed: "@ + e@), r),
        },
{
    match write_error {
        None => command_result(request_id, true, None),
        Some(e) => {
            let msg = prefixed_text("write failed: ", e.as_str());
            command_result(request_id, false, Some(msg))
        },
    }
}

/// What follows the resize of a pane's terminal: on success the pane's size
/// is recorded and `Ok` answered; a failure (with its text) is answered
/// `INTERNAL` `resize failed: <error>`.
pub fn finish_resize<P>(
    registry: &mut Registry<P>,
    request_id: MessageId,
    pane_id: &PaneId,
    rows: u16,
    cols: u16,
    resize_error: Option<String>,
) -> (r: ServerMessage)
    ensures
        match resize_error {
            None => is_ok_reply(request_id, r) && crate::session::pane_resized(
                old(registry)@,
                final(registry)@,
                pane_id@,
                PaneSize { rows, cols },
            ),
            Some(e) => final(registry)@ == old(registry)@ && error_message_spec(
                Some(request_id),
                ErrorCode::Internal,
                "resize failed: "@ + e@,
                true,
                r,
            ),
        },
{
    match resize_error {
        None => {
            let _ = registry.update_pane_size(pane_id, PaneSize { rows, cols });
            ServerMessage::Okay { v: PROTOCOL_VERSION, id: request_id }
        },
        Some(e) => {
            let msg = prefixed_text("resize failed: ", e.as_str());
            error_message(Some(request_id), ErrorCode::Internal, msg, true)
        },
    }
}

/// `new` is `old` with a new session registered around the runtime `rt`,
/// as `create_session_with_runtime` does at the default pane size, created at
/// a time written as an RFC 3339 timestamp.
pub open spec fn registered_new_session<P>(
    old: RegistryView<P>,
    new: RegistryView<P>,
    req: NewSessionRequest,
    rt: PaneRuntime<P>,
) -> bool {
    exists|created_at: Seq<char>|
        crate::session::rfc3339_shape(created_at) && new == crate::session::with_runtimes(
            crate::session::with_new_session(
                old,
                req,
                #[trigger] crate::session::fresh_session(
                    rt.session_id@,
                    crate::session::chosen_name(old, req).0,
                    created_at,
                    rt.window_id@,
                    rt.pane_id@,
                    PaneSize { rows: DEFAULT_PANE_ROWS, cols: DEFAULT_PANE_COLS },
                    true,
                ),
            ),
            old.runtimes.insert(rt.pane_id@, rt),
        )
}

/// What follows the start of a new session's shell.
///
/// A failed start (with its text) is answered `INTERNAL` `spawn failed:
/// <error>`. Otherwise the session is registered with the runtime; a refusal
/// is answered with the registry error (`INTERNAL`, its text). A detached
/// session is answered `Ok`; else the client leaves its current session and
/// is attached to the new one.
pub fn finish_new_session<P>(
    registry: &mut Registry<P>,
    attached: &mut Option<SessionId>,
    request_id: MessageId,
    request: &NewSessionRequest,
    spawned: Result<PaneRuntime<P>, String>,
) -> (r: DispatchStep)
    requires
        crate::session::requested_name(*request) is None ==> crate::session::can_name_untitled(
            old(registry)@,
        ),
    ensures
        match spawned {
            Err(e) => final(registry)@ == old(registry)@ && *final(attached) == *old(attached)
                && (r matches DispatchStep::Reply(m) && error_message_spec(
                Some(request_id),
                ErrorCode::Internal,
                "spawn failed: "@ + e@,
                true,
                m,
            )),
            Ok(rt) => if crate::session::name_taken(old(registry)@, *request) {
                final(registry)@ == old(registry)@ && *final(attached) == *old(attached)
                    && (r matches DispatchStep::Reply(m) && error_message_spec(
                    Some(request_id),
                    ErrorCode::Internal,
                    crate::session::registry_error_text(
                        RegistryError::NameTaken(request.name->Some_0),
                    ),
                    true,
                    m,
                ))
            } else if request.detached {
                *final(attached) == *old(attached) && registered_new_session(
                    old(registry)@,
                    final(registry)@,
                    *request,
                    rt,
                ) && (r matches DispatchStep::Reply(m) && is_ok_reply(request_id, m))
            } else {
                (exists|mid: RegistryView<P>|
                    #[trigger] registered_new_session(old(registry)@, mid, *request, rt)
                        && final(registry)@ == after_leaving(
                        crate::session::attach_effect(mid, rt.session_id@),
                        opt_id(*old(attached)),
                    ) && (r matches DispatchStep::Attached { request_id: i, result }
                    && i@ == request_id@ && result.session_id@ == rt.session_id@
                    && crate::session::attach_result_of(result, mid.sessions[rt.session_id@])))
                    && opt_id(*final(attached)) == Some(rt.session_id@)
            },
        },
{
    let runtime = match spawned {
        Ok(rt) => rt,
        Err(e) => {
            let msg = prefixed_text("spawn failed: ", e.as_str());
            return DispatchStep::Reply(error_message(Some(request_id), ErrorCode::Internal, msg, true));
        },
    };
    let ghost rt = runtime;
    let created = match registry.create_session_with_runtime(
        request,
        PaneSize { rows: DEFAULT_PANE_ROWS, cols: DEFAULT_PANE_COLS },
        runtime,
    ) {
        Ok((sid, _pid)) => sid,
        Err(e) => {
            let msg = e.message();
            return DispatchStep::Reply(error_message(Some(request_id), ErrorCode::Internal, msg, true));
        },
    };
    if request.detached {
        return DispatchStep::Reply(ServerMessage::Okay { v: PROTOCOL_VERSION, id: request_id });
    }
    let ghost mid = registry@;
    let target = AttachTarget::Id { id: created.clone() };
    match registry.attach(&target) {
        Ok(a) => {
            leave_session(registry, attached);
            *attached = Some(a.session_id.clone());
            assert(registered_new_session(old(registry)@, mid, *request, rt));
            DispatchStep::Attached { request_id, result: a }
        },
        Err(e) => {
            let msg = e.message();
            DispatchStep::Reply(error_message(Some(request_id), ErrorCode::Internal, msg, true))
        },
    }
}

/// The client's attachment after a kill that ended the session `sid` or not:
/// dropped when it was to that session and the session ended, kept otherwise.
pub open spec fn attachment_after_kill(
    before: Option<SessionId>,
    after: Option<SessionId>,
    sid: Seq<char>,
    ended: bool,
) -> bool {
    if ended && opt_id(before) == Some(sid) {
        after is None
    } else {
        after == before
    }
}

/// `KillPane` of `p` in session `sid`: the registry and the attachment after it.
pub open spec fn pane_kill_step<P>(
    old_v: RegistryView<P>,
    new_v: RegistryView<P>,
    old_att: Option<SessionId>,
    new_att: Option<SessionId>,
    sid: Seq<char>,
    p: Seq<char>,
) -> bool {
    let s = old_v.sessions[sid];
    &&& old_v.sessions.contains_key(sid)
    &&& crate::session::session_has_pane(s, p)
    &&& new_v == crate::session::after_kill_pane(old_v, sid, p)
    &&& attachment_after_kill(
        old_att,
        new_att,
        sid,
        crate::session::pane_is_last(s, crate::session::first_window_with_pane(s.windows, p) as int),
    )
}

/// `KillWindow` of `w` in session `sid`: the registry and the attachment after it.
pub open spec fn window_kill_step<P>(
    old_v: RegistryView<P>,
    new_v: RegistryView<P>,
    old_att: Option<SessionId>,
    new_att: Option<SessionId>,
    sid: Seq<char>,
    w: Seq<char>,
) -> bool {
    let s = old_v.sessions[sid];
    &&& old_v.sessions.contains_key(sid)
    &&& crate::session::session_has_window(s, w)
    &&& new_v == crate::session::after_kill_window(old_v, sid, w)
    &&& attachment_after_kill(old_att, new_att, sid, s.windows.len() == 1)
}

/// Whether `m` answers the request `req`: both carry an id, and it is the same.
pub open spec fn answers_request(req: ClientMessage, m: ServerMessage) -> bool {
    match (response_id_spec(m), crate::messages::client_message_id_spec(req)) {
        (Some(a), Some(b)) => a@ == b@,
        _ => false,
    }
}

/// Whether every answer in a step answers the request `req`.
pub open spec fn step_answers_request(req: ClientMessage, r: DispatchStep) -> bool {
    match r {
        DispatchStep::Reply(m) => answers_request(req, m),
        DispatchStep::ReplyAndClose(m) => answers_request(req, m),
        DispatchStep::Attached { request_id, .. } => crate::messages::client_message_id_spec(req)
            matches Some(i) && i@ == request_id@,
        DispatchStep::SpawnSession { request_id, .. } => crate::messages::client_message_id_spec(req)
            matches Some(i) && i@ == request_id@,
        DispatchStep::ResizePane { request_id, .. } => crate::messages::client_message_id_spec(req)
            matches Some(i) && i@ == request_id@,
        DispatchStep::WriteKeys { request_id, .. } => crate::messages::client_message_id_spec(req)
            matches Some(i) && i@ == request_id@,
        _ => true,
    }
}

/// After a pane or window was killed: when that ended the session the client
/// is attached to, the client's attachment ends too.
fn drop_killed_attachment<P>(registry: &mut Registry<P>, attached: &mut Option<SessionId>, o: &KillOutcome)
    requires
        o.session_removed ==> !old(registry)@.sessions.contains_key(o.session_id@),
    ensures
        final(registry)@ == old(registry)@,
        attachment_after_kill(*old(attached), *final(attached), o.session_id@, o.session_removed),
{
    let mine = match &*attached {
        Some(a) => a.same_as(&o.session_id),
        None => false,
    };
    if o.session_removed && mine {
        leave_session(registry, attached);
    }
}

/// The text answering a message kind that is read but not served.
pub open spec fn not_dispatched_text(kind: Seq<char>) -> Seq<char> {
    "`"@ + kind + "` is parsed but not yet dispatched"@
}

/// Decides what a client message (after the handshake) does.
///
/// `Hello` again is a protocol violation that closes the connection; `Ping`
/// is answered `Pong`; `Bye` closes; `ListSessions` lists the sessions;
/// `NewSession` asks for the shell to be started; `Attach` attaches the
/// client (leaving its previous session) or answers `SESSION_NOT_FOUND`;
/// `Detach` leaves the session and answers `Ok`; `KillSession` ends the
/// session (and the client's attachment to it) or answers
/// `SESSION_NOT_FOUND`; `KillPane` and `KillWindow` kill the pane or window
/// (ending the client's attachment when its session ended with it) or answer
/// `PANE_NOT_FOUND` / `WINDOW_NOT_FOUND`; `PtyInput` decodes its bytes and has them written to
/// the pane's shell (bad base64 or an unknown pane are dropped); `Resize`
/// asks for the pane's terminal to be resized or answers `PANE_NOT_FOUND`;
/// `Command` is decided by `command_step`; any other kind is answered
/// `INTERNAL` as not yet served.
pub fn dispatch_message<P>(
    registry: &mut Registry<P>,
    attached: &mut Option<SessionId>,
    msg: ClientMessage,
) -> (r: DispatchStep)
    ensures
        step_answers_request(msg, r),
        match msg {
            ClientMessage::Hello { id, .. } => final(registry)@ == old(registry)@ && *final(attached)
                == *old(attached) && (r matches DispatchStep::ReplyAndClose(m) && error_message_spec(
                Some(id),
                ErrorCode::ProtocolViolation,
                "Hello already completed for this connection"@,
                false,
                m,
            )),
            ClientMessage::Ping { id, .. } => final(registry)@ == old(registry)@ && *final(attached)
                == *old(attached) && (r matches DispatchStep::Reply(m) && m matches ServerMessage::Pong {
                v,
                id: i,
            } && v == PROTOCOL_VERSION && i@ == id@),
            ClientMessage::Bye { .. } => final(registry)@ == old(registry)@ && *final(attached)
                == *old(attached) && r is Close,
            ClientMessage::ListSessions { id, .. } => final(registry)@ == old(registry)@
                && *final(attached) == *old(attached) && (r matches DispatchStep::Reply(m)
                && m matches ServerMessage::SessionList { v, id: i, sessions } && v
                == PROTOCOL_VERSION && i@ == id@ && crate::session::lists_sessions(
                old(registry)@,
                sessions@,
            )),
            ClientMessage::NewSession { id, request, .. } => final(registry)@ == old(registry)@
                && *final(attached) == *old(attached) && (r matches DispatchStep::SpawnSession {
                request_id,
                request: q,
            } && request_id@ == id@ && q == request),
            ClientMessage::Attach { id, session, .. } => match resolve_attach_spec(
                old(registry)@,
                session,
            ) {
                Some(sid) if old(registry)@.sessions.contains_key(sid) => final(registry)@
                    == after_leaving(
                    crate::session::attach_effect(old(registry)@, sid),
                    opt_id(*old(attached)),
                ) && opt_id(*final(attached)) == Some(sid) && (r matches DispatchStep::Attached {
                    request_id,
                    result,
                } && request_id@ == id@ && result.session_id@ == sid
                    && crate::session::attach_result_of(result, old(registry)@.sessions[sid])),
                _ => final(registry)@ == old(registry)@ && *final(attached) == *old(attached)
                    && (r matches DispatchStep::Reply(m) && error_message_spec(
                    Some(id),
                    ErrorCode::SessionNotFound,
                    "session not found"@,
                    true,
                    m,
                )),
            },
            ClientMessage::Detach { id, .. } => final(registry)@ == after_leaving(
                old(registry)@,
                opt_id(*old(attached)),
            ) && *final(attached) is None && (r matches DispatchStep::Reply(m) && is_ok_reply(
                id,
                m,
            )),
            ClientMessage::KillSession { id, session, .. } => match crate::session::resolve_kill_spec(
                old(registry)@,
                session,
            ) {
                Some(sid) if old(registry)@.sessions.contains_key(sid) => final(registry)@
                    == after_leaving(
                    crate::session::without_session(old(registry)@, sid),
                    if opt_id(*old(attached)) == Some(sid) {
                        Some(sid)
                    } else {
                        None
                    },
                ) && (opt_id(*old(attached)) == Some(sid) ==> *final(attached) is None) && (opt_id(
                    *old(attached),
                ) != Some(sid) ==> *final(attached) == *old(attached)) && (
                r matches DispatchStep::Reply(m) && is_ok_reply(id, m)),
                _ => final(registry)@ == old(registry)@ && *final(attached) == *old(attached)
                    && (r matches DispatchStep::Reply(m) && error_message_spec(
                    Some(id),
                    ErrorCode::SessionNotFound,
                    "session not found"@,
                    true,
                    m,
                )),
            },
            ClientMessage::KillPane { id, pane_id, .. } => if crate::session::pane_exists(
                old(registry)@,
                pane_id@,
            ) {
                (exists|sid: Seq<char>|
                    #[trigger] pane_kill_step(
                        old(registry)@,
                        final(registry)@,
                        *old(attached),
                        *final(attached),
                        sid,
                        pane_id@,
                    )) && (r matches DispatchStep::Reply(m) && is_ok_reply(id, m))
            } else {
                final(registry)@ == old(registry)@ && *final(attached) == *old(attached) && (
                r matches DispatchStep::Reply(m) && error_message_spec(
                    Some(id),
                    ErrorCode::PaneNotFound,
                    "pane not found"@,
                    true,
                    m,
                ))
            },
            ClientMessage::KillWindow { id, window_id, .. } => if crate::session::window_exists(
                old(registry)@,
                window_id@,
            ) {
                (exists|sid: Seq<char>|
                    #[trigger] window_kill_step(
                        old(registry)@,
                        final(registry)@,
                        *old(attached),
                        *final(attached),
                        sid,
                        window_id@,
                    )) && (r matches DispatchStep::Reply(m) && is_ok_reply(id, m))
            } else {
                final(registry)@ == old(registry)@ && *final(attached) == *old(attached) && (
                r matches DispatchStep::Reply(m) && error_message_spec(
                    Some(id),
                    ErrorCode::WindowNotFound,
                    "window not found"@,
                    true,
                    m,
                ))
            },
            ClientMessage::PtyInput { pane_id, bytes_base64, .. } => final(registry)@
                == old(registry)@ && *final(attached) == *old(attached) && match base64_decode_spec(
                encode_utf8(bytes_base64@),
            ) {
                Some(bytes) => if old(registry)@.runtimes.contains_key(pane_id@) {
                    r matches DispatchStep::WriteInput { pane_id: p, bytes: b } && p@ == pane_id@
                        && b@ == bytes
                } else {
                    r is Nothing
                },
                None => r is Nothing,
            },
            ClientMessage::Resize { id, pane_id, rows, cols, .. } => final(registry)@
                == old(registry)@ && *final(attached) == *old(attached) && if old(
                registry,
            )@.runtimes.contains_key(pane_id@) {
                r matches DispatchStep::ResizePane { request_id, pane_id: p, rows: rr, cols: cc }
                    && request_id@ == id@ && p@ == pane_id@ && rr == rows && cc == cols
            } else {
                r matches DispatchStep::Reply(m) && error_message_spec(
                    Some(id),
                    ErrorCode::PaneNotFound,
                    "pane not found"@,
                    true,
                    m,
                )
            },
            ClientMessage::Command { id, request, .. } => final(registry)@ == old(registry)@
                && *final(attached) == *old(attached) && command_step_spec(
                old(registry)@,
                opt_id(*old(attached)),
                id,
                request,
                r,
            ),
            _ => final(registry)@ == old(registry)@ && *final(attached) == *old(attached) && (
            r matches DispatchStep::Reply(m) && error_message_spec(
                crate::messages::client_message_id_spec(msg),
                ErrorCode::Internal,
                not_dispatched_text(client_message_type(msg)),
                true,
                m,
            )),
        },
{
    match msg {
        ClientMessage::Hello { id, .. } => DispatchStep::ReplyAndClose(
            error_message(
                Some(id),
                ErrorCode::ProtocolViolation,
                "Hello already completed for this connection".to_owned(),
                false,
            ),
        ),
        ClientMessage::Ping { id, .. } => DispatchStep::Reply(ServerMessage::Pong { v: PROTOCOL_VERSION, id }),
        ClientMessage::Bye { .. } => DispatchStep::Close,
        ClientMessage::ListSessions { id, .. } => {
            let sessions = registry.list_summaries();
            DispatchStep::Reply(ServerMessage::SessionList { v: PROTOCOL_VERSION, id, sessions })
        },
        ClientMessage::NewSession { id, request, .. } => DispatchStep::SpawnSession {
            request_id: id,
            request,
        },
        ClientMessage::Attach { id, session, .. } => {
            match registry.attach(&session) {
                Ok(a) => {
                    leave_session(registry, attached);
                    *attached = Some(a.session_id.clone());
                    DispatchStep::Attached { request_id: id, result: a }
                },
                Err(RegistryError::SessionNotFound(_)) => DispatchStep::Reply(
                    error_message(Some(id), ErrorCode::SessionNotFound, "session not found".to_owned(), true),
                ),
                Err(e) => {
                    let m = e.message();
                    DispatchStep::Reply(error_message(Some(id), ErrorCode::Internal, m, true))
                },
            }
        },
        ClientMessage::Detach { id, .. } => {
            leave_session(registry, attached);
            DispatchStep::Reply(ServerMessage::Okay { v: PROTOCOL_VERSION, id })
        },
        ClientMessage::KillSession { id, session, .. } => {
            match registry.kill_session(&session) {
                Ok(killed) => {
                    let mine = match &*attached {
                        Some(a) => a.same_as(&killed),
                        None => false,
                    };
                    if mine {
                        leave_session(registry, attached);
                    }
                    DispatchStep::Reply(ServerMessage::Okay { v: PROTOCOL_VERSION, id })
                },
                Err(RegistryError::SessionNotFound(_)) => DispatchStep::Reply(
                    error_message(Some(id), ErrorCode::SessionNotFound, "session not found".to_owned(), true),
                ),
                Err(e) => {
                    let m = e.message();
                    DispatchStep::Reply(error_message(Some(id), ErrorCode::Internal, m, true))
                },
            }
        },
        ClientMessage::KillPane { id, pane_id, .. } => {
            match registry.kill_pane(&pane_id) {
                Ok(o) => {
                    drop_killed_attachment(registry, attached, &o);
                    assert(pane_kill_step(old(registry)@, registry@, *old(attached), *attached, o.session_id@, pane_id@));
                    DispatchStep::Reply(ServerMessage::Okay { v: PROTOCOL_VERSION, id })
                },
                Err(RegistryError::PaneNotFound(_)) => DispatchStep::Reply(
                    error_message(Some(id), ErrorCode::PaneNotFound, "pane not found".to_owned(), true),
                ),
                Err(e) => {
                    let m = e.message();
                    DispatchStep::Reply(error_message(Some(id), ErrorCode::Internal, m, true))
                },
            }
        },
        ClientMessage::KillWindow { id, window_id, .. } => {
            match registry.kill_window(&window_id) {
                Ok(o) => {
                    drop_killed_attachment(registry, attached, &o);
                    assert(window_kill_step(old(registry)@, registry@, *old(attached), *attached, o.session_id@, window_id@));
                    DispatchStep::Reply(ServerMessage::Okay { v: PROTOCOL_VERSION, id })
                },
                Err(RegistryError::WindowNotFound(_)) => DispatchStep::Reply(
                    error_message(Some(id), ErrorCode::WindowNotFound, "window not found".to_owned(), true),
                ),
                Err(e) => {
                    let m = e.message();
                    DispatchStep::Reply(error_message(Some(id), ErrorCode::Internal, m, true))
                },
            }
        },
        ClientMessage::PtyInput { pane_id, bytes_base64, .. } => {
            match base64_decode(bytes_base64.as_str()) {
                Ok(bytes) => {
                    if registry.pty_for_pane(&pane_id).is_some() {
                        DispatchStep::WriteInput { pane_id, bytes }
                    } else {
                        DispatchStep::Nothing
                    }
                },
                Err(_) => DispatchStep::Nothing,
            }
        },
        ClientMessage::Resize { id, pane_id, rows, cols, .. } => {
            if registry.pty_for_pane(&pane_id).is_none() {
                DispatchStep::Reply(
                    error_message(Some(id), ErrorCode::PaneNotFound, "pane not found".to_owned(), true),
                )
            } else {
                DispatchStep::ResizePane { request_id: id, pane_id, rows, cols }
            }
        },
        ClientMessage::Command { id, request, .. } => command_step(registry, attached, id, request),
        other => {
            let kind = message_type_name(&other);
            let request_id = crate::messages::client_message_id(&other);
            let mut text = String::from_str("`");
            push_str(&mut text, kind);
            push_str(&mut text, "` is parsed but not yet dispatched");
            assert(text@ =~= not_dispatched_text(client_message_type(other)));
            DispatchStep::Reply(error_message(request_id, ErrorCode::Internal, text, true))
        },
    }
}

} // verus!
