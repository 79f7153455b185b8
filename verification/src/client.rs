//! The client side of the wire: request identifiers, reading `HelloAck`, and
//! connection failures.
use vstd::prelude::*;

use crate::cli::exit::{GENERAL_ERROR, NO_SERVER};
use crate::errors::error_code_text;
use crate::ids::{id_text, MessageId};
use crate::messages::{server_message_debug, ServerMessage};
use crate::text::{hex_spec, push_hex, push_str};

verus! {

/// What a client learns of the server from `HelloAck`.
#[derive(Debug)]
pub struct HelloAckInfo {
    /// The server's build version.
    pub server_version: String,
    /// The user name the server verified.
    pub user: String,
    /// The `v` field of `HelloAck`.
    pub protocol_version: u32,
}

/// The identifier of the request numbered `n`: `msg-` and `n` in 20
/// zero-padded lowercase hexadecimal digits.
pub open spec fn message_id_text(n: u64) -> Seq<char> {
    id_text(MessageId::prefix_spec(), hex_spec(n as nat, 20))
}

/// 16 to the power `w`.
pub open spec fn pow16(w: nat) -> nat
    decreases w,
{
    if w == 0 {
        1
    } else {
        16 * pow16((w - 1) as nat)
    }
}

proof fn lemma_hex_injective(a: nat, b: nat, w: nat)
    requires
        hex_spec(a, w) == hex_spec(b, w),
        a < pow16(w),
        b < pow16(w),
    ensures
        a == b,
    decreases w,
{
    if w == 0 {
    } else {
        let wa = hex_spec(a, w);
        let wb = hex_spec(b, w);
        assert(wa.last() == wb.last());
        assert(wa.drop_last() =~= hex_spec(a / 16, (w - 1) as nat));
        assert(wb.drop_last() =~= hex_spec(b / 16, (w - 1) as nat));
        let da = a % 16;
        let db = b % 16;
        assert(crate::text::hex_char(da) == crate::text::hex_char(db));
        assert((crate::text::hex_char(da) as u32) == (crate::text::hex_char(db) as u32));
        assert(da == db);
        assert(a / 16 < pow16((w - 1) as nat)) by (nonlinear_arith)
            requires
                a < 16 * pow16((w - 1) as nat),
        ;
        assert(b / 16 < pow16((w - 1) as nat)) by (nonlinear_arith)
            requires
                b < 16 * pow16((w - 1) as nat),
        ;
        lemma_hex_injective(a / 16, b / 16, (w - 1) as nat);
        assert(a == 16 * (a / 16) + a % 16) by (nonlinear_arith);
        assert(b == 16 * (b / 16) + b % 16) by (nonlinear_arith);
    }
}

/// Law: requests numbered differently get different identifiers, so within
/// one connection identifiers repeat only after 2^64 requests.
pub proof fn lemma_message_ids_distinct(a: u64, b: u64)
    requires
        a != b,
    ensures
        message_id_text(a) != message_id_text(b),
{
    if message_id_text(a) == message_id_text(b) {
        let p = id_text(MessageId::prefix_spec(), hex_spec(a as nat, 20));
        let q = id_text(MessageId::prefix_spec(), hex_spec(b as nat, 20));
        assert(p.skip(4) =~= hex_spec(a as nat, 20));
        assert(q.skip(4) =~= hex_spec(b as nat, 20));
        assert(pow16(20) == 0x1_0000_0000_0000_0000_0000) by {
            reveal_with_fuel(pow16, 21);
        }
        lemma_hex_injective(a as nat, b as nat, 20);
    }
}

/// The identifier of the request numbered `n`.
pub fn message_id_for(n: u64) -> (r: MessageId)
    ensures
        r@ == message_id_text(n),
{
    let mut body = String::new();
    push_hex(&mut body, n, 20);
    match MessageId::from_body(body.as_str()) {
        Ok(id) => id,
        Err(_) => {
            let mut raw = String::from_str("msg-");
            push_str(&mut raw, body.as_str());
            MessageId::from_raw(raw)
        },
    }
}

/// The source of request identifiers of one connection: 1, 2, 3, … (wrapping).
#[derive(Debug)]
pub struct MessageCounter {
    next_msg_id: u64,
}

impl MessageCounter {
    /// A counter whose first identifier is number 1.
    pub fn new() -> (r: Self)
        ensures
            r.next() == 1,
    {
        MessageCounter { next_msg_id: 1 }
    }

    /// A counter whose first identifier is number `n`.
    pub fn starting_at(n: u64) -> (r: Self)
        ensures
            r.next() == n,
    {
        MessageCounter { next_msg_id: n }
    }

    /// The number of the next identifier.
    pub closed spec fn next(&self) -> u64 {
        self.next_msg_id
    }

    /// The next request identifier; numbers never repeat within 2^64 requests.
    pub fn next_message_id(&mut self) -> (r: MessageId)
        ensures
            r@ == message_id_text(old(self).next()),
            final(self).next() == old(self).next().wrapping_add(1),
    {
        let id = message_id_for(self.next_msg_id);
        self.next_msg_id = self.next_msg_id.wrapping_add(1);
        id
    }
}

/// Reads the answer to `Hello`: `HelloAck` gives the server's information;
/// an `Error` becomes `server rejected Hello: <message> (<CODE>)`; anything
/// else is reported as `expected HelloAck, got …`.
pub fn hello_outcome(resp: ServerMessage) -> (r: Result<HelloAckInfo, String>)
    ensures
        match resp {
            ServerMessage::HelloAck { v, server_version, user, .. } => r matches Ok(info)
                && info.server_version@ == server_version@ && info.user@ == user@
                && info.protocol_version == v,
            ServerMessage::Error { payload, .. } => r matches Err(m) && m@
                == "server rejected Hello: "@ + payload.message@ + " ("@ + error_code_text(
                payload.code,
            ) + ")"@,
            _ => r matches Err(m) && exists|d: Seq<char>| m@ == "expected HelloAck, got "@ + d,
        },
{
    match resp {
        ServerMessage::HelloAck { v, server_version, user, .. } => Ok(
            HelloAckInfo { server_version, user, protocol_version: v },
        ),
        ServerMessage::Error { payload, .. } => {
            let mut m = String::from_str("server rejected Hello: ");
            push_str(&mut m, payload.message.as_str());
            push_str(&mut m, " (");
            push_str(&mut m, payload.code.as_str());
            push_str(&mut m, ")");
            assert(m@ =~= "server rejected Hello: "@ + payload.message@ + " ("@ + error_code_text(
                payload.code,
            ) + ")"@);
            Err(m)
        },
        other => {
            let d = server_message_debug(&other);
            let mut m = String::from_str("expected HelloAck, got ");
            push_str(&mut m, d.as_str());
            assert(m@ == "expected HelloAck, got "@ + d@);
            Err(m)
        },
    }
}

#[verifier::external_type_specification]
#[verifier::external_body]
pub struct ExIoError(std::io::Error);

/// Why a connection to the server's pipe could not be made.
#[derive(Debug)]
pub enum ConnectError {
    /// The pipe does not exist: the server is not running.
    NotRunning(String),
    /// Another I/O error.
    Io(std::io::Error),
    /// The pipe stayed busy through every retry.
    RetriesExhausted {
        /// The pipe that was tried.
        pipe: String,
    },
}

/// The Windows error code of a missing file or pipe.
pub const ERROR_FILE_NOT_FOUND: i32 = 2;
/// The Windows error code of a pipe whose instances are all busy.
pub const ERROR_PIPE_BUSY: i32 = 231;

/// The waits before each connection attempt, in milliseconds.
pub const RETRY_DELAYS_MS: [u64; 5] = [0, 100, 300, 1000, 3000];

/// The text of an I/O error (`Display` of `std::io::Error`).
///
/// Trusted: `format!` of the error; nothing is stated of the text, which
/// comes from the operating system.
#[verifier::external_body]
fn io_error_text(e: &std::io::Error) -> String {
    format!("{e}")
}

/// The text of a connection failure.
pub open spec fn connect_error_text(e: ConnectError, io_text: Seq<char>) -> Seq<char> {
    match e {
        ConnectError::NotRunning(p) => "server is not running (pipe not found): "@ + p@,
        ConnectError::Io(_) => "pipe connect failed: "@ + io_text,
        ConnectError::RetriesExhausted { pipe } => "connect retries exhausted for pipe `"@ + pipe@
            + "`"@,
    }
}

impl ConnectError {
    /// The error's text (for an I/O error, the operating system's text follows the prefix).
    pub fn message(&self) -> (r: String)
        ensures
            exists|io_text: Seq<char>| r@ == connect_error_text(*self, io_text),
    {
        match self {
            ConnectError::NotRunning(p) => {
                let mut m = String::from_str("server is not running (pipe not found): ");
                push_str(&mut m, p.as_str());
                assert(m@ == connect_error_text(*self, Seq::empty()));
                m
            },
            ConnectError::Io(e) => {
                let t = io_error_text(e);
                let mut m = String::from_str("pipe connect failed: ");
                push_str(&mut m, t.as_str());
                assert(m@ == connect_error_text(*self, t@));
                m
            },
            ConnectError::RetriesExhausted { pipe } => {
                let mut m = String::from_str("connect retries exhausted for pipe `");
                push_str(&mut m, pipe.as_str());
                push_str(&mut m, "`");
                assert(m@ =~= connect_error_text(*self, Seq::empty()));
                m
            },
        }
    }
}

/// The failure of one connection attempt, from the error's OS code: a
/// missing pipe means the server is not running; anything else is an I/O error.
pub fn open_failure(pipe: &str, raw_os_error: Option<i32>, err: std::io::Error) -> (r: ConnectError)
    ensures
        raw_os_error == Some(ERROR_FILE_NOT_FOUND) ==> (r matches ConnectError::NotRunning(p) && p@
            == pipe@),
        raw_os_error != Some(ERROR_FILE_NOT_FOUND) ==> r is Io,
{
    match raw_os_error {
        Some(code) => {
            if code == ERROR_FILE_NOT_FOUND {
                return ConnectError::NotRunning(pipe.to_owned());
            }
        },
        None => {},
    }
    ConnectError::Io(err)
}

/// The failure after the last retry, from the last error's OS code: a
/// missing pipe means the server is not running, a busy pipe that retries
/// ran out, anything else is an I/O error.
pub fn retry_failure(pipe: &str, raw_os_error: Option<i32>, last_err: std::io::Error) -> (r: ConnectError)
    ensures
        raw_os_error == Some(ERROR_FILE_NOT_FOUND) ==> (r matches ConnectError::NotRunning(p) && p@
            == pipe@),
        raw_os_error == Some(ERROR_PIPE_BUSY) ==> (r matches ConnectError::RetriesExhausted { pipe: p }
            && p@ == pipe@),
        raw_os_error != Some(ERROR_FILE_NOT_FOUND) && raw_os_error != Some(ERROR_PIPE_BUSY) ==> r is Io,
{
    match raw_os_error {
        Some(code) => {
            if code == ERROR_FILE_NOT_FOUND {
                return ConnectError::NotRunning(pipe.to_owned());
            }
            if code == ERROR_PIPE_BUSY {
                return ConnectError::RetriesExhausted { pipe: pipe.to_owned() };
            }
        },
        None => {},
    }
    ConnectError::Io(last_err)
}

/// Why the server could not be reached when starting it on demand.
#[derive(Debug)]
pub enum EnsureFailure {
    /// The first connection attempt failed for another reason than a missing pipe.
    Connect(ConnectError),
    /// The server's executable was not found (the reason in one line).
    Locate(String),
    /// The server's executable could not be started.
    Spawn {
        /// The executable's path, as shown.
        exe: String,
        /// The operating system's error text.
        error: String,
    },
    /// The server was started but its pipe never answered.
    Start(ConnectError),
}

/// Whether a failed first connection attempt means the server should be started.
pub fn should_start_server(first: &ConnectError) -> (r: bool)
    ensures
        r == (*first is NotRunning),
{
    match first {
        ConnectError::NotRunning(_) => true,
        _ => false,
    }
}

/// The exit code and text of a failure to reach the server, for each stage
/// (before each connection error's text, the operating system's text of an
/// I/O error).
pub open spec fn ensure_failure_spec(f: EnsureFailure, io_text: Seq<char>) -> (u8, Seq<char>) {
    match f {
        EnsureFailure::Connect(e) => (GENERAL_ERROR, "connect failed: "@ + connect_error_text(e, io_text)),
        EnsureFailure::Locate(why) => (NO_SERVER, "server is not running and "@ + why@),
        EnsureFailure::Spawn { exe, error } => (
            NO_SERVER,
            "failed to spawn `"@ + exe@ + "`: "@ + error@,
        ),
        EnsureFailure::Start(e) => (NO_SERVER, "server failed to start: "@ + connect_error_text(e, io_text)),
    }
}

/// Whether `(code, text)` is the exit code and text of the failure `f`, for
/// some text of an I/O error.
pub open spec fn is_ensure_failure(f: EnsureFailure, code: u8, text: Seq<char>) -> bool {
    exists|io_text: Seq<char>| #[trigger] ensure_failure_spec(f, io_text) == (code, text)
}

impl EnsureFailure {
    /// The exit code and the message of the failure.
    pub fn into_tuple(self) -> (r: (u8, String))
        ensures
            is_ensure_failure(self, r.0, r.1@),
    {
        let ghost me = self;
        match self {
            EnsureFailure::Connect(e) => {
                let t = e.message();
                let ghost io = choose|io_text: Seq<char>| t@ == connect_error_text(e, io_text);
                let mut m = String::from_str("connect failed: ");
                push_str(&mut m, t.as_str());
                assert(m@ == ensure_failure_spec(me, io).1);
                assert(GENERAL_ERROR == ensure_failure_spec(me, io).0);
                (GENERAL_ERROR, m)
            },
            EnsureFailure::Locate(why) => {
                let mut m = String::from_str("server is not running and ");
                push_str(&mut m, why.as_str());
                assert(m@ == ensure_failure_spec(EnsureFailure::Locate(why), Seq::empty()).1);
                (NO_SERVER, m)
            },
            EnsureFailure::Spawn { exe, error } => {
                let mut m = String::from_str("failed to spawn `");
                push_str(&mut m, exe.as_str());
                push_str(&mut m, "`: ");
                push_str(&mut m, error.as_str());
                assert(m@ =~= ensure_failure_spec(EnsureFailure::Spawn { exe, error }, Seq::empty()).1);
                (NO_SERVER, m)
            },
            EnsureFailure::Start(e) => {
                let t = e.message();
                let ghost io = choose|io_text: Seq<char>| t@ == connect_error_text(e, io_text);
                let mut m = String::from_str("server failed to start: ");
                push_str(&mut m, t.as_str());
                assert(m@ == ensure_failure_spec(me, io).1);
                assert(NO_SERVER == ensure_failure_spec(me, io).0);
                (NO_SERVER, m)
            },
        }
    }
}

} // verus!
