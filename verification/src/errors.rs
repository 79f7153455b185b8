//! Protocol-level errors and the wire `Error` payload.
//!
//! `ProtocolError` is what the decoder reports inside the server;
//! `ErrorPayload` is the shape sent back to the client. The code strings match
//! the protocol's error table one to one.
use vstd::prelude::*;

use crate::codec::CodecError;
use crate::ids::MessageId;
use crate::text::{decimal_spec, push_decimal, push_str};

verus! {

/// Error classification carried on the wire.
#[derive(Clone, Copy, Debug, PartialEq, Eq, Structural)]
#[non_exhaustive]
pub enum ErrorCode {
    /// Client and server protocol versions are not compatible.
    VersionMismatch,
    /// Message order or shape is wrong (for example a message before `Hello`).
    ProtocolViolation,
    /// A `type` value this protocol version does not know.
    UnknownMessageType,
    /// The referenced session does not exist.
    SessionNotFound,
    /// The referenced window does not exist.
    WindowNotFound,
    /// The referenced pane does not exist.
    PaneNotFound,
    /// The client's account does not match the server's.
    PermissionDenied,
    /// A message exceeds the size limit.
    TooLarge,
    /// A request got no answer in time.
    Timeout,
    /// An internal server fault.
    Internal,
}

/// The wire text of an error code.
pub open spec fn error_code_text(c: ErrorCode) -> Seq<char> {
    match c {
        ErrorCode::VersionMismatch => "VERSION_MISMATCH"@,
        ErrorCode::ProtocolViolation => "PROTOCOL_VIOLATION"@,
        ErrorCode::UnknownMessageType => "UNKNOWN_MESSAGE_TYPE"@,
        ErrorCode::SessionNotFound => "SESSION_NOT_FOUND"@,
        ErrorCode::WindowNotFound => "WINDOW_NOT_FOUND"@,
        ErrorCode::PaneNotFound => "PANE_NOT_FOUND"@,
        ErrorCode::PermissionDenied => "PERMISSION_DENIED"@,
        ErrorCode::TooLarge => "TOO_LARGE"@,
        ErrorCode::Timeout => "TIMEOUT"@,
        ErrorCode::Internal => "INTERNAL"@,
    }
}

impl ErrorCode {
    /// The wire text (`SCREAMING_SNAKE_CASE`).
    pub fn as_str(self) -> (r: &'static str)
        ensures
            r@ == error_code_text(self),
    {
        match self {
            ErrorCode::VersionMismatch => "VERSION_MISMATCH",
            ErrorCode::ProtocolViolation => "PROTOCOL_VIOLATION",
            ErrorCode::UnknownMessageType => "UNKNOWN_MESSAGE_TYPE",
            ErrorCode::SessionNotFound => "SESSION_NOT_FOUND",
            ErrorCode::WindowNotFound => "WINDOW_NOT_FOUND",
            ErrorCode::PaneNotFound => "PANE_NOT_FOUND",
            ErrorCode::PermissionDenied => "PERMISSION_DENIED",
            ErrorCode::TooLarge => "TOO_LARGE",
            ErrorCode::Timeout => "TIMEOUT",
            ErrorCode::Internal => "INTERNAL",
        }
    }
}

/// The wire payload of an `Error` message.
#[derive(Debug, PartialEq, Eq)]
pub struct ErrorPayload {
    /// The `id` of the request that caused it; `None` when the server hangs up on its own.
    pub id: Option<MessageId>,
    /// Classification.
    pub code: ErrorCode,
    /// Human-readable description.
    pub message: String,
    /// `false` when the server is about to close the connection.
    pub recoverable: bool,
}

/// Decoder-side protocol error (not a wire shape).
#[derive(Debug, PartialEq, Eq)]
#[non_exhaustive]
pub enum ProtocolError {
    /// Unknown `type` field.
    UnknownType(String),
    /// State-machine violation, such as a message before `Hello`.
    Violation(String),
    /// The client's version is outside the accepted range.
    VersionMismatch {
        /// Version the client announced.
        client: u32,
        /// Lowest version the server accepts.
        accepted_min: u32,
        /// Highest version the server accepts.
        accepted_max: u32,
    },
    /// The message exceeds the size limit.
    TooLarge {
        /// The limit.
        limit: usize,
        /// The actual size.
        actual: usize,
    },
    /// Deserialization failed.
    Deserialize(String),
}

/// The human-readable text of a protocol error.
pub open spec fn protocol_error_text(e: ProtocolError) -> Seq<char> {
    match e {
        ProtocolError::UnknownType(t) => "unknown message type `"@ + t@ + "`"@,
        ProtocolError::Violation(t) => "protocol violation: "@ + t@,
        ProtocolError::VersionMismatch { client, accepted_min, accepted_max } => "version mismatch: client v"@
            + decimal_spec(client as nat) + ", server accepts v"@ + decimal_spec(accepted_min as nat)
            + "..=v"@ + decimal_spec(accepted_max as nat),
        ProtocolError::TooLarge { limit, actual } => "message exceeds "@ + decimal_spec(limit as nat)
            + " bytes (was "@ + decimal_spec(actual as nat) + ")"@,
        ProtocolError::Deserialize(t) => "deserialize failed: "@ + t@,
    }
}

/// The wire classification and recoverability of a protocol error.
pub open spec fn protocol_error_class(e: ProtocolError) -> (ErrorCode, bool) {
    match e {
        ProtocolError::UnknownType(_) => (ErrorCode::UnknownMessageType, true),
        ProtocolError::Violation(_) => (ErrorCode::ProtocolViolation, false),
        ProtocolError::VersionMismatch { .. } => (ErrorCode::VersionMismatch, false),
        ProtocolError::TooLarge { .. } => (ErrorCode::TooLarge, false),
        ProtocolError::Deserialize(_) => (ErrorCode::ProtocolViolation, false),
    }
}

impl ProtocolError {
    /// The human-readable text of this error.
    pub fn message(&self) -> (r: String)
        ensures
            r@ == protocol_error_text(*self),
    {
        let mut s = String::new();
        match self {
            ProtocolError::UnknownType(t) => {
                push_str(&mut s, "unknown message type `");
                push_str(&mut s, t.as_str());
                push_str(&mut s, "`");
            },
            ProtocolError::Violation(t) => {
                push_str(&mut s, "protocol violation: ");
                push_str(&mut s, t.as_str());
            },
            ProtocolError::VersionMismatch { client, accepted_min, accepted_max } => {
                push_str(&mut s, "version mismatch: client v");
                push_decimal(&mut s, *client as u64);
                push_str(&mut s, ", server accepts v");
                push_decimal(&mut s, *accepted_min as u64);
                push_str(&mut s, "..=v");
                push_decimal(&mut s, *accepted_max as u64);
            },
            ProtocolError::TooLarge { limit, actual } => {
                push_str(&mut s, "message exceeds ");
                push_decimal(&mut s, *limit as u64);
                push_str(&mut s, " bytes (was ");
                push_decimal(&mut s, *actual as u64);
                push_str(&mut s, ")");
            },
            ProtocolError::Deserialize(t) => {
                push_str(&mut s, "deserialize failed: ");
                push_str(&mut s, t.as_str());
            },
        }
        assert(s@ =~= protocol_error_text(*self));
        s
    }

    /// Converts this error into the wire payload answering `request_id`.
    pub fn to_payload(&self, request_id: Option<MessageId>) -> (r: ErrorPayload)
        ensures
            r.id == request_id,
            (r.code, r.recoverable) == protocol_error_class(*self),
            r.message@ == protocol_error_text(*self),
    {
        let (code, recoverable) = match self {
            ProtocolError::UnknownType(_) => (ErrorCode::UnknownMessageType, true),
            ProtocolError::Violation(_) => (ErrorCode::ProtocolViolation, false),
            ProtocolError::VersionMismatch { .. } => (ErrorCode::VersionMismatch, false),
            ProtocolError::TooLarge { .. } => (ErrorCode::TooLarge, false),
            ProtocolError::Deserialize(_) => (ErrorCode::ProtocolViolation, false),
        };
        ErrorPayload { id: request_id, code, message: self.message(), recoverable }
    }
}

/// The text of a framing error, as it is shown to users.
pub open spec fn codec_error_text(e: CodecError) -> Seq<char> {
    match e {
        CodecError::TooLarge { limit, actual } => "message exceeds "@ + decimal_spec(limit as nat)
            + " bytes (was "@ + decimal_spec(actual as nat) + ")"@,
        CodecError::EmbeddedNewline => "message body contains an embedded newline"@,
        CodecError::NotUtf8 => "message is not valid UTF-8"@,
        CodecError::InvalidBase64 => "invalid base64 payload"@,
    }
}

impl CodecError {
    /// The error's text.
    pub fn message(&self) -> (r: String)
        ensures
            r@ == codec_error_text(*self),
    {
        match self {
            CodecError::TooLarge { limit, actual } => {
                let mut s = String::from_str("message exceeds ");
                push_decimal(&mut s, *limit as u64);
                push_str(&mut s, " bytes (was ");
                push_decimal(&mut s, *actual as u64);
                push_str(&mut s, ")");
                assert(s@ =~= codec_error_text(*self));
                s
            },
            CodecError::EmbeddedNewline => "message body contains an embedded newline".to_owned(),
            CodecError::NotUtf8 => "message is not valid UTF-8".to_owned(),
            CodecError::InvalidBase64 => "invalid base64 payload".to_owned(),
        }
    }
}

} // verus!
