//! Wire protocol: framing, base64, error codes, identifiers, versions.

use winmux::codec::{base64_decode, base64_encode, decode_line, encode_line, CodecError, MAX_MESSAGE_BYTES};
use winmux::errors::{ErrorCode, ProtocolError};
use winmux::ids::{IdError, MessageId, PaneId, SessionId, WindowId};
use winmux::version::{is_compatible, MAX_COMPATIBLE_VERSION, PROTOCOL_VERSION};

#[test]
fn encode_line_appends_newline() {
    let out = encode_line(b"{\"v\":1}").expect("encode");
    assert_eq!(out, b"{\"v\":1}\n");
}

#[test]
fn encode_line_rejects_embedded_newline() {
    let bad = encode_line(b"{\"v\":1}\nextra");
    assert!(matches!(bad, Err(CodecError::EmbeddedNewline)));
}

#[test]
fn encode_line_rejects_oversize() {
    let huge = vec![b'a'; MAX_MESSAGE_BYTES + 1];
    let bad = encode_line(&huge);
    assert!(matches!(bad, Err(CodecError::TooLarge { .. })));
}

#[test]
fn decode_line_strips_newline() {
    let s = decode_line(b"{\"v\":1}\n").expect("decode");
    assert_eq!(s, "{\"v\":1}");
}

#[test]
fn decode_line_rejects_non_utf8() {
    let bad = decode_line(&[0xFF, 0xFE, 0xFD]);
    assert!(matches!(bad, Err(CodecError::NotUtf8)));
}

#[test]
fn base64_known_vectors() {
    assert_eq!(base64_encode(b""), "");
    assert_eq!(base64_encode(b"f"), "Zg==");
    assert_eq!(base64_encode(b"fo"), "Zm8=");
    assert_eq!(base64_encode(b"foo"), "Zm9v");
    assert_eq!(base64_encode(b"foob"), "Zm9vYg==");
    assert_eq!(base64_encode(b"fooba"), "Zm9vYmE=");
    assert_eq!(base64_encode(b"foobar"), "Zm9vYmFy");
}

#[test]
fn base64_decode_known_vectors() {
    assert_eq!(base64_decode("").expect("0"), b"");
    assert_eq!(base64_decode("Zg==").expect("1"), b"f");
    assert_eq!(base64_decode("Zm8=").expect("2"), b"fo");
    assert_eq!(base64_decode("Zm9v").expect("3"), b"foo");
    assert_eq!(base64_decode("Zm9vYg==").expect("4"), b"foob");
    assert_eq!(base64_decode("Zm9vYmE=").expect("5"), b"fooba");
    assert_eq!(base64_decode("Zm9vYmFy").expect("6"), b"foobar");
}

#[test]
fn base64_roundtrip_random_bytes() {
    let mut buf = Vec::with_capacity(257);
    let mut state: u32 = 0x9E37_79B9;
    for _ in 0..257 {
        state = state.wrapping_mul(1_664_525).wrapping_add(1_013_904_223);
        buf.push((state >> 24) as u8);
    }
    let enc = base64_encode(&buf);
    let dec = base64_decode(&enc).expect("roundtrip");
    assert_eq!(dec, buf);
}

#[test]
fn base64_decode_rejects_garbage() {
    assert!(matches!(base64_decode("####"), Err(CodecError::InvalidBase64)));
    assert!(matches!(base64_decode("abc"), Err(CodecError::InvalidBase64)));
    assert!(matches!(base64_decode("A=BC"), Err(CodecError::InvalidBase64)));
}

#[test]
fn error_code_as_str_matches_wire() {
    assert_eq!(ErrorCode::TooLarge.as_str(), "TOO_LARGE");
    assert_eq!(ErrorCode::VersionMismatch.as_str(), "VERSION_MISMATCH");
}

#[test]
fn protocol_error_maps_to_payload() {
    let err = ProtocolError::VersionMismatch { client: 2, accepted_min: 1, accepted_max: 1 };
    let payload = err.to_payload(None);
    assert_eq!(payload.code, ErrorCode::VersionMismatch);
    assert!(!payload.recoverable);
}

#[test]
fn from_body_attaches_prefix() {
    let id = SessionId::from_body("01HKJ4Z6PXA7G3M2F9XQ7VWERT").expect("from_body");
    assert_eq!(id.as_str(), "ses-01HKJ4Z6PXA7G3M2F9XQ7VWERT");
    assert_eq!(id.body(), "01HKJ4Z6PXA7G3M2F9XQ7VWERT");
}

#[test]
fn from_str_validates_prefix() {
    let parsed: PaneId = "pane-01HKJ4Z6PXA7G3M2F9XQ7VWERT".parse().expect("FromStr");
    assert_eq!(parsed.body(), "01HKJ4Z6PXA7G3M2F9XQ7VWERT");

    let wrong: Result<PaneId, _> = "ses-deadbeef".parse();
    assert!(matches!(wrong, Err(IdError::WrongPrefix { .. })));
}

#[test]
fn empty_body_is_rejected() {
    let parsed: Result<WindowId, _> = "win-".parse();
    assert!(matches!(parsed, Err(IdError::EmptyBody("win"))));
    let built = WindowId::from_body("");
    assert!(matches!(built, Err(IdError::EmptyBody("win"))));
}

#[test]
fn current_version_is_compatible() {
    assert!(is_compatible(PROTOCOL_VERSION));
}

#[test]
fn future_versions_are_rejected() {
    assert!(!is_compatible(MAX_COMPATIBLE_VERSION + 1));
}

#[test]
fn ancient_versions_are_rejected() {
    assert!(!is_compatible(0));
}

#[test]
fn line_framing_round_trips() {
    let body = b"{\"type\":\"Ping\",\"v\":1}";
    let line = encode_line(body).expect("encode");
    assert_eq!(decode_line(&line).expect("decode").as_bytes(), body);
}

#[test]
fn decode_line_without_newline_is_the_whole_line() {
    assert_eq!(decode_line(b"abc").expect("decode"), "abc");
}

#[test]
fn codec_error_messages() {
    assert_eq!(
        CodecError::TooLarge { limit: 16, actual: 17 }.message(),
        "message exceeds 16 bytes (was 17)"
    );
    assert_eq!(CodecError::EmbeddedNewline.message(), "message body contains an embedded newline");
    assert_eq!(CodecError::NotUtf8.message(), "message is not valid UTF-8");
    assert_eq!(CodecError::InvalidBase64.message(), "invalid base64 payload");
}

#[test]
fn protocol_error_texts() {
    let err = ProtocolError::VersionMismatch { client: 2, accepted_min: 1, accepted_max: 1 };
    assert_eq!(err.message(), "version mismatch: client v2, server accepts v1..=v1");
    assert_eq!(ProtocolError::Violation("x".to_owned()).message(), "protocol violation: x");
    let p = ProtocolError::UnknownType("Nope".to_owned()).to_payload(None);
    assert_eq!(p.code, ErrorCode::UnknownMessageType);
    assert!(p.recoverable);
}

#[test]
fn id_error_messages() {
    let wrong = PaneId::parse("ses-deadbeef").expect_err("wrong prefix");
    assert_eq!(wrong.message(), "expected prefix `pane-`, got `ses-deadbeef`");
    let empty = WindowId::parse("win-").expect_err("empty body");
    assert_eq!(empty.message(), "identifier body is empty after prefix `win-`");
}

#[test]
fn id_body_of_unchecked_text_is_the_text() {
    let raw = MessageId::from_raw("not-a-msg".to_owned());
    assert_eq!(raw.body(), "not-a-msg");
    assert_eq!(raw.as_str(), "not-a-msg");
}

#[test]
fn encode_line_accepts_a_body_of_exactly_the_limit() {
    let body = vec![b'a'; MAX_MESSAGE_BYTES];
    let line = encode_line(&body).expect("a body at the limit is allowed");
    assert_eq!(line.len(), MAX_MESSAGE_BYTES + 1);
    assert_eq!(decode_line(&line).expect("decode").len(), MAX_MESSAGE_BYTES);
}
