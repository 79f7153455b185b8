//! Key tokens of `send-keys`.

use winmux::keys::{token_to_bytes, tokens_to_bytes, KeyError};

#[test]
fn enter_maps_to_cr() {
    assert_eq!(token_to_bytes("Enter").unwrap(), b"\r");
}

#[test]
fn tab_maps_to_tab() {
    assert_eq!(token_to_bytes("Tab").unwrap(), b"\t");
}

#[test]
fn arrow_keys_map_to_csi_sequences() {
    assert_eq!(token_to_bytes("Up").unwrap(), b"\x1b[A");
    assert_eq!(token_to_bytes("Down").unwrap(), b"\x1b[B");
    assert_eq!(token_to_bytes("Right").unwrap(), b"\x1b[C");
    assert_eq!(token_to_bytes("Left").unwrap(), b"\x1b[D");
}

#[test]
fn ctrl_c_maps_to_etx() {
    assert_eq!(token_to_bytes("C-c").unwrap(), vec![0x03]);
}

#[test]
fn ordinary_text_passes_through_as_utf8() {
    assert_eq!(token_to_bytes("echo hello").unwrap(), b"echo hello");
    assert_eq!(token_to_bytes("안녕").unwrap(), "안녕".as_bytes());
}

#[test]
fn unsupported_special_names_return_error() {
    assert!(matches!(token_to_bytes("M-x"), Err(KeyError::Unsupported(_))));
    assert!(matches!(token_to_bytes("F1"), Err(KeyError::Unsupported(_))));
    assert!(matches!(token_to_bytes("Pageup"), Err(KeyError::Unsupported(_))));
    assert!(matches!(token_to_bytes("C-x"), Err(KeyError::Unsupported(_))));
}

#[test]
fn tokens_to_bytes_concatenates_in_order() {
    let toks = vec!["echo hello".to_owned(), "Enter".to_owned()];
    assert_eq!(tokens_to_bytes(&toks).unwrap(), b"echo hello\r");
}

#[test]
fn tokens_to_bytes_propagates_first_error() {
    let toks = vec!["echo".to_owned(), "F2".to_owned()];
    assert!(matches!(tokens_to_bytes(&toks), Err(KeyError::Unsupported(_))));
}

#[test]
fn special_name_edges() {
    // Out of the function-key range, and lowercase words, are literal text.
    assert_eq!(token_to_bytes("F25").unwrap(), b"F25");
    assert_eq!(token_to_bytes("home").unwrap(), b"home");
    assert_eq!(token_to_bytes("").unwrap(), b"");
    // Punctuation makes it text even when it would otherwise look special.
    assert_eq!(token_to_bytes("Pa/ge").unwrap(), b"Pa/ge");
    assert!(matches!(token_to_bytes("F+24"), Err(KeyError::Unsupported(_))));
    assert!(matches!(token_to_bytes("F24"), Err(KeyError::Unsupported(_))));
    assert!(matches!(token_to_bytes("F+1"), Err(KeyError::Unsupported(_))));
}

#[test]
fn first_unsupported_token_is_named() {
    let toks = vec!["a".to_owned(), "Home".to_owned(), "M-x".to_owned()];
    assert_eq!(tokens_to_bytes(&toks), Err(KeyError::Unsupported("Home".to_owned())));
}
