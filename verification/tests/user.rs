//! User identifiers and SHA-256.

use winmux::sha256::{sha256, sha256_hex};
use winmux::user::UserIdentity;

#[test]
fn for_username_produces_eight_hex_prefix() {
    let id = UserIdentity::for_username("alice");
    assert_eq!(id.user_sha8.len(), 8);
    assert!(id.user_sha8.chars().all(|c| c.is_ascii_hexdigit()));
}

#[test]
fn pipe_and_mutex_names_share_prefix() {
    let id = UserIdentity::for_username("bob");
    assert!(id.pipe_name().ends_with(&id.user_sha8));
    assert!(id.mutex_name().ends_with(&id.user_sha8));
    assert!(id.pipe_name().starts_with(r"\\.\pipe\winmux-"));
    assert!(id.mutex_name().starts_with(r"Local\WinMux-Server-"));
}

#[test]
fn different_usernames_produce_different_prefixes() {
    let a = UserIdentity::for_username("alice");
    let b = UserIdentity::for_username("bob");
    assert_ne!(a.user_sha8, b.user_sha8);
}

#[test]
fn sha256_known_vectors() {
    assert_eq!(sha256_hex(b""), "e3b0c44298fc1c149afbf4c8996fb92427ae41e4649b934ca495991b7852b855");
    assert_eq!(sha256_hex(b"abc"), "ba7816bf8f01cfea414140de5dae2223b00361a396177a9cb410ff61f20015ad");
    assert_eq!(
        sha256_hex(b"abcdbcdecdefdefgefghfghighijhijkijkljklmklmnlmnomnopnopq"),
        "248d6a61d20638b8e5c026930c3e6039a33ce45964ff2167f6ecedd419db06c1"
    );
    assert_eq!(sha256(&[0u8; 64]).len(), 32);
}

#[test]
fn prefix_is_the_start_of_the_digest() {
    let id = UserIdentity::for_username("alice");
    assert!(sha256_hex(b"alice").starts_with(&id.user_sha8));
    assert_eq!(id.user_sha8, "2bd806c9");
    assert_eq!(id.pipe_name(), r"\\.\pipe\winmux-2bd806c9");
}

#[test]
fn username_variable_must_be_set_and_not_empty() {
    assert_eq!(
        UserIdentity::from_username_var(None).unwrap_err(),
        "USERNAME environment variable is not set"
    );
    assert_eq!(
        UserIdentity::from_username_var(Some(String::new())).unwrap_err(),
        "USERNAME environment variable is empty"
    );
    assert_eq!(UserIdentity::from_username_var(Some("bob".to_owned())).unwrap().username, "bob");
}
