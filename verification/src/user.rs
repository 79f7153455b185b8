//! The current user's identifiers: the names of the server's pipe and of its
//! single-instance mutex carry the first eight hexadecimal digits of the
//! SHA-256 of the user name, so that names with characters a pipe name
//! cannot hold still give a valid, deterministic name. Access control does
//! not depend on this value; the pipe's ACL does that.
use vstd::prelude::*;
use vstd::utf8::encode_utf8;

use crate::sha256::{hex_bytes, sha256_hex, sha256_spec};
use crate::text::{hex_spec, push_str};

verus! {

/// The user's identifiers.
#[derive(Debug)]
pub struct UserIdentity {
    /// The user name (`USERNAME`).
    pub username: String,
    /// The first eight hexadecimal digits of SHA-256 of the user name.
    pub user_sha8: String,
}

proof fn lemma_hex_spec_len(n: nat, w: nat)
    ensures
        hex_spec(n, w).len() == w,
    decreases w,
{
    if w > 0 {
        lemma_hex_spec_len(n / 16, (w - 1) as nat);
    }
}

proof fn lemma_hex_bytes_len(b: Seq<u8>)
    ensures
        hex_bytes(b).len() == 2 * b.len(),
    decreases b.len(),
{
    if b.len() > 0 {
        lemma_hex_bytes_len(b.drop_last());
        lemma_hex_spec_len(b.last() as nat, 2);
    }
}

/// The eight-digit prefix of a user name.
pub open spec fn user_sha8_spec(username: Seq<char>) -> Seq<char> {
    hex_bytes(sha256_spec(encode_utf8(username))).take(8)
}

/// The pipe name of a user prefix.
pub open spec fn pipe_name_spec(sha8: Seq<char>) -> Seq<char> {
    "\\\\.\\pipe\\winmux-"@ + sha8
}

/// The mutex name of a user prefix.
pub open spec fn mutex_name_spec(sha8: Seq<char>) -> Seq<char> {
    "Local\\WinMux-Server-"@ + sha8
}

impl UserIdentity {
    /// The identifiers of a given user name.
    pub fn for_username(username: &str) -> (r: Self)
        requires
            encode_utf8(username@).len() + 73 <= usize::MAX,
        ensures
            r.username@ == username@,
            r.user_sha8@ == user_sha8_spec(username@),
    {
        let bytes = username.as_bytes();
        let hex = sha256_hex(bytes);
        proof {
            lemma_hex_bytes_len(sha256_spec(encode_utf8(username@)));
            assert(sha256_spec(encode_utf8(username@)).len() == 32);
        }
        let user_sha8 = hex.as_str().substring_char(0, 8).to_owned();
        assert(user_sha8@ =~= user_sha8_spec(username@));
        UserIdentity { username: username.to_owned(), user_sha8 }
    }

    /// The identifiers from the value of `USERNAME`, which must be set and not empty.
    pub fn from_username_var(value: Option<String>) -> (r: Result<Self, String>)
        requires
            value matches Some(v) ==> encode_utf8(v@).len() + 73 <= usize::MAX,
        ensures
            match value {
                None => r matches Err(m) && m@ == "USERNAME environment variable is not set"@,
                Some(v) => if v@.len() == 0 {
                    r matches Err(m) && m@ == "USERNAME environment variable is empty"@
                } else {
                    r matches Ok(id) && id.username@ == v@ && id.user_sha8@ == user_sha8_spec(v@)
                },
            },
    {
        match value {
            None => Err("USERNAME environment variable is not set".to_owned()),
            Some(v) => {
                if v.as_str().unicode_len() == 0 {
                    Err("USERNAME environment variable is empty".to_owned())
                } else {
                    Ok(UserIdentity::for_username(v.as_str()))
                }
            },
        }
    }

    /// The name of the server's named pipe, `\\.\pipe\winmux-<sha8>`.
    pub fn pipe_name(&self) -> (r: String)
        ensures
            r@ == pipe_name_spec(self.user_sha8@),
    {
        let mut s = String::from_str("\\\\.\\pipe\\winmux-");
        push_str(&mut s, self.user_sha8.as_str());
        s
    }

    /// The name of the single-instance mutex, `Local\WinMux-Server-<sha8>`.
    pub fn mutex_name(&self) -> (r: String)
        ensures
            r@ == mutex_name_spec(self.user_sha8@),
    {
        let mut s = String::from_str("Local\\WinMux-Server-");
        push_str(&mut s, self.user_sha8.as_str());
        s
    }
}

/// Law: the pipe name and the mutex name of a user end with the same prefix.
pub proof fn lemma_names_share_prefix(sha8: Seq<char>)
    ensures
        pipe_name_spec(sha8).subrange(pipe_name_spec(sha8).len() - sha8.len(), pipe_name_spec(sha8).len() as int)
            == sha8,
        mutex_name_spec(sha8).subrange(mutex_name_spec(sha8).len() - sha8.len(), mutex_name_spec(sha8).len() as int)
            == sha8,
{
    let p = pipe_name_spec(sha8);
    let m = mutex_name_spec(sha8);
    assert(p.subrange(p.len() - sha8.len(), p.len() as int) =~= sha8);
    assert(m.subrange(m.len() - sha8.len(), m.len() as int) =~= sha8);
}

} // verus!
