//! Translation of tmux-style key tokens (as `send-keys` takes them) into the
//! bytes written to a pane's terminal.
//!
//! Supported names: `Enter`, `Tab`, `Up`, `Down`, `Right`, `Left`, `C-c`.
//! Other tokens are literal text, sent as their UTF-8 bytes, unless they look
//! like the name of a special key that is not supported (such as `M-x`, `F1`,
//! `Pageup`), which is an error.
use vstd::prelude::*;
use vstd::slice::slice_to_vec;
use vstd::utf8::encode_utf8;

use crate::text::{parse_u8, parse_u8_spec, str_eq};

verus! {

/// Why a key token could not be translated.
#[derive(Debug, PartialEq, Eq)]
pub enum KeyError {
    /// A special key name that is not supported.
    Unsupported(String),
}

/// The bytes of a supported special key name.
pub open spec fn named_key_bytes(t: Seq<char>) -> Option<Seq<u8>> {
    if t == seq!['E', 'n', 't', 'e', 'r'] {
        Some(seq![13u8])
    } else if t == seq!['T', 'a', 'b'] {
        Some(seq![9u8])
    } else if t == seq!['U', 'p'] {
        Some(seq![27u8, 91u8, 65u8])
    } else if t == seq!['D', 'o', 'w', 'n'] {
        Some(seq![27u8, 91u8, 66u8])
    } else if t == seq!['R', 'i', 'g', 'h', 't'] {
        Some(seq![27u8, 91u8, 67u8])
    } else if t == seq!['L', 'e', 'f', 't'] {
        Some(seq![27u8, 91u8, 68u8])
    } else if t == seq!['C', '-', 'c'] {
        Some(seq![3u8])
    } else {
        None
    }
}

/// Unicode `White_Space` characters (what `char::is_whitespace` accepts).
pub open spec fn is_unicode_whitespace(c: char) -> bool {
    let n = c as u32;
    (9 <= n <= 13) || n == 32 || n == 0x85 || n == 0xa0 || n == 0x1680 || (0x2000 <= n <= 0x200a)
        || n == 0x2028 || n == 0x2029 || n == 0x202f || n == 0x205f || n == 0x3000
}

/// Quoting and path punctuation that marks a token as literal text.
pub open spec fn is_literal_punct(c: char) -> bool {
    c == '"' || c == '\'' || c == '\\' || c == '/' || c == '`'
}

/// A `C-x` / `M-x` modifier combination.
pub open spec fn is_modifier_combo(t: Seq<char>) -> bool {
    t.len() == 3 && (t[0] == 'C' || t[0] == 'M') && t[1] == '-' && '!' <= t[2] <= '~'
}

/// A function key name `F1` .. `F24` (the number as `parse::<u8>` reads it).
pub open spec fn is_function_key(t: Seq<char>) -> bool {
    t.len() > 0 && t[0] == 'F' && match parse_u8_spec(t.drop_first()) {
        Some(n) => 1 <= n <= 24,
        None => false,
    }
}

/// An ASCII letter.
pub open spec fn is_ascii_alpha(c: char) -> bool {
    ('A' <= c <= 'Z') || ('a' <= c <= 'z')
}

/// A capitalised word of ASCII letters, such as `Home` or `Escape`.
pub open spec fn is_capitalised_word(t: Seq<char>) -> bool {
    t.len() >= 2 && 'A' <= t[0] <= 'Z' && forall|i: int|
        0 <= i < t.len() ==> is_ascii_alpha(#[trigger] t[i])
}

/// Whether a token looks like the name of a special key (rather than text).
pub open spec fn looks_like_special_spec(t: Seq<char>) -> bool {
    if t.len() == 0 {
        false
    } else if exists|i: int|
        0 <= i < t.len() && (is_unicode_whitespace(#[trigger] t[i]) || is_literal_punct(t[i])) {
        false
    } else {
        is_modifier_combo(t) || is_function_key(t) || is_capitalised_word(t)
    }
}

/// The bytes for one token, or `Err(())` when it names an unsupported key.
pub open spec fn token_bytes_spec(t: Seq<char>) -> Result<Seq<u8>, ()> {
    match named_key_bytes(t) {
        Some(b) => Ok(b),
        None => if looks_like_special_spec(t) {
            Err(())
        } else {
            Ok(encode_utf8(t))
        },
    }
}

/// Law: a word of two or more ASCII letters that starts with a capital letter
/// and is not a supported key name (`Enter`, `Tab`, `Up`, `Down`, `Right`,
/// `Left`) names an unsupported key: it is refused, never typed as text.
/// (`DC`, `IC`, `Home` and `Escape` are such words.)
pub proof fn lemma_unknown_capitalised_words_are_refused(t: Seq<char>)
    requires
        t.len() >= 2,
        'A' <= t[0] <= 'Z',
        forall|i: int| 0 <= i < t.len() ==> ('A' <= #[trigger] t[i] <= 'Z') || ('a' <= t[i] <= 'z'),
        t != seq!['E', 'n', 't', 'e', 'r'],
        t != seq!['T', 'a', 'b'],
        t != seq!['U', 'p'],
        t != seq!['D', 'o', 'w', 'n'],
        t != seq!['R', 'i', 'g', 'h', 't'],
        t != seq!['L', 'e', 'f', 't'],
    ensures
        token_bytes_spec(t) == Err::<Seq<u8>, ()>(()),
{
    assert(t[1] != '-');
    assert(t != seq!['C', '-', 'c']);
    assert(named_key_bytes(t) is None);
    assert forall|i: int| 0 <= i < t.len() implies !(is_unicode_whitespace(#[trigger] t[i])
        || is_literal_punct(t[i])) by {
        assert(('A' <= t[i] <= 'Z') || ('a' <= t[i] <= 'z'));
    }
    assert forall|i: int| 0 <= i < t.len() implies is_ascii_alpha(#[trigger] t[i]) by {
        assert(('A' <= t[i] <= 'Z') || ('a' <= t[i] <= 'z'));
    }
    assert(is_capitalised_word(t));
    assert(looks_like_special_spec(t));
}

fn is_whitespace_char(c: char) -> (r: bool)
    ensures
        r == is_unicode_whitespace(c),
{
    let n = c as u32;
    (9 <= n && n <= 13) || n == 32 || n == 0x85 || n == 0xa0 || n == 0x1680 || (0x2000 <= n && n
        <= 0x200a) || n == 0x2028 || n == 0x2029 || n == 0x202f || n == 0x205f || n == 0x3000
}

/// Heuristic: does the token look like a special key name that we do not know?
/// Ordinary input (`"echo hello"`, non-ASCII text, digits, text with spaces)
/// does not; `M-x`, `Pageup`, `F1`, `C-x` do.
fn looks_like_special_name(token: &str) -> (r: bool)
    ensures
        r == looks_like_special_spec(token@),
{
    let n = token.unicode_len();
    if n == 0 {
        return false;
    }
    let mut i: usize = 0;
    while i < n
        invariant
            n == token@.len(),
            i <= n,
            forall|j: int|
                0 <= j < i ==> !(is_unicode_whitespace(#[trigger] token@[j]) || is_literal_punct(
                    token@[j],
                )),
        decreases n - i,
    {
        let c = token.get_char(i);
        if is_whitespace_char(c) || c == '"' || c == '\'' || c == '\\' || c == '/' || c == '`' {
            return false;
        }
        i = i + 1;
    }
    let c0 = token.get_char(0);
    if n == 3 {
        let c1 = token.get_char(1);
        let c2 = token.get_char(2);
        if (c0 == 'C' || c0 == 'M') && c1 == '-' && '!' <= c2 && c2 <= '~' {
            return true;
        }
    }
    if c0 == 'F' {
        let rest = token.substring_char(1, n);
        assert(rest@ =~= token@.drop_first());
        match parse_u8(rest) {
            Some(v) => {
                if 1 <= v && v <= 24 {
                    return true;
                }
            },
            None => {},
        }
    }
    if n >= 2 && 'A' <= c0 && c0 <= 'Z' {
        let mut k: usize = 0;
        while k < n
            invariant
                n == token@.len(),
                k <= n,
                forall|j: int| 0 <= j < k ==> is_ascii_alpha(#[trigger] token@[j]),
                !is_modifier_combo(token@),
                !is_function_key(token@),
                forall|j: int|
                    0 <= j < n ==> !(is_unicode_whitespace(#[trigger] token@[j])
                        || is_literal_punct(token@[j])),
            decreases n - k,
        {
            let c = token.get_char(k);
            if !(('A' <= c && c <= 'Z') || ('a' <= c && c <= 'z')) {
                assert(!is_ascii_alpha(token@[k as int]));
                return false;
            }
            k = k + 1;
        }
        return true;
    }
    false
}

/// Translates one token into the bytes for the terminal.
///
/// A supported key name gives its control sequence; a token that looks like an
/// unsupported key name is `KeyError::Unsupported`; any other token is sent as
/// its UTF-8 text.
pub fn token_to_bytes(token: &str) -> (r: Result<Vec<u8>, KeyError>)
    ensures
        match r {
            Ok(v) => token_bytes_spec(token@) == Ok::<Seq<u8>, ()>(v@),
            Err(KeyError::Unsupported(name)) => token_bytes_spec(token@) == Err::<Seq<u8>, ()>(())
                && name@ == token@,
        },
{
    proof {
        reveal_strlit("Enter");
        reveal_strlit("Tab");
        reveal_strlit("Up");
        reveal_strlit("Down");
        reveal_strlit("Right");
        reveal_strlit("Left");
        reveal_strlit("C-c");
        assert("Enter"@ =~= seq!['E', 'n', 't', 'e', 'r']);
        assert("Tab"@ =~= seq!['T', 'a', 'b']);
        assert("Up"@ =~= seq!['U', 'p']);
        assert("Down"@ =~= seq!['D', 'o', 'w', 'n']);
        assert("Right"@ =~= seq!['R', 'i', 'g', 'h', 't']);
        assert("Left"@ =~= seq!['L', 'e', 'f', 't']);
        assert("C-c"@ =~= seq!['C', '-', 'c']);
    }
    let mut out: Vec<u8> = Vec::new();
    if str_eq(token, "Enter") {
        out.push(13);
    } else if str_eq(token, "Tab") {
        out.push(9);
    } else if str_eq(token, "Up") {
        out.push(27);
        out.push(91);
        out.push(65);
    } else if str_eq(token, "Down") {
        out.push(27);
        out.push(91);
        out.push(66);
    } else if str_eq(token, "Right") {
        out.push(27);
        out.push(91);
        out.push(67);
    } else if str_eq(token, "Left") {
        out.push(27);
        out.push(91);
        out.push(68);
    } else if str_eq(token, "C-c") {
        out.push(3);
    } else {
        assert(named_key_bytes(token@) is None);
        if looks_like_special_name(token) {
            return Err(KeyError::Unsupported(token.to_owned()));
        }
        return Ok(slice_to_vec(token.as_bytes()));
    }
    assert(out@ =~= named_key_bytes(token@)->0);
    Ok(out)
}

/// The views of a sequence of strings.
pub open spec fn string_views(ts: Seq<String>) -> Seq<Seq<char>> {
    ts.map_values(|t: String| t@)
}

/// The concatenated bytes of a token list, or the first token that names an
/// unsupported key.
pub open spec fn tokens_bytes_spec(ts: Seq<Seq<char>>) -> Result<Seq<u8>, Seq<char>>
    decreases ts.len(),
{
    if ts.len() == 0 {
        Ok(seq![])
    } else {
        match token_bytes_spec(ts[0]) {
            Err(_) => Err(ts[0]),
            Ok(b) => match tokens_bytes_spec(ts.drop_first()) {
                Ok(rest) => Ok(b + rest),
                Err(e) => Err(e),
            },
        }
    }
}

spec fn join_then(p: Seq<u8>, r: Result<Seq<u8>, Seq<char>>) -> Result<Seq<u8>, Seq<char>> {
    match r {
        Ok(x) => Ok(p + x),
        Err(e) => Err(e),
    }
}

proof fn lemma_tokens_step(ts: Seq<Seq<char>>, i: int)
    requires
        0 <= i < ts.len(),
    ensures
        tokens_bytes_spec(ts.subrange(i, ts.len() as int)) == match token_bytes_spec(ts[i]) {
            Err(_) => Err(ts[i]),
            Ok(b) => join_then(b, tokens_bytes_spec(ts.subrange(i + 1, ts.len() as int))),
        },
{
    let u = ts.subrange(i, ts.len() as int);
    assert(u.drop_first() =~= ts.subrange(i + 1, ts.len() as int));
}

/// Translates a list of tokens in order and joins their bytes; the first
/// unsupported token stops the translation.
pub fn tokens_to_bytes(tokens: &[String]) -> (r: Result<Vec<u8>, KeyError>)
    ensures
        match r {
            Ok(v) => tokens_bytes_spec(string_views(tokens@)) == Ok::<Seq<u8>, Seq<char>>(v@),
            Err(KeyError::Unsupported(name)) => tokens_bytes_spec(string_views(tokens@)) == Err::<
                Seq<u8>,
                Seq<char>,
            >(name@),
        },
{
    let ghost ts = string_views(tokens@);
    let n = tokens.len();
    let mut out: Vec<u8> = Vec::new();
    let mut i: usize = 0;
    assert(ts.subrange(0, n as int) =~= ts);
    assert(out@ + Seq::<u8>::empty() =~= Seq::<u8>::empty());
    assert(join_then(out@, tokens_bytes_spec(ts)) == tokens_bytes_spec(ts)) by {
        match tokens_bytes_spec(ts) {
            Ok(x) => {
                assert(out@ + x =~= x);
            },
            Err(_) => {},
        }
    }
    while i < n
        invariant
            n == tokens@.len(),
            ts == string_views(tokens@),
            ts.len() == n,
            i <= n,
            tokens_bytes_spec(ts) == join_then(out@, tokens_bytes_spec(ts.subrange(i as int, n as int))),
        decreases n - i,
    {
        proof {
            lemma_tokens_step(ts, i as int);
        }
        let t = tokens[i].as_str();
        assert(t@ == ts[i as int]);
        match token_to_bytes(t) {
            Ok(b) => {
                let ghost before = out@;
                let mut k: usize = 0;
                while k < b.len()
                    invariant
                        out@ == before + b@.subrange(0, k as int),
                        k <= b@.len(),
                    decreases b@.len() - k,
                {
                    out.push(b[k]);
                    assert(b@.subrange(0, k + 1) =~= b@.subrange(0, k as int).push(b@[k as int]));
                    k = k + 1;
                }
                assert(b@.subrange(0, b@.len() as int) =~= b@);
                assert(join_then(before, join_then(b@, tokens_bytes_spec(ts.subrange(i + 1, n as int))))
                    == join_then(out@, tokens_bytes_spec(ts.subrange(i + 1, n as int)))) by {
                    match tokens_bytes_spec(ts.subrange(i + 1, n as int)) {
                        Ok(x) => {
                            assert(before + (b@ + x) =~= out@ + x);
                        },
                        Err(_) => {},
                    }
                }
            },
            Err(e) => {
                return Err(e);
            },
        }
        i = i + 1;
    }
    assert(ts.subrange(n as int, n as int) =~= Seq::<Seq<char>>::empty());
    assert(out@ + Seq::<u8>::empty() =~= out@);
    Ok(out)
}

} // verus!
