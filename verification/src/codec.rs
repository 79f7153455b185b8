//! JSON-Lines framing and the standard base64 alphabet (RFC 4648 section 4).
use vstd::prelude::*;

use vstd::utf8::{encode_utf8, is_ascii_chars, valid_utf8};

use crate::text::{push_char, str_from_utf8};

verus! {

/// Base64 alphabet byte for a 6-bit value.
pub open spec fn symbol_code(v: int) -> u8 {
    if v < 26 {
        (65 + v) as u8
    } else if v < 52 {
        (97 + (v - 26)) as u8
    } else if v < 62 {
        (48 + (v - 52)) as u8
    } else if v == 62 {
        43u8
    } else {
        47u8
    }
}

/// Base64 alphabet character for a 6-bit value.
pub open spec fn symbol(v: int) -> char {
    symbol_code(v) as char
}

fn symbol_exec(v: u8) -> (c: char)
    requires
        v < 64,
    ensures
        c == symbol(v as int),
{
    if v < 26 {
        (65u8 + v) as char
    } else if v < 52 {
        (97u8 + (v - 26)) as char
    } else if v < 62 {
        (48u8 + (v - 52)) as char
    } else if v == 62 {
        '+'
    } else {
        '/'
    }
}


/// The base64 alphabet of RFC 4648 (Table 1): `A`–`Z` for 0–25, `a`–`z` for
/// 26–51, `0`–`9` for 52–61, then `+` for 62 and `/` for 63.
pub open spec fn rfc4648_alphabet() -> Seq<char> {
    Seq::new(26, |i: int| ('A' as int + i) as char) + Seq::new(26, |i: int| ('a' as int + i) as char)
        + Seq::new(10, |i: int| ('0' as int + i) as char) + seq!['+', '/']
}

proof fn lemma_symbol_is_rfc4648(v: int)
    requires
        0 <= v < 64,
    ensures
        symbol(v) == rfc4648_alphabet()[v],
{
    let a = rfc4648_alphabet();
    assert(a.len() == 64);
    if v < 26 {
        assert(a[v] == ('A' as int + v) as char);
    } else if v < 52 {
        assert(a[v] == ('a' as int + (v - 26)) as char);
    } else if v < 62 {
        assert(a[v] == ('0' as int + (v - 52)) as char);
    } else if v == 62 {
        assert(a[v] == '+');
    } else {
        assert(a[v] == '/');
    }
}

/// The four characters that encode one complete group of three bytes.
pub open spec fn encode_group3(b0: u8, b1: u8, b2: u8) -> Seq<char> {
    seq![
        symbol((b0 / 4) as int),
        symbol((b0 % 4) * 16 + b1 / 16),
        symbol((b1 % 16) * 4 + b2 / 64),
        symbol((b2 % 64) as int),
    ]
}

/// The four characters that encode a final group of two bytes.
pub open spec fn encode_group2(b0: u8, b1: u8) -> Seq<char> {
    seq![symbol((b0 / 4) as int), symbol((b0 % 4) * 16 + b1 / 16), symbol((b1 % 16) * 4), '=']
}

/// The four characters that encode a final group of one byte.
pub open spec fn encode_group1(b0: u8) -> Seq<char> {
    seq![symbol((b0 / 4) as int), symbol((b0 % 4) * 16), '=', '=']
}

/// Standard padded base64 of a byte sequence.
pub open spec fn base64_spec(b: Seq<u8>) -> Seq<char>
    decreases b.len(),
{
    if b.len() == 0 {
        seq![]
    } else if b.len() == 1 {
        encode_group1(b[0])
    } else if b.len() == 2 {
        encode_group2(b[0], b[1])
    } else {
        encode_group3(b[0], b[1], b[2]) + base64_spec(b.subrange(3, b.len() as int))
    }
}

proof fn lemma_base64_step(b: Seq<u8>, i: int)
    requires
        0 <= i,
        i + 3 <= b.len(),
    ensures
        base64_spec(b.subrange(i, b.len() as int)) == encode_group3(b[i], b[i + 1], b[i + 2])
            + base64_spec(b.subrange(i + 3, b.len() as int)),
{
    let t = b.subrange(i, b.len() as int);
    assert(t.subrange(3, t.len() as int) =~= b.subrange(i + 3, b.len() as int));
}

proof fn lemma_base64_skip_groups(b: Seq<u8>, g: int)
    requires
        0 <= g,
        3 * g <= b.len(),
    ensures
        base64_spec(b).len() == 4 * g + base64_spec(b.subrange(3 * g, b.len() as int)).len(),
        base64_spec(b).skip(4 * g) == base64_spec(b.subrange(3 * g, b.len() as int)),
    decreases g,
{
    if g == 0 {
        assert(b.subrange(0, b.len() as int) =~= b);
        assert(base64_spec(b).skip(0) =~= base64_spec(b));
    } else {
        lemma_base64_skip_groups(b, g - 1);
        lemma_base64_step(b, 3 * (g - 1));
        let e = base64_spec(b);
        let r = base64_spec(b.subrange(3 * g, b.len() as int));
        assert(e.skip(4 * (g - 1)) == encode_group3(b[3 * (g - 1)], b[3 * (g - 1) + 1], b[3 * (g - 1) + 2]) + r);
        assert(e.skip(4 * g) =~= e.skip(4 * (g - 1)).skip(4));
        assert((encode_group3(b[3 * (g - 1)], b[3 * (g - 1) + 1], b[3 * (g - 1) + 2]) + r).skip(4) =~= r);
    }
}

/// Law: base64 writes each complete group of three bytes `x y z` (the `g`-th,
/// from byte `3g`) as four characters (from character `4g`) of the RFC 4648
/// alphabet: those of `x >> 2`, `(x & 3) << 4 | y >> 4`, `(y & 15) << 2 | z >> 6`
/// and `z & 63`. So `+` stands for 62 and `/` for 63, as every standard
/// encoder writes them.
pub proof fn lemma_base64_uses_rfc4648_alphabet(b: Seq<u8>, g: int)
    requires
        0 <= g,
        3 * g + 3 <= b.len(),
    ensures
        ({
            let e = base64_spec(b);
            let (x, y, z) = (b[3 * g], b[3 * g + 1], b[3 * g + 2]);
            &&& e[4 * g] == rfc4648_alphabet()[(x >> 2u8) as int]
            &&& e[4 * g + 1] == rfc4648_alphabet()[(((x & 3u8) << 4u8) | (y >> 4u8)) as int]
            &&& e[4 * g + 2] == rfc4648_alphabet()[(((y & 15u8) << 2u8) | (z >> 6u8)) as int]
            &&& e[4 * g + 3] == rfc4648_alphabet()[(z & 63u8) as int]
        }),
{
    let x = b[3 * g];
    let y = b[3 * g + 1];
    let z = b[3 * g + 2];
    lemma_base64_skip_groups(b, g);
    lemma_base64_step(b, 3 * g);
    let e = base64_spec(b);
    assert(e.skip(4 * g) == encode_group3(x, y, z) + base64_spec(b.subrange(3 * g + 3, b.len() as int)));
    assert(e[4 * g] == e.skip(4 * g)[0]);
    assert(e[4 * g + 1] == e.skip(4 * g)[1]);
    assert(e[4 * g + 2] == e.skip(4 * g)[2]);
    assert(e[4 * g + 3] == e.skip(4 * g)[3]);
    assert(x >> 2u8 == x / 4 && x >> 2u8 < 64) by (bit_vector);
    assert(((x & 3u8) << 4u8) | (y >> 4u8) == (x % 4) * 16 + y / 16 && ((x & 3u8) << 4u8) | (y >> 4u8)
        < 64) by (bit_vector);
    assert(((y & 15u8) << 2u8) | (z >> 6u8) == (y % 16) * 4 + z / 64 && ((y & 15u8) << 2u8) | (z >> 6u8)
        < 64) by (bit_vector);
    assert(z & 63u8 == z % 64) by (bit_vector);
    lemma_symbol_is_rfc4648((x / 4) as int);
    lemma_symbol_is_rfc4648((x % 4) * 16 + y / 16);
    lemma_symbol_is_rfc4648((y % 16) * 4 + z / 64);
    lemma_symbol_is_rfc4648((z % 64) as int);
}

/// Encodes raw bytes as standard base64 (`+/`, `=` padding).
pub fn base64_encode(bytes: &[u8]) -> (out: String)
    ensures
        out@ == base64_spec(bytes@),
{
    let n = bytes.len();
    let mut out = String::new();
    let mut i: usize = 0;
    assert(bytes@.subrange(0, n as int) =~= bytes@);
    assert(out@ + base64_spec(bytes@) =~= base64_spec(bytes@));
    while n - i >= 3
        invariant
            n == bytes@.len(),
            i <= n,
            base64_spec(bytes@) == out@ + base64_spec(bytes@.subrange(i as int, n as int)),
        decreases n - i,
    {
        let b0 = bytes[i];
        let b1 = bytes[i + 1];
        let b2 = bytes[i + 2];
        proof {
            lemma_base64_step(bytes@, i as int);
        }
        let ghost before = out@;
        push_char(&mut out, symbol_exec(b0 / 4));
        push_char(&mut out, symbol_exec((b0 % 4) * 16 + b1 / 16));
        push_char(&mut out, symbol_exec((b1 % 16) * 4 + b2 / 64));
        push_char(&mut out, symbol_exec(b2 % 64));
        assert(out@ =~= before + encode_group3(b0, b1, b2));
        i = i + 3;
    }
    let rem = n - i;
    let ghost tail = bytes@.subrange(i as int, n as int);
    if rem == 1 {
        let b0 = bytes[i];
        assert(tail.len() == 1 && tail[0] == b0);
        let ghost before = out@;
        push_char(&mut out, symbol_exec(b0 / 4));
        push_char(&mut out, symbol_exec((b0 % 4) * 16));
        push_char(&mut out, '=');
        push_char(&mut out, '=');
        assert(out@ =~= before + encode_group1(b0));
    } else if rem == 2 {
        let b0 = bytes[i];
        let b1 = bytes[i + 1];
        assert(tail.len() == 2 && tail[0] == b0 && tail[1] == b1);
        let ghost before = out@;
        push_char(&mut out, symbol_exec(b0 / 4));
        push_char(&mut out, symbol_exec((b0 % 4) * 16 + b1 / 16));
        push_char(&mut out, symbol_exec((b1 % 16) * 4));
        push_char(&mut out, '=');
        assert(out@ =~= before + encode_group2(b0, b1));
    } else {
        assert(tail.len() == 0);
        assert(out@ =~= out@ + base64_spec(tail));
    }
    out
}


/// Framing and payload errors of the wire codec.
#[derive(Debug, Clone, Copy, PartialEq, Eq)]
pub enum CodecError {
    /// The message exceeds the size limit.
    TooLarge {
        /// The limit.
        limit: usize,
        /// The actual size.
        actual: usize,
    },
    /// The message body contains a newline.
    EmbeddedNewline,
    /// The bytes are not valid UTF-8.
    NotUtf8,
    /// A character outside the base64 alphabet, or a length that is not a multiple of four.
    InvalidBase64,
}

/// The 6-bit value of a base64 alphabet byte; `None` for any other byte.
pub open spec fn symbol_value(c: u8) -> Option<u8> {
    if 65 <= c <= 90 {
        Some((c - 65) as u8)
    } else if 97 <= c <= 122 {
        Some((c - 97 + 26) as u8)
    } else if 48 <= c <= 57 {
        Some((c - 48 + 52) as u8)
    } else if c == 43 {
        Some(62u8)
    } else if c == 47 {
        Some(63u8)
    } else {
        None
    }
}

/// The padding byte `=`.
pub open spec fn is_pad(c: u8) -> bool {
    c == 61
}

/// Bytes carried by one group of four characters; `None` when the group is malformed.
///
/// The first two characters must be data characters, the last two may be padding,
/// and a data character may not follow a padding character.
pub open spec fn decode_group(c0: u8, c1: u8, c2: u8, c3: u8) -> Option<Seq<u8>> {
    match (symbol_value(c0), symbol_value(c1)) {
        (Some(v0), Some(v1)) => {
            if !(symbol_value(c2) is Some || is_pad(c2)) || !(symbol_value(c3) is Some || is_pad(
                c3,
            )) {
                None
            } else if is_pad(c2) && is_pad(c3) {
                Some(seq![(v0 * 4 + v1 / 16) as u8])
            } else if is_pad(c2) {
                None
            } else if is_pad(c3) {
                let v2 = symbol_value(c2)->0;
                Some(seq![(v0 * 4 + v1 / 16) as u8, ((v1 % 16) * 16 + v2 / 4) as u8])
            } else {
                let v2 = symbol_value(c2)->0;
                let v3 = symbol_value(c3)->0;
                Some(
                    seq![
                        (v0 * 4 + v1 / 16) as u8,
                        ((v1 % 16) * 16 + v2 / 4) as u8,
                        ((v2 % 4) * 64 + v3) as u8,
                    ],
                )
            }
        },
        _ => None,
    }
}

/// Decodes consecutive groups of four characters.
pub open spec fn decode_groups(t: Seq<u8>) -> Option<Seq<u8>>
    decreases t.len(),
{
    if t.len() < 4 {
        if t.len() == 0 {
            Some(seq![])
        } else {
            None
        }
    } else {
        match decode_group(t[0], t[1], t[2], t[3]) {
            None => None,
            Some(g) => match decode_groups(t.subrange(4, t.len() as int)) {
                None => None,
                Some(r) => Some(g + r),
            },
        }
    }
}

/// What standard base64 text (given as its bytes) decodes to; `None` when it is malformed.
pub open spec fn base64_decode_spec(t: Seq<u8>) -> Option<Seq<u8>> {
    if t.len() % 4 != 0 {
        None
    } else {
        decode_groups(t)
    }
}

spec fn prepend(p: Seq<u8>, r: Option<Seq<u8>>) -> Option<Seq<u8>> {
    match r {
        None => None,
        Some(x) => Some(p + x),
    }
}

/// Classifies one base64 byte: a 6-bit value, `None` for padding, or an error.
fn decode_char(c: u8) -> (r: Result<Option<u8>, CodecError>)
    ensures
        match r {
            Ok(Some(v)) => symbol_value(c) == Some(v),
            Ok(None) => symbol_value(c) is None && is_pad(c),
            Err(e) => symbol_value(c) is None && !is_pad(c) && e == CodecError::InvalidBase64,
        },
{
    if c >= 65 && c <= 90 {
        Ok(Some(c - 65))
    } else if c >= 97 && c <= 122 {
        Ok(Some(c - 97 + 26))
    } else if c >= 48 && c <= 57 {
        Ok(Some(c - 48 + 52))
    } else if c == 43 {
        Ok(Some(62))
    } else if c == 47 {
        Ok(Some(63))
    } else if c == 61 {
        Ok(None)
    } else {
        Err(CodecError::InvalidBase64)
    }
}

proof fn lemma_decode_step(t: Seq<u8>, i: int)
    requires
        0 <= i,
        i + 4 <= t.len(),
    ensures
        decode_groups(t.subrange(i, t.len() as int)) == match decode_group(
            t[i],
            t[i + 1],
            t[i + 2],
            t[i + 3],
        ) {
            None => None,
            Some(g) => prepend(g, decode_groups(t.subrange(i + 4, t.len() as int))),
        },
{
    let u = t.subrange(i, t.len() as int);
    assert(u.subrange(4, u.len() as int) =~= t.subrange(i + 4, t.len() as int));
}

/// Decodes one group of four base64 bytes.
fn decode_group_exec(c0: u8, c1: u8, c2: u8, c3: u8) -> (r: Result<Vec<u8>, CodecError>)
    ensures
        match r {
            Ok(v) => decode_group(c0, c1, c2, c3) == Some(v@),
            Err(e) => decode_group(c0, c1, c2, c3) is None && e == CodecError::InvalidBase64,
        },
{
    let v0 = match decode_char(c0)? {
        Some(v) => v,
        None => return Err(CodecError::InvalidBase64),
    };
    let v1 = match decode_char(c1)? {
        Some(v) => v,
        None => return Err(CodecError::InvalidBase64),
    };
    let d2 = decode_char(c2)?;
    let d3 = decode_char(c3)?;
    let mut out: Vec<u8> = Vec::new();
    match (d2, d3) {
        (None, None) => {
            out.push(v0 * 4 + v1 / 16);
        },
        (Some(v2), None) => {
            out.push(v0 * 4 + v1 / 16);
            out.push((v1 % 16) * 16 + v2 / 4);
        },
        (Some(v2), Some(v3)) => {
            out.push(v0 * 4 + v1 / 16);
            out.push((v1 % 16) * 16 + v2 / 4);
            out.push((v2 % 4) * 64 + v3);
        },
        (None, Some(_)) => {
            return Err(CodecError::InvalidBase64);
        },
    }
    assert(out@ =~= decode_group(c0, c1, c2, c3)->0);
    Ok(out)
}

/// Decodes standard base64 text (no whitespace allowed) into raw bytes.
#[verifier::rlimit(40)]
pub fn base64_decode(text: &str) -> (r: Result<Vec<u8>, CodecError>)
    ensures
        match r {
            Ok(v) => base64_decode_spec(encode_utf8(text@)) == Some(v@),
            Err(e) => base64_decode_spec(encode_utf8(text@)) is None && e
                == CodecError::InvalidBase64,
        },
{
    let bytes = text.as_bytes();
    let n = bytes.len();
    if n % 4 != 0 {
        return Err(CodecError::InvalidBase64);
    }
    let mut out: Vec<u8> = Vec::new();
    let mut i: usize = 0;
    assert(bytes@.subrange(0, n as int) =~= bytes@);
    assert(out@ + bytes@ =~= bytes@);
    while i < n
        invariant
            n == bytes@.len(),
            n % 4 == 0,
            i <= n,
            i % 4 == 0,
            bytes@ == encode_utf8(text@),
            decode_groups(bytes@) == prepend(out@, decode_groups(bytes@.subrange(i as int, n as int))),
        decreases n - i,
    {
        let c0 = bytes[i];
        let c1 = bytes[i + 1];
        let c2 = bytes[i + 2];
        let c3 = bytes[i + 3];
        proof {
            lemma_decode_step(bytes@, i as int);
        }
        let ghost before = out@;
        let group = decode_group_exec(c0, c1, c2, c3)?;
        let ghost g = group@;
        let mut k: usize = 0;
        while k < group.len()
            invariant
                out@ == before + g.subrange(0, k as int),
                g == group@,
                k <= group@.len(),
            decreases group@.len() - k,
        {
            out.push(group[k]);
            assert(g.subrange(0, k + 1) =~= g.subrange(0, k as int).push(g[k as int]));
            k = k + 1;
        }
        assert(g.subrange(0, g.len() as int) =~= g);
        assert(prepend(before, prepend(g, decode_groups(bytes@.subrange(i + 4, n as int))))
            =~= prepend(out@, decode_groups(bytes@.subrange(i + 4, n as int))));
        i = i + 4;
    }
    assert(bytes@.subrange(n as int, n as int) =~= Seq::<u8>::empty());
    assert(out@ + Seq::<u8>::empty() =~= out@);
    Ok(out)
}


proof fn lemma_symbol_value(v: int)
    requires
        0 <= v < 64,
    ensures
        symbol_value(symbol_code(v)) == Some(v as u8),
        symbol(v) as u8 == symbol_code(v),
        '\0' <= symbol(v) <= '\u{7f}',
{
}

proof fn lemma_group3_arith(b0: u8, b1: u8, b2: u8)
    ensures
        ((b0 / 4) * 4 + ((b0 % 4) * 16 + b1 / 16) / 16) as u8 == b0,
        ((((b0 % 4) * 16 + b1 / 16) % 16) * 16 + ((b1 % 16) * 4 + b2 / 64) / 4) as u8 == b1,
        ((((b1 % 16) * 4 + b2 / 64) % 4) * 64 + b2 % 64) as u8 == b2,
        ((b0 % 4) * 16 + b1 / 16) < 64,
        ((b1 % 16) * 4 + b2 / 64) < 64,
{
    assert(((b0 % 4) * 16 + b1 / 16) / 16 == b0 % 4) by (nonlinear_arith)
        requires b1 < 256;
    assert((((b0 % 4) * 16 + b1 / 16) % 16) == b1 / 16) by (nonlinear_arith)
        requires b1 < 256;
    assert(((b1 % 16) * 4 + b2 / 64) / 4 == b1 % 16) by (nonlinear_arith)
        requires b2 < 256;
    assert((((b1 % 16) * 4 + b2 / 64) % 4) == b2 / 64) by (nonlinear_arith)
        requires b2 < 256;
}

/// The bytes of a sequence of ASCII characters.
pub open spec fn ascii_bytes(s: Seq<char>) -> Seq<u8> {
    s.map_values(|c: char| c as u8)
}

proof fn lemma_group_decodes(s: Seq<char>, b: Seq<u8>)
    requires
        s.len() == 4,
        b.len() >= 1,
        b.len() <= 3,
        b.len() == 3 ==> s == encode_group3(b[0], b[1], b[2]),
        b.len() == 2 ==> s == encode_group2(b[0], b[1]),
        b.len() == 1 ==> s == encode_group1(b[0]),
    ensures
        decode_group(ascii_bytes(s)[0], ascii_bytes(s)[1], ascii_bytes(s)[2], ascii_bytes(s)[3])
            == Some(b),
        is_ascii_chars(s),
{
    let b0 = b[0];
    let b1: u8 = if b.len() >= 2 { b[1] } else { 0 };
    let b2: u8 = if b.len() >= 3 { b[2] } else { 0 };
    lemma_group3_arith(b0, b1, b2);
    lemma_symbol_value((b0 / 4) as int);
    lemma_symbol_value((b0 % 4) * 16 + b1 / 16);
    lemma_symbol_value((b1 % 16) * 4 + b2 / 64);
    lemma_symbol_value((b2 % 64) as int);
    let a = ascii_bytes(s);
    if b.len() == 3 {
        assert(decode_group(a[0], a[1], a[2], a[3]) =~= Some(b));
    } else if b.len() == 2 {
        assert(b2 == 0);
        assert(decode_group(a[0], a[1], a[2], a[3]) =~= Some(b));
    } else {
        assert(b1 == 0 && b2 == 0);
        assert(decode_group(a[0], a[1], a[2], a[3]) =~= Some(b));
    }
}

proof fn lemma_encoded_shape(b: Seq<u8>)
    ensures
        is_ascii_chars(base64_spec(b)),
        base64_spec(b).len() % 4 == 0,
        b.len() >= 3 ==> base64_spec(b) == encode_group3(b[0], b[1], b[2]) + base64_spec(
            b.subrange(3, b.len() as int),
        ),
    decreases b.len(),
{
    let s = base64_spec(b);
    if b.len() == 0 {
    } else if b.len() <= 2 {
        if b.len() == 1 {
            lemma_group_decodes(s, b);
        } else {
            lemma_group_decodes(s, b);
        }
    } else {
        let rest = b.subrange(3, b.len() as int);
        lemma_encoded_shape(rest);
        let g = encode_group3(b[0], b[1], b[2]);
        lemma_group_decodes(g, b.subrange(0, 3));
        let r = base64_spec(rest);
        assert forall|i: int| 0 <= i < s.len() implies '\0' <= #[trigger] s[i] <= '\u{7f}' by {
            if i >= 4 {
                assert(s[i] == r[i - 4]);
            } else {
                assert(s[i] == g[i]);
            }
        }
    }
}

proof fn lemma_decode_encoded_groups(b: Seq<u8>)
    ensures
        decode_groups(ascii_bytes(base64_spec(b))) == Some(b),
    decreases b.len(),
{
    let s = base64_spec(b);
    let a = ascii_bytes(s);
    lemma_encoded_shape(b);
    if b.len() == 0 {
        assert(a =~= Seq::<u8>::empty());
    } else if b.len() <= 2 {
        lemma_group_decodes(s, b);
        assert(a.len() == 4);
        assert(a.subrange(4, a.len() as int) =~= Seq::<u8>::empty());
        assert(decode_groups(a.subrange(4, a.len() as int)) == Some(Seq::<u8>::empty()));
        assert(b + Seq::<u8>::empty() =~= b);
    } else {
        let rest = b.subrange(3, b.len() as int);
        lemma_decode_encoded_groups(rest);
        let g = encode_group3(b[0], b[1], b[2]);
        let head = b.subrange(0, 3);
        lemma_group_decodes(g, head);
        let ag = ascii_bytes(g);
        let ar = ascii_bytes(base64_spec(rest));
        assert(a =~= ag + ar);
        assert(a[0] == ag[0] && a[1] == ag[1] && a[2] == ag[2] && a[3] == ag[3]);
        assert(a.subrange(4, a.len() as int) =~= ar);
        assert(decode_group(a[0], a[1], a[2], a[3]) == Some(head));
        assert(decode_groups(a.subrange(4, a.len() as int)) == Some(rest));
        assert(head + rest =~= b);
    }
}

/// Law: decoding the base64 text of any byte sequence gives back exactly that sequence.
pub proof fn lemma_base64_roundtrip(b: Seq<u8>)
    ensures
        base64_decode_spec(encode_utf8(base64_spec(b))) == Some(b),
{
    lemma_decode_encoded_groups(b);
    lemma_encoded_shape(b);
    let s = base64_spec(b);
    vstd::utf8::is_ascii_chars_encode_utf8(s);
    assert(encode_utf8(s) =~= ascii_bytes(s));
    assert(ascii_bytes(s).len() % 4 == 0);
}


/// The largest message body, in bytes, that the wire accepts.
pub const MAX_MESSAGE_BYTES: usize = 16 * 1024 * 1024;

/// The wire line for a message body: the body and a final newline, or the reason it is refused.
pub open spec fn encode_line_spec(body: Seq<u8>) -> Result<Seq<u8>, CodecError> {
    if body.len() > MAX_MESSAGE_BYTES {
        Err(CodecError::TooLarge { limit: MAX_MESSAGE_BYTES, actual: body.len() as usize })
    } else if body.contains(10u8) {
        Err(CodecError::EmbeddedNewline)
    } else {
        Ok(body.push(10u8))
    }
}

/// The body of a received line: the line without one trailing newline, if it has one.
pub open spec fn line_body(line: Seq<u8>) -> Seq<u8> {
    if line.len() > 0 && line.last() == 10u8 {
        line.drop_last()
    } else {
        line
    }
}

/// The UTF-8 body bytes of a received line, or the reason it is refused.
pub open spec fn decode_line_spec(line: Seq<u8>) -> Result<Seq<u8>, CodecError> {
    let body = line_body(line);
    if body.len() > MAX_MESSAGE_BYTES {
        Err(CodecError::TooLarge { limit: MAX_MESSAGE_BYTES, actual: body.len() as usize })
    } else if !valid_utf8(body) {
        Err(CodecError::NotUtf8)
    } else {
        Ok(body)
    }
}

/// Frames one message body (UTF-8 JSON bytes) as a wire line.
pub fn encode_line(body: &[u8]) -> (r: Result<Vec<u8>, CodecError>)
    ensures
        match r {
            Ok(v) => encode_line_spec(body@) == Ok::<Seq<u8>, CodecError>(v@),
            Err(e) => encode_line_spec(body@) == Err::<Seq<u8>, CodecError>(e),
        },
{
    let n = body.len();
    if n > MAX_MESSAGE_BYTES {
        return Err(CodecError::TooLarge { limit: MAX_MESSAGE_BYTES, actual: n });
    }
    let mut out: Vec<u8> = Vec::with_capacity(n + 1);
    let mut i: usize = 0;
    while i < n
        invariant
            n == body@.len(),
            n <= MAX_MESSAGE_BYTES,
            i <= n,
            out@ == body@.subrange(0, i as int),
            forall|j: int| 0 <= j < i ==> body@[j] != 10u8,
        decreases n - i,
    {
        let c = body[i];
        if c == 10 {
            assert(body@.contains(10u8));
            return Err(CodecError::EmbeddedNewline);
        }
        out.push(c);
        assert(out@ =~= body@.subrange(0, i + 1));
        i = i + 1;
    }
    assert(out@ =~= body@);
    assert(!body@.contains(10u8));
    out.push(10);
    Ok(out)
}

/// Takes the body out of one received line (with or without its newline) as UTF-8 text.
pub fn decode_line(line: &[u8]) -> (r: Result<&str, CodecError>)
    ensures
        match r {
            Ok(s) => decode_line_spec(line@) == Ok::<Seq<u8>, CodecError>(encode_utf8(s@)),
            Err(e) => decode_line_spec(line@) == Err::<Seq<u8>, CodecError>(e),
        },
{
    let n = line.len();
    let body: &[u8] = if n > 0 && line[n - 1] == 10 {
        &line[0..n - 1]
    } else {
        line
    };
    assert(body@ =~= line_body(line@));
    if body.len() > MAX_MESSAGE_BYTES {
        return Err(CodecError::TooLarge { limit: MAX_MESSAGE_BYTES, actual: body.len() });
    }
    match str_from_utf8(body) {
        Some(s) => Ok(s),
        None => Err(CodecError::NotUtf8),
    }
}

/// Law: a body that `encode_line` accepts and that is valid UTF-8 comes back
/// unchanged through `decode_line`.
pub proof fn lemma_line_roundtrip(body: Seq<u8>)
    requires
        encode_line_spec(body) is Ok,
        valid_utf8(body),
    ensures
        decode_line_spec(encode_line_spec(body)->Ok_0) == Ok::<Seq<u8>, CodecError>(body),
{
    let line = body.push(10u8);
    assert(line.drop_last() =~= body);
}

} // verus!
