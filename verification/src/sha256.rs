//! SHA-256 (FIPS 180-4), used to derive a short, pipe-name-safe identifier
//! from a user name.
//!
//! The specification below follows the standard's definitions: padding,
//! message schedule, the 64 rounds of the compression function and the
//! chaining of blocks. The executable code computes the same values.
use vstd::prelude::*;

use crate::text::{hex_spec, push_hex};

verus! {

/// Rotation right by `n` bits (0 < n < 32).
pub open spec fn rotr(x: u32, n: u32) -> u32 {
    (x >> n) | (x << ((32 - n) as u32))
}

pub open spec fn big_sigma0(x: u32) -> u32 {
    rotr(x, 2) ^ rotr(x, 13) ^ rotr(x, 22)
}

pub open spec fn big_sigma1(x: u32) -> u32 {
    rotr(x, 6) ^ rotr(x, 11) ^ rotr(x, 25)
}

pub open spec fn small_sigma0(x: u32) -> u32 {
    rotr(x, 7) ^ rotr(x, 18) ^ (x >> 3)
}

pub open spec fn small_sigma1(x: u32) -> u32 {
    rotr(x, 17) ^ rotr(x, 19) ^ (x >> 10)
}

pub open spec fn ch(x: u32, y: u32, z: u32) -> u32 {
    (x & y) ^ (!x & z)
}

pub open spec fn maj(x: u32, y: u32, z: u32) -> u32 {
    (x & y) ^ (x & z) ^ (y & z)
}

/// The round constants.
pub open spec fn round_constants() -> Seq<u32> {
    seq![
        0x428a2f98u32, 0x71374491, 0xb5c0fbcf, 0xe9b5dba5, 0x3956c25b, 0x59f111f1, 0x923f82a4,
        0xab1c5ed5, 0xd807aa98, 0x12835b01, 0x243185be, 0x550c7dc3, 0x72be5d74, 0x80deb1fe,
        0x9bdc06a7, 0xc19bf174, 0xe49b69c1, 0xefbe4786, 0x0fc19dc6, 0x240ca1cc, 0x2de92c6f,
        0x4a7484aa, 0x5cb0a9dc, 0x76f988da, 0x983e5152, 0xa831c66d, 0xb00327c8, 0xbf597fc7,
        0xc6e00bf3, 0xd5a79147, 0x06ca6351, 0x14292967, 0x27b70a85, 0x2e1b2138, 0x4d2c6dfc,
        0x53380d13, 0x650a7354, 0x766a0abb, 0x81c2c92e, 0x92722c85, 0xa2bfe8a1, 0xa81a664b,
        0xc24b8b70, 0xc76c51a3, 0xd192e819, 0xd6990624, 0xf40e3585, 0x106aa070, 0x19a4c116,
        0x1e376c08, 0x2748774c, 0x34b0bcb5, 0x391c0cb3, 0x4ed8aa4a, 0x5b9cca4f, 0x682e6ff3,
        0x748f82ee, 0x78a5636f, 0x84c87814, 0x8cc70208, 0x90befffa, 0xa4506ceb, 0xbef9a3f7,
        0xc67178f2,
    ]
}

/// The working variables (and the chaining value) of the hash.
#[derive(Clone, Copy, Debug, PartialEq, Eq, Structural)]
pub struct Vars {
    pub a: u32,
    pub b: u32,
    pub c: u32,
    pub d: u32,
    pub e: u32,
    pub f: u32,
    pub g: u32,
    pub h: u32,
}

/// The initial hash value.
pub open spec fn initial_hash() -> Vars {
    Vars {
        a: 0x6a09e667,
        b: 0xbb67ae85,
        c: 0x3c6ef372,
        d: 0xa54ff53a,
        e: 0x510e527f,
        f: 0x9b05688c,
        g: 0x1f83d9ab,
        h: 0x5be0cd19,
    }
}

/// The number of zero bytes between the `0x80` byte and the length.
pub open spec fn pad_zero_count(len: nat) -> nat {
    ((119 - (len % 64) as int) % 64) as nat
}

/// The eight big-endian bytes of a 64-bit number.
pub open spec fn be64(x: u64) -> Seq<u8> {
    seq![
        (x >> 56u64) as u8,
        (x >> 48u64) as u8,
        (x >> 40u64) as u8,
        (x >> 32u64) as u8,
        (x >> 24u64) as u8,
        (x >> 16u64) as u8,
        (x >> 8u64) as u8,
        x as u8,
    ]
}

/// The padded message: the bytes, `0x80`, zeros, and the bit length (mod 2^64) big-endian.
pub open spec fn padded(m: Seq<u8>) -> Seq<u8> {
    m + seq![0x80u8] + Seq::new(pad_zero_count(m.len()), |i: int| 0u8) + be64(
        (m.len() as u64).wrapping_mul(8),
    )
}

/// The big-endian word at word index `t` of a block starting at byte `start`.
pub open spec fn block_word(p: Seq<u8>, start: int, t: int) -> u32 {
    let i = start + 4 * t;
    ((p[i] as u32) << 24u32) | ((p[i + 1] as u32) << 16u32) | ((p[i + 2] as u32) << 8u32) | (p[i
        + 3] as u32)
}

/// Word `t` of the message schedule of the block at byte `start`.
pub open spec fn schedule(p: Seq<u8>, start: int, t: nat) -> u32
    decreases t,
{
    if t < 16 {
        block_word(p, start, t as int)
    } else {
        small_sigma1(schedule(p, start, (t - 2) as nat)).wrapping_add(
            schedule(p, start, (t - 7) as nat),
        ).wrapping_add(small_sigma0(schedule(p, start, (t - 15) as nat))).wrapping_add(
            schedule(p, start, (t - 16) as nat),
        )
    }
}

/// One round of the compression function.
pub open spec fn round(v: Vars, k: u32, w: u32) -> Vars {
    let t1 = v.h.wrapping_add(big_sigma1(v.e)).wrapping_add(ch(v.e, v.f, v.g)).wrapping_add(
        k,
    ).wrapping_add(w);
    let t2 = big_sigma0(v.a).wrapping_add(maj(v.a, v.b, v.c));
    Vars {
        a: t1.wrapping_add(t2),
        b: v.a,
        c: v.b,
        d: v.c,
        e: v.d.wrapping_add(t1),
        f: v.e,
        g: v.f,
        h: v.g,
    }
}

/// The working variables after the first `n` rounds on the block at byte `start`.
pub open spec fn rounds(v: Vars, p: Seq<u8>, start: int, n: nat) -> Vars
    decreases n,
{
    if n == 0 {
        v
    } else {
        round(
            rounds(v, p, start, (n - 1) as nat),
            round_constants()[n - 1],
            schedule(p, start, (n - 1) as nat),
        )
    }
}

/// Word-wise sum of two values.
pub open spec fn add_vars(x: Vars, y: Vars) -> Vars {
    Vars {
        a: x.a.wrapping_add(y.a),
        b: x.b.wrapping_add(y.b),
        c: x.c.wrapping_add(y.c),
        d: x.d.wrapping_add(y.d),
        e: x.e.wrapping_add(y.e),
        f: x.f.wrapping_add(y.f),
        g: x.g.wrapping_add(y.g),
        h: x.h.wrapping_add(y.h),
    }
}

/// The compression function on the block at byte `start`.
pub open spec fn compress(hv: Vars, p: Seq<u8>, start: int) -> Vars {
    add_vars(hv, rounds(hv, p, start, 64))
}

/// The chaining value after the first `n` blocks.
pub open spec fn hash_blocks(p: Seq<u8>, n: nat) -> Vars
    decreases n,
{
    if n == 0 {
        initial_hash()
    } else {
        compress(hash_blocks(p, (n - 1) as nat), p, 64 * (n - 1))
    }
}

/// The four big-endian bytes of a word.
pub open spec fn be32(x: u32) -> Seq<u8> {
    seq![(x >> 24u32) as u8, (x >> 16u32) as u8, (x >> 8u32) as u8, x as u8]
}

/// The 32 bytes of a hash value.
pub open spec fn vars_bytes(v: Vars) -> Seq<u8> {
    be32(v.a) + be32(v.b) + be32(v.c) + be32(v.d) + be32(v.e) + be32(v.f) + be32(v.g) + be32(v.h)
}

/// The SHA-256 digest of a message.
pub open spec fn sha256_spec(m: Seq<u8>) -> Seq<u8> {
    vars_bytes(hash_blocks(padded(m), padded(m).len() / 64))
}

/// Lowercase hexadecimal text of bytes, two digits each.
pub open spec fn hex_bytes(b: Seq<u8>) -> Seq<char>
    decreases b.len(),
{
    if b.len() == 0 {
        Seq::empty()
    } else {
        hex_bytes(b.drop_last()) + hex_spec(b.last() as nat, 2)
    }
}

fn rotr_exec(x: u32, n: u32) -> (r: u32)
    requires
        0 < n < 32,
    ensures
        r == rotr(x, n),
{
    (x >> n) | (x << (32 - n))
}

fn round_constant(i: usize) -> (r: u32)
    requires
        i < 64,
    ensures
        r == round_constants()[i as int],
{
    let k: [u32; 64] = [
        0x428a2f98u32, 0x71374491, 0xb5c0fbcf, 0xe9b5dba5, 0x3956c25b, 0x59f111f1, 0x923f82a4,
        0xab1c5ed5, 0xd807aa98, 0x12835b01, 0x243185be, 0x550c7dc3, 0x72be5d74, 0x80deb1fe,
        0x9bdc06a7, 0xc19bf174, 0xe49b69c1, 0xefbe4786, 0x0fc19dc6, 0x240ca1cc, 0x2de92c6f,
        0x4a7484aa, 0x5cb0a9dc, 0x76f988da, 0x983e5152, 0xa831c66d, 0xb00327c8, 0xbf597fc7,
        0xc6e00bf3, 0xd5a79147, 0x06ca6351, 0x14292967, 0x27b70a85, 0x2e1b2138, 0x4d2c6dfc,
        0x53380d13, 0x650a7354, 0x766a0abb, 0x81c2c92e, 0x92722c85, 0xa2bfe8a1, 0xa81a664b,
        0xc24b8b70, 0xc76c51a3, 0xd192e819, 0xd6990624, 0xf40e3585, 0x106aa070, 0x19a4c116,
        0x1e376c08, 0x2748774c, 0x34b0bcb5, 0x391c0cb3, 0x4ed8aa4a, 0x5b9cca4f, 0x682e6ff3,
        0x748f82ee, 0x78a5636f, 0x84c87814, 0x8cc70208, 0x90befffa, 0xa4506ceb, 0xbef9a3f7,
        0xc67178f2,
    ];
    assert(k@ =~= round_constants());
    k[i]
}

fn pad_message(m: &[u8]) -> (r: Vec<u8>)
    ensures
        r@ == padded(m@),
{
    let mut p: Vec<u8> = Vec::new();
    let n = m.len();
    let mut i: usize = 0;
    while i < n
        invariant
            n == m@.len(),
            i <= n,
            p@ == m@.take(i as int),
        decreases n - i,
    {
        p.push(m[i]);
        assert(m@.take(i + 1) =~= m@.take(i as int).push(m@[i as int]));
        i = i + 1;
    }
    assert(m@.take(n as int) =~= m@);
    p.push(0x80u8);
    let zeros: usize = (119 - n % 64) % 64;
    let ghost base = p@;
    let mut j: usize = 0;
    while j < zeros
        invariant
            j <= zeros,
            p@ == base + Seq::new(j as nat, |k: int| 0u8),
        decreases zeros - j,
    {
        p.push(0u8);
        assert(p@ =~= base + Seq::new((j + 1) as nat, |k: int| 0u8));
        j = j + 1;
    }
    let bits: u64 = (n as u64).wrapping_mul(8);
    p.push((bits >> 56u64) as u8);
    p.push((bits >> 48u64) as u8);
    p.push((bits >> 40u64) as u8);
    p.push((bits >> 32u64) as u8);
    p.push((bits >> 24u64) as u8);
    p.push((bits >> 16u64) as u8);
    p.push((bits >> 8u64) as u8);
    p.push(bits as u8);
    assert(pad_zero_count(m@.len()) == zeros);
    assert(p@ =~= padded(m@));
    p
}

fn message_schedule(p: &Vec<u8>, start: usize) -> (w: Vec<u32>)
    requires
        start + 64 <= p@.len(),
    ensures
        w@.len() == 64,
        forall|t: int| 0 <= t < 64 ==> w@[t] == schedule(p@, start as int, t as nat),
{
    let mut w: Vec<u32> = Vec::new();
    let mut t: usize = 0;
    let plen = p.len();
    while t < 16
        invariant
            start + 64 <= p@.len(),
            plen == p@.len(),
            t <= 16,
            w@.len() == t,
            forall|s: int| 0 <= s < t ==> w@[s] == schedule(p@, start as int, s as nat),
        decreases 16 - t,
    {
        let i = start + 4 * t;
        let word = ((p[i] as u32) << 24u32) | ((p[i + 1] as u32) << 16u32) | ((p[i + 2] as u32)
            << 8u32) | (p[i + 3] as u32);
        w.push(word);
        t = t + 1;
    }
    while t < 64
        invariant
            16 <= t <= 64,
            w@.len() == t,
            forall|s: int| 0 <= s < t ==> w@[s] == schedule(p@, start as int, s as nat),
        decreases 64 - t,
    {
        let x2 = w[t - 2];
        let s1 = rotr_exec(x2, 17) ^ rotr_exec(x2, 19) ^ (x2 >> 10u32);
        let x15 = w[t - 15];
        let s0 = rotr_exec(x15, 7) ^ rotr_exec(x15, 18) ^ (x15 >> 3u32);
        let word = s1.wrapping_add(w[t - 7]).wrapping_add(s0).wrapping_add(w[t - 16]);
        w.push(word);
        t = t + 1;
    }
    w
}

fn round_exec(v: Vars, k: u32, w: u32) -> (r: Vars)
    ensures
        r == round(v, k, w),
{
    let s1 = rotr_exec(v.e, 6) ^ rotr_exec(v.e, 11) ^ rotr_exec(v.e, 25);
    let c = (v.e & v.f) ^ (!v.e & v.g);
    let t1 = v.h.wrapping_add(s1).wrapping_add(c).wrapping_add(k).wrapping_add(w);
    let s0 = rotr_exec(v.a, 2) ^ rotr_exec(v.a, 13) ^ rotr_exec(v.a, 22);
    let m = (v.a & v.b) ^ (v.a & v.c) ^ (v.b & v.c);
    let t2 = s0.wrapping_add(m);
    Vars {
        a: t1.wrapping_add(t2),
        b: v.a,
        c: v.b,
        d: v.c,
        e: v.d.wrapping_add(t1),
        f: v.e,
        g: v.f,
        h: v.g,
    }
}

fn compress_exec(hv: Vars, p: &Vec<u8>, start: usize) -> (r: Vars)
    requires
        start + 64 <= p@.len(),
    ensures
        r == compress(hv, p@, start as int),
{
    let w = message_schedule(p, start);
    let mut v = hv;
    let mut t: usize = 0;
    while t < 64
        invariant
            t <= 64,
            w@.len() == 64,
            forall|s: int| 0 <= s < 64 ==> w@[s] == schedule(p@, start as int, s as nat),
            v == rounds(hv, p@, start as int, t as nat),
        decreases 64 - t,
    {
        v = round_exec(v, round_constant(t), w[t]);
        t = t + 1;
    }
    Vars {
        a: hv.a.wrapping_add(v.a),
        b: hv.b.wrapping_add(v.b),
        c: hv.c.wrapping_add(v.c),
        d: hv.d.wrapping_add(v.d),
        e: hv.e.wrapping_add(v.e),
        f: hv.f.wrapping_add(v.f),
        g: hv.g.wrapping_add(v.g),
        h: hv.h.wrapping_add(v.h),
    }
}

fn push_be32(out: &mut Vec<u8>, x: u32)
    ensures
        final(out)@ == old(out)@ + be32(x),
{
    out.push((x >> 24u32) as u8);
    out.push((x >> 16u32) as u8);
    out.push((x >> 8u32) as u8);
    out.push(x as u8);
    assert(out@ =~= old(out)@ + be32(x));
}

/// The SHA-256 digest of a message.
pub fn sha256(m: &[u8]) -> (r: Vec<u8>)
    requires
        m@.len() + 73 <= usize::MAX,
    ensures
        r@ == sha256_spec(m@),
{
    let p = pad_message(m);
    let nblocks = p.len() / 64;
    let mut hv = Vars {
        a: 0x6a09e667,
        b: 0xbb67ae85,
        c: 0x3c6ef372,
        d: 0xa54ff53a,
        e: 0x510e527f,
        f: 0x9b05688c,
        g: 0x1f83d9ab,
        h: 0x5be0cd19,
    };
    let mut i: usize = 0;
    let plen = p.len();
    while i < nblocks
        invariant
            nblocks == p@.len() / 64,
            plen == p@.len(),
            p@ == padded(m@),
            i <= nblocks,
            hv == hash_blocks(p@, i as nat),
        decreases nblocks - i,
    {
        assert(64 * i + 64 <= plen) by (nonlinear_arith)
            requires
                i < nblocks,
                nblocks == plen / 64,
        ;
        hv = compress_exec(hv, &p, 64 * i);
        i = i + 1;
    }
    let mut out: Vec<u8> = Vec::new();
    push_be32(&mut out, hv.a);
    push_be32(&mut out, hv.b);
    push_be32(&mut out, hv.c);
    push_be32(&mut out, hv.d);
    push_be32(&mut out, hv.e);
    push_be32(&mut out, hv.f);
    push_be32(&mut out, hv.g);
    push_be32(&mut out, hv.h);
    assert(out@ =~= vars_bytes(hv));
    out
}

/// The lowercase hexadecimal text of bytes.
pub fn hex_text(b: &[u8]) -> (r: String)
    ensures
        r@ == hex_bytes(b@),
{
    let mut s = String::new();
    let n = b.len();
    let mut i: usize = 0;
    assert(b@.take(0) =~= Seq::<u8>::empty());
    while i < n
        invariant
            n == b@.len(),
            i <= n,
            s@ == hex_bytes(b@.take(i as int)),
        decreases n - i,
    {
        push_hex(&mut s, b[i] as u64, 2);
        assert(b@.take(i + 1).drop_last() =~= b@.take(i as int));
        i = i + 1;
    }
    assert(b@.take(n as int) =~= b@);
    s
}

/// The SHA-256 digest of a message in lowercase hexadecimal.
pub fn sha256_hex(m: &[u8]) -> (r: String)
    requires
        m@.len() + 73 <= usize::MAX,
    ensures
        r@ == hex_bytes(sha256_spec(m@)),
{
    let d = sha256(m);
    hex_text(d.as_slice())
}

} // verus!
