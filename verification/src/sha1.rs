//! The SHA-1 compression function.
//!
//! The specification mirrors FIPS 180-4: an 80-word message schedule and 80
//! rounds over five working variables. The engine keeps its running state in
//! an eight-word context; SHA-1 uses the first five words and carries the
//! remaining three through unchanged.

use vstd::prelude::*;
use crate::words::{be_word, load_be_word};

verus! {

/// Round constant for round `t`.
pub open spec fn sha1_k(t: int) -> u32 {
    if t < 20 {
        0x5a827999u32
    } else if t < 40 {
        0x6ed9eba1u32
    } else if t < 60 {
        0x8f1bbcdcu32
    } else {
        0xca62c1d6u32
    }
}

/// The round function applied to working variables `b`, `c`, `d`.
pub open spec fn sha1_f(t: int, b: u32, c: u32, d: u32) -> u32 {
    if t < 20 {
        (b & c) | (!b & d)
    } else if t < 40 {
        b ^ c ^ d
    } else if t < 60 {
        (b & c) | (b & d) | (c & d)
    } else {
        b ^ c ^ d
    }
}

pub open spec fn spec_rotl(x: u32, n: u32) -> u32 {
    (x << n) | (x >> ((32 - n) as u32))
}

/// Rotates `x` left by `n` bits.
pub fn rotl(x: u32, n: u32) -> (r: u32)
    requires
        0 < n < 32,
    ensures
        r == spec_rotl(x, n),
{
    (x << n) | (x >> ((32 - n) as u32))
}

fn sha1_k_at(t: usize) -> (r: u32)
    requires
        t < 80,
    ensures
        r == sha1_k(t as int),
{
    if t < 20 {
        0x5a827999u32
    } else if t < 40 {
        0x6ed9eba1u32
    } else if t < 60 {
        0x8f1bbcdcu32
    } else {
        0xca62c1d6u32
    }
}

fn sha1_f_at(t: usize, b: u32, c: u32, d: u32) -> (r: u32)
    requires
        t < 80,
    ensures
        r == sha1_f(t as int, b, c, d),
{
    if t < 20 {
        (b & c) | (!b & d)
    } else if t < 40 {
        b ^ c ^ d
    } else if t < 60 {
        (b & c) | (b & d) | (c & d)
    } else {
        b ^ c ^ d
    }
}

/// Word `t` of the message schedule for `block`.
pub open spec fn sha1_w(block: Seq<u8>, t: int) -> u32
    decreases t,
{
    if t < 16 {
        be_word(block, t)
    } else {
        spec_rotl(
            sha1_w(block, t - 3) ^ sha1_w(block, t - 8) ^ sha1_w(block, t - 14) ^ sha1_w(
                block,
                t - 16,
            ),
            1,
        )
    }
}

/// One round applied to the working variables `s` (a..e as `s[0]..s[4]`).
pub open spec fn sha1_round(block: Seq<u8>, s: Seq<u32>, t: int) -> Seq<u32> {
    let temp = spec_rotl(s[0], 5).wrapping_add(sha1_f(t, s[1], s[2], s[3])).wrapping_add(s[4])
        .wrapping_add(sha1_k(t)).wrapping_add(sha1_w(block, t));
    seq![temp, s[0], spec_rotl(s[1], 30), s[2], s[3]]
}

/// The working variables after `t` rounds, starting from state `s`.
pub open spec fn sha1_rounds(block: Seq<u8>, s: Seq<u32>, t: int) -> Seq<u32>
    decreases t,
{
    if t <= 0 {
        s
    } else {
        sha1_round(block, sha1_rounds(block, s, t - 1), t - 1)
    }
}

/// The compression function on an eight-word context: the first five words
/// absorb `block`, the last three pass through.
pub open spec fn sha1_compress(s: Seq<u32>, block: Seq<u8>) -> Seq<u32> {
    let r = sha1_rounds(block, s.take(5), 80);
    seq![
        s[0].wrapping_add(r[0]),
        s[1].wrapping_add(r[1]),
        s[2].wrapping_add(r[2]),
        s[3].wrapping_add(r[3]),
        s[4].wrapping_add(r[4]),
        s[5],
        s[6],
        s[7],
    ]
}

/// Runs the compression function over `block`, updating `st` in place.
pub fn sha1_compress_block(st: &mut Vec<u32>, block: &[u8])
    requires
        old(st)@.len() == 8,
        block@.len() == 64,
    ensures
        final(st)@ == sha1_compress(old(st)@, block@),
        final(st)@.len() == 8,
{
    let ghost s0 = st@;
    let mut w: Vec<u32> = Vec::new();
    let mut t: usize = 0;
    while t < 16
        invariant
            t <= 16,
            block@.len() == 64,
            w@.len() == t,
            forall|j: int| 0 <= j < t ==> w@[j] == sha1_w(block@, j),
        decreases 16 - t,
    {
        w.push(load_be_word(block, t));
        t = t + 1;
    }
    while t < 80
        invariant
            16 <= t <= 80,
            block@.len() == 64,
            w@.len() == t,
            forall|j: int| 0 <= j < t ==> w@[j] == sha1_w(block@, j),
        decreases 80 - t,
    {
        let v = rotl(w[t - 3] ^ w[t - 8] ^ w[t - 14] ^ w[t - 16], 1);
        w.push(v);
        t = t + 1;
    }
    let mut a = st[0];
    let mut b = st[1];
    let mut c = st[2];
    let mut d = st[3];
    let mut e = st[4];
    let mut t: usize = 0;
    while t < 80
        invariant
            t <= 80,
            s0.len() == 8,
            block@.len() == 64,
            w@.len() == 80,
            forall|j: int| 0 <= j < 80 ==> w@[j] == sha1_w(block@, j),
            ({
                let r = sha1_rounds(block@, s0.take(5), t as int);
                r.len() == 5 && a == r[0] && b == r[1] && c == r[2] && d == r[3] && e == r[4]
            }),
        decreases 80 - t,
    {
        let temp = rotl(a, 5).wrapping_add(sha1_f_at(t, b, c, d)).wrapping_add(e).wrapping_add(
            sha1_k_at(t),
        ).wrapping_add(w[t]);
        e = d;
        d = c;
        c = rotl(b, 30);
        b = a;
        a = temp;
        t = t + 1;
        proof {
            assert(sha1_rounds(block@, s0.take(5), t as int) =~= sha1_round(
                block@,
                sha1_rounds(block@, s0.take(5), t as int - 1),
                t as int - 1,
            ));
        }
    }
    let v0 = st[0].wrapping_add(a);
    st[0] = v0;
    let v1 = st[1].wrapping_add(b);
    st[1] = v1;
    let v2 = st[2].wrapping_add(c);
    st[2] = v2;
    let v3 = st[3].wrapping_add(d);
    st[3] = v3;
    let v4 = st[4].wrapping_add(e);
    st[4] = v4;
    assert(st@ =~= sha1_compress(s0, block@));
}

} // verus!
