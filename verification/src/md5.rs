//! The MD5 compression function.
//!
//! The specification mirrors RFC 1321: 64 rounds over four working
//! variables, with message words read little-endian from the block. The
//! engine keeps its running state in an eight-word context; MD5 uses the
//! first four words and carries the remaining four through unchanged.

use vstd::prelude::*;
use crate::words::{le_word, load_le_word};
use crate::sha1::{spec_rotl, rotl};

verus! {

/// Additive round constant `t`.
pub open spec fn md5_k(t: int) -> u32 {
    if t == 0 {
        0xd76aa478u32
    } else if t == 1 {
        0xe8c7b756u32
    } else if t == 2 {
        0x242070dbu32
    } else if t == 3 {
        0xc1bdceeeu32
    } else if t == 4 {
        0xf57c0fafu32
    } else if t == 5 {
        0x4787c62au32
    } else if t == 6 {
        0xa8304613u32
    } else if t == 7 {
        0xfd469501u32
    } else if t == 8 {
        0x698098d8u32
    } else if t == 9 {
        0x8b44f7afu32
    } else if t == 10 {
        0xffff5bb1u32
    } else if t == 11 {
        0x895cd7beu32
    } else if t == 12 {
        0x6b901122u32
    } else if t == 13 {
        0xfd987193u32
    } else if t == 14 {
        0xa679438eu32
    } else if t == 15 {
        0x49b40821u32
    } else if t == 16 {
        0xf61e2562u32
    } else if t == 17 {
        0xc040b340u32
    } else if t == 18 {
        0x265e5a51u32
    } else if t == 19 {
        0xe9b6c7aau32
    } else if t == 20 {
        0xd62f105du32
    } else if t == 21 {
        0x02441453u32
    } else if t == 22 {
        0xd8a1e681u32
    } else if t == 23 {
        0xe7d3fbc8u32
    } else if t == 24 {
        0x21e1cde6u32
    } else if t == 25 {
        0xc33707d6u32
    } else if t == 26 {
        0xf4d50d87u32
    } else if t == 27 {
        0x455a14edu32
    } else if t == 28 {
        0xa9e3e905u32
    } else if t == 29 {
        0xfcefa3f8u32
    } else if t == 30 {
        0x676f02d9u32
    } else if t == 31 {
        0x8d2a4c8au32
    } else if t == 32 {
        0xfffa3942u32
    } else if t == 33 {
        0x8771f681u32
    } else if t == 34 {
        0x6d9d6122u32
    } else if t == 35 {
        0xfde5380cu32
    } else if t == 36 {
        0xa4beea44u32
    } else if t == 37 {
        0x4bdecfa9u32
    } else if t == 38 {
        0xf6bb4b60u32
    } else if t == 39 {
        0xbebfbc70u32
    } else if t == 40 {
        0x289b7ec6u32
    } else if t == 41 {
        0xeaa127fau32
    } else if t == 42 {
        0xd4ef3085u32
    } else if t == 43 {
        0x04881d05u32
    } else if t == 44 {
        0xd9d4d039u32
    } else if t == 45 {
        0xe6db99e5u32
    } else if t == 46 {
        0x1fa27cf8u32
    } else if t == 47 {
        0xc4ac5665u32
    } else if t == 48 {
        0xf4292244u32
    } else if t == 49 {
        0x432aff97u32
    } else if t == 50 {
        0xab9423a7u32
    } else if t == 51 {
        0xfc93a039u32
    } else if t == 52 {
        0x655b59c3u32
    } else if t == 53 {
        0x8f0ccc92u32
    } else if t == 54 {
        0xffeff47du32
    } else if t == 55 {
        0x85845dd1u32
    } else if t == 56 {
        0x6fa87e4fu32
    } else if t == 57 {
        0xfe2ce6e0u32
    } else if t == 58 {
        0xa3014314u32
    } else if t == 59 {
        0x4e0811a1u32
    } else if t == 60 {
        0xf7537e82u32
    } else if t == 61 {
        0xbd3af235u32
    } else if t == 62 {
        0x2ad7d2bbu32
    } else {
        0xeb86d391u32
    }
}

/// Reads additive round constant `t`.
pub fn md5_k_at(t: usize) -> (r: u32)
    requires
        t < 64,
    ensures
        r == md5_k(t as int),
{
    if t == 0 {
        0xd76aa478u32
    } else if t == 1 {
        0xe8c7b756u32
    } else if t == 2 {
        0x242070dbu32
    } else if t == 3 {
        0xc1bdceeeu32
    } else if t == 4 {
        0xf57c0fafu32
    } else if t == 5 {
        0x4787c62au32
    } else if t == 6 {
        0xa8304613u32
    } else if t == 7 {
        0xfd469501u32
    } else if t == 8 {
        0x698098d8u32
    } else if t == 9 {
        0x8b44f7afu32
    } else if t == 10 {
        0xffff5bb1u32
    } else if t == 11 {
        0x895cd7beu32
    } else if t == 12 {
        0x6b901122u32
    } else if t == 13 {
        0xfd987193u32
    } else if t == 14 {
        0xa679438eu32
    } else if t == 15 {
        0x49b40821u32
    } else if t == 16 {
        0xf61e2562u32
    } else if t == 17 {
        0xc040b340u32
    } else if t == 18 {
        0x265e5a51u32
    } else if t == 19 {
        0xe9b6c7aau32
    } else if t == 20 {
        0xd62f105du32
    } else if t == 21 {
        0x02441453u32
    } else if t == 22 {
        0xd8a1e681u32
    } else if t == 23 {
        0xe7d3fbc8u32
    } else if t == 24 {
        0x21e1cde6u32
    } else if t == 25 {
        0xc33707d6u32
    } else if t == 26 {
        0xf4d50d87u32
    } else if t == 27 {
        0x455a14edu32
    } else if t == 28 {
        0xa9e3e905u32
    } else if t == 29 {
        0xfcefa3f8u32
    } else if t == 30 {
        0x676f02d9u32
    } else if t == 31 {
        0x8d2a4c8au32
    } else if t == 32 {
        0xfffa3942u32
    } else if t == 33 {
        0x8771f681u32
    } else if t == 34 {
        0x6d9d6122u32
    } else if t == 35 {
        0xfde5380cu32
    } else if t == 36 {
        0xa4beea44u32
    } else if t == 37 {
        0x4bdecfa9u32
    } else if t == 38 {
        0xf6bb4b60u32
    } else if t == 39 {
        0xbebfbc70u32
    } else if t == 40 {
        0x289b7ec6u32
    } else if t == 41 {
        0xeaa127fau32
    } else if t == 42 {
        0xd4ef3085u32
    } else if t == 43 {
        0x04881d05u32
    } else if t == 44 {
        0xd9d4d039u32
    } else if t == 45 {
        0xe6db99e5u32
    } else if t == 46 {
        0x1fa27cf8u32
    } else if t == 47 {
        0xc4ac5665u32
    } else if t == 48 {
        0xf4292244u32
    } else if t == 49 {
        0x432aff97u32
    } else if t == 50 {
        0xab9423a7u32
    } else if t == 51 {
        0xfc93a039u32
    } else if t == 52 {
        0x655b59c3u32
    } else if t == 53 {
        0x8f0ccc92u32
    } else if t == 54 {
        0xffeff47du32
    } else if t == 55 {
        0x85845dd1u32
    } else if t == 56 {
        0x6fa87e4fu32
    } else if t == 57 {
        0xfe2ce6e0u32
    } else if t == 58 {
        0xa3014314u32
    } else if t == 59 {
        0x4e0811a1u32
    } else if t == 60 {
        0xf7537e82u32
    } else if t == 61 {
        0xbd3af235u32
    } else if t == 62 {
        0x2ad7d2bbu32
    } else {
        0xeb86d391u32
    }
}

/// Left-rotation amount for round `t`.
pub open spec fn md5_s(t: int) -> u32 {
    if t < 16 {
        if t % 4 == 0 { 7u32 } else if t % 4 == 1 { 12u32 } else if t % 4 == 2 { 17u32 } else { 22u32 }
    } else if t < 32 {
        if t % 4 == 0 { 5u32 } else if t % 4 == 1 { 9u32 } else if t % 4 == 2 { 14u32 } else { 20u32 }
    } else if t < 48 {
        if t % 4 == 0 { 4u32 } else if t % 4 == 1 { 11u32 } else if t % 4 == 2 { 16u32 } else { 23u32 }
    } else {
        if t % 4 == 0 { 6u32 } else if t % 4 == 1 { 10u32 } else if t % 4 == 2 { 15u32 } else { 21u32 }
    }
}

fn md5_s_at(t: usize) -> (r: u32)
    requires
        t < 64,
    ensures
        r == md5_s(t as int),
        0 < r < 32,
{
    if t < 16 {
        if t % 4 == 0 { 7u32 } else if t % 4 == 1 { 12u32 } else if t % 4 == 2 { 17u32 } else { 22u32 }
    } else if t < 32 {
        if t % 4 == 0 { 5u32 } else if t % 4 == 1 { 9u32 } else if t % 4 == 2 { 14u32 } else { 20u32 }
    } else if t < 48 {
        if t % 4 == 0 { 4u32 } else if t % 4 == 1 { 11u32 } else if t % 4 == 2 { 16u32 } else { 23u32 }
    } else {
        if t % 4 == 0 { 6u32 } else if t % 4 == 1 { 10u32 } else if t % 4 == 2 { 15u32 } else { 21u32 }
    }
}

/// Index of the message word mixed in at round `t`.
pub open spec fn md5_g(t: int) -> int {
    if t < 16 {
        t
    } else if t < 32 {
        (5 * t + 1) % 16
    } else if t < 48 {
        (3 * t + 5) % 16
    } else {
        (7 * t) % 16
    }
}

fn md5_g_at(t: usize) -> (r: usize)
    requires
        t < 64,
    ensures
        r == md5_g(t as int),
        r < 16,
{
    if t < 16 {
        t
    } else if t < 32 {
        (5 * t + 1) % 16
    } else if t < 48 {
        (3 * t + 5) % 16
    } else {
        (7 * t) % 16
    }
}

/// The round function applied to working variables `b`, `c`, `d`.
pub open spec fn md5_f(t: int, b: u32, c: u32, d: u32) -> u32 {
    if t < 16 {
        (b & c) | (!b & d)
    } else if t < 32 {
        (d & b) | (!d & c)
    } else if t < 48 {
        b ^ c ^ d
    } else {
        c ^ (b | !d)
    }
}

fn md5_f_at(t: usize, b: u32, c: u32, d: u32) -> (r: u32)
    requires
        t < 64,
    ensures
        r == md5_f(t as int, b, c, d),
{
    if t < 16 {
        (b & c) | (!b & d)
    } else if t < 32 {
        (d & b) | (!d & c)
    } else if t < 48 {
        b ^ c ^ d
    } else {
        c ^ (b | !d)
    }
}

/// One round applied to the working variables `s` (a..d as `s[0]..s[3]`).
pub open spec fn md5_round(block: Seq<u8>, s: Seq<u32>, t: int) -> Seq<u32> {
    let sum = s[0].wrapping_add(md5_f(t, s[1], s[2], s[3])).wrapping_add(md5_k(t)).wrapping_add(
        le_word(block, md5_g(t)),
    );
    seq![s[3], s[1].wrapping_add(spec_rotl(sum, md5_s(t))), s[1], s[2]]
}

/// The working variables after `t` rounds, starting from state `s`.
pub open spec fn md5_rounds(block: Seq<u8>, s: Seq<u32>, t: int) -> Seq<u32>
    decreases t,
{
    if t <= 0 {
        s
    } else {
        md5_round(block, md5_rounds(block, s, t - 1), t - 1)
    }
}

/// The compression function on an eight-word context: the first four words
/// absorb `block`, the last four pass through.
pub open spec fn md5_compress(s: Seq<u32>, block: Seq<u8>) -> Seq<u32> {
    let r = md5_rounds(block, s.take(4), 64);
    seq![
        s[0].wrapping_add(r[0]),
        s[1].wrapping_add(r[1]),
        s[2].wrapping_add(r[2]),
        s[3].wrapping_add(r[3]),
        s[4],
        s[5],
        s[6],
        s[7],
    ]
}

/// Runs the compression function over `block`, updating `st` in place.
pub fn md5_compress_block(st: &mut Vec<u32>, block: &[u8])
    requires
        old(st)@.len() == 8,
        block@.len() == 64,
    ensures
        final(st)@ == md5_compress(old(st)@, block@),
        final(st)@.len() == 8,
{
    let ghost s0 = st@;
    let mut a = st[0];
    let mut b = st[1];
    let mut c = st[2];
    let mut d = st[3];
    let mut t: usize = 0;
    while t < 64
        invariant
            t <= 64,
            s0.len() == 8,
            block@.len() == 64,
            ({
                let r = md5_rounds(block@, s0.take(4), t as int);
                r.len() == 4 && a == r[0] && b == r[1] && c == r[2] && d == r[3]
            }),
        decreases 64 - t,
    {
        let g = md5_g_at(t);
        let m = load_le_word(block, g);
        let sum = a.wrapping_add(md5_f_at(t, b, c, d)).wrapping_add(md5_k_at(t)).wrapping_add(m);
        let nb = b.wrapping_add(rotl(sum, md5_s_at(t)));
        a = d;
        d = c;
        c = b;
        b = nb;
        t = t + 1;
        proof {
            assert(md5_rounds(block@, s0.take(4), t as int) =~= md5_round(
                block@,
                md5_rounds(block@, s0.take(4), t as int - 1),
                t as int - 1,
            ));
        }
    }
    let v0 = st[0].wrapping_add(a);
    st[0] = v0;
    let v1 = st[1].wrapping_add(b);
    st[1] = v1;
    let v2 = st[2].wrapping_add(c);
    st[2] = v2;
    let v3 = st[3].wrapping_add(d);
    st[3] = v3;
    assert(st@ =~= md5_compress(s0, block@));
}

} // verus!
