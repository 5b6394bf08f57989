//! The SHA-256 / SHA-224 compression function.
//!
//! Both algorithms share this compression; they differ only in their initial
//! state and in how many digest words are meaningful. The specification
//! mirrors FIPS 180-4: a 64-word message schedule followed by 64 rounds over
//! the eight working variables, with the block's contribution added back into
//! the incoming state.

use vstd::prelude::*;
use crate::words::{be_word, load_be_word};

verus! {

/// Round constant `t` (the fractional parts of the cube roots of the first
/// 64 primes).
pub open spec fn sha256_k(t: int) -> u32 {
    if t == 0 {
        0x428a2f98u32
    } else if t == 1 {
        0x71374491u32
    } else if t == 2 {
        0xb5c0fbcfu32
    } else if t == 3 {
        0xe9b5dba5u32
    } else if t == 4 {
        0x3956c25bu32
    } else if t == 5 {
        0x59f111f1u32
    } else if t == 6 {
        0x923f82a4u32
    } else if t == 7 {
        0xab1c5ed5u32
    } else if t == 8 {
        0xd807aa98u32
    } else if t == 9 {
        0x12835b01u32
    } else if t == 10 {
        0x243185beu32
    } else if t == 11 {
        0x550c7dc3u32
    } else if t == 12 {
        0x72be5d74u32
    } else if t == 13 {
        0x80deb1feu32
    } else if t == 14 {
        0x9bdc06a7u32
    } else if t == 15 {
        0xc19bf174u32
    } else if t == 16 {
        0xe49b69c1u32
    } else if t == 17 {
        0xefbe4786u32
    } else if t == 18 {
        0x0fc19dc6u32
    } else if t == 19 {
        0x240ca1ccu32
    } else if t == 20 {
        0x2de92c6fu32
    } else if t == 21 {
        0x4a7484aau32
    } else if t == 22 {
        0x5cb0a9dcu32
    } else if t == 23 {
        0x76f988dau32
    } else if t == 24 {
        0x983e5152u32
    } else if t == 25 {
        0xa831c66du32
    } else if t == 26 {
        0xb00327c8u32
    } else if t == 27 {
        0xbf597fc7u32
    } else if t == 28 {
        0xc6e00bf3u32
    } else if t == 29 {
        0xd5a79147u32
    } else if t == 30 {
        0x06ca6351u32
    } else if t == 31 {
        0x14292967u32
    } else if t == 32 {
        0x27b70a85u32
    } else if t == 33 {
        0x2e1b2138u32
    } else if t == 34 {
        0x4d2c6dfcu32
    } else if t == 35 {
        0x53380d13u32
    } else if t == 36 {
        0x650a7354u32
    } else if t == 37 {
        0x766a0abbu32
    } else if t == 38 {
        0x81c2c92eu32
    } else if t == 39 {
        0x92722c85u32
    } else if t == 40 {
        0xa2bfe8a1u32
    } else if t == 41 {
        0xa81a664bu32
    } else if t == 42 {
        0xc24b8b70u32
    } else if t == 43 {
        0xc76c51a3u32
    } else if t == 44 {
        0xd192e819u32
    } else if t == 45 {
        0xd6990624u32
    } else if t == 46 {
        0xf40e3585u32
    } else if t == 47 {
        0x106aa070u32
    } else if t == 48 {
        0x19a4c116u32
    } else if t == 49 {
        0x1e376c08u32
    } else if t == 50 {
        0x2748774cu32
    } else if t == 51 {
        0x34b0bcb5u32
    } else if t == 52 {
        0x391c0cb3u32
    } else if t == 53 {
        0x4ed8aa4au32
    } else if t == 54 {
        0x5b9cca4fu32
    } else if t == 55 {
        0x682e6ff3u32
    } else if t == 56 {
        0x748f82eeu32
    } else if t == 57 {
        0x78a5636fu32
    } else if t == 58 {
        0x84c87814u32
    } else if t == 59 {
        0x8cc70208u32
    } else if t == 60 {
        0x90befffau32
    } else if t == 61 {
        0xa4506cebu32
    } else if t == 62 {
        0xbef9a3f7u32
    } else {
        0xc67178f2u32
    }
}

/// Reads round constant `t`.
pub fn sha256_k_at(t: usize) -> (r: u32)
    requires
        t < 64,
    ensures
        r == sha256_k(t as int),
{
    if t == 0 {
        0x428a2f98u32
    } else if t == 1 {
        0x71374491u32
    } else if t == 2 {
        0xb5c0fbcfu32
    } else if t == 3 {
        0xe9b5dba5u32
    } else if t == 4 {
        0x3956c25bu32
    } else if t == 5 {
        0x59f111f1u32
    } else if t == 6 {
        0x923f82a4u32
    } else if t == 7 {
        0xab1c5ed5u32
    } else if t == 8 {
        0xd807aa98u32
    } else if t == 9 {
        0x12835b01u32
    } else if t == 10 {
        0x243185beu32
    } else if t == 11 {
        0x550c7dc3u32
    } else if t == 12 {
        0x72be5d74u32
    } else if t == 13 {
        0x80deb1feu32
    } else if t == 14 {
        0x9bdc06a7u32
    } else if t == 15 {
        0xc19bf174u32
    } else if t == 16 {
        0xe49b69c1u32
    } else if t == 17 {
        0xefbe4786u32
    } else if t == 18 {
        0x0fc19dc6u32
    } else if t == 19 {
        0x240ca1ccu32
    } else if t == 20 {
        0x2de92c6fu32
    } else if t == 21 {
        0x4a7484aau32
    } else if t == 22 {
        0x5cb0a9dcu32
    } else if t == 23 {
        0x76f988dau32
    } else if t == 24 {
        0x983e5152u32
    } else if t == 25 {
        0xa831c66du32
    } else if t == 26 {
        0xb00327c8u32
    } else if t == 27 {
        0xbf597fc7u32
    } else if t == 28 {
        0xc6e00bf3u32
    } else if t == 29 {
        0xd5a79147u32
    } else if t == 30 {
        0x06ca6351u32
    } else if t == 31 {
        0x14292967u32
    } else if t == 32 {
        0x27b70a85u32
    } else if t == 33 {
        0x2e1b2138u32
    } else if t == 34 {
        0x4d2c6dfcu32
    } else if t == 35 {
        0x53380d13u32
    } else if t == 36 {
        0x650a7354u32
    } else if t == 37 {
        0x766a0abbu32
    } else if t == 38 {
        0x81c2c92eu32
    } else if t == 39 {
        0x92722c85u32
    } else if t == 40 {
        0xa2bfe8a1u32
    } else if t == 41 {
        0xa81a664bu32
    } else if t == 42 {
        0xc24b8b70u32
    } else if t == 43 {
        0xc76c51a3u32
    } else if t == 44 {
        0xd192e819u32
    } else if t == 45 {
        0xd6990624u32
    } else if t == 46 {
        0xf40e3585u32
    } else if t == 47 {
        0x106aa070u32
    } else if t == 48 {
        0x19a4c116u32
    } else if t == 49 {
        0x1e376c08u32
    } else if t == 50 {
        0x2748774cu32
    } else if t == 51 {
        0x34b0bcb5u32
    } else if t == 52 {
        0x391c0cb3u32
    } else if t == 53 {
        0x4ed8aa4au32
    } else if t == 54 {
        0x5b9cca4fu32
    } else if t == 55 {
        0x682e6ff3u32
    } else if t == 56 {
        0x748f82eeu32
    } else if t == 57 {
        0x78a5636fu32
    } else if t == 58 {
        0x84c87814u32
    } else if t == 59 {
        0x8cc70208u32
    } else if t == 60 {
        0x90befffau32
    } else if t == 61 {
        0xa4506cebu32
    } else if t == 62 {
        0xbef9a3f7u32
    } else {
        0xc67178f2u32
    }
}

pub open spec fn spec_ch(x: u32, y: u32, z: u32) -> u32 {
    (x & y) ^ (!x & z)
}

pub open spec fn spec_maj(x: u32, y: u32, z: u32) -> u32 {
    (x & y) ^ (x & z) ^ (y & z)
}

pub open spec fn spec_bsig0(x: u32) -> u32 {
    ((x >> 2u32) | (x << 30u32)) ^ ((x >> 13u32) | (x << 19u32)) ^ ((x >> 22u32) | (x << 10u32))
}

pub open spec fn spec_bsig1(x: u32) -> u32 {
    ((x >> 6u32) | (x << 26u32)) ^ ((x >> 11u32) | (x << 21u32)) ^ ((x >> 25u32) | (x << 7u32))
}

pub open spec fn spec_ssig0(x: u32) -> u32 {
    ((x >> 7u32) | (x << 25u32)) ^ ((x >> 18u32) | (x << 14u32)) ^ (x >> 3u32)
}

pub open spec fn spec_ssig1(x: u32) -> u32 {
    ((x >> 17u32) | (x << 15u32)) ^ ((x >> 19u32) | (x << 13u32)) ^ (x >> 10u32)
}

fn ch(x: u32, y: u32, z: u32) -> (r: u32)
    ensures
        r == spec_ch(x, y, z),
{
    (x & y) ^ (!x & z)
}

fn maj(x: u32, y: u32, z: u32) -> (r: u32)
    ensures
        r == spec_maj(x, y, z),
{
    (x & y) ^ (x & z) ^ (y & z)
}

fn bsig0(x: u32) -> (r: u32)
    ensures
        r == spec_bsig0(x),
{
    ((x >> 2u32) | (x << 30u32)) ^ ((x >> 13u32) | (x << 19u32)) ^ ((x >> 22u32) | (x << 10u32))
}

fn bsig1(x: u32) -> (r: u32)
    ensures
        r == spec_bsig1(x),
{
    ((x >> 6u32) | (x << 26u32)) ^ ((x >> 11u32) | (x << 21u32)) ^ ((x >> 25u32) | (x << 7u32))
}

fn ssig0(x: u32) -> (r: u32)
    ensures
        r == spec_ssig0(x),
{
    ((x >> 7u32) | (x << 25u32)) ^ ((x >> 18u32) | (x << 14u32)) ^ (x >> 3u32)
}

fn ssig1(x: u32) -> (r: u32)
    ensures
        r == spec_ssig1(x),
{
    ((x >> 17u32) | (x << 15u32)) ^ ((x >> 19u32) | (x << 13u32)) ^ (x >> 10u32)
}

/// Word `t` of the message schedule for `block`.
pub open spec fn sha256_w(block: Seq<u8>, t: int) -> u32
    decreases t,
{
    if t < 16 {
        be_word(block, t)
    } else {
        spec_ssig1(sha256_w(block, t - 2)).wrapping_add(sha256_w(block, t - 7)).wrapping_add(
            spec_ssig0(sha256_w(block, t - 15)),
        ).wrapping_add(sha256_w(block, t - 16))
    }
}

/// One round applied to the working variables `s` (a..h as `s[0]..s[7]`).
pub open spec fn sha256_round(block: Seq<u8>, s: Seq<u32>, t: int) -> Seq<u32> {
    let t1 = s[7].wrapping_add(spec_bsig1(s[4])).wrapping_add(spec_ch(s[4], s[5], s[6]))
        .wrapping_add(sha256_k(t)).wrapping_add(sha256_w(block, t));
    let t2 = spec_bsig0(s[0]).wrapping_add(spec_maj(s[0], s[1], s[2]));
    seq![
        t1.wrapping_add(t2),
        s[0],
        s[1],
        s[2],
        s[3].wrapping_add(t1),
        s[4],
        s[5],
        s[6],
    ]
}

/// The working variables after `t` rounds, starting from state `s`.
pub open spec fn sha256_rounds(block: Seq<u8>, s: Seq<u32>, t: int) -> Seq<u32>
    decreases t,
{
    if t <= 0 {
        s
    } else {
        sha256_round(block, sha256_rounds(block, s, t - 1), t - 1)
    }
}

/// The compression function: state words after absorbing one 64-byte block.
pub open spec fn sha256_compress(s: Seq<u32>, block: Seq<u8>) -> Seq<u32> {
    let r = sha256_rounds(block, s, 64);
    seq![
        s[0].wrapping_add(r[0]),
        s[1].wrapping_add(r[1]),
        s[2].wrapping_add(r[2]),
        s[3].wrapping_add(r[3]),
        s[4].wrapping_add(r[4]),
        s[5].wrapping_add(r[5]),
        s[6].wrapping_add(r[6]),
        s[7].wrapping_add(r[7]),
    ]
}

/// Runs the compression function over `block`, updating `st` in place.
pub fn sha256_compress_block(st: &mut Vec<u32>, block: &[u8])
    requires
        old(st)@.len() == 8,
        block@.len() == 64,
    ensures
        final(st)@ == sha256_compress(old(st)@, block@),
        final(st)@.len() == 8,
{
    let ghost s0 = st@;
    let mut w: Vec<u32> = Vec::new();
    let mut t: usize = 0;
    while t < 16
        invariant
            t <= 16,
            block@.len() == 64,
            w@.len() == t,
            forall|j: int| 0 <= j < t ==> w@[j] == sha256_w(block@, j),
        decreases 16 - t,
    {
        w.push(load_be_word(block, t));
        t = t + 1;
    }
    while t < 64
        invariant
            16 <= t <= 64,
            block@.len() == 64,
            w@.len() == t,
            forall|j: int| 0 <= j < t ==> w@[j] == sha256_w(block@, j),
        decreases 64 - t,
    {
        let v = ssig1(w[t - 2]).wrapping_add(w[t - 7]).wrapping_add(ssig0(w[t - 15]))
            .wrapping_add(w[t - 16]);
        w.push(v);
        t = t + 1;
    }
    let mut a = st[0];
    let mut b = st[1];
    let mut c = st[2];
    let mut d = st[3];
    let mut e = st[4];
    let mut f = st[5];
    let mut g = st[6];
    let mut h = st[7];
    let mut t: usize = 0;
    while t < 64
        invariant
            t <= 64,
            s0.len() == 8,
            block@.len() == 64,
            w@.len() == 64,
            forall|j: int| 0 <= j < 64 ==> w@[j] == sha256_w(block@, j),
            ({
                let r = sha256_rounds(block@, s0, t as int);
                r.len() == 8 && a == r[0] && b == r[1] && c == r[2] && d == r[3] && e == r[4]
                    && f == r[5] && g == r[6] && h == r[7]
            }),
        decreases 64 - t,
    {
        let t1 = h.wrapping_add(bsig1(e)).wrapping_add(ch(e, f, g)).wrapping_add(sha256_k_at(t))
            .wrapping_add(w[t]);
        let t2 = bsig0(a).wrapping_add(maj(a, b, c));
        h = g;
        g = f;
        f = e;
        e = d.wrapping_add(t1);
        d = c;
        c = b;
        b = a;
        a = t1.wrapping_add(t2);
        t = t + 1;
        proof {
            assert(sha256_rounds(block@, s0, t as int) =~= sha256_round(
                block@,
                sha256_rounds(block@, s0, t as int - 1),
                t as int - 1,
            ));
        }
    }
    let v0 = st[0].wrapping_add(a);
    st[0] = v0;
    let v1 = st[1].wrapping_add(b);
    st[1] = v1;
    let v2 = st[2].wrapping_add(c);
    st[2] = v2;
    let v3 = st[3].wrapping_add(d);
    st[3] = v3;
    let v4 = st[4].wrapping_add(e);
    st[4] = v4;
    let v5 = st[5].wrapping_add(f);
    st[5] = v5;
    let v6 = st[6].wrapping_add(g);
    st[6] = v6;
    let v7 = st[7].wrapping_add(h);
    st[7] = v7;
    assert(st@ =~= sha256_compress(s0, block@));
}

} // verus!
