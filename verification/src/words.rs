//! Conversions between byte streams and 32-bit words.
//!
//! The hash engine consumes its input as 32-bit words. SHA-1 and the SHA-2
//! family read words big-endian from the byte stream; MD5 reads them
//! little-endian. Digest state words are serialized big-endian on readout.

use vstd::prelude::*;

verus! {

/// Word `i` of `b` read big-endian (bytes `4*i .. 4*i + 4`).
pub open spec fn be_word(b: Seq<u8>, i: int) -> u32 {
    ((b[4 * i] as u32) << 24u32) | ((b[4 * i + 1] as u32) << 16u32)
        | ((b[4 * i + 2] as u32) << 8u32) | (b[4 * i + 3] as u32)
}

/// Word `i` of `b` read little-endian (bytes `4*i .. 4*i + 4`).
pub open spec fn le_word(b: Seq<u8>, i: int) -> u32 {
    ((b[4 * i + 3] as u32) << 24u32) | ((b[4 * i + 2] as u32) << 16u32)
        | ((b[4 * i + 1] as u32) << 8u32) | (b[4 * i] as u32)
}

/// The four big-endian bytes of `w`, most significant first.
pub open spec fn be_bytes_of(w: u32) -> Seq<u8> {
    seq![(w >> 24u32) as u8, (w >> 16u32) as u8, (w >> 8u32) as u8, w as u8]
}

/// The first `n` words of `st`, each serialized big-endian.
pub open spec fn serialize_be(st: Seq<u32>, n: int) -> Seq<u8>
    decreases n,
{
    if n <= 0 {
        Seq::empty()
    } else {
        serialize_be(st, n - 1) + be_bytes_of(st[n - 1])
    }
}

pub proof fn lemma_serialize_be_len(st: Seq<u32>, n: int)
    requires
        0 <= n,
    ensures
        serialize_be(st, n).len() == 4 * n,
    decreases n,
{
    if n > 0 {
        lemma_serialize_be_len(st, n - 1);
    }
}

/// Reads word `i` of `b` big-endian.
pub fn load_be_word(b: &[u8], i: usize) -> (w: u32)
    requires
        i < usize::MAX / 4,
        4 * i + 4 <= b@.len(),
    ensures
        w == be_word(b@, i as int),
{
    ((b[4 * i] as u32) << 24u32) | ((b[4 * i + 1] as u32) << 16u32)
        | ((b[4 * i + 2] as u32) << 8u32) | (b[4 * i + 3] as u32)
}

/// Reads word `i` of `b` little-endian.
pub fn load_le_word(b: &[u8], i: usize) -> (w: u32)
    requires
        i < usize::MAX / 4,
        4 * i + 4 <= b@.len(),
    ensures
        w == le_word(b@, i as int),
{
    ((b[4 * i + 3] as u32) << 24u32) | ((b[4 * i + 2] as u32) << 16u32)
        | ((b[4 * i + 1] as u32) << 8u32) | (b[4 * i] as u32)
}

/// Appends the big-endian bytes of `w` to `out`.
pub fn push_be_bytes(out: &mut Vec<u8>, w: u32)
    ensures
        final(out)@ == old(out)@ + be_bytes_of(w),
{
    out.push((w >> 24u32) as u8);
    out.push((w >> 16u32) as u8);
    out.push((w >> 8u32) as u8);
    out.push(w as u8);
    assert(out@ =~= old(out)@ + be_bytes_of(w));
}

} // verus!
