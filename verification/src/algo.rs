//! Digest algorithms, block padding, and the block-absorption model.
//!
//! The engine keeps an eight-word digest context for every algorithm; MD5
//! and SHA-1 use a prefix of it and carry the remaining words through. Data
//! is absorbed in 64-byte blocks. Finalization appends the standard padding
//! (a 0x80 marker, zeros to the last eight bytes of a block, then the
//! declared message length in bits — little-endian for MD5, big-endian for
//! the SHA family).

use vstd::prelude::*;
use crate::md5::{md5_compress, md5_compress_block};
use crate::sha1::{sha1_compress, sha1_compress_block};
use crate::sha256::{sha256_compress, sha256_compress_block};
use crate::words::serialize_be;

verus! {

/// One of the hash algorithms the engine supports.
#[derive(Clone, Copy, PartialEq, Eq, Structural, Debug)]
pub enum DigestAlgorithm {
    Md5,
    Sha1,
    Sha224,
    Sha256,
}

/// What the hash engine is currently configured to compute.
#[derive(Clone, Copy, PartialEq, Eq, Structural, Debug)]
pub enum HashMode {
    Invalid,
    Digest(DigestAlgorithm),
    Hmac(DigestAlgorithm),
}

impl DigestAlgorithm {
    /// The algorithm-select code the hash control register expects.
    pub open spec fn control_code(self) -> u32 {
        match self {
            DigestAlgorithm::Md5 => 0u32,
            DigestAlgorithm::Sha1 => 1u32,
            DigestAlgorithm::Sha224 => 10u32,
            DigestAlgorithm::Sha256 => 2u32,
        }
    }

    /// How many context words the engine serializes for this algorithm.
    pub open spec fn digest_words(self) -> int {
        match self {
            DigestAlgorithm::Md5 => 4,
            DigestAlgorithm::Sha1 => 5,
            DigestAlgorithm::Sha224 => 8,
            DigestAlgorithm::Sha256 => 8,
        }
    }

    /// The digest length in bytes.
    pub open spec fn digest_len(self) -> int {
        4 * self.digest_words()
    }
}

/// The algorithm selected by a hash control register value, if any.
pub open spec fn alg_of_control(code: u32) -> Option<DigestAlgorithm> {
    if code == 0u32 {
        Some(DigestAlgorithm::Md5)
    } else if code == 1u32 {
        Some(DigestAlgorithm::Sha1)
    } else if code == 10u32 {
        Some(DigestAlgorithm::Sha224)
    } else if code == 2u32 {
        Some(DigestAlgorithm::Sha256)
    } else {
        None
    }
}

/// The standard initial digest context: the algorithm's initial hash values,
/// zero-filled to eight words.
pub open spec fn init_state(alg: DigestAlgorithm) -> Seq<u32> {
    match alg {
        DigestAlgorithm::Md5 => seq![
            0x67452301u32,
            0xEFCDAB89u32,
            0x98BADCFEu32,
            0x10325476u32,
            0u32,
            0u32,
            0u32,
            0u32,
        ],
        DigestAlgorithm::Sha1 => seq![
            0x67452301u32,
            0xEFCDAB89u32,
            0x98BADCFEu32,
            0x10325476u32,
            0xC3D2E1F0u32,
            0u32,
            0u32,
            0u32,
        ],
        DigestAlgorithm::Sha224 => seq![
            0xC1059ED8u32,
            0x367CD507u32,
            0x3070DD17u32,
            0xF70E5939u32,
            0xFFC00B31u32,
            0x68581511u32,
            0x64F98FA7u32,
            0xBEFA4FA4u32,
        ],
        DigestAlgorithm::Sha256 => seq![
            0x6A09E667u32,
            0xBB67AE85u32,
            0x3C6EF372u32,
            0xA54FF53Au32,
            0x510E527Fu32,
            0x9B05688Cu32,
            0x1F83D9ABu32,
            0x5BE0CD19u32,
        ],
    }
}

/// One application of the algorithm's compression function to an eight-word
/// context.
pub open spec fn compress(alg: DigestAlgorithm, s: Seq<u32>, block: Seq<u8>) -> Seq<u32> {
    match alg {
        DigestAlgorithm::Md5 => md5_compress(s, block),
        DigestAlgorithm::Sha1 => sha1_compress(s, block),
        DigestAlgorithm::Sha224 => sha256_compress(s, block),
        DigestAlgorithm::Sha256 => sha256_compress(s, block),
    }
}

/// Absorbs `data` into context `s`, one 64-byte block at a time. A trailing
/// partial block is ignored; the engine only ever submits whole blocks.
pub open spec fn absorb(alg: DigestAlgorithm, s: Seq<u32>, data: Seq<u8>) -> Seq<u32>
    decreases data.len(),
{
    if data.len() < 64 {
        s
    } else {
        absorb(alg, compress(alg, s, data.take(64)), data.skip(64))
    }
}

/// The number of zero bytes between the 0x80 marker and the length field.
pub open spec fn pad_zero_count(cursor: int) -> int {
    if cursor < 56 {
        55 - cursor
    } else {
        119 - cursor
    }
}

/// The declared message length in bits, as the eight bytes of the padding's
/// length field.
pub open spec fn len_field(alg: DigestAlgorithm, total: u64) -> Seq<u8> {
    let bits = total.wrapping_mul(8);
    match alg {
        DigestAlgorithm::Md5 => seq![
            bits as u8,
            (bits >> 8u64) as u8,
            (bits >> 16u64) as u8,
            (bits >> 24u64) as u8,
            (bits >> 32u64) as u8,
            (bits >> 40u64) as u8,
            (bits >> 48u64) as u8,
            (bits >> 56u64) as u8,
        ],
        _ => seq![
            (bits >> 56u64) as u8,
            (bits >> 48u64) as u8,
            (bits >> 40u64) as u8,
            (bits >> 32u64) as u8,
            (bits >> 24u64) as u8,
            (bits >> 16u64) as u8,
            (bits >> 8u64) as u8,
            bits as u8,
        ],
    }
}

/// The standard padding appended after a final chunk that ends at offset
/// `cursor` within a block, declaring `total` message bytes.
pub open spec fn padding(alg: DigestAlgorithm, cursor: int, total: u64) -> Seq<u8> {
    seq![0x80u8] + Seq::new(pad_zero_count(cursor) as nat, |i: int| 0u8) + len_field(alg, total)
}

/// Padding always completes the current block (and one more block when the
/// final chunk ends within the last eight bytes of a block).
pub proof fn lemma_padding_completes_block(alg: DigestAlgorithm, cursor: int, total: u64)
    requires
        0 <= cursor < 64,
    ensures
        (cursor + padding(alg, cursor, total).len()) % 64 == 0,
        padding(alg, cursor, total).len() == 1 + pad_zero_count(cursor) + 8,
{
}

/// The byte stream the hash engine consumes for one submission: the data,
/// followed by the standard padding when the submission is final. An empty
/// submission triggers the explicit pad of the previous operation.
pub open spec fn stream_of(alg: DigestAlgorithm, data: Seq<u8>, is_final: bool, total: u64) -> Seq<
    u8,
> {
    if data.len() == 0 {
        padding(alg, 0, total)
    } else if is_final {
        data + padding(alg, (data.len() % 64) as int, total)
    } else {
        data
    }
}

/// The context after absorbing `msg` and its padding, starting from the
/// block-aligned context `s`; `total` is the length declared in the padding.
pub open spec fn hash_from(alg: DigestAlgorithm, s: Seq<u32>, msg: Seq<u8>, total: u64) -> Seq<
    u32,
> {
    absorb(alg, s, msg + padding(alg, (msg.len() % 64) as int, total))
}

/// The digest of `msg` under `alg`: initial context, message, standard
/// padding, serialized big-endian.
pub open spec fn spec_hash(alg: DigestAlgorithm, msg: Seq<u8>) -> Seq<u8> {
    serialize_be(
        hash_from(alg, init_state(alg), msg, msg.len() as u64),
        alg.digest_words(),
    )
}

/// A 64-byte block of `pad` bytes, exclusive-ORed with the key where the key
/// covers it.
pub open spec fn xor_pad_block(key: Seq<u8>, pad: u8) -> Seq<u8> {
    Seq::new(64, |i: int| if i < key.len() { key[i] ^ pad } else { pad })
}

/// The context after absorbing the inner-pad block (0x36 mask).
pub open spec fn hmac_inner_start(alg: DigestAlgorithm, key: Seq<u8>) -> Seq<u32> {
    compress(alg, init_state(alg), xor_pad_block(key, 0x36))
}

/// The context after absorbing the outer-pad block (0x5c mask).
pub open spec fn hmac_outer_start(alg: DigestAlgorithm, key: Seq<u8>) -> Seq<u32> {
    compress(alg, init_state(alg), xor_pad_block(key, 0x5c))
}

/// The engine's two-pass HMAC, the standard construction: the inner digest
/// is the plain hash of the inner-pad block followed by the message (its
/// padding declares those 64 prefix bytes plus the message), and the
/// result is the plain hash of the outer-pad block followed by that inner
/// digest (declaring 64 plus the digest length).
pub open spec fn spec_hmac(alg: DigestAlgorithm, key: Seq<u8>, msg: Seq<u8>) -> Seq<u8> {
    let inner = serialize_be(
        hash_from(alg, hmac_inner_start(alg, key), msg, (64 + msg.len()) as u64),
        alg.digest_words(),
    );
    serialize_be(
        hash_from(alg, hmac_outer_start(alg, key), inner, (64 + inner.len()) as u64),
        alg.digest_words(),
    )
}

/// Absorption preserves the context width.
pub proof fn lemma_absorb_len(alg: DigestAlgorithm, s: Seq<u32>, data: Seq<u8>)
    requires
        s.len() == 8,
    ensures
        absorb(alg, s, data).len() == 8,
    decreases data.len(),
{
    if data.len() >= 64 {
        lemma_absorb_len(alg, compress(alg, s, data.take(64)), data.skip(64));
    }
}

/// Absorbing block-aligned data then more data is the same as absorbing the
/// concatenation: the block boundary is invisible to the digest.
pub proof fn lemma_absorb_append(alg: DigestAlgorithm, s: Seq<u32>, a: Seq<u8>, b: Seq<u8>)
    requires
        a.len() % 64 == 0,
    ensures
        absorb(alg, s, a + b) == absorb(alg, absorb(alg, s, a), b),
    decreases a.len(),
{
    if a.len() == 0 {
        assert(a + b =~= b);
    } else {
        assert(a.len() >= 64);
        assert((a + b).take(64) =~= a.take(64));
        assert((a + b).skip(64) =~= a.skip(64) + b);
        assert(a.skip(64).len() % 64 == 0);
        lemma_absorb_append(alg, compress(alg, s, a.take(64)), a.skip(64), b);
    }
}

/// Absorbing exactly one block is one application of the compression
/// function.
pub proof fn lemma_one_block_absorb(alg: DigestAlgorithm, s: Seq<u32>, block: Seq<u8>)
    requires
        block.len() == 64,
    ensures
        absorb(alg, s, block) == compress(alg, s, block),
{
    assert(absorb(alg, s, block) == absorb(alg, compress(alg, s, block.take(64)), block.skip(64)));
    assert(block.skip(64).len() == 0);
    assert(absorb(alg, compress(alg, s, block.take(64)), block.skip(64)) == compress(
        alg,
        s,
        block.take(64),
    ));
    assert(block.take(64) =~= block);
}

/// Runs the algorithm's compression function over one 64-byte block.
pub fn compress_block(alg: DigestAlgorithm, st: &mut Vec<u32>, block: &[u8])
    requires
        old(st)@.len() == 8,
        block@.len() == 64,
    ensures
        final(st)@ == compress(alg, old(st)@, block@),
        final(st)@.len() == 8,
{
    match alg {
        DigestAlgorithm::Md5 => md5_compress_block(st, block),
        DigestAlgorithm::Sha1 => sha1_compress_block(st, block),
        DigestAlgorithm::Sha224 => sha256_compress_block(st, block),
        DigestAlgorithm::Sha256 => sha256_compress_block(st, block),
    }
}

/// Absorbs every whole 64-byte block of `data` into `st`.
pub fn absorb_stream(alg: DigestAlgorithm, st: &mut Vec<u32>, data: &[u8])
    requires
        old(st)@.len() == 8,
    ensures
        final(st)@ == absorb(alg, old(st)@, data@),
        final(st)@.len() == 8,
{
    let ghost s0 = st@;
    let len = data.len();
    let mut idx: usize = 0;
    proof {
        assert(data@.skip(0) =~= data@);
    }
    while 64 <= len && idx <= len - 64
        invariant
            st@.len() == 8,
            len == data@.len(),
            idx <= len,
            idx % 64 == 0,
            absorb(alg, s0, data@) == absorb(alg, st@, data@.skip(idx as int)),
        decreases len - idx,
    {
        let block = vstd::slice::slice_subrange(data, idx, idx + 64);
        compress_block(alg, st, block);
        proof {
            assert(data@.skip(idx as int).take(64) =~= block@);
            assert(data@.skip(idx as int).skip(64) =~= data@.skip(idx as int + 64));
        }
        idx = idx + 64;
    }
    proof {
        assert(absorb(alg, st@, data@.skip(idx as int)) == st@);
    }
}

} // verus!
