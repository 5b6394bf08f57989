//! The digest and HMAC capability of the engine: algorithm configuration,
//! incremental data accumulation, and two-phase finalization.

use vstd::prelude::*;
use crate::algo::{
    absorb, hmac_inner_start, hmac_outer_start, init_state, lemma_absorb_append,
    lemma_one_block_absorb, spec_hash, spec_hmac, stream_of, xor_pad_block, DigestAlgorithm,
    HashMode,
};
use crate::error::ErrorCode;
use crate::words::{be_bytes_of, lemma_serialize_be_len, serialize_be};
use crate::CryptoCell310;

verus! {

/// A byte-for-byte copy of `v`.
fn clone_bytes(v: &Vec<u8>) -> (r: Vec<u8>)
    ensures
        r@ == v@,
{
    let mut out: Vec<u8> = Vec::new();
    let mut i: usize = 0;
    while i < v.len()
        invariant
            i <= v@.len(),
            out@ == v@.take(i as int),
        decreases v@.len() - i,
    {
        out.push(v[i]);
        proof {
            assert(out@ =~= v@.take(i + 1));
        }
        i = i + 1;
    }
    proof {
        assert(v@.take(v@.len() as int) =~= v@);
    }
    out
}

/// The 64-byte key pad block: `mask` exclusive-ORed with the zero-padded
/// key.
fn build_key_pad(key: &[u8], mask: u8) -> (r: Vec<u8>)
    requires
        key@.len() <= 64,
    ensures
        r@ == xor_pad_block(key@, mask),
{
    let mut out: Vec<u8> = Vec::new();
    let mut i: usize = 0;
    while i < 64
        invariant
            i <= 64,
            key@.len() <= 64,
            out@.len() == i,
            forall|j: int| 0 <= j < i ==> out@[j] == xor_pad_block(key@, mask)[j],
        decreases 64 - i,
    {
        if i < key.len() {
            out.push(key[i] ^ mask);
        } else {
            out.push(mask);
        }
        i = i + 1;
    }
    proof {
        assert(out@ =~= xor_pad_block(key@, mask));
    }
    out
}

/// Loads the algorithm's standard initial hash values into the eight-word
/// context.
fn load_init(ctx: &mut Vec<u32>, alg: DigestAlgorithm)
    requires
        old(ctx)@.len() == 8,
    ensures
        final(ctx)@ == init_state(alg),
        final(ctx)@.len() == 8,
{
    match alg {
        DigestAlgorithm::Md5 => {
            ctx[0] = 0x67452301;
            ctx[1] = 0xEFCDAB89;
            ctx[2] = 0x98BADCFE;
            ctx[3] = 0x10325476;
            ctx[4] = 0;
            ctx[5] = 0;
            ctx[6] = 0;
            ctx[7] = 0;
        },
        DigestAlgorithm::Sha1 => {
            ctx[0] = 0x67452301;
            ctx[1] = 0xEFCDAB89;
            ctx[2] = 0x98BADCFE;
            ctx[3] = 0x10325476;
            ctx[4] = 0xC3D2E1F0;
            ctx[5] = 0;
            ctx[6] = 0;
            ctx[7] = 0;
        },
        DigestAlgorithm::Sha224 => {
            ctx[0] = 0xC1059ED8;
            ctx[1] = 0x367CD507;
            ctx[2] = 0x3070DD17;
            ctx[3] = 0xF70E5939;
            ctx[4] = 0xFFC00B31;
            ctx[5] = 0x68581511;
            ctx[6] = 0x64F98FA7;
            ctx[7] = 0xBEFA4FA4;
        },
        DigestAlgorithm::Sha256 => {
            ctx[0] = 0x6A09E667;
            ctx[1] = 0xBB67AE85;
            ctx[2] = 0x3C6EF372;
            ctx[3] = 0xA54FF53A;
            ctx[4] = 0x510E527F;
            ctx[5] = 0x9B05688C;
            ctx[6] = 0x1F83D9AB;
            ctx[7] = 0x5BE0CD19;
        },
    }
    proof {
        assert(ctx@ =~= init_state(alg));
    }
}

/// Serializes the first `ds` context words big-endian into the front of
/// `digest`, leaving the rest of the buffer alone.
fn write_digest_words(digest: &mut Vec<u8>, ctx: &Vec<u32>, ds: usize)
    requires
        ds <= 8,
        ctx@.len() == 8,
        old(digest)@.len() >= 4 * ds,
    ensures
        final(digest)@.len() == old(digest)@.len(),
        final(digest)@ == serialize_be(ctx@, ds as int) + old(digest)@.skip(4 * ds as int),
{
    let ghost orig = digest@;
    let mut i: usize = 0;
    while i < ds
        invariant
            i <= ds,
            ds <= 8,
            ctx@.len() == 8,
            orig.len() >= 4 * ds,
            digest@.len() == orig.len(),
            digest@.take(4 * i as int) == serialize_be(ctx@, i as int),
            digest@.skip(4 * i as int) == orig.skip(4 * i as int),
        decreases ds - i,
    {
        let w = ctx[i];
        let ghost before = digest@;
        digest[4 * i] = #[verifier::truncate] ((w >> 24u32) as u8);
        digest[4 * i + 1] = #[verifier::truncate] ((w >> 16u32) as u8);
        digest[4 * i + 2] = #[verifier::truncate] ((w >> 8u32) as u8);
        digest[4 * i + 3] = #[verifier::truncate] (w as u8);
        proof {
            assert forall|k: int| 4 * i <= k < orig.len() implies before[k] == orig[k] by {
                assert(before.skip(4 * i as int)[k - 4 * i] == orig.skip(4 * i as int)[k - 4 * i]);
            }
            assert(digest@.take(4 * (i + 1) as int) =~= serialize_be(ctx@, i as int)
                + be_bytes_of(ctx@[i as int]));
            assert(digest@.take(4 * (i + 1) as int) == serialize_be(ctx@, i + 1 as int));
            assert(digest@.skip(4 * (i + 1) as int) =~= orig.skip(4 * (i + 1) as int));
        }
        i = i + 1;
    }
    proof {
        lemma_serialize_be_len(ctx@, ds as int);
        assert(digest@ =~= serialize_be(ctx@, ds as int) + orig.skip(4 * ds as int));
    }
}

/// Splitting a length at a 64-byte boundary: adding an aligned count leaves
/// the remainder, and stripping the remainder leaves an aligned count.
proof fn lemma_mod64_align(len: int)
    by (nonlinear_arith)
    requires
        len >= 0,
    ensures
        0 <= len % 64 < 64,
        (len - len % 64) % 64 == 0,
{
}

/// An aligned count plus a small remainder has exactly that remainder
/// modulo 64.
proof fn lemma_mod64_add_aligned(a: int, r: int)
    by (nonlinear_arith)
    requires
        a >= 0,
        a % 64 == 0,
        0 <= r < 64,
    ensures
        (a + r) % 64 == r,
{
}

/// A block-aligned prefix in the byte counter does not move the cursor.
proof fn lemma_mod64_drop_prefix(p: int, len: int)
    by (nonlinear_arith)
    requires
        p >= 0,
        p % 64 == 0,
        len >= 0,
    ensures
        (p + len) % 64 == len % 64,
{
}

/// The sum of two 64-byte-aligned counts is aligned.
proof fn lemma_mod64_add_multiple(a: int, b: int)
    by (nonlinear_arith)
    requires
        a >= 0,
        b >= 0,
        a % 64 == 0,
        b % 64 == 0,
    ensures
        (a + b) % 64 == 0,
{
}

impl CryptoCell310 {
    /// Configures the engine for a plain digest of `alg`: loads the
    /// algorithm's initial hash values and resets the accumulated length.
    fn set_mode_digest(&mut self, alg: DigestAlgorithm) -> (r: Result<(), ErrorCode>)
        requires
            old(self).structural_wf(),
        ensures
            final(self).wf(),
            r is Ok,
            final(self).hash_algo == HashMode::Digest(alg),
            final(self).absorbed@ == Seq::<u8>::empty(),
            final(self).hash_total_size == 0,
            final(self).hash_digest_size == alg.digest_words(),
            final(self).usage_count == old(self).usage_count,
            final(self).power == old(self).power,
            final(self).current_op == old(self).current_op,
            final(self).registers == old(self).registers,
            final(self).hash_data_queue@ == old(self).hash_data_queue@,
            final(self).hash_hmac_opad_ctx@ == old(self).hash_hmac_opad_ctx@,
    {
        self.hash_algo = HashMode::Digest(alg);
        self.hash_digest_size = match alg {
            DigestAlgorithm::Md5 => 4,
            DigestAlgorithm::Sha1 => 5,
            DigestAlgorithm::Sha224 => 8,
            DigestAlgorithm::Sha256 => 8,
        };
        load_init(&mut self.hash_ctx, alg);
        self.hash_total_size = 0;
        self.absorbed = Ghost(Seq::empty());
        proof {
            assert(self.hash_data_queue@.take(0) =~= Seq::<u8>::empty());
            assert(self.absorbed@.skip(0) =~= Seq::<u8>::empty());
            assert(self.absorbed@.take(0) =~= Seq::<u8>::empty());
        }
        Ok(())
    }

    /// Selects MD5 accumulation.
    pub fn set_mode_md5(&mut self) -> (r: Result<(), ErrorCode>)
        requires
            old(self).structural_wf(),
        ensures
            final(self).wf(),
            r is Ok,
            final(self).hash_algo == HashMode::Digest(DigestAlgorithm::Md5),
            final(self).absorbed@ == Seq::<u8>::empty(),
            final(self).usage_count == old(self).usage_count,
            final(self).power == old(self).power,
            final(self).registers == old(self).registers,
    {
        self.set_mode_digest(DigestAlgorithm::Md5)
    }

    /// Selects SHA-1 accumulation.
    pub fn set_mode_sha1(&mut self) -> (r: Result<(), ErrorCode>)
        requires
            old(self).structural_wf(),
        ensures
            final(self).wf(),
            r is Ok,
            final(self).hash_algo == HashMode::Digest(DigestAlgorithm::Sha1),
            final(self).absorbed@ == Seq::<u8>::empty(),
            final(self).usage_count == old(self).usage_count,
            final(self).power == old(self).power,
            final(self).registers == old(self).registers,
    {
        self.set_mode_digest(DigestAlgorithm::Sha1)
    }

    /// Selects SHA-224 accumulation. The engine serializes all eight
    /// context words; the standard SHA-224 digest is the first 28 bytes.
    pub fn set_mode_sha224(&mut self) -> (r: Result<(), ErrorCode>)
        requires
            old(self).structural_wf(),
        ensures
            final(self).wf(),
            r is Ok,
            final(self).hash_algo == HashMode::Digest(DigestAlgorithm::Sha224),
            final(self).absorbed@ == Seq::<u8>::empty(),
            final(self).usage_count == old(self).usage_count,
            final(self).power == old(self).power,
            final(self).registers == old(self).registers,
    {
        self.set_mode_digest(DigestAlgorithm::Sha224)
    }

    /// Selects SHA-256 accumulation.
    pub fn set_mode_sha256(&mut self) -> (r: Result<(), ErrorCode>)
        requires
            old(self).structural_wf(),
        ensures
            final(self).wf(),
            r is Ok,
            final(self).hash_algo == HashMode::Digest(DigestAlgorithm::Sha256),
            final(self).absorbed@ == Seq::<u8>::empty(),
            final(self).usage_count == old(self).usage_count,
            final(self).power == old(self).power,
            final(self).registers == old(self).registers,
    {
        self.set_mode_digest(DigestAlgorithm::Sha256)
    }

    /// Configures HMAC-SHA-256 with a key of up to one block (longer keys
    /// would need pre-hashing, which this engine does not do). The
    /// outer-pad block (0x5c mask) is absorbed first, the resulting
    /// context saved for finalization, and the counter cleared — that
    /// block belongs to the outer pass. Then the context is reloaded and
    /// the inner-pad block (0x36 mask) absorbed; its 64 bytes stay in the
    /// counter as the inner operation's hidden prefix, so finalization
    /// declares the standard inner-hash length. Neither pad block is
    /// message data.
    #[verifier::rlimit(100)]
    pub fn set_mode_hmacsha256(&mut self, key: &[u8]) -> (r: Result<(), ErrorCode>)
        requires
            old(self).structural_wf(),
            key@.len() <= 64,
            old(self).usage_count < usize::MAX,
        ensures
            final(self).wf(),
            r is Ok,
            final(self).hash_algo == HashMode::Hmac(DigestAlgorithm::Sha256),
            final(self).absorbed@ == Seq::<u8>::empty(),
            final(self).hmac_key@ == key@,
            final(self).hash_total_size == 64,
            final(self).usage_count == old(self).usage_count,
            final(self).power == old(self).power,
            final(self).hash_data_queue@ == old(self).hash_data_queue@,
    {
        let ghost alg = DigestAlgorithm::Sha256;
        self.hash_algo = HashMode::Hmac(DigestAlgorithm::Sha256);
        self.hash_digest_size = 8;
        self.hmac_key = Ghost(key@);
        load_init(&mut self.hash_ctx, DigestAlgorithm::Sha256);
        self.hash_total_size = 0;

        // Absorb the outer pad and snapshot the resulting context; its 64
        // bytes are accounted to the outer pass at finalization, so the
        // counter is cleared again here.
        let opad = build_key_pad(key, 0x5c);
        self.cc_hash_update(opad.as_slice(), false);
        self.hash_total_size = 0;
        proof {
            lemma_one_block_absorb(alg, init_state(alg), xor_pad_block(key@, 0x5c));
        }
        let o0 = self.hash_ctx[0];
        self.hash_hmac_opad_ctx[0] = o0;
        let o1 = self.hash_ctx[1];
        self.hash_hmac_opad_ctx[1] = o1;
        let o2 = self.hash_ctx[2];
        self.hash_hmac_opad_ctx[2] = o2;
        let o3 = self.hash_ctx[3];
        self.hash_hmac_opad_ctx[3] = o3;
        let o4 = self.hash_ctx[4];
        self.hash_hmac_opad_ctx[4] = o4;
        let o5 = self.hash_ctx[5];
        self.hash_hmac_opad_ctx[5] = o5;
        let o6 = self.hash_ctx[6];
        self.hash_hmac_opad_ctx[6] = o6;
        let o7 = self.hash_ctx[7];
        self.hash_hmac_opad_ctx[7] = o7;
        proof {
            assert(self.hash_hmac_opad_ctx@ =~= hmac_outer_start(alg, key@));
        }

        // Reload the initial values and absorb the inner pad; the engine's
        // counter advances to 64, and stays: the hidden prefix of the
        // inner hash is counted in its declared length.
        let ipad = build_key_pad(key, 0x36);
        load_init(&mut self.hash_ctx, DigestAlgorithm::Sha256);
        self.cc_hash_update(ipad.as_slice(), false);
        self.absorbed = Ghost(Seq::empty());
        proof {
            lemma_one_block_absorb(alg, init_state(alg), xor_pad_block(key@, 0x36));
            assert(self.hash_data_queue@.take(0) =~= Seq::<u8>::empty());
            assert(self.absorbed@.skip(0) =~= Seq::<u8>::empty());
            assert(self.absorbed@.take(0) =~= Seq::<u8>::empty());
        }
        Ok(())
    }

    /// Appends `data` to the running digest. The bytes are merged into the
    /// pending block buffer; when they complete a block, the buffer is
    /// flushed through the engine, every following whole 64-byte chunk of
    /// `data` is flushed directly, and the remaining tail is left in the
    /// buffer. All bytes are always accepted.
    #[verifier::rlimit(100)]
    pub fn add_data(&mut self, data: &[u8]) -> (r: Result<usize, ErrorCode>)
        requires
            old(self).wf(),
            old(self).current_alg() is Some,
            old(self).absorbed@.len() + data@.len() < 0x2000_0000_0000_0000,
            data@.len() <= u32::MAX,
            old(self).usage_count < usize::MAX,
        ensures
            final(self).wf(),
            r == Ok::<usize, ErrorCode>(data@.len() as usize),
            final(self).absorbed@ == old(self).absorbed@ + data@,
            final(self).hash_algo == old(self).hash_algo,
            final(self).hash_total_size == old(self).hash_total_size + data@.len(),
            final(self).hmac_key@ == old(self).hmac_key@,
            final(self).hash_hmac_opad_ctx@ == old(self).hash_hmac_opad_ctx@,
            final(self).usage_count == old(self).usage_count,
            final(self).power == old(self).power,
    {
        let ghost alg = self.current_alg().unwrap();
        let ghost a_old = self.absorbed@;
        let ghost st = self.start_state();
        let ghost len_old = a_old.len() as int;
        let ghost cur_old = len_old % 64;
        let ghost full_old = len_old - cur_old;

        let ghost prefix = old(self).counted_prefix() as int;
        let slice_len = data.len();
        let cursor = (self.hash_total_size % 64) as usize;
        proof {
            lemma_mod64_align(len_old);
            lemma_mod64_drop_prefix(prefix, len_old);
            assert(cursor == cur_old);
        }
        let left = 64 - cursor;
        self.absorbed = Ghost(a_old + data@);
        let ghost a_new = self.absorbed@;

        let mut queue = clone_bytes(&self.hash_data_queue);
        if slice_len < left {
            let mut di: usize = 0;
            while di < slice_len
                invariant
                    di <= slice_len,
                    slice_len <= data@.len(),
                    cursor + slice_len <= 64,
                    queue@.len() == 64,
                    queue@.take(cursor as int) == old(self).hash_data_queue@.take(cursor as int),
                    queue@.skip(cursor + slice_len) == old(self).hash_data_queue@.skip(
                        cursor + slice_len,
                    ),
                    forall|j: int| 0 <= j < di ==> queue@[cursor + j] == data@[j],
                decreases slice_len - di,
            {
                let ghost qpre = queue@;
                queue[cursor + di] = data[di];
                proof {
                    assert(queue@.take(cursor as int) =~= qpre.take(cursor as int));
                    assert(queue@.skip(cursor + slice_len) =~= qpre.skip(cursor + slice_len));
                }
                di = di + 1;
            }
            self.hash_data_queue = queue;
            self.hash_total_size = self.hash_total_size + slice_len as u64;
            proof {
                lemma_mod64_add_aligned(full_old, cur_old + slice_len);
                assert(a_new.len() % 64 == cur_old + slice_len);
                assert(self.hash_data_queue@.take(cur_old + slice_len) =~= a_new.skip(full_old));
                assert(a_new.take(full_old) =~= a_old.take(full_old));
            }
        } else {
            // The buffered bytes return to the engine's own accounting
            // when the completed block is streamed through it.
            self.hash_total_size = self.hash_total_size - cursor as u64;
            // Complete and flush the current block.
            let mut di: usize = 0;
            while di < left
                invariant
                    di <= left,
                    cursor + left == 64,
                    left <= slice_len,
                    slice_len <= data@.len(),
                    queue@.len() == 64,
                    queue@.take(cursor as int) == old(self).hash_data_queue@.take(cursor as int),
                    forall|j: int| 0 <= j < di ==> queue@[cursor + j] == data@[j],
                decreases left - di,
            {
                let ghost qpre = queue@;
                queue[cursor + di] = data[di];
                proof {
                    assert(queue@.take(cursor as int) =~= qpre.take(cursor as int));
                }
                di = di + 1;
            }
            proof {
                assert(queue@ =~= a_old.skip(full_old) + data@.take(left as int));
            }
            self.cc_hash_update(queue.as_slice(), false);
            proof {
                lemma_absorb_append(alg, st, a_old.take(full_old), queue@);
                assert(a_old.take(full_old) + queue@ =~= a_new.take(full_old + 64));
                assert(self.hash_ctx@ == absorb(alg, st, a_new.take(full_old + 64)));
            }

            // Flush every following whole block of the new data directly.
            let rest_len = slice_len - left;
            let tail_len = rest_len % 64;
            let full_len = rest_len - tail_len;
            let ghost flushed = full_old + 64;
            if full_len > 0 {
                let chunk = vstd::slice::slice_subrange(data, left, left + full_len);
                self.cc_hash_update(chunk, false);
                proof {
                    lemma_mod64_align(rest_len as int);
                    lemma_absorb_append(alg, st, a_new.take(flushed), chunk@);
                    assert(a_new.take(flushed) + chunk@ =~= a_new.take(flushed + full_len));
                    assert(self.hash_ctx@ == absorb(alg, st, a_new.take(flushed + full_len)));
                }
            }
            let ghost flushed_all = flushed + full_len;

            // Keep the remaining tail in the pending buffer.
            let mut ti: usize = 0;
            while ti < tail_len
                invariant
                    ti <= tail_len,
                    tail_len < 64,
                    left + full_len + tail_len == slice_len,
                    slice_len <= data@.len(),
                    queue@.len() == 64,
                    forall|j: int| 0 <= j < ti ==> queue@[j] == data@[left + full_len + j],
                decreases tail_len - ti,
            {
                queue[ti] = data[left + full_len + ti];
                ti = ti + 1;
            }
            self.hash_data_queue = queue;
            // The tail stays buffered on the driver side, so the driver
            // accounts for it; everything streamed was counted by the
            // engine's own length registers.
            self.hash_total_size = self.hash_total_size + tail_len as u64;
            proof {
                lemma_mod64_align(rest_len as int);
                lemma_mod64_add_multiple(full_old + 64, full_len as int);
                lemma_mod64_add_aligned(flushed_all, tail_len as int);
                assert(a_new.len() as int == flushed_all + tail_len);
                assert(a_new.len() % 64 == tail_len);
                assert(self.hash_data_queue@.take(tail_len as int) =~= a_new.skip(flushed_all));
            }
        }
        Ok(slice_len)
    }

    /// Finalizes the digest into `digest` (a 32-byte buffer, returned with
    /// the result written to its front): flushes the pending tail with
    /// automatic padding — or triggers the explicit pad when the tail is
    /// empty — and serializes the context words big-endian. For an HMAC
    /// mode, the context is then reloaded from the saved outer-pad
    /// snapshot, the inner digest absorbed and padded as a second pass,
    /// and the buffer overwritten with the outer result. The engine
    /// returns to the unconfigured state: a caller must configure it again
    /// before the next operation.
    #[verifier::rlimit(100)]
    pub fn run(&mut self, digest: Vec<u8>) -> (r: Result<Vec<u8>, ErrorCode>)
        requires
            old(self).wf(),
            old(self).current_alg() is Some,
            digest@.len() == 32,
            old(self).usage_count < usize::MAX,
        ensures
            final(self).wf(),
            r is Ok,
            final(self).hash_algo == HashMode::Invalid,
            final(self).usage_count == old(self).usage_count,
            final(self).power == old(self).power,
            ({
                let out = r.unwrap()@;
                &&& out.len() == 32
                &&& match old(self).hash_algo {
                    HashMode::Digest(alg) => out == spec_hash(alg, old(self).absorbed@)
                        + digest@.skip(alg.digest_len()),
                    HashMode::Hmac(alg) => out == spec_hmac(
                        alg,
                        old(self).hmac_key@,
                        old(self).absorbed@,
                    ) + digest@.skip(alg.digest_len()),
                    HashMode::Invalid => true,
                }
            }),
    {
        let ghost alg = self.current_alg().unwrap();
        let ghost a = self.absorbed@;
        let ghost st = self.start_state();
        let ghost prefix = old(self).counted_prefix() as int;
        let ghost len = a.len() as int;
        let ghost cur = len % 64;
        let ghost full = len - cur;
        let ghost total = self.hash_total_size;
        let mut digest = digest;

        proof {
            lemma_mod64_align(len);
            lemma_mod64_drop_prefix(prefix, len);
        }
        let cursor = (self.hash_total_size % 64) as usize;
        let block = clone_bytes(&self.hash_data_queue);
        let tail = vstd::slice::slice_subrange(block.as_slice(), 0, cursor);
        proof {
            assert(tail@ =~= block@.take(cur));
        }
        self.cc_hash_update(tail, true);
        proof {
            assert(tail@ == a.skip(full));
            if cur == 0 {
                assert(a.skip(full) =~= Seq::<u8>::empty());
                assert(stream_of(alg, tail@, true, total) == crate::algo::padding(alg, 0, total));
                lemma_absorb_append(alg, st, a.take(full), crate::algo::padding(alg, 0, total));
                assert(a.take(full) + crate::algo::padding(alg, 0, total) =~= a
                    + crate::algo::padding(alg, (a.len() % 64) as int, total));
            } else {
                assert(stream_of(alg, tail@, true, total) == tail@ + crate::algo::padding(
                    alg,
                    (tail@.len() % 64) as int,
                    total,
                ));
                lemma_absorb_append(alg, st, a.take(full), stream_of(alg, tail@, true, total));
                assert(a.take(full) + (tail@ + crate::algo::padding(
                    alg,
                    (tail@.len() % 64) as int,
                    total,
                )) =~= a + crate::algo::padding(alg, (a.len() % 64) as int, total));
            }
            assert(self.hash_ctx@ == crate::algo::hash_from(alg, st, a, total));
        }

        let ds = self.hash_digest_size as usize;
        write_digest_words(&mut digest, &self.hash_ctx, ds);
        proof {
            lemma_serialize_be_len(self.hash_ctx@, ds as int);
        }

        let is_hmac = match self.hash_algo {
            HashMode::Hmac(_) => true,
            _ => false,
        };
        if is_hmac {
            // The first pass produced only the inner digest: reload the
            // saved outer-pad context and absorb the inner digest as the
            // message of the second pass.
            let ghost inner = serialize_be(crate::algo::hash_from(alg, st, a, total), ds as int);
            let ghost outer_total = (64 + 4 * ds) as u64;
            let p0 = self.hash_hmac_opad_ctx[0];
            self.hash_ctx[0] = p0;
            let p1 = self.hash_hmac_opad_ctx[1];
            self.hash_ctx[1] = p1;
            let p2 = self.hash_hmac_opad_ctx[2];
            self.hash_ctx[2] = p2;
            let p3 = self.hash_hmac_opad_ctx[3];
            self.hash_ctx[3] = p3;
            let p4 = self.hash_hmac_opad_ctx[4];
            self.hash_ctx[4] = p4;
            let p5 = self.hash_hmac_opad_ctx[5];
            self.hash_ctx[5] = p5;
            let p6 = self.hash_hmac_opad_ctx[6];
            self.hash_ctx[6] = p6;
            let p7 = self.hash_hmac_opad_ctx[7];
            self.hash_ctx[7] = p7;
            proof {
                assert(self.hash_ctx@ =~= hmac_outer_start(alg, self.hmac_key@));
                assert(digest@.take(4 * ds as int) =~= inner);
            }
            // The outer operation's length: its hidden 64-byte pad block
            // plus the inner digest being absorbed.
            self.hash_total_size = 64 + (4 * ds) as u64;
            let inner_bytes = vstd::slice::slice_subrange(digest.as_slice(), 0, 4 * ds);
            self.cc_hash_update(inner_bytes, true);
            proof {
                let ost = hmac_outer_start(alg, self.hmac_key@);
                assert(inner.len() == 4 * ds);
                assert(stream_of(alg, inner, true, outer_total) == inner + crate::algo::padding(
                    alg,
                    (inner.len() % 64) as int,
                    outer_total,
                ));
                assert(self.hash_ctx@ == absorb(alg, ost, inner + crate::algo::padding(
                    alg,
                    (inner.len() % 64) as int,
                    outer_total,
                )));
                assert(self.hash_ctx@ == crate::algo::hash_from(alg, ost, inner, outer_total));
            }
            write_digest_words(&mut digest, &self.hash_ctx, ds);
            proof {
                lemma_serialize_be_len(self.hash_ctx@, ds as int);
            }
        }

        self.hash_algo = HashMode::Invalid;
        Ok(digest)
    }

    /// Scrubs the sensitive accumulation state in place: the pending block
    /// buffer, the digest context, and the saved outer-pad context are
    /// zeroed. The selected algorithm and the byte counter are kept, so
    /// the engine must be configured again before meaningful reuse.
    pub fn clear_data(&mut self)
        requires
            old(self).structural_wf(),
        ensures
            final(self).structural_wf(),
            final(self).hash_ctx@ =~= Seq::new(8, |i: int| 0u32),
            final(self).hash_hmac_opad_ctx@ =~= Seq::new(8, |i: int| 0u32),
            final(self).hash_data_queue@ =~= Seq::new(64, |i: int| 0u8),
            final(self).hash_algo == old(self).hash_algo,
            final(self).hash_total_size == old(self).hash_total_size,
            final(self).hash_digest_size == old(self).hash_digest_size,
            final(self).current_op == old(self).current_op,
            final(self).soft_mismatches == old(self).soft_mismatches,
            final(self).absorbed@ == old(self).absorbed@,
            final(self).hmac_key@ == old(self).hmac_key@,
            final(self).usage_count == old(self).usage_count,
            final(self).power == old(self).power,
            final(self).registers == old(self).registers,
    {
        let mut ctx: Vec<u32> = Vec::new();
        let mut opad: Vec<u32> = Vec::new();
        let mut i: usize = 0;
        while i < 8
            invariant
                i <= 8,
                ctx@ =~= Seq::new(i as nat, |j: int| 0u32),
                opad@ =~= Seq::new(i as nat, |j: int| 0u32),
            decreases 8 - i,
        {
            ctx.push(0);
            opad.push(0);
            i = i + 1;
        }
        let mut queue: Vec<u8> = Vec::new();
        let mut i: usize = 0;
        while i < 64
            invariant
                i <= 64,
                queue@ =~= Seq::new(i as nat, |j: int| 0u8),
            decreases 64 - i,
        {
            queue.push(0);
            i = i + 1;
        }
        self.hash_ctx = ctx;
        self.hash_hmac_opad_ctx = opad;
        self.hash_data_queue = queue;
    }
}

} // verus!
