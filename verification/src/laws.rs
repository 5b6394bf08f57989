//! Engine-level laws: properties that relate several driver operations,
//! stated and proved over the same spec functions the operation contracts
//! use.

use vstd::prelude::*;
use crate::algo::{
    init_state, lemma_absorb_append, lemma_one_block_absorb, padding, spec_hash, spec_hmac,
    xor_pad_block, DigestAlgorithm, HashMode,
};
use crate::CryptoCell310;

verus! {

/// The accumulated engine state is a function of the configured operation
/// and of the message bytes absorbed — not of how they were chunked: two
/// well-formed engines configured alike that have absorbed the same bytes
/// hold the same digest context, the same byte counter, and the same
/// pending tail. Together with the contract of `add_data` (which appends
/// exactly its input to the absorbed message) and of `run` (whose output
/// is a function of the configuration and the absorbed message), any
/// splitting of a message across `add_data` calls yields the same digest.
pub proof fn lemma_state_determined_by_message(a: CryptoCell310, b: CryptoCell310)
    requires
        a.wf(),
        b.wf(),
        a.hash_algo == b.hash_algo,
        a.hash_algo != HashMode::Invalid,
        a.hmac_key@ == b.hmac_key@,
        a.absorbed@ == b.absorbed@,
    ensures
        a.hash_ctx@ == b.hash_ctx@,
        a.hash_total_size == b.hash_total_size,
        a.hash_data_queue@.take(a.absorbed@.len() as int % 64) == b.hash_data_queue@.take(
            b.absorbed@.len() as int % 64,
        ),
{
    match a.hash_algo {
        HashMode::Invalid => {},
        HashMode::Digest(alg) => {
            assert(a.accum_wf(alg));
            assert(b.accum_wf(alg));
        },
        HashMode::Hmac(alg) => {
            assert(a.accum_wf(alg));
            assert(b.accum_wf(alg));
        },
    }
}


/// One whole block in front of a stream does not move its cursor within
/// the block.
proof fn lemma_mod64_block_shift(len: int)
    by (nonlinear_arith)
    requires
        len >= 0,
    ensures
        (64 + len) % 64 == len % 64,
{
}

/// The engine's HMAC is the standard two-pass construction over the plain
/// digest: HMAC(key, msg) equals the hash of the outer-pad block (0x5c
/// exclusive-ORed with the zero-padded key) followed by the hash of the
/// inner-pad block (0x36 mask) followed by the message.
pub proof fn lemma_hmac_is_two_pass(alg: DigestAlgorithm, key: Seq<u8>, msg: Seq<u8>)
    ensures
        spec_hmac(alg, key, msg) == spec_hash(
            alg,
            xor_pad_block(key, 0x5c) + spec_hash(alg, xor_pad_block(key, 0x36) + msg),
        ),
{
    let ipad = xor_pad_block(key, 0x36);
    let opad = xor_pad_block(key, 0x5c);
    let dw = alg.digest_words();

    // Inner pass: hashing (ipad ++ msg) from the initial context equals
    // hashing msg from the inner-pad-primed context with the same declared
    // length and padding cursor.
    let im = ipad + msg;
    lemma_mod64_block_shift(msg.len() as int);
    let itail = msg + padding(alg, (msg.len() % 64) as int, (64 + msg.len()) as u64);
    lemma_one_block_absorb(alg, init_state(alg), ipad);
    lemma_absorb_append(alg, init_state(alg), ipad, itail);
    assert(im.len() == 64 + msg.len());
    assert((im.len() % 64) as int == (msg.len() % 64) as int);
    assert(ipad + itail =~= im + padding(alg, (im.len() % 64) as int, im.len() as u64));
    let inner = spec_hash(alg, im);
    crate::words::lemma_serialize_be_len(
        crate::algo::hash_from(alg, init_state(alg), im, im.len() as u64),
        dw,
    );
    assert(inner.len() == 4 * dw);

    // Outer pass: the same block-prefix argument over the inner digest.
    let om = opad + inner;
    lemma_mod64_block_shift(inner.len() as int);
    let otail = inner + padding(alg, (inner.len() % 64) as int, (64 + inner.len()) as u64);
    lemma_one_block_absorb(alg, init_state(alg), opad);
    lemma_absorb_append(alg, init_state(alg), opad, otail);
    assert(om.len() == 64 + inner.len());
    assert((om.len() % 64) as int == (inner.len() % 64) as int);
    assert(opad + otail =~= om + padding(alg, (om.len() % 64) as int, om.len() as u64));
}

/// One release transition of the usage count: a decrement that never
/// underflows.
pub open spec fn usage_after_release(u: nat) -> nat {
    if u > 0 {
        (u - 1) as nat
    } else {
        0
    }
}

/// The usage count after `n` release transitions.
pub open spec fn usage_after_releases(u: nat, n: nat) -> nat
    decreases n,
{
    if n == 0 {
        u
    } else {
        usage_after_releases(usage_after_release(u), (n - 1) as nat)
    }
}

/// Reference counting balances: `n` nested acquisitions followed by `n`
/// releases restore the usage count exactly — and with it the power state,
/// which is enabled precisely while the count is positive. Each `enable`
/// adds one (so `n` of them add `n`), and each `disable` performs one
/// release transition, as their contracts state.
pub proof fn lemma_refcount_balanced(u: nat, n: nat)
    ensures
        usage_after_releases(u + n, n) == u,
    decreases n,
{
    if n > 0 {
        assert(usage_after_release(u + n) == u + (n - 1));
        lemma_refcount_balanced(u, (n - 1) as nat);
    }
}

/// Releasing an engine nobody holds changes nothing, however often it is
/// done: the count never underflows, so one release too many cannot
/// double-disable the power domain.
pub proof fn lemma_release_never_underflows(n: nat)
    ensures
        usage_after_releases(0, n) == 0,
    decreases n,
{
    if n > 0 {
        lemma_release_never_underflows((n - 1) as nat);
    }
}

} // verus!
