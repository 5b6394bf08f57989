//! Driver logic for the CryptoCell 310 cryptographic accelerator.
//!
//! The crate models the accelerator's register file in software and verifies
//! the driver's sequencing contracts on top of it: reference-counted power
//! gating, the incremental hash/HMAC accumulation state machine, the shared
//! interrupt demultiplexer, and the AES capability facade.

pub mod aes;
pub mod algo;
pub mod error;
pub mod hash;
pub mod laws;
pub mod md5;
pub mod registers;
pub mod sha1;
pub mod sha256;
pub mod trng;
pub mod words;

use vstd::prelude::*;
use crate::algo::{
    absorb, hmac_inner_start, hmac_outer_start, init_state, stream_of, DigestAlgorithm, HashMode,
};
use crate::registers::{
    CryptoCellRegisters, PowerTask, CC310_SIGNATURE, CRYPTO_MODE_HASH, IRQ_MEM_TO_DIN, IRQ_RNG,
};

verus! {

/// Which sub-engine the next shared interrupt is attributed to. Set when an
/// operation is kicked off, reset to idle when it completes.
#[derive(Clone, Copy, PartialEq, Eq, Structural, Debug)]
pub enum OperationMode {
    Idle,
    Hash,
}

/// The interrupt-mask value installed on power-up: only the error, the
/// asymmetric-engine, and the random-number sources are delivered; the
/// DMA-completion sources stay masked because completions are observed by
/// polling.
pub const IRQ_UNMASKED_ON_ENABLE: u32 = 0x700;

/// The driver state for one CryptoCell 310 instance, together with the
/// modeled register file it operates on.
pub struct CryptoCell310 {
    /// The engine register window.
    pub registers: CryptoCellRegisters,
    /// The host-side power/clock task register.
    pub power: PowerTask,
    /// Reference count of active users; the power domain is enabled exactly
    /// while it is positive.
    pub usage_count: usize,
    /// Which sub-engine an incoming shared interrupt belongs to.
    pub current_op: OperationMode,
    /// How many soft hardware-identity mismatches were observed on power-up
    /// (diagnostic only; never fatal).
    pub soft_mismatches: u64,
    /// Digest size of the configured algorithm, in 32-bit words.
    pub hash_digest_size: u32,
    /// The configured hash operation.
    pub hash_algo: HashMode,
    /// The running digest context (eight 32-bit words).
    pub hash_ctx: Vec<u32>,
    /// The digest context saved after absorbing the HMAC outer-pad block;
    /// used only during HMAC finalization.
    pub hash_hmac_opad_ctx: Vec<u32>,
    /// The operation's accumulated length in bytes: the message bytes
    /// appended so far, plus the inner-pad block for an HMAC operation.
    /// The engine's own length registers keep this count for every byte
    /// streamed through the hash data path.
    pub hash_total_size: u64,
    /// The unprocessed tail of the message (cursor is `hash_total_size`
    /// modulo 64).
    pub hash_data_queue: Vec<u8>,
    /// The message bytes absorbed since configuration; the HMAC pad blocks
    /// are hidden prefix state, not message bytes, though the inner one is
    /// carried in the byte counter.
    pub absorbed: Ghost<Seq<u8>>,
    /// The key of the configured HMAC operation.
    pub hmac_key: Ghost<Seq<u8>>,
}

impl CryptoCell310 {
    /// The structural well-formedness of the driver state: architected
    /// register and buffer sizes, idle data paths, disarmed padding
    /// triggers, and the power invariant — the domain is enabled exactly
    /// while users hold it.
    pub open spec fn structural_wf(self) -> bool {
        &&& self.registers.wf()
        &&& self.registers.hw_idle()
        &&& !self.registers.auto_hw_padding
        &&& !self.registers.pad_config_do_pad
        &&& self.hash_ctx@.len() == 8
        &&& self.hash_hmac_opad_ctx@.len() == 8
        &&& self.hash_data_queue@.len() == 64
        &&& (self.power.enable <==> self.usage_count > 0)
    }

    /// The algorithm underlying the configured mode, if any.
    pub open spec fn current_alg(self) -> Option<DigestAlgorithm> {
        match self.hash_algo {
            HashMode::Invalid => None,
            HashMode::Digest(alg) => Some(alg),
            HashMode::Hmac(alg) => Some(alg),
        }
    }

    /// The digest context from which accumulation starts: the algorithm's
    /// initial context, or the inner-pad-primed context for HMAC.
    pub open spec fn start_state(self) -> Seq<u32> {
        match self.hash_algo {
            HashMode::Hmac(alg) => hmac_inner_start(alg, self.hmac_key@),
            HashMode::Digest(alg) => init_state(alg),
            HashMode::Invalid => Seq::empty(),
        }
    }

    /// How many hidden prefix bytes the byte counter carries beyond the
    /// message: an HMAC operation's inner-pad block stays counted, so that
    /// finalization declares the standard length of the inner hash.
    pub open spec fn counted_prefix(self) -> nat {
        match self.hash_algo {
            HashMode::Hmac(_) => 64,
            _ => 0,
        }
    }

    /// The accumulation invariant for a configured algorithm: the byte
    /// counter, the pending tail, and the digest context all agree with the
    /// absorbed message.
    pub open spec fn accum_wf(self, alg: DigestAlgorithm) -> bool {
        let len = self.absorbed@.len() as int;
        let cur = len % 64;
        &&& self.hash_total_size == self.counted_prefix() + self.absorbed@.len()
        &&& len < 0x2000_0000_0000_0000
        &&& self.hash_digest_size == alg.digest_words()
        &&& self.hash_data_queue@.take(cur) == self.absorbed@.skip(len - cur)
        &&& self.hash_ctx@ == absorb(alg, self.start_state(), self.absorbed@.take(len - cur))
    }

    /// The hash-engine invariant over the configured mode.
    pub open spec fn hash_wf(self) -> bool {
        match self.hash_algo {
            HashMode::Invalid => true,
            HashMode::Digest(alg) => self.accum_wf(alg),
            HashMode::Hmac(alg) => {
                &&& self.accum_wf(alg)
                &&& self.hash_hmac_opad_ctx@ == hmac_outer_start(alg, self.hmac_key@)
            },
        }
    }

    /// The full driver invariant.
    pub open spec fn wf(self) -> bool {
        self.structural_wf() && self.hash_wf()
    }

    /// Whether `a` and `b` agree on every hash-engine field (used to state
    /// that an operation leaves the accumulation state alone).
    pub open spec fn same_hash_state(a: CryptoCell310, b: CryptoCell310) -> bool {
        &&& a.hash_digest_size == b.hash_digest_size
        &&& a.hash_algo == b.hash_algo
        &&& a.hash_ctx@ == b.hash_ctx@
        &&& a.hash_hmac_opad_ctx@ == b.hash_hmac_opad_ctx@
        &&& a.hash_total_size == b.hash_total_size
        &&& a.hash_data_queue@ == b.hash_data_queue@
        &&& a.absorbed@ == b.absorbed@
        &&& a.hmac_key@ == b.hmac_key@
    }

    /// A fresh, unconfigured driver over a register file in its reset state.
    pub fn new() -> (r: CryptoCell310)
        ensures
            r.wf(),
            r.usage_count == 0,
            !r.power.enable,
            r.current_op == OperationMode::Idle,
            r.hash_algo == HashMode::Invalid,
            r.soft_mismatches == 0,
            r.registers.writes == 0,
            !r.registers.aes_busy,
            r.registers.aes_key0@ =~= Seq::new(8, |i: int| 0u32),
            r.registers.aes_iv0@ =~= Seq::new(4, |i: int| 0u32),
            r.registers.aes_ctr0@ =~= Seq::new(4, |i: int| 0u32),
            r.registers.interrupts == 0,
            r.registers.interrupt_mask == 0,
            r.registers.aes_cmac_init_kicks == 0,
            r.registers.aes_control == 0,
            r.hash_ctx@ =~= Seq::new(8, |i: int| 0u32),
            r.hash_hmac_opad_ctx@ =~= Seq::new(8, |i: int| 0u32),
            r.hash_data_queue@ =~= Seq::new(64, |i: int| 0u8),
            r.hash_total_size == 0,
            r.hash_digest_size == 0,
    {
        let registers = CryptoCellRegisters::new();
        let mut ctx: Vec<u32> = Vec::new();
        let mut opad: Vec<u32> = Vec::new();
        let mut i: usize = 0;
        while i < 8
            invariant
                i <= 8,
                ctx@ =~= Seq::new(i as nat, |j: int| 0u32),
                opad@ =~= Seq::new(i as nat, |j: int| 0u32),
            decreases 8 - i,
        {
            ctx.push(0);
            opad.push(0);
            i = i + 1;
        }
        let mut queue: Vec<u8> = Vec::new();
        let mut i: usize = 0;
        while i < 64
            invariant
                i <= 64,
                queue@ =~= Seq::new(i as nat, |j: int| 0u8),
            decreases 64 - i,
        {
            queue.push(0);
            i = i + 1;
        }
        CryptoCell310 {
            registers,
            power: PowerTask { enable: false },
            usage_count: 0,
            current_op: OperationMode::Idle,
            soft_mismatches: 0,
            hash_digest_size: 0,
            hash_algo: HashMode::Invalid,
            hash_ctx: ctx,
            hash_hmac_opad_ctx: opad,
            hash_total_size: 0,
            hash_data_queue: queue,
            absorbed: Ghost(Seq::empty()),
            hmac_key: Ghost(Seq::empty()),
        }
    }

    /// The diagnostics counter after one more recorded mismatch.
    pub open spec fn bump_diag(m: u64) -> u64 {
        if m < u64::MAX {
            (m + 1) as u64
        } else {
            m
        }
    }

    /// The diagnostics counter after the power-up identity checks against
    /// the register file `r`: one recorded mismatch for a wrong magic
    /// value, one for a wrong signature.
    pub open spec fn diag_after_checks(r: CryptoCellRegisters, m: u64) -> u64 {
        let after_magic = if r.undocumented >> 24u32 != 0xf0 {
            Self::bump_diag(m)
        } else {
            m
        };
        if r.signature != CC310_SIGNATURE {
            Self::bump_diag(after_magic)
        } else {
            after_magic
        }
    }

    /// Acquires the engine: increments the usage count, and on the 0-to-1
    /// transition powers the domain up, validates the hardware identity
    /// values (a mismatch is recorded as a soft diagnostic, never an
    /// error), forces the data paths little-endian, and unmasks only the
    /// error, asymmetric-engine, and random-number interrupt sources.
    pub fn enable(&mut self)
        requires
            old(self).structural_wf(),
            old(self).usage_count < usize::MAX,
        ensures
            final(self).structural_wf(),
            Self::same_hash_state(*old(self), *final(self)),
            final(self).usage_count == old(self).usage_count + 1,
            final(self).power.enable,
            final(self).current_op == old(self).current_op,
            old(self).usage_count > 0 ==> final(self).registers == old(self).registers
                && final(self).power == old(self).power && final(self).soft_mismatches == old(self).soft_mismatches,
            old(self).usage_count == 0 ==> final(self).soft_mismatches == Self::diag_after_checks(
                old(self).registers,
                old(self).soft_mismatches,
            ) && final(self).registers.interrupt_mask == IRQ_UNMASKED_ON_ENABLE && final(self).registers.dma_clk_enable && final(self).registers == (CryptoCellRegisters {
                endianness: 0,
                dma_clk_enable: true,
                interrupt_mask: IRQ_UNMASKED_ON_ENABLE,
                writes: final(self).registers.writes,
                ..old(self).registers
            }),
    {
        if self.usage_count == 0 {
            self.power.enable = true;
            if (self.registers.undocumented >> 24u32) != 0xf0 {
                if self.soft_mismatches < u64::MAX {
                    self.soft_mismatches = self.soft_mismatches + 1;
                }
            }
            if self.registers.signature != CC310_SIGNATURE {
                if self.soft_mismatches < u64::MAX {
                    self.soft_mismatches = self.soft_mismatches + 1;
                }
            }
            // All four DMA endianness controls read little-endian as zero.
            self.registers.write_endianness(0);
            // The DMA engine clock stays on while the domain is powered.
            self.registers.write_dma_clk(true);
            self.registers.write_interrupt_mask(IRQ_UNMASKED_ON_ENABLE);
        }
        self.usage_count = self.usage_count + 1;
    }

    /// Releases the engine: decrements the usage count; on reaching zero,
    /// masks all interrupt sources and gates the power and DMA clocks.
    /// Releasing an engine nobody holds is a no-op — the count never
    /// underflows.
    pub fn disable(&mut self)
        requires
            old(self).structural_wf(),
        ensures
            final(self).structural_wf(),
            Self::same_hash_state(*old(self), *final(self)),
            final(self).usage_count == if old(self).usage_count > 0 {
                (old(self).usage_count - 1) as usize
            } else {
                0usize
            },
            final(self).current_op == old(self).current_op,
            final(self).soft_mismatches == old(self).soft_mismatches,
            (final(self).power.enable <==> final(self).usage_count > 0),
            old(self).usage_count != 1 ==> final(self).registers == old(self).registers
                && final(self).power == old(self).power,
            old(self).usage_count == 1 ==> final(self).registers.interrupt_mask == 0 && !final(self).registers.dma_clk_enable && !final(self).power.enable && final(self).registers
                == (CryptoCellRegisters {
                interrupt_mask: 0,
                dma_clk_enable: false,
                writes: final(self).registers.writes,
                ..old(self).registers
            }),
    {
        if self.usage_count == 0 {
            return ;
        }
        self.usage_count = self.usage_count - 1;
        if self.usage_count == 0 {
            self.registers.write_interrupt_mask(0);
            self.power.enable = false;
            self.registers.write_dma_clk(false);
        }
    }

    /// The shared interrupt entry point: reads the aggregate status once,
    /// clears every pending cause among the eight it demultiplexes, and for
    /// a random-number cause additionally re-masks that source until a
    /// future operation re-arms it.
    #[verifier::rlimit(100)]
    pub fn handle_interrupt(&mut self)
        requires
            old(self).structural_wf(),
        ensures
            final(self).structural_wf(),
            Self::same_hash_state(*old(self), *final(self)),
            final(self).registers.interrupts == old(self).registers.interrupts & !0xff0u32,
            final(self).registers.interrupt_mask == if old(self).registers.interrupts & IRQ_RNG
                != 0 {
                old(self).registers.interrupt_mask & !IRQ_RNG
            } else {
                old(self).registers.interrupt_mask
            },
            final(self).registers == (CryptoCellRegisters {
                interrupts: final(self).registers.interrupts,
                interrupt_mask: final(self).registers.interrupt_mask,
                writes: final(self).registers.writes,
                ..old(self).registers
            }),
            final(self).usage_count == old(self).usage_count,
            final(self).power == old(self).power,
            final(self).current_op == old(self).current_op,
            final(self).soft_mismatches == old(self).soft_mismatches,
    {
        let intrs = self.registers.interrupts;
        self.registers.demux_dispatch(intrs);
    }

    /// The block-processing primitive: feeds one chunk (whole blocks, a
    /// final partial tail, or nothing) through the hash engine and updates
    /// the digest context. It acquires the power domain, waits for the data
    /// paths, selects the hash engine and algorithm, declares the
    /// accumulated length, loads the context in reverse index order
    /// (writing index zero starts the computation), submits the data — with
    /// automatic padding armed for a final chunk, or the explicit pad
    /// trigger for an empty one — reads the context back, refreshes the
    /// byte counter from the engine's own running length registers (which
    /// advance by the bytes streamed, so the counter grows by exactly the
    /// chunk's length), disarms the padding controls, gates the hash
    /// sub-clock, and releases the power domain.
    pub(crate) fn cc_hash_update(&mut self, data: &[u8], is_last_block: bool)
        requires
            old(self).structural_wf(),
            old(self).current_alg() is Some,
            old(self).usage_count < usize::MAX,
            data@.len() <= u32::MAX,
            old(self).hash_total_size + data@.len() <= u64::MAX,
            !is_last_block ==> data@.len() % 64 == 0,
        ensures
            final(self).structural_wf(),
            final(self).hash_ctx@ == absorb(
                old(self).current_alg().unwrap(),
                old(self).hash_ctx@,
                stream_of(
                    old(self).current_alg().unwrap(),
                    data@,
                    is_last_block,
                    old(self).hash_total_size,
                ),
            ),
            final(self).hash_algo == old(self).hash_algo,
            final(self).hash_digest_size == old(self).hash_digest_size,
            final(self).hash_total_size == old(self).hash_total_size + data@.len(),
            final(self).hash_data_queue@ == old(self).hash_data_queue@,
            final(self).hash_hmac_opad_ctx@ == old(self).hash_hmac_opad_ctx@,
            final(self).absorbed@ == old(self).absorbed@,
            final(self).hmac_key@ == old(self).hmac_key@,
            final(self).usage_count == old(self).usage_count,
            final(self).power == old(self).power,
            final(self).current_op == OperationMode::Idle,
            !final(self).registers.hash_clk_enable,
            final(self).registers.aes_key0@ == old(self).registers.aes_key0@,
            final(self).registers.aes_iv0@ == old(self).registers.aes_iv0@,
            final(self).registers.aes_ctr0@ == old(self).registers.aes_ctr0@,
            final(self).registers.aes_busy == old(self).registers.aes_busy,
    {
        let ghost alg = self.current_alg().unwrap();
        self.enable();
        self.registers.poll_hash_idle();
        self.registers.poll_crypto_idle();
        self.registers.poll_din_mem_idle();

        self.current_op = OperationMode::Hash;
        self.registers.write_hash_clk(true);
        self.registers.write_crypto_ctl(CRYPTO_MODE_HASH);
        self.registers.write_hash_padding(true);
        let size = self.hash_total_size;
        let lsb: u32 = #[verifier::truncate] (size as u32);
        let msb: u32 = #[verifier::truncate] ((size >> 32u64) as u32);
        self.registers.write_hash_len_lsb(lsb);
        self.registers.write_hash_len_msb(msb);
        proof {
            assert(((size >> 32u64) as u32) * 0x1_0000_0000 + (size as u32) == size)
                by (bit_vector);
        }
        let code: u32 = match self.hash_algo {
            HashMode::Digest(a) => control_code_at(a),
            HashMode::Hmac(a) => control_code_at(a),
            HashMode::Invalid => 2,
        };
        self.registers.write_hash_control(code);

        // The context must be loaded backwards: writing index 0 starts the
        // computation.
        let c7 = self.hash_ctx[7];
        self.registers.write_hash_word(7, c7);
        let c6 = self.hash_ctx[6];
        self.registers.write_hash_word(6, c6);
        let c5 = self.hash_ctx[5];
        self.registers.write_hash_word(5, c5);
        let c4 = self.hash_ctx[4];
        self.registers.write_hash_word(4, c4);
        let c3 = self.hash_ctx[3];
        self.registers.write_hash_word(3, c3);
        let c2 = self.hash_ctx[2];
        self.registers.write_hash_word(2, c2);
        let c1 = self.hash_ctx[1];
        self.registers.write_hash_word(1, c1);
        let c0 = self.hash_ctx[0];
        self.registers.write_hash_word(0, c0);
        proof {
            assert(self.registers.hash@ =~= self.hash_ctx@);
        }
        self.registers.poll_hash_idle();

        if data.len() > 0 {
            if is_last_block {
                self.registers.write_auto_hw_padding(true);
            }
            let ghost pre_irr = self.registers.interrupts;
            self.registers.hash_dma_submit(data);
            proof {
                lemma_mem_to_din_raised(pre_irr);
            }
            self.registers.poll_mem_to_din();
            self.registers.write_interrupt_clear(IRQ_MEM_TO_DIN);
        } else {
            // An empty chunk cannot go through the DMA path: trigger the
            // explicit pad of the running operation instead.
            self.registers.hash_do_pad();
        }
        self.registers.poll_crypto_idle();
        self.registers.poll_din_mem_idle();

        // Read the context back, again in reverse index order, and let the
        // engine's own length registers refresh the byte counter.
        let r7 = self.registers.read_hash_word(7);
        self.hash_ctx[7] = r7;
        let r6 = self.registers.read_hash_word(6);
        self.hash_ctx[6] = r6;
        let r5 = self.registers.read_hash_word(5);
        self.hash_ctx[5] = r5;
        let r4 = self.registers.read_hash_word(4);
        self.hash_ctx[4] = r4;
        let r3 = self.registers.read_hash_word(3);
        self.hash_ctx[3] = r3;
        let r2 = self.registers.read_hash_word(2);
        self.hash_ctx[2] = r2;
        let r1 = self.registers.read_hash_word(1);
        self.hash_ctx[1] = r1;
        let r0 = self.registers.read_hash_word(0);
        self.hash_ctx[0] = r0;
        proof {
            assert(self.hash_ctx@ =~= self.registers.hash@);
        }
        let new_size = self.registers.read_declared_len();
        self.hash_total_size = new_size;

        self.registers.write_hash_padding(true);
        self.registers.write_auto_hw_padding(false);
        self.registers.write_pad_config_clear();
        self.registers.poll_crypto_idle();
        self.registers.write_hash_clk(false);
        self.current_op = OperationMode::Idle;

        self.disable();
    }
}

/// A DMA completion always leaves its cause bit observable until cleared.
proof fn lemma_mem_to_din_raised(y: u32)
    by (bit_vector)
    ensures
        (y | 0x40u32) & 0x40u32 != 0,
{
}

/// Reads the algorithm-select code for the hash control register.
pub fn control_code_at(alg: DigestAlgorithm) -> (r: u32)
    ensures
        r == alg.control_code(),
{
    match alg {
        DigestAlgorithm::Md5 => 0u32,
        DigestAlgorithm::Sha1 => 1u32,
        DigestAlgorithm::Sha224 => 10u32,
        DigestAlgorithm::Sha256 => 2u32,
    }
}

} // verus!
