//! A software model of the CryptoCell 310 register file.
//!
//! The driver core is written against this model exactly as it would be
//! written against the memory-mapped hardware: every register write goes
//! through a setter that also counts the write, so a test harness can
//! observe that a rejected request performed no register mutation. The hash
//! engine's data path is modeled by [`CryptoCellRegisters::hash_dma_submit`]
//! and [`CryptoCellRegisters::hash_do_pad`], which absorb the submitted
//! bytes into the hash state registers according to the configured
//! algorithm, the armed padding mode, and the declared operation length —
//! the work the silicon performs when a DMA descriptor or a pad trigger is
//! written.

use vstd::prelude::*;
use crate::algo::{absorb, absorb_stream, alg_of_control, padding, DigestAlgorithm};

verus! {

/// Interrupt cause bit: data delivered to DIN from SRAM.
pub const IRQ_SRAM_TO_DIN: u32 = 0x10;

/// Interrupt cause bit: data delivered to SRAM from DOUT.
pub const IRQ_DOUT_TO_SRAM: u32 = 0x20;

/// Interrupt cause bit: data delivered to DIN from memory.
pub const IRQ_MEM_TO_DIN: u32 = 0x40;

/// Interrupt cause bit: data delivered to memory from DOUT.
pub const IRQ_DOUT_TO_MEM: u32 = 0x80;

/// Interrupt cause bit: AXI bus error.
pub const IRQ_AXI_ERROR: u32 = 0x100;

/// Interrupt cause bit: asymmetric-engine operation done.
pub const IRQ_PKA_EXP: u32 = 0x200;

/// Interrupt cause bit: random-number-generator event.
pub const IRQ_RNG: u32 = 0x400;

/// Interrupt cause bit: symmetric DMA completed.
pub const IRQ_SYM_DMA_COMPLETED: u32 = 0x800;

/// The fixed identification signature the host reads to verify the engine's
/// presence.
pub const CC310_SIGNATURE: u32 = 0x20E00000;

/// Crypto control register code selecting the AES engine.
pub const CRYPTO_MODE_AES: u32 = 1;

/// Crypto control register code selecting the hash engine.
pub const CRYPTO_MODE_HASH: u32 = 7;

/// The engine power/clock task register (a separate peripheral register on
/// the host side of the accelerator).
pub struct PowerTask {
    /// Whether the power/clock domain is enabled.
    pub enable: bool,
}

/// The modeled register file. Fields are the registers the driver reads or
/// writes; `writes` counts every register write performed through the
/// setters below.
pub struct CryptoCellRegisters {
    /// Number of register writes performed (saturating).
    pub writes: u64,
    /// Host identification signature (read-only on hardware).
    pub signature: u32,
    /// Undocumented control-block identity word; its top byte reads 0xf0.
    pub undocumented: u32,
    /// Endianness configuration of the DMA data paths.
    pub endianness: u32,
    /// Mask of interrupt sources delivered to the host.
    pub interrupt_mask: u32,
    /// Pending interrupt cause bits.
    pub interrupts: u32,
    /// Clock gate for the shared DMA engine.
    pub dma_clk_enable: bool,
    /// Clock gate for the hash engine.
    pub hash_clk_enable: bool,
    /// Selects the active cryptographic engine.
    pub crypto_ctl: u32,
    /// Hash engine busy flag.
    pub hash_busy: bool,
    /// Aggregate crypto busy flag.
    pub crypto_busy: bool,
    /// DIN memory-DMA busy flag.
    pub din_mem_dma_busy: bool,
    /// DOUT memory-DMA busy flag.
    pub dout_mem_dma_busy: bool,
    /// DIN SRAM-DMA busy flag.
    pub din_sram_dma_busy: bool,
    /// DOUT SRAM-DMA busy flag.
    pub dout_sram_dma_busy: bool,
    /// AES key registers (eight words; a 128-bit key fills the first four).
    pub aes_key0: Vec<u32>,
    /// AES initial-value registers.
    pub aes_iv0: Vec<u32>,
    /// AES counter registers.
    pub aes_ctr0: Vec<u32>,
    /// AES engine busy flag.
    pub aes_busy: bool,
    /// AES engine configuration.
    pub aes_control: u32,
    /// Remaining-bytes countdown used by the AES engine.
    pub aes_remaining_bytes: u32,
    /// How many times the CMAC-initialization task was kicked.
    pub aes_cmac_init_kicks: u64,
    /// Hash state registers (the eight-word digest context).
    pub hash: Vec<u32>,
    /// Low word of the declared hash operation length in bytes.
    pub hash_len_lsb: u32,
    /// High word of the declared hash operation length in bytes.
    pub hash_len_msb: u32,
    /// Hash algorithm select code.
    pub hash_control: u32,
    /// Hash padding enable task.
    pub hash_padding: bool,
    /// Automatic hardware padding, armed for a final data submission.
    pub auto_hw_padding: bool,
    /// Explicit pad-now trigger for an empty final chunk.
    pub pad_config_do_pad: bool,
}

impl CryptoCellRegisters {
    /// The register arrays have their architected sizes.
    pub open spec fn wf(self) -> bool {
        self.aes_key0@.len() == 8 && self.aes_iv0@.len() == 4 && self.aes_ctr0@.len() == 4
            && self.hash@.len() == 8
    }

    /// In this model every operation completes before the driver observes
    /// the engine, so the engine-side busy flags always read clear.
    pub open spec fn hw_idle(self) -> bool {
        !self.hash_busy && !self.crypto_busy && !self.din_mem_dma_busy && !self.dout_mem_dma_busy
            && !self.din_sram_dma_busy && !self.dout_sram_dma_busy
    }

    /// The declared operation length in bytes, as held by the two length
    /// registers.
    pub open spec fn declared_len(self) -> u64 {
        (self.hash_len_msb * 0x1_0000_0000 + self.hash_len_lsb) as u64
    }

    /// The write counter after one more write.
    pub open spec fn bumped(self) -> u64 {
        if self.writes < u64::MAX {
            (self.writes + 1) as u64
        } else {
            self.writes
        }
    }

    /// A fresh register file in its reset state.
    pub fn new() -> (r: CryptoCellRegisters)
        ensures
            r.wf(),
            r.hw_idle(),
            !r.aes_busy,
            r.writes == 0,
            r.interrupts == 0,
            r.interrupt_mask == 0,
            r.signature == CC310_SIGNATURE,
            r.undocumented >> 24u32 == 0xf0,
            r.aes_key0@ =~= Seq::new(8, |i: int| 0u32),
            r.aes_iv0@ =~= Seq::new(4, |i: int| 0u32),
            r.aes_ctr0@ =~= Seq::new(4, |i: int| 0u32),
            r.aes_remaining_bytes == 0,
            r.aes_cmac_init_kicks == 0,
            r.aes_control == 0,
            r.hash@ =~= Seq::new(8, |i: int| 0u32),
            !r.auto_hw_padding,
            !r.pad_config_do_pad,
            !r.hash_padding,
            !r.dma_clk_enable,
            !r.hash_clk_enable,
            r.crypto_ctl == 0,
            r.endianness == 0,
            r.hash_len_lsb == 0,
            r.hash_len_msb == 0,
            r.hash_control == 0,
    {
        proof {
            Self::lemma_reset_magic();
        }
        let mut key0: Vec<u32> = Vec::new();
        let mut iv0: Vec<u32> = Vec::new();
        let mut ctr0: Vec<u32> = Vec::new();
        let mut hash: Vec<u32> = Vec::new();
        let mut i: usize = 0;
        while i < 8
            invariant
                i <= 8,
                key0@ =~= Seq::new(i as nat, |j: int| 0u32),
                hash@ =~= Seq::new(i as nat, |j: int| 0u32),
            decreases 8 - i,
        {
            key0.push(0);
            hash.push(0);
            i = i + 1;
        }
        let mut i: usize = 0;
        while i < 4
            invariant
                i <= 4,
                iv0@ =~= Seq::new(i as nat, |j: int| 0u32),
                ctr0@ =~= Seq::new(i as nat, |j: int| 0u32),
            decreases 4 - i,
        {
            iv0.push(0);
            ctr0.push(0);
            i = i + 1;
        }
        CryptoCellRegisters {
            writes: 0,
            signature: CC310_SIGNATURE,
            undocumented: 0xf0000000,
            endianness: 0,
            interrupt_mask: 0,
            interrupts: 0,
            dma_clk_enable: false,
            hash_clk_enable: false,
            crypto_ctl: 0,
            hash_busy: false,
            crypto_busy: false,
            din_mem_dma_busy: false,
            dout_mem_dma_busy: false,
            din_sram_dma_busy: false,
            dout_sram_dma_busy: false,
            aes_key0: key0,
            aes_iv0: iv0,
            aes_ctr0: ctr0,
            aes_busy: false,
            aes_control: 0,
            aes_remaining_bytes: 0,
            aes_cmac_init_kicks: 0,
            hash,
            hash_len_lsb: 0,
            hash_len_msb: 0,
            hash_control: 0,
            hash_padding: false,
            auto_hw_padding: false,
            pad_config_do_pad: false,
        }
    }

    proof fn lemma_reset_magic()
        ensures
            0xf0000000u32 >> 24u32 == 0xf0,
    {
        assert(0xf0000000u32 >> 24u32 == 0xf0) by (bit_vector);
    }

    fn count_write(&mut self)
        ensures
            *final(self) == (CryptoCellRegisters { writes: old(self).bumped(), ..*old(self) }),
    {
        if self.writes < u64::MAX {
            self.writes = self.writes + 1;
        }
    }

    /// Writes the endianness configuration register.
    pub fn write_endianness(&mut self, v: u32)
        ensures
            *final(self) == (CryptoCellRegisters {
                endianness: v,
                writes: old(self).bumped(),
                ..*old(self)
            }),
    {
        self.endianness = v;
        self.count_write();
    }

    /// Writes the interrupt mask register.
    pub fn write_interrupt_mask(&mut self, v: u32)
        ensures
            *final(self) == (CryptoCellRegisters {
                interrupt_mask: v,
                writes: old(self).bumped(),
                ..*old(self)
            }),
    {
        self.interrupt_mask = v;
        self.count_write();
    }

    /// Writes the interrupt clear register: every cause bit written is
    /// cleared from the pending causes.
    pub fn write_interrupt_clear(&mut self, bits: u32)
        ensures
            *final(self) == (CryptoCellRegisters {
                interrupts: old(self).interrupts & !bits,
                writes: old(self).bumped(),
                ..*old(self)
            }),
    {
        self.interrupts = self.interrupts & !bits;
        self.count_write();
    }

    /// Writes the DMA clock gate.
    pub fn write_dma_clk(&mut self, on: bool)
        ensures
            *final(self) == (CryptoCellRegisters {
                dma_clk_enable: on,
                writes: old(self).bumped(),
                ..*old(self)
            }),
    {
        self.dma_clk_enable = on;
        self.count_write();
    }

    /// Writes the hash clock gate.
    pub fn write_hash_clk(&mut self, on: bool)
        ensures
            *final(self) == (CryptoCellRegisters {
                hash_clk_enable: on,
                writes: old(self).bumped(),
                ..*old(self)
            }),
    {
        self.hash_clk_enable = on;
        self.count_write();
    }

    /// Writes the crypto control (engine select) register.
    pub fn write_crypto_ctl(&mut self, v: u32)
        ensures
            *final(self) == (CryptoCellRegisters {
                crypto_ctl: v,
                writes: old(self).bumped(),
                ..*old(self)
            }),
    {
        self.crypto_ctl = v;
        self.count_write();
    }

    /// Writes the hash padding enable task register.
    pub fn write_hash_padding(&mut self, on: bool)
        ensures
            *final(self) == (CryptoCellRegisters {
                hash_padding: on,
                writes: old(self).bumped(),
                ..*old(self)
            }),
    {
        self.hash_padding = on;
        self.count_write();
    }

    /// Writes the low word of the operation length.
    pub fn write_hash_len_lsb(&mut self, v: u32)
        ensures
            *final(self) == (CryptoCellRegisters {
                hash_len_lsb: v,
                writes: old(self).bumped(),
                ..*old(self)
            }),
    {
        self.hash_len_lsb = v;
        self.count_write();
    }

    /// Writes the high word of the operation length.
    pub fn write_hash_len_msb(&mut self, v: u32)
        ensures
            *final(self) == (CryptoCellRegisters {
                hash_len_msb: v,
                writes: old(self).bumped(),
                ..*old(self)
            }),
    {
        self.hash_len_msb = v;
        self.count_write();
    }

    /// Writes the hash algorithm select register.
    pub fn write_hash_control(&mut self, v: u32)
        ensures
            *final(self) == (CryptoCellRegisters {
                hash_control: v,
                writes: old(self).bumped(),
                ..*old(self)
            }),
    {
        self.hash_control = v;
        self.count_write();
    }

    /// Writes hash state register `i`.
    pub fn write_hash_word(&mut self, i: usize, v: u32)
        requires
            old(self).wf(),
            i < 8,
        ensures
            final(self).hash@ == old(self).hash@.update(i as int, v),
            *final(self) == (CryptoCellRegisters {
                hash: final(self).hash,
                writes: old(self).bumped(),
                ..*old(self)
            }),
            final(self).wf(),
    {
        self.hash[i] = v;
        self.count_write();
    }

    /// Reads hash state register `i`.
    pub fn read_hash_word(&self, i: usize) -> (v: u32)
        requires
            self.wf(),
            i < 8,
        ensures
            v == self.hash@[i as int],
    {
        self.hash[i]
    }

    /// Arms or disarms automatic hardware padding.
    pub fn write_auto_hw_padding(&mut self, on: bool)
        ensures
            *final(self) == (CryptoCellRegisters {
                auto_hw_padding: on,
                writes: old(self).bumped(),
                ..*old(self)
            }),
    {
        self.auto_hw_padding = on;
        self.count_write();
    }

    /// Clears the pad-config register.
    pub fn write_pad_config_clear(&mut self)
        ensures
            *final(self) == (CryptoCellRegisters {
                pad_config_do_pad: false,
                writes: old(self).bumped(),
                ..*old(self)
            }),
    {
        self.pad_config_do_pad = false;
        self.count_write();
    }

    /// Writes a DIN DMA descriptor for `data`, modeling the transfer and the
    /// hash engine's consumption of it: every whole 64-byte block of the
    /// stream — the data followed, when automatic padding is armed, by the
    /// standard padding for the length declared at submission entry — is
    /// absorbed into the hash state registers under the selected algorithm.
    /// The engine's running length counters advance by the bytes streamed,
    /// and completion raises the MEM_TO_DIN cause bit.
    pub fn hash_dma_submit(&mut self, data: &[u8])
        requires
            old(self).wf(),
            data@.len() <= u32::MAX,
            old(self).declared_len() + data@.len() <= u64::MAX,
        ensures
            final(self).wf(),
            ({
                let stream = if old(self).auto_hw_padding {
                    data@ + padding(
                        alg_of_control(old(self).hash_control).unwrap(),
                        (data@.len() % 64) as int,
                        old(self).declared_len(),
                    )
                } else {
                    data@
                };
                final(self).hash@ == match alg_of_control(old(self).hash_control) {
                    Some(alg) => absorb(alg, old(self).hash@, stream),
                    None => old(self).hash@,
                }
            }),
            final(self).declared_len() == old(self).declared_len() + data@.len(),
            final(self).interrupts == old(self).interrupts | IRQ_MEM_TO_DIN,
            *final(self) == (CryptoCellRegisters {
                hash: final(self).hash,
                hash_len_lsb: final(self).hash_len_lsb,
                hash_len_msb: final(self).hash_len_msb,
                interrupts: final(self).interrupts,
                writes: final(self).writes,
                ..*old(self)
            }),
            final(self).writes >= old(self).writes,
    {
        let entry_len = self.read_declared_len();
        match alg_of_control_at(self.hash_control) {
            Some(alg) => {
                if self.auto_hw_padding {
                    let mut stream: Vec<u8> = Vec::new();
                    stream.extend_from_slice(data);
                    let pad = build_padding(alg, data.len() % 64, entry_len);
                    stream.extend_from_slice(pad.as_slice());
                    proof {
                        assert(stream@ =~= data@ + pad@);
                    }
                    absorb_stream(alg, &mut self.hash, stream.as_slice());
                } else {
                    absorb_stream(alg, &mut self.hash, data);
                }
            },
            None => {},
        }
        let advanced = entry_len + data.len() as u64;
        self.hash_len_lsb = #[verifier::truncate] (advanced as u32);
        self.hash_len_msb = #[verifier::truncate] ((advanced >> 32u64) as u32);
        proof {
            assert(((advanced >> 32u64) as u32) * 0x1_0000_0000 + (advanced as u32) == advanced)
                by (bit_vector);
        }
        self.interrupts = self.interrupts | IRQ_MEM_TO_DIN;
        self.count_write();
    }

    /// Writes the DO_PAD trigger: the engine pads the operation at a block
    /// boundary for the declared length and absorbs the resulting block.
    pub fn hash_do_pad(&mut self)
        requires
            old(self).wf(),
        ensures
            final(self).wf(),
            final(self).hash@ == match alg_of_control(old(self).hash_control) {
                Some(alg) => absorb(
                    alg,
                    old(self).hash@,
                    padding(alg, 0, old(self).declared_len()),
                ),
                None => old(self).hash@,
            },
            *final(self) == (CryptoCellRegisters {
                hash: final(self).hash,
                pad_config_do_pad: true,
                writes: final(self).writes,
                ..*old(self)
            }),
            final(self).writes >= old(self).writes,
    {
        match alg_of_control_at(self.hash_control) {
            Some(alg) => {
                let declared = self.read_declared_len();
                let pad = build_padding(alg, 0, declared);
                absorb_stream(alg, &mut self.hash, pad.as_slice());
            },
            None => {},
        }
        self.pad_config_do_pad = true;
        self.count_write();
    }

    /// Reads the declared operation length from the two length registers.
    pub fn read_declared_len(&self) -> (r: u64)
        ensures
            r == self.declared_len(),
    {
        let r = ((self.hash_len_msb as u64) << 32u64) | (self.hash_len_lsb as u64);
        proof {
            let m = self.hash_len_msb;
            let l = self.hash_len_lsb;
            assert(((m as u64) << 32u64) | (l as u64) == (m * 0x1_0000_0000 + l) as u64)
                by (bit_vector);
        }
        r
    }

    /// Writes AES key register `i`.
    pub fn write_aes_key_word(&mut self, i: usize, v: u32)
        requires
            old(self).wf(),
            i < 8,
        ensures
            final(self).aes_key0@ == old(self).aes_key0@.update(i as int, v),
            *final(self) == (CryptoCellRegisters {
                aes_key0: final(self).aes_key0,
                writes: old(self).bumped(),
                ..*old(self)
            }),
            final(self).wf(),
    {
        self.aes_key0[i] = v;
        self.count_write();
    }

    /// Writes AES initial-value register `i`.
    pub fn write_aes_iv_word(&mut self, i: usize, v: u32)
        requires
            old(self).wf(),
            i < 4,
        ensures
            final(self).aes_iv0@ == old(self).aes_iv0@.update(i as int, v),
            *final(self) == (CryptoCellRegisters {
                aes_iv0: final(self).aes_iv0,
                writes: old(self).bumped(),
                ..*old(self)
            }),
            final(self).wf(),
    {
        self.aes_iv0[i] = v;
        self.count_write();
    }

    /// Writes AES counter register `i`.
    pub fn write_aes_ctr_word(&mut self, i: usize, v: u32)
        requires
            old(self).wf(),
            i < 4,
        ensures
            final(self).aes_ctr0@ == old(self).aes_ctr0@.update(i as int, v),
            *final(self) == (CryptoCellRegisters {
                aes_ctr0: final(self).aes_ctr0,
                writes: old(self).bumped(),
                ..*old(self)
            }),
            final(self).wf(),
    {
        self.aes_ctr0[i] = v;
        self.count_write();
    }

    /// Kicks the CMAC subkey-generation task.
    pub fn kick_cmac_init(&mut self)
        ensures
            *final(self) == (CryptoCellRegisters {
                aes_cmac_init_kicks: if old(self).aes_cmac_init_kicks < u64::MAX {
                    (old(self).aes_cmac_init_kicks + 1) as u64
                } else {
                    old(self).aes_cmac_init_kicks
                },
                writes: old(self).bumped(),
                ..*old(self)
            }),
    {
        if self.aes_cmac_init_kicks < u64::MAX {
            self.aes_cmac_init_kicks = self.aes_cmac_init_kicks + 1;
        }
        self.count_write();
    }

    /// Writes the AES remaining-bytes register.
    pub fn write_aes_remaining(&mut self, v: u32)
        ensures
            *final(self) == (CryptoCellRegisters {
                aes_remaining_bytes: v,
                writes: old(self).bumped(),
                ..*old(self)
            }),
    {
        self.aes_remaining_bytes = v;
        self.count_write();
    }

    /// Clears one cause bit when the snapshot shows it pending.
    pub fn clear_cause_if_pending(&mut self, intrs: u32, bit: u32)
        ensures
            final(self).interrupts == if intrs & bit != 0 {
                old(self).interrupts & !bit
            } else {
                old(self).interrupts
            },
            *final(self) == (CryptoCellRegisters {
                interrupts: final(self).interrupts,
                writes: final(self).writes,
                ..*old(self)
            }),
            final(self).writes >= old(self).writes,
    {
        if intrs & bit != 0 {
            self.write_interrupt_clear(bit);
        }
    }

    /// One pass of the shared-interrupt demultiplexer's bookkeeping over a
    /// snapshot `intrs` of the pending causes: each pending cause among the
    /// eight is cleared, and a pending random-number cause re-masks that
    /// source.
    #[verifier::rlimit(100)]
    pub fn demux_dispatch(&mut self, intrs: u32)
        requires
            intrs == old(self).interrupts,
        ensures
            final(self).interrupts == old(self).interrupts & !0xff0u32,
            final(self).interrupt_mask == if old(self).interrupts & IRQ_RNG != 0 {
                old(self).interrupt_mask & !IRQ_RNG
            } else {
                old(self).interrupt_mask
            },
            *final(self) == (CryptoCellRegisters {
                interrupts: final(self).interrupts,
                interrupt_mask: final(self).interrupt_mask,
                writes: final(self).writes,
                ..*old(self)
            }),
            final(self).writes >= old(self).writes,
    {
        let ghost x = intrs;
        self.clear_cause_if_pending(intrs, IRQ_SRAM_TO_DIN);
        let ghost a1 = self.interrupts;
        proof {
            assert(a1 == x & !0x10u32) by (bit_vector)
                requires
                    a1 == x & !0x10u32 || (a1 == x && x & 0x10u32 == 0),
            ;
        }
        self.clear_cause_if_pending(intrs, IRQ_DOUT_TO_SRAM);
        let ghost a2 = self.interrupts;
        proof {
            assert(a2 == x & !0x30u32) by (bit_vector)
                requires
                    a1 == x & !0x10u32,
                    a2 == a1 & !0x20u32 || (a2 == a1 && x & 0x20u32 == 0),
            ;
        }
        self.clear_cause_if_pending(intrs, IRQ_MEM_TO_DIN);
        let ghost a3 = self.interrupts;
        proof {
            assert(a3 == x & !0x70u32) by (bit_vector)
                requires
                    a2 == x & !0x30u32,
                    a3 == a2 & !0x40u32 || (a3 == a2 && x & 0x40u32 == 0),
            ;
        }
        self.clear_cause_if_pending(intrs, IRQ_DOUT_TO_MEM);
        let ghost a4 = self.interrupts;
        proof {
            assert(a4 == x & !0xf0u32) by (bit_vector)
                requires
                    a3 == x & !0x70u32,
                    a4 == a3 & !0x80u32 || (a4 == a3 && x & 0x80u32 == 0),
            ;
        }
        self.clear_cause_if_pending(intrs, IRQ_AXI_ERROR);
        let ghost a5 = self.interrupts;
        proof {
            assert(a5 == x & !0x1f0u32) by (bit_vector)
                requires
                    a4 == x & !0xf0u32,
                    a5 == a4 & !0x100u32 || (a5 == a4 && x & 0x100u32 == 0),
            ;
        }
        self.clear_cause_if_pending(intrs, IRQ_PKA_EXP);
        let ghost a6 = self.interrupts;
        proof {
            assert(a6 == x & !0x3f0u32) by (bit_vector)
                requires
                    a5 == x & !0x1f0u32,
                    a6 == a5 & !0x200u32 || (a6 == a5 && x & 0x200u32 == 0),
            ;
        }
        self.clear_cause_if_pending(intrs, IRQ_RNG);
        if intrs & IRQ_RNG != 0 {
            // An edge-triggered source: re-mask it until a future operation
            // re-arms it, so a storm cannot outrun the handler.
            let mask = self.interrupt_mask;
            self.write_interrupt_mask(mask & !IRQ_RNG);
        }
        let ghost a7 = self.interrupts;
        proof {
            assert(a7 == x & !0x7f0u32) by (bit_vector)
                requires
                    a6 == x & !0x3f0u32,
                    a7 == a6 & !0x400u32 || (a7 == a6 && x & 0x400u32 == 0),
            ;
        }
        self.clear_cause_if_pending(intrs, IRQ_SYM_DMA_COMPLETED);
        let ghost a8 = self.interrupts;
        proof {
            assert(a8 == x & !0xff0u32) by (bit_vector)
                requires
                    a7 == x & !0x7f0u32,
                    a8 == a7 & !0x800u32 || (a8 == a7 && x & 0x800u32 == 0),
            ;
        }
    }

    /// Busy-waits until the hash engine is idle. The model never holds the
    /// flag, so the poll returns at once.
    pub fn poll_hash_idle(&self)
        requires
            !self.hash_busy,
    {
        while self.hash_busy
            invariant
                !self.hash_busy,
            decreases 0int,
        {
        }
    }

    /// Busy-waits until the aggregate crypto engine is idle.
    pub fn poll_crypto_idle(&self)
        requires
            !self.crypto_busy,
    {
        while self.crypto_busy
            invariant
                !self.crypto_busy,
            decreases 0int,
        {
        }
    }

    /// Busy-waits until the DIN memory DMA is idle.
    pub fn poll_din_mem_idle(&self)
        requires
            !self.din_mem_dma_busy,
    {
        while self.din_mem_dma_busy
            invariant
                !self.din_mem_dma_busy,
            decreases 0int,
        {
        }
    }

    /// Busy-waits until the DOUT memory DMA is idle.
    pub fn poll_dout_mem_idle(&self)
        requires
            !self.dout_mem_dma_busy,
    {
        while self.dout_mem_dma_busy
            invariant
                !self.dout_mem_dma_busy,
            decreases 0int,
        {
        }
    }

    /// Busy-waits until the DIN SRAM DMA is idle.
    pub fn poll_din_sram_idle(&self)
        requires
            !self.din_sram_dma_busy,
    {
        while self.din_sram_dma_busy
            invariant
                !self.din_sram_dma_busy,
            decreases 0int,
        {
        }
    }

    /// Busy-waits until the DOUT SRAM DMA is idle.
    pub fn poll_dout_sram_idle(&self)
        requires
            !self.dout_sram_dma_busy,
    {
        while self.dout_sram_dma_busy
            invariant
                !self.dout_sram_dma_busy,
            decreases 0int,
        {
        }
    }

    /// Busy-waits until the AES engine is idle.
    pub fn poll_aes_idle(&self)
        requires
            !self.aes_busy,
    {
        while self.aes_busy
            invariant
                !self.aes_busy,
            decreases 0int,
        {
        }
    }

    /// Busy-waits for the MEM_TO_DIN transfer-complete cause.
    pub fn poll_mem_to_din(&self)
        requires
            self.interrupts & IRQ_MEM_TO_DIN != 0,
    {
        while (self.interrupts & IRQ_MEM_TO_DIN) == 0
            invariant
                self.interrupts & IRQ_MEM_TO_DIN != 0,
            decreases 0int,
        {
        }
    }

    /// Hardware-side event: raises interrupt cause bits, as the silicon does
    /// when the corresponding events occur.
    pub fn hw_raise_interrupts(&mut self, bits: u32)
        ensures
            *final(self) == (CryptoCellRegisters {
                interrupts: old(self).interrupts | bits,
                ..*old(self)
            }),
    {
        self.interrupts = self.interrupts | bits;
    }

    /// Hardware-side event: sets or clears the AES engine busy flag, as the
    /// silicon does while the AES core is active.
    pub fn hw_set_aes_busy(&mut self, busy: bool)
        ensures
            *final(self) == (CryptoCellRegisters { aes_busy: busy, ..*old(self) }),
    {
        self.aes_busy = busy;
    }
}

/// The algorithm selected by a hash control register value, if any.
pub fn alg_of_control_at(code: u32) -> (r: Option<DigestAlgorithm>)
    ensures
        r == alg_of_control(code),
{
    if code == 0u32 {
        Some(DigestAlgorithm::Md5)
    } else if code == 1u32 {
        Some(DigestAlgorithm::Sha1)
    } else if code == 10u32 {
        Some(DigestAlgorithm::Sha224)
    } else if code == 2u32 {
        Some(DigestAlgorithm::Sha256)
    } else {
        None
    }
}

/// Builds the standard padding for a final chunk ending at `cursor` within a
/// block, declaring `total` bytes.
pub fn build_padding(alg: DigestAlgorithm, cursor: usize, total: u64) -> (r: Vec<u8>)
    requires
        cursor < 64,
    ensures
        r@ == padding(alg, cursor as int, total),
{
    let mut out: Vec<u8> = Vec::new();
    out.push(0x80);
    let zeros: usize = if cursor < 56 {
        55 - cursor
    } else {
        119 - cursor
    };
    let mut i: usize = 0;
    while i < zeros
        invariant
            i <= zeros,
            out@ =~= seq![0x80u8] + Seq::new(i as nat, |j: int| 0u8),
        decreases zeros - i,
    {
        out.push(0);
        i = i + 1;
    }
    let bits = total.wrapping_mul(8);
    match alg {
        DigestAlgorithm::Md5 => {
            out.push(bits as u8);
            out.push((bits >> 8u64) as u8);
            out.push((bits >> 16u64) as u8);
            out.push((bits >> 24u64) as u8);
            out.push((bits >> 32u64) as u8);
            out.push((bits >> 40u64) as u8);
            out.push((bits >> 48u64) as u8);
            out.push((bits >> 56u64) as u8);
        },
        _ => {
            out.push((bits >> 56u64) as u8);
            out.push((bits >> 48u64) as u8);
            out.push((bits >> 40u64) as u8);
            out.push((bits >> 32u64) as u8);
            out.push((bits >> 24u64) as u8);
            out.push((bits >> 16u64) as u8);
            out.push((bits >> 8u64) as u8);
            out.push(bits as u8);
        },
    }
    assert(out@ =~= padding(alg, cursor as int, total));
    out
}

} // verus!
