//! The AES (block-cipher) capability facade: key and initial-value loading
//! with strict length checks, and the start/crypt entry points.
//!
//! The streaming crypt path is a documented gap of this engine: `crypt`
//! observes the busy flag and otherwise moves no data, and the mode
//! selectors configure nothing. The facade is specified to exactly that
//! observable contract.

use vstd::prelude::*;
use crate::error::ErrorCode;
use crate::registers::CRYPTO_MODE_AES;
use crate::words::le_word;
use crate::CryptoCell310;

verus! {

/// A 128-bit AES key or block is exactly 16 bytes.
pub const AES128_KEY_SIZE: usize = 16;

/// A 128-bit AES block (and therefore an initial value) is exactly 16
/// bytes.
pub const AES128_BLOCK_SIZE: usize = 16;

impl CryptoCell310 {
    /// Loads a 128-bit key into the AES key registers, little-endian word
    /// by word. Any other length is rejected with an invalid-argument
    /// error, and no register is written.
    pub fn set_key(&mut self, key: &[u8]) -> (r: Result<(), ErrorCode>)
        requires
            old(self).structural_wf(),
        ensures
            final(self).structural_wf(),
            key@.len() != 16 ==> r == Err::<(), ErrorCode>(ErrorCode::Inval) && *final(self)
                == *old(self),
            key@.len() == 16 ==> {
                &&& r is Ok
                &&& final(self).registers.aes_key0@.len() == 8
                &&& forall|i: int|
                    0 <= i < 4 ==> final(self).registers.aes_key0@[i] == le_word(key@, i)
                &&& final(self).registers.aes_key0@.skip(4) == old(self).registers.aes_key0@.skip(4)
                &&& final(self).registers == (crate::registers::CryptoCellRegisters {
                    aes_key0: final(self).registers.aes_key0,
                    writes: final(self).registers.writes,
                    ..old(self).registers
                })
                &&& final(self).power == old(self).power
                &&& final(self).usage_count == old(self).usage_count
                &&& Self::same_hash_state(*old(self), *final(self))
            },
    {
        if key.len() != AES128_KEY_SIZE {
            return Err(ErrorCode::Inval);
        }
        let w0 = crate::words::load_le_word(key, 0);
        self.registers.write_aes_key_word(0, w0);
        let w1 = crate::words::load_le_word(key, 1);
        self.registers.write_aes_key_word(1, w1);
        let w2 = crate::words::load_le_word(key, 2);
        self.registers.write_aes_key_word(2, w2);
        let w3 = crate::words::load_le_word(key, 3);
        self.registers.write_aes_key_word(3, w3);
        proof {
            assert(self.registers.aes_key0@.skip(4) =~= old(self).registers.aes_key0@.skip(4));
        }
        Ok(())
    }

    /// Loads a 16-byte initial value into both the IV and counter
    /// registers, little-endian word by word. (Which register the mode
    /// actually consumes depends on the configured mode; both are loaded
    /// because callers may configure in either order.) Any other length is
    /// rejected with an invalid-argument error, and no register is
    /// written.
    pub fn set_iv(&mut self, iv: &[u8]) -> (r: Result<(), ErrorCode>)
        requires
            old(self).structural_wf(),
        ensures
            final(self).structural_wf(),
            iv@.len() != 16 ==> r == Err::<(), ErrorCode>(ErrorCode::Inval) && *final(self)
                == *old(self),
            iv@.len() == 16 ==> {
                &&& r is Ok
                &&& final(self).registers.aes_iv0@.len() == 4
                &&& final(self).registers.aes_ctr0@.len() == 4
                &&& forall|i: int|
                    0 <= i < 4 ==> final(self).registers.aes_iv0@[i] == le_word(iv@, i) && final(self).registers.aes_ctr0@[i] == le_word(iv@, i)
                &&& final(self).registers == (crate::registers::CryptoCellRegisters {
                    aes_iv0: final(self).registers.aes_iv0,
                    aes_ctr0: final(self).registers.aes_ctr0,
                    writes: final(self).registers.writes,
                    ..old(self).registers
                })
                &&& final(self).power == old(self).power
                &&& final(self).usage_count == old(self).usage_count
                &&& Self::same_hash_state(*old(self), *final(self))
            },
    {
        if iv.len() != AES128_BLOCK_SIZE {
            return Err(ErrorCode::Inval);
        }
        let w0 = crate::words::load_le_word(iv, 0);
        self.registers.write_aes_iv_word(0, w0);
        self.registers.write_aes_ctr_word(0, w0);
        let w1 = crate::words::load_le_word(iv, 1);
        self.registers.write_aes_iv_word(1, w1);
        self.registers.write_aes_ctr_word(1, w1);
        let w2 = crate::words::load_le_word(iv, 2);
        self.registers.write_aes_iv_word(2, w2);
        self.registers.write_aes_ctr_word(2, w2);
        let w3 = crate::words::load_le_word(iv, 3);
        self.registers.write_aes_iv_word(3, w3);
        self.registers.write_aes_ctr_word(3, w3);
        Ok(())
    }

    /// Prepares the AES engine for a new message: selects the AES engine,
    /// waits for the data paths, kicks CMAC subkey generation when the
    /// configured mode is CMAC, and zeroes the remaining-bytes countdown.
    /// A busy engine leaves everything untouched.
    pub fn start_message(&mut self)
        requires
            old(self).structural_wf(),
        ensures
            final(self).structural_wf(),
            Self::same_hash_state(*old(self), *final(self)),
            final(self).power == old(self).power,
            final(self).usage_count == old(self).usage_count,
            old(self).registers.aes_busy ==> *final(self) == *old(self),
            !old(self).registers.aes_busy ==> {
                &&& final(self).registers.crypto_ctl == CRYPTO_MODE_AES
                &&& final(self).registers.aes_remaining_bytes == 0
                &&& final(self).registers.aes_cmac_init_kicks == if (old(self).registers.aes_control >> 2u32) & 7u32 == 7u32 && old(self).registers.aes_cmac_init_kicks < u64::MAX {
                    (old(self).registers.aes_cmac_init_kicks + 1) as u64
                } else {
                    old(self).registers.aes_cmac_init_kicks
                }
                &&& final(self).registers == (crate::registers::CryptoCellRegisters {
                    crypto_ctl: CRYPTO_MODE_AES,
                    aes_remaining_bytes: 0,
                    aes_cmac_init_kicks: final(self).registers.aes_cmac_init_kicks,
                    writes: final(self).registers.writes,
                    ..old(self).registers
                })
            },
    {
        if self.registers.aes_busy {
            return ;
        }
        self.registers.write_crypto_ctl(CRYPTO_MODE_AES);
        self.registers.poll_aes_idle();
        self.registers.poll_dout_mem_idle();
        self.registers.poll_din_mem_idle();
        self.registers.poll_dout_sram_idle();
        self.registers.poll_din_sram_idle();
        if (self.registers.aes_control >> 2u32) & 7u32 == 7u32 {
            self.registers.kick_cmac_init();
        }
        self.registers.write_aes_remaining(0);
    }

    /// The crypt entry point. A busy engine reports the failure and hands
    /// both buffers straight back, unconsumed. Otherwise the request is
    /// accepted and nothing further happens: the streaming data path is an
    /// explicit gap of this engine, preserved as such.
    pub fn crypt(
        &mut self,
        source: Option<Vec<u8>>,
        dest: Vec<u8>,
        start_index: usize,
        stop_index: usize,
    ) -> (r: Option<(ErrorCode, Option<Vec<u8>>, Vec<u8>)>)
        requires
            old(self).structural_wf(),
        ensures
            *final(self) == *old(self),
            old(self).registers.aes_busy ==> r == Some((ErrorCode::Busy, source, dest)),
            !old(self).registers.aes_busy ==> r is None,
    {
        if self.registers.aes_busy {
            Some((ErrorCode::Busy, source, dest))
        } else {
            None
        }
    }

    /// Selects AES-128-CTR. The mode configuration path is an explicit gap
    /// of this engine: the call changes nothing.
    pub fn set_mode_aes128ctr(&mut self, encrypting: bool)
        ensures
            *final(self) == *old(self),
    {
    }

    /// Selects AES-128-CBC. The mode configuration path is an explicit gap
    /// of this engine: the call changes nothing.
    pub fn set_mode_aes128cbc(&mut self, encrypting: bool)
        ensures
            *final(self) == *old(self),
    {
    }
}

} // verus!
