//! Behavior of the power controller, the AES facade, the interrupt
//! demultiplexer, and the entropy placeholders, observed through the
//! modeled register file.

use cryptocell310::error::ErrorCode;
use cryptocell310::CryptoCell310;

#[test]
fn power_is_reference_counted() {
    let mut cc = CryptoCell310::new();
    assert_eq!(cc.usage_count, 0);
    assert!(!cc.power.enable);

    // Three nested acquisitions, then three releases: the state returns
    // exactly to where it started.
    cc.enable();
    assert!(cc.power.enable);
    assert_eq!(cc.registers.interrupt_mask, 0x700);
    cc.enable();
    cc.enable();
    assert_eq!(cc.usage_count, 3);
    assert!(cc.power.enable);

    cc.disable();
    assert!(cc.power.enable);
    cc.disable();
    assert!(cc.power.enable);
    cc.disable();
    assert_eq!(cc.usage_count, 0);
    assert!(!cc.power.enable);
    assert_eq!(cc.registers.interrupt_mask, 0);
    assert!(!cc.registers.dma_clk_enable);
}

#[test]
fn extra_releases_never_underflow() {
    let mut cc = CryptoCell310::new();
    cc.enable();
    cc.disable();
    // One release too many (and then some): the count stays at zero and
    // the power domain is not disabled twice.
    cc.disable();
    cc.disable();
    assert_eq!(cc.usage_count, 0);
    assert!(!cc.power.enable);
    cc.enable();
    assert_eq!(cc.usage_count, 1);
    assert!(cc.power.enable);
    cc.disable();
    assert_eq!(cc.usage_count, 0);
}

#[test]
fn power_up_only_on_first_acquire() {
    let mut cc = CryptoCell310::new();
    cc.enable();
    let writes_after_first = cc.registers.writes;
    cc.enable();
    // The second acquisition performs no register writes at all.
    assert_eq!(cc.registers.writes, writes_after_first);
    assert_eq!(cc.soft_mismatches, 0);
}

#[test]
fn set_key_rejects_wrong_length_without_writes() {
    let mut cc = CryptoCell310::new();
    let before_writes = cc.registers.writes;
    let before_key: Vec<u32> = cc.registers.aes_key0.clone();
    assert_eq!(cc.set_key(&[0u8; 15]), Err(ErrorCode::Inval));
    assert_eq!(cc.set_key(&[0u8; 17]), Err(ErrorCode::Inval));
    assert_eq!(cc.set_key(&[]), Err(ErrorCode::Inval));
    assert_eq!(cc.registers.writes, before_writes);
    assert_eq!(cc.registers.aes_key0, before_key);
}

#[test]
fn set_key_loads_four_little_endian_words() {
    let mut cc = CryptoCell310::new();
    let key: Vec<u8> = (1..=16u8).collect();
    assert_eq!(cc.set_key(&key), Ok(()));
    assert_eq!(cc.registers.aes_key0[0], 0x04030201);
    assert_eq!(cc.registers.aes_key0[1], 0x08070605);
    assert_eq!(cc.registers.aes_key0[2], 0x0c0b0a09);
    assert_eq!(cc.registers.aes_key0[3], 0x100f0e0d);
    assert_eq!(cc.registers.aes_key0[4], 0);
}

#[test]
fn set_iv_rejects_wrong_length_without_writes() {
    let mut cc = CryptoCell310::new();
    let before_writes = cc.registers.writes;
    assert_eq!(cc.set_iv(&[0u8; 12]), Err(ErrorCode::Inval));
    assert_eq!(cc.registers.writes, before_writes);
}

#[test]
fn set_iv_loads_iv_and_counter_registers() {
    let mut cc = CryptoCell310::new();
    let iv: Vec<u8> = (0..16u8).collect();
    assert_eq!(cc.set_iv(&iv), Ok(()));
    assert_eq!(cc.registers.aes_iv0[0], 0x03020100);
    assert_eq!(cc.registers.aes_ctr0[0], 0x03020100);
    assert_eq!(cc.registers.aes_iv0[3], 0x0f0e0d0c);
    assert_eq!(cc.registers.aes_ctr0[3], 0x0f0e0d0c);
}

#[test]
fn crypt_while_busy_returns_buffers_unconsumed() {
    let mut cc = CryptoCell310::new();
    cc.registers.hw_set_aes_busy(true);
    let source = Some(vec![1u8, 2, 3]);
    let dest = vec![9u8; 8];
    match cc.crypt(source, dest, 0, 8) {
        Some((e, s, d)) => {
            assert_eq!(e, ErrorCode::Busy);
            assert_eq!(s, Some(vec![1u8, 2, 3]));
            assert_eq!(d, vec![9u8; 8]);
        }
        None => panic!("a busy engine must report the failure"),
    }
}

#[test]
fn crypt_when_idle_is_accepted_and_moves_nothing() {
    let mut cc = CryptoCell310::new();
    let r = cc.crypt(None, vec![0u8; 16], 0, 16);
    assert!(matches!(r, None));
}

#[test]
fn start_message_on_busy_engine_changes_nothing() {
    let mut cc = CryptoCell310::new();
    cc.registers.hw_set_aes_busy(true);
    let before_writes = cc.registers.writes;
    cc.start_message();
    assert_eq!(cc.registers.writes, before_writes);
    assert_eq!(cc.registers.crypto_ctl, 0);
}

#[test]
fn start_message_selects_aes_and_clears_countdown() {
    let mut cc = CryptoCell310::new();
    cc.start_message();
    assert_eq!(cc.registers.crypto_ctl, 1);
    assert_eq!(cc.registers.aes_remaining_bytes, 0);
    // The reset configuration is ECB, not CMAC: no subkey kick.
    assert_eq!(cc.registers.aes_cmac_init_kicks, 0);
}

#[test]
fn interrupt_causes_are_cleared() {
    let mut cc = CryptoCell310::new();
    cc.enable();
    // Raise every demultiplexed cause plus one unrelated bit.
    cc.registers.hw_raise_interrupts(0xff0 | 0x1);
    cc.handle_interrupt();
    assert_eq!(cc.registers.interrupts, 0x1);
}

#[test]
fn rng_cause_is_remasked() {
    let mut cc = CryptoCell310::new();
    cc.enable();
    assert_eq!(cc.registers.interrupt_mask, 0x700);
    cc.registers.hw_raise_interrupts(0x400);
    cc.handle_interrupt();
    assert_eq!(cc.registers.interrupts, 0);
    // The RNG source (bit 10) is masked off until re-armed.
    assert_eq!(cc.registers.interrupt_mask, 0x300);
}

#[test]
fn interrupt_without_rng_keeps_mask() {
    let mut cc = CryptoCell310::new();
    cc.enable();
    cc.registers.hw_raise_interrupts(0x40);
    cc.handle_interrupt();
    assert_eq!(cc.registers.interrupt_mask, 0x700);
}

#[test]
fn clear_data_scrubs_sensitive_state() {
    let mut cc = CryptoCell310::new();
    cc.set_mode_sha256().unwrap();
    cc.add_data(b"secret material").unwrap();
    cc.clear_data();
    assert!(cc.hash_ctx.iter().all(|&w| w == 0));
    assert!(cc.hash_hmac_opad_ctx.iter().all(|&w| w == 0));
    assert!(cc.hash_data_queue.iter().all(|&b| b == 0));
    // The counter and the algorithm selection are deliberately kept.
    assert_eq!(cc.hash_total_size, 15);
}

#[test]
fn entropy_placeholders_report_their_contracts() {
    let mut cc = CryptoCell310::new();
    assert_eq!(cc.get(), Ok(()));
    assert_eq!(cc.cancel(), Err(ErrorCode::Fail));
    assert_eq!(cc.get_trng_rand32(), None);
}

#[test]
fn aes_mode_selectors_are_explicit_gaps() {
    let mut cc = CryptoCell310::new();
    let before_writes = cc.registers.writes;
    cc.set_mode_aes128ctr(true);
    cc.set_mode_aes128cbc(false);
    assert_eq!(cc.registers.writes, before_writes);
}

#[test]
fn hashing_restores_power_state() {
    let mut cc = CryptoCell310::new();
    cc.set_mode_sha256().unwrap();
    cc.add_data(&[0u8; 100]).unwrap();
    let _ = cc.run(vec![0u8; 32]).unwrap();
    // The hash path acquires and releases around each block: the engine
    // ends powered down with nobody holding it.
    assert_eq!(cc.usage_count, 0);
    assert!(!cc.power.enable);
}
