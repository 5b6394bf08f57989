//! Known-answer tests for the digest capability, and chunk-invariance
//! checks: any splitting of a message across add_data calls must produce
//! the digest of the whole message.

use cryptocell310::CryptoCell310;

fn hex(s: &str) -> Vec<u8> {
    assert!(s.len() % 2 == 0);
    let b = s.as_bytes();
    let val = |c: u8| -> u8 {
        match c {
            b'0'..=b'9' => c - b'0',
            b'a'..=b'f' => c - b'a' + 10,
            b'A'..=b'F' => c - b'A' + 10,
            _ => panic!("not hex"),
        }
    };
    let mut out = Vec::new();
    let mut i = 0;
    while i < b.len() {
        out.push(val(b[i]) * 16 + val(b[i + 1]));
        i += 2;
    }
    out
}

/// The engine serializes every context word big-endian; the canonical MD5
/// digest string serializes them little-endian, so the engine's MD5 output
/// is the canonical digest with each four-byte word reversed.
fn swap_words(bytes: &[u8]) -> Vec<u8> {
    assert!(bytes.len() % 4 == 0);
    let mut out = Vec::new();
    for w in bytes.chunks(4) {
        out.extend(w.iter().rev());
    }
    out
}

fn sha256_oneshot(msg: &[u8]) -> Vec<u8> {
    let mut cc = CryptoCell310::new();
    cc.set_mode_sha256().unwrap();
    assert_eq!(cc.add_data(msg).unwrap(), msg.len());
    cc.run(vec![0u8; 32]).unwrap()
}

#[test]
fn sha256_abc_known_vector() {
    let out = sha256_oneshot(b"abc");
    assert_eq!(
        out,
        hex("ba7816bf8f01cfea414140de5dae2223b00361a396177a9cb410ff61f20015ad")
    );
}

#[test]
fn sha256_empty_message() {
    let out = sha256_oneshot(b"");
    assert_eq!(
        out,
        hex("e3b0c44298fc1c149afbf4c8996fb92427ae41e4649b934ca495991b7852b855")
    );
}

#[test]
fn sha256_two_block_message() {
    let out = sha256_oneshot(b"abcdbcdecdefdefgefghfghighijhijkijkljklmklmnlmnomnopnopq");
    assert_eq!(
        out,
        hex("248d6a61d20638b8e5c026930c3e6039a33ce45964ff2167f6ecedd419db06c1")
    );
}

#[test]
fn sha1_abc_known_vector() {
    let mut cc = CryptoCell310::new();
    cc.set_mode_sha1().unwrap();
    cc.add_data(b"abc").unwrap();
    let out = cc.run(vec![0u8; 32]).unwrap();
    assert_eq!(out[..20], hex("a9993e364706816aba3e25717850c26c9cd0d89d")[..]);
}

#[test]
fn sha1_empty_message() {
    let mut cc = CryptoCell310::new();
    cc.set_mode_sha1().unwrap();
    cc.add_data(b"").unwrap();
    let out = cc.run(vec![0u8; 32]).unwrap();
    assert_eq!(out[..20], hex("da39a3ee5e6b4b0d3255bfef95601890afd80709")[..]);
}

#[test]
fn sha224_abc_known_vector() {
    let mut cc = CryptoCell310::new();
    cc.set_mode_sha224().unwrap();
    cc.add_data(b"abc").unwrap();
    let out = cc.run(vec![0u8; 32]).unwrap();
    // The engine serializes all eight context words; the standard SHA-224
    // digest is the first 28 bytes.
    assert_eq!(
        out[..28],
        hex("23097d223405d8228642a477bda255b32aadbce4bda0b3f7e36c9da7")[..]
    );
}

#[test]
fn sha224_empty_message() {
    let mut cc = CryptoCell310::new();
    cc.set_mode_sha224().unwrap();
    cc.add_data(b"").unwrap();
    let out = cc.run(vec![0u8; 32]).unwrap();
    assert_eq!(
        out[..28],
        hex("d14a028c2a3a2bc9476102bb288234c415a2b01f828ea62ac5b3e42f")[..]
    );
}

#[test]
fn md5_abc_known_vector() {
    let mut cc = CryptoCell310::new();
    cc.set_mode_md5().unwrap();
    cc.add_data(b"abc").unwrap();
    let out = cc.run(vec![0u8; 32]).unwrap();
    let expected = swap_words(&hex("900150983cd24fb0d6963f7d28e17f72"));
    assert_eq!(out[..16], expected[..]);
}

#[test]
fn md5_empty_message() {
    let mut cc = CryptoCell310::new();
    cc.set_mode_md5().unwrap();
    cc.add_data(b"").unwrap();
    let out = cc.run(vec![0u8; 32]).unwrap();
    let expected = swap_words(&hex("d41d8cd98f00b204e9800998ecf8427e"));
    assert_eq!(out[..16], expected[..]);
}

fn chunked_sha256(msg: &[u8], chunks: &[usize]) -> Vec<u8> {
    let mut cc = CryptoCell310::new();
    cc.set_mode_sha256().unwrap();
    let mut off = 0;
    for &c in chunks {
        assert_eq!(cc.add_data(&msg[off..off + c]).unwrap(), c);
        off += c;
    }
    assert_eq!(off, msg.len());
    cc.run(vec![0u8; 32]).unwrap()
}

#[test]
fn sha256_chunking_is_invisible() {
    let msg: Vec<u8> = (0..200u32).map(|i| (i * 7 + 3) as u8).collect();
    let whole = chunked_sha256(&msg, &[200]);
    assert_eq!(whole, chunked_sha256(&msg, &[1, 199]));
    assert_eq!(whole, chunked_sha256(&msg, &[63, 1, 64, 72]));
    assert_eq!(whole, chunked_sha256(&msg, &[64, 64, 64, 8]));
    assert_eq!(whole, chunked_sha256(&msg, &[0, 100, 0, 100]));
    let ones: Vec<usize> = vec![1; 200];
    assert_eq!(whole, chunked_sha256(&msg, &ones));
}

#[test]
fn sha1_chunking_is_invisible() {
    let msg: Vec<u8> = (0..150u32).map(|i| (i * 31 + 11) as u8).collect();
    let run = |chunks: &[usize]| -> Vec<u8> {
        let mut cc = CryptoCell310::new();
        cc.set_mode_sha1().unwrap();
        let mut off = 0;
        for &c in chunks {
            cc.add_data(&msg[off..off + c]).unwrap();
            off += c;
        }
        cc.run(vec![0u8; 32]).unwrap()
    };
    let whole = run(&[150]);
    assert_eq!(whole, run(&[75, 75]));
    assert_eq!(whole, run(&[64, 64, 22]));
    assert_eq!(whole, run(&[1, 2, 3, 144]));
}

#[test]
fn md5_chunking_is_invisible() {
    let msg: Vec<u8> = (0..130u32).map(|i| (i * 13 + 5) as u8).collect();
    let run = |chunks: &[usize]| -> Vec<u8> {
        let mut cc = CryptoCell310::new();
        cc.set_mode_md5().unwrap();
        let mut off = 0;
        for &c in chunks {
            cc.add_data(&msg[off..off + c]).unwrap();
            off += c;
        }
        cc.run(vec![0u8; 32]).unwrap()
    };
    let whole = run(&[130]);
    assert_eq!(whole, run(&[65, 65]));
    assert_eq!(whole, run(&[128, 2]));
}

#[test]
fn sha224_chunking_is_invisible() {
    let msg: Vec<u8> = (0..100u32).map(|i| (i * 3 + 1) as u8).collect();
    let run = |chunks: &[usize]| -> Vec<u8> {
        let mut cc = CryptoCell310::new();
        cc.set_mode_sha224().unwrap();
        let mut off = 0;
        for &c in chunks {
            cc.add_data(&msg[off..off + c]).unwrap();
            off += c;
        }
        cc.run(vec![0u8; 32]).unwrap()
    };
    assert_eq!(run(&[100]), run(&[37, 63]));
}

#[test]
fn run_leaves_buffer_tail_alone() {
    let mut cc = CryptoCell310::new();
    cc.set_mode_md5().unwrap();
    cc.add_data(b"abc").unwrap();
    let buf: Vec<u8> = (0..32u8).collect();
    let out = cc.run(buf).unwrap();
    // MD5 writes 16 bytes; the rest of the caller's buffer is untouched.
    assert_eq!(out[16..], (16..32u8).collect::<Vec<u8>>()[..]);
}

#[test]
fn exact_block_boundary_chunks() {
    // A chunk that exactly fills the pending block, then exactly one more
    // block, then the empty finalization path.
    let msg = vec![0x5au8; 128];
    let whole = chunked_sha256(&msg, &[128]);
    assert_eq!(whole, chunked_sha256(&msg, &[64, 64]));
    assert_eq!(whole, chunked_sha256(&msg, &[32, 32, 64]));
    assert_eq!(whole, chunked_sha256(&msg, &[127, 1]));
}
