//! Differential tests against an independent reference implementation
//! written here from the algorithm definitions: the round-constant tables
//! are recomputed from their trigonometric definitions, whole digests are
//! compared for many message lengths, and HMAC-SHA-256 is checked against
//! both the standard two-pass composition and published test vectors.

use cryptocell310::CryptoCell310;

const PRIMES: [u32; 64] = [
    2, 3, 5, 7, 11, 13, 17, 19, 23, 29, 31, 37, 41, 43, 47, 53, 59, 61, 67, 71, 73, 79, 83, 89,
    97, 101, 103, 107, 109, 113, 127, 131, 137, 139, 149, 151, 157, 163, 167, 173, 179, 181, 191,
    193, 197, 199, 211, 223, 227, 229, 233, 239, 241, 251, 257, 263, 269, 271, 277, 281, 283, 293,
    307, 311,
];

fn sha256_k_from_cube_root(i: usize) -> u32 {
    let c = (PRIMES[i] as f64).cbrt();
    ((c - c.floor()) * 4294967296.0) as u64 as u32
}

fn md5_k_from_sine(i: usize) -> u32 {
    (((i as f64) + 1.0).sin().abs() * 4294967296.0) as u64 as u32
}

#[test]
fn sha256_round_constants_match_their_definition() {
    for i in 0..64 {
        assert_eq!(
            cryptocell310::sha256::sha256_k_at(i),
            sha256_k_from_cube_root(i),
            "SHA-256 round constant {} is off",
            i
        );
    }
}

#[test]
fn md5_round_constants_match_their_definition() {
    for i in 0..64 {
        assert_eq!(
            cryptocell310::md5::md5_k_at(i),
            md5_k_from_sine(i),
            "MD5 round constant {} is off",
            i
        );
    }
}

#[derive(Clone, Copy, PartialEq)]
enum RefAlg {
    Md5,
    Sha1,
    Sha224,
    Sha256,
}

fn ref_init(alg: RefAlg) -> [u32; 8] {
    match alg {
        RefAlg::Md5 => [0x67452301, 0xEFCDAB89, 0x98BADCFE, 0x10325476, 0, 0, 0, 0],
        RefAlg::Sha1 => [
            0x67452301, 0xEFCDAB89, 0x98BADCFE, 0x10325476, 0xC3D2E1F0, 0, 0, 0,
        ],
        RefAlg::Sha224 => [
            0xC1059ED8, 0x367CD507, 0x3070DD17, 0xF70E5939, 0xFFC00B31, 0x68581511, 0x64F98FA7,
            0xBEFA4FA4,
        ],
        RefAlg::Sha256 => [
            0x6A09E667, 0xBB67AE85, 0x3C6EF372, 0xA54FF53A, 0x510E527F, 0x9B05688C, 0x1F83D9AB,
            0x5BE0CD19,
        ],
    }
}

fn ref_words(alg: RefAlg) -> usize {
    match alg {
        RefAlg::Md5 => 4,
        RefAlg::Sha1 => 5,
        _ => 8,
    }
}

fn ref_sha256_block(h: &mut [u32; 8], block: &[u8]) {
    let mut w = [0u32; 64];
    for t in 0..16 {
        w[t] = u32::from_be_bytes([block[4 * t], block[4 * t + 1], block[4 * t + 2], block[4 * t + 3]]);
    }
    for t in 16..64 {
        let s0 = w[t - 15].rotate_right(7) ^ w[t - 15].rotate_right(18) ^ (w[t - 15] >> 3);
        let s1 = w[t - 2].rotate_right(17) ^ w[t - 2].rotate_right(19) ^ (w[t - 2] >> 10);
        w[t] = w[t - 16]
            .wrapping_add(s0)
            .wrapping_add(w[t - 7])
            .wrapping_add(s1);
    }
    let (mut a, mut b, mut c, mut d, mut e, mut f, mut g, mut hh) =
        (h[0], h[1], h[2], h[3], h[4], h[5], h[6], h[7]);
    for t in 0..64 {
        let s1 = e.rotate_right(6) ^ e.rotate_right(11) ^ e.rotate_right(25);
        let ch = (e & f) ^ (!e & g);
        let t1 = hh
            .wrapping_add(s1)
            .wrapping_add(ch)
            .wrapping_add(sha256_k_from_cube_root(t))
            .wrapping_add(w[t]);
        let s0 = a.rotate_right(2) ^ a.rotate_right(13) ^ a.rotate_right(22);
        let maj = (a & b) ^ (a & c) ^ (b & c);
        let t2 = s0.wrapping_add(maj);
        hh = g;
        g = f;
        f = e;
        e = d.wrapping_add(t1);
        d = c;
        c = b;
        b = a;
        a = t1.wrapping_add(t2);
    }
    h[0] = h[0].wrapping_add(a);
    h[1] = h[1].wrapping_add(b);
    h[2] = h[2].wrapping_add(c);
    h[3] = h[3].wrapping_add(d);
    h[4] = h[4].wrapping_add(e);
    h[5] = h[5].wrapping_add(f);
    h[6] = h[6].wrapping_add(g);
    h[7] = h[7].wrapping_add(hh);
}

fn ref_sha1_block(h: &mut [u32; 8], block: &[u8]) {
    let mut w = [0u32; 80];
    for t in 0..16 {
        w[t] = u32::from_be_bytes([block[4 * t], block[4 * t + 1], block[4 * t + 2], block[4 * t + 3]]);
    }
    for t in 16..80 {
        w[t] = (w[t - 3] ^ w[t - 8] ^ w[t - 14] ^ w[t - 16]).rotate_left(1);
    }
    let (mut a, mut b, mut c, mut d, mut e) = (h[0], h[1], h[2], h[3], h[4]);
    for t in 0..80 {
        let (f, k) = match t {
            0..=19 => ((b & c) | (!b & d), 0x5a827999u32),
            20..=39 => (b ^ c ^ d, 0x6ed9eba1),
            40..=59 => ((b & c) | (b & d) | (c & d), 0x8f1bbcdc),
            _ => (b ^ c ^ d, 0xca62c1d6),
        };
        let temp = a
            .rotate_left(5)
            .wrapping_add(f)
            .wrapping_add(e)
            .wrapping_add(k)
            .wrapping_add(w[t]);
        e = d;
        d = c;
        c = b.rotate_left(30);
        b = a;
        a = temp;
    }
    h[0] = h[0].wrapping_add(a);
    h[1] = h[1].wrapping_add(b);
    h[2] = h[2].wrapping_add(c);
    h[3] = h[3].wrapping_add(d);
    h[4] = h[4].wrapping_add(e);
}

fn ref_md5_block(h: &mut [u32; 8], block: &[u8]) {
    let mut m = [0u32; 16];
    for t in 0..16 {
        m[t] = u32::from_le_bytes([block[4 * t], block[4 * t + 1], block[4 * t + 2], block[4 * t + 3]]);
    }
    const S: [u32; 64] = [
        7, 12, 17, 22, 7, 12, 17, 22, 7, 12, 17, 22, 7, 12, 17, 22, 5, 9, 14, 20, 5, 9, 14, 20,
        5, 9, 14, 20, 5, 9, 14, 20, 4, 11, 16, 23, 4, 11, 16, 23, 4, 11, 16, 23, 4, 11, 16, 23,
        6, 10, 15, 21, 6, 10, 15, 21, 6, 10, 15, 21, 6, 10, 15, 21,
    ];
    let (mut a, mut b, mut c, mut d) = (h[0], h[1], h[2], h[3]);
    for t in 0..64 {
        let (f, g) = match t {
            0..=15 => ((b & c) | (!b & d), t),
            16..=31 => ((d & b) | (!d & c), (5 * t + 1) % 16),
            32..=47 => (b ^ c ^ d, (3 * t + 5) % 16),
            _ => (c ^ (b | !d), (7 * t) % 16),
        };
        let temp = d;
        d = c;
        c = b;
        b = b.wrapping_add(
            a.wrapping_add(f)
                .wrapping_add(md5_k_from_sine(t))
                .wrapping_add(m[g])
                .rotate_left(S[t]),
        );
        a = temp;
    }
    h[0] = h[0].wrapping_add(a);
    h[1] = h[1].wrapping_add(b);
    h[2] = h[2].wrapping_add(c);
    h[3] = h[3].wrapping_add(d);
}

fn ref_block(alg: RefAlg, h: &mut [u32; 8], block: &[u8]) {
    match alg {
        RefAlg::Md5 => ref_md5_block(h, block),
        RefAlg::Sha1 => ref_sha1_block(h, block),
        _ => ref_sha256_block(h, block),
    }
}

/// The standard padding of a stream ending at `cursor` within a block,
/// declaring `declared` message bytes.
fn ref_pad(cursor: usize, declared: u64, little_endian_length: bool) -> Vec<u8> {
    let mut p = vec![0x80u8];
    let zeros = if cursor < 56 { 55 - cursor } else { 119 - cursor };
    p.extend(std::iter::repeat(0u8).take(zeros));
    let bits = declared.wrapping_mul(8);
    if little_endian_length {
        p.extend(bits.to_le_bytes());
    } else {
        p.extend(bits.to_be_bytes());
    }
    p
}

/// Absorbs `msg` and its padding into the running state `h`, declaring
/// `declared` bytes in the length field.
fn ref_hash_from(alg: RefAlg, mut h: [u32; 8], msg: &[u8], declared: u64) -> [u32; 8] {
    let mut data = msg.to_vec();
    data.extend(ref_pad(msg.len() % 64, declared, alg == RefAlg::Md5));
    for block in data.chunks(64) {
        ref_block(alg, &mut h, block);
    }
    h
}

/// The digest as the engine serializes it: the algorithm's word count,
/// each word big-endian.
fn ref_serialize(h: &[u32; 8], words: usize) -> Vec<u8> {
    let mut out = Vec::new();
    for w in &h[..words] {
        out.extend(w.to_be_bytes());
    }
    out
}

fn ref_digest(alg: RefAlg, msg: &[u8]) -> Vec<u8> {
    ref_serialize(
        &ref_hash_from(alg, ref_init(alg), msg, msg.len() as u64),
        ref_words(alg),
    )
}

/// Standard HMAC-SHA-256, composed from the plain reference digest:
/// SHA-256((key64 XOR opad) ++ SHA-256((key64 XOR ipad) ++ msg)).
fn ref_hmac_sha256(key: &[u8], msg: &[u8]) -> Vec<u8> {
    assert!(key.len() <= 64);
    let mut opad_block = [0x5cu8; 64];
    let mut ipad_block = [0x36u8; 64];
    for i in 0..key.len() {
        opad_block[i] ^= key[i];
        ipad_block[i] ^= key[i];
    }
    let mut inner_msg = ipad_block.to_vec();
    inner_msg.extend_from_slice(msg);
    let inner = ref_digest(RefAlg::Sha256, &inner_msg);
    let mut outer_msg = opad_block.to_vec();
    outer_msg.extend_from_slice(&inner);
    ref_digest(RefAlg::Sha256, &outer_msg)
}

fn pseudo_bytes(n: usize, seed: u64) -> Vec<u8> {
    let mut state = seed;
    (0..n)
        .map(|_| {
            state = state.wrapping_mul(6364136223846793005).wrapping_add(1442695040888963407);
            (state >> 33) as u8
        })
        .collect()
}

fn engine_digest(alg: RefAlg, msg: &[u8]) -> Vec<u8> {
    let mut cc = CryptoCell310::new();
    match alg {
        RefAlg::Md5 => cc.set_mode_md5().unwrap(),
        RefAlg::Sha1 => cc.set_mode_sha1().unwrap(),
        RefAlg::Sha224 => cc.set_mode_sha224().unwrap(),
        RefAlg::Sha256 => cc.set_mode_sha256().unwrap(),
    }
    cc.add_data(msg).unwrap();
    let out = cc.run(vec![0u8; 32]).unwrap();
    out[..4 * ref_words(alg)].to_vec()
}

const LENGTHS: [usize; 17] = [0, 1, 3, 31, 54, 55, 56, 57, 63, 64, 65, 100, 119, 120, 127, 128, 300];

#[test]
fn sha256_matches_reference_for_many_lengths() {
    for &n in &LENGTHS {
        let msg = pseudo_bytes(n, 0x1234 + n as u64);
        assert_eq!(
            engine_digest(RefAlg::Sha256, &msg),
            ref_digest(RefAlg::Sha256, &msg),
            "length {}",
            n
        );
    }
}

#[test]
fn sha224_matches_reference_for_many_lengths() {
    for &n in &LENGTHS {
        let msg = pseudo_bytes(n, 0x5678 + n as u64);
        assert_eq!(
            engine_digest(RefAlg::Sha224, &msg),
            ref_digest(RefAlg::Sha224, &msg),
            "length {}",
            n
        );
    }
}

#[test]
fn sha1_matches_reference_for_many_lengths() {
    for &n in &LENGTHS {
        let msg = pseudo_bytes(n, 0x9abc + n as u64);
        assert_eq!(
            engine_digest(RefAlg::Sha1, &msg),
            ref_digest(RefAlg::Sha1, &msg),
            "length {}",
            n
        );
    }
}

#[test]
fn md5_matches_reference_for_many_lengths() {
    for &n in &LENGTHS {
        let msg = pseudo_bytes(n, 0xdef0 + n as u64);
        assert_eq!(
            engine_digest(RefAlg::Md5, &msg),
            ref_digest(RefAlg::Md5, &msg),
            "length {}",
            n
        );
    }
}

#[test]
fn hmac_sha256_three_uneven_chunks_matches_reference() {
    let key: Vec<u8> = (100..132u8).collect();
    let msg = pseudo_bytes(157, 0xfeed);
    let mut cc = CryptoCell310::new();
    cc.set_mode_hmacsha256(&key).unwrap();
    cc.add_data(&msg[..5]).unwrap();
    cc.add_data(&msg[5..80]).unwrap();
    cc.add_data(&msg[80..]).unwrap();
    let out = cc.run(vec![0u8; 32]).unwrap();
    assert_eq!(out, ref_hmac_sha256(&key, &msg));
}

#[test]
fn hmac_sha256_matches_reference_for_many_lengths() {
    let key = pseudo_bytes(32, 0xbeef);
    for &n in &LENGTHS {
        let msg = pseudo_bytes(n, 0x4321 + n as u64);
        let mut cc = CryptoCell310::new();
        cc.set_mode_hmacsha256(&key).unwrap();
        cc.add_data(&msg).unwrap();
        let out = cc.run(vec![0u8; 32]).unwrap();
        assert_eq!(out, ref_hmac_sha256(&key, &msg), "length {}", n);
    }
}

#[test]
fn hmac_sha256_empty_message_matches_reference() {
    let key = vec![0x0bu8; 32];
    let mut cc = CryptoCell310::new();
    cc.set_mode_hmacsha256(&key).unwrap();
    let out = cc.run(vec![0u8; 32]).unwrap();
    assert_eq!(out, ref_hmac_sha256(&key, b""));
}

fn hex_bytes(s: &str) -> Vec<u8> {
    assert!(s.len() % 2 == 0);
    let b = s.as_bytes();
    let val = |c: u8| -> u8 {
        match c {
            b'0'..=b'9' => c - b'0',
            b'a'..=b'f' => c - b'a' + 10,
            _ => panic!("not hex"),
        }
    };
    (0..s.len() / 2).map(|i| val(b[2 * i]) * 16 + val(b[2 * i + 1])).collect()
}

fn engine_hmac_sha256(key: &[u8], msg: &[u8]) -> Vec<u8> {
    let mut cc = CryptoCell310::new();
    cc.set_mode_hmacsha256(key).unwrap();
    cc.add_data(msg).unwrap();
    cc.run(vec![0u8; 32]).unwrap()
}

#[test]
fn hmac_sha256_published_vector_short_key() {
    // A 20-byte key of 0x0b bytes over the message "Hi There".
    let out = engine_hmac_sha256(&[0x0bu8; 20], b"Hi There");
    assert_eq!(
        out,
        hex_bytes("b0344c61d8db38535ca8afceaf0bf12b881dc200c9833da726e9376c2e32cff7")
    );
}

#[test]
fn hmac_sha256_published_vector_text_key() {
    let out = engine_hmac_sha256(b"Jefe", b"what do ya want for nothing?");
    assert_eq!(
        out,
        hex_bytes("5bdcc146bf60754e6a042426089575c75a003f089d2739839dec58b964ec3843")
    );
}

#[test]
fn hmac_sha256_published_vector_repeated_bytes() {
    let out = engine_hmac_sha256(&[0xaau8; 20], &[0xddu8; 50]);
    assert_eq!(
        out,
        hex_bytes("773ea91e36800e46854db8ebd09181a72959098b3ef8c122d9635514ced565fe")
    );
}
