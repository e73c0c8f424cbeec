//! Functional tests of the cipher: the standard's published test vectors,
//! round trips, schedule determinism, key-length validation, substitution
//! samples and avalanche behaviour.
use kisaseed::{decrypt, derive_key, divide_block, encrypt, get_seed_substitute, InvalidLength, SEED};

fn hex_bytes_16(s: &str) -> [u8; 16] {
    assert_eq!(s.len(), 32);
    let mut out = [0u8; 16];
    let b = s.as_bytes();
    for i in 0..16 {
        let hi = (b[2 * i] as char).to_digit(16).unwrap() as u8;
        let lo = (b[2 * i + 1] as char).to_digit(16).unwrap() as u8;
        out[i] = (hi << 4) | lo;
    }
    out
}

fn check_vector(key_hex: &str, pt_hex: &str, ct_hex: &str) {
    let key = hex_bytes_16(key_hex);
    let pt = hex_bytes_16(pt_hex);
    let ct = hex_bytes_16(ct_hex);
    let cipher = SEED::new(&key);
    assert_eq!(cipher.encrypt_block(pt), ct);
    assert_eq!(cipher.decrypt_block(ct), pt);
}

#[test]
fn known_answer_zero_key() {
    check_vector(
        "00000000000000000000000000000000",
        "000102030405060708090a0b0c0d0e0f",
        "5ebac6e0054e166819aff1cc6d346cdb",
    );
}

#[test]
fn known_answer_zero_plaintext() {
    check_vector(
        "000102030405060708090a0b0c0d0e0f",
        "00000000000000000000000000000000",
        "c11f22f20140505084483597e4370f43",
    );
}

#[test]
fn known_answer_third_vector() {
    check_vector(
        "4706480851e61be85d74bfb3fd956185",
        "83a2f8a288641fb9a4e9a5cc2f131c7d",
        "ee54d13ebcae706d226bc3142cd40d4a",
    );
}

#[test]
fn known_answer_fourth_vector() {
    check_vector(
        "28dbc3bc49ffd87dcfa509b11d422be7",
        "b41e6be2eba84a148e2eed84593c5ec7",
        "9b9b7bfcd1813cb95d0b3618f40f5122",
    );
}

#[test]
fn free_functions_match_methods() {
    let key = hex_bytes_16("4706480851e61be85d74bfb3fd956185");
    let pt = hex_bytes_16("83a2f8a288641fb9a4e9a5cc2f131c7d");
    let schedule = derive_key(key);
    let mut ct = [0u8; 16];
    encrypt(pt, schedule, &mut ct);
    assert_eq!(ct, SEED::new(&key).encrypt_block(pt));
    let mut back = [0u8; 16];
    decrypt(ct, schedule, &mut back);
    assert_eq!(back, pt);
}

// A small deterministic pseudo-random stream for the statistical tests.
struct XorShift(u64);

impl XorShift {
    fn next(&mut self) -> u64 {
        let mut x = self.0;
        x ^= x << 13;
        x ^= x >> 7;
        x ^= x << 17;
        self.0 = x;
        x
    }

    fn bytes_16(&mut self) -> [u8; 16] {
        let a = self.next().to_be_bytes();
        let b = self.next().to_be_bytes();
        let mut out = [0u8; 16];
        out[..8].copy_from_slice(&a);
        out[8..].copy_from_slice(&b);
        out
    }
}

#[test]
fn round_trip_random_blocks() {
    let mut rng = XorShift(0x1234_5678_9abc_def1);
    for _ in 0..50 {
        let key = rng.bytes_16();
        let block = rng.bytes_16();
        let cipher = SEED::new(&key);
        assert_eq!(cipher.decrypt_block(cipher.encrypt_block(block)), block);
        assert_eq!(cipher.encrypt_block(cipher.decrypt_block(block)), block);
    }
}

#[test]
fn schedule_is_deterministic() {
    let mut rng = XorShift(0x0bad_cafe_f00d_beef);
    for _ in 0..20 {
        let key = rng.bytes_16();
        assert_eq!(derive_key(key), derive_key(key));
    }
    let zero_schedule = derive_key([0u8; 16]);
    assert_eq!(zero_schedule, derive_key([0u8; 16]));
    // Spot values of the schedule derived from the all-zero key.
    assert_eq!(zero_schedule[0], 0x7c8f_8c7e);
    assert_eq!(zero_schedule[1], 0xc737_a22c);
    assert_eq!(zero_schedule[31], 0x98b2_55b0);
}

#[test]
fn key_length_is_validated() {
    for len in [0usize, 15, 17, 32] {
        let key = vec![0x5au8; len];
        assert_eq!(SEED::new_from_slice(&key).err(), Some(InvalidLength));
    }
    assert!(SEED::new_from_slice(&[0x5au8; 16]).is_ok());
}

#[test]
fn valid_slice_key_matches_array_key() {
    let key = hex_bytes_16("28dbc3bc49ffd87dcfa509b11d422be7");
    let pt = hex_bytes_16("b41e6be2eba84a148e2eed84593c5ec7");
    let from_slice = SEED::new_from_slice(key.as_slice()).unwrap();
    assert_eq!(from_slice.encrypt_block(pt), SEED::new(&key).encrypt_block(pt));
}

#[test]
fn substitution_samples() {
    assert_eq!(get_seed_substitute(0), 0xb829_b829);
    assert_eq!(get_seed_substitute(1), 0x9425_9805);
    assert_eq!(get_seed_substitute(0x1234_5678), 0x15f5_faff);
    assert_eq!(get_seed_substitute(0xffff_ffff), 0xbb96_bb96);
    assert_eq!(get_seed_substitute(0x9e37_79b9), 0xc737_a22c);
}

#[test]
fn divide_block_reads_big_endian_words() {
    let block = hex_bytes_16("000102030405060708090a0b0c0d0e0f");
    assert_eq!(
        divide_block(&block),
        (0x0001_0203, 0x0405_0607, 0x0809_0a0b, 0x0c0d_0e0f)
    );
    assert_eq!(divide_block(&[0xffu8; 16]), (u32::MAX, u32::MAX, u32::MAX, u32::MAX));
}

fn count_flipped_bits(a: &[u8; 16], b: &[u8; 16]) -> u32 {
    let mut n = 0u32;
    for i in 0..16 {
        n += (a[i] ^ b[i]).count_ones();
    }
    n
}

#[test]
fn avalanche_on_plaintext_bits() {
    let mut rng = XorShift(0xdead_beef_0134_5678);
    let mut total = 0u32;
    let trials = 64;
    for t in 0..trials {
        let key = rng.bytes_16();
        let block = rng.bytes_16();
        let mut flipped = block;
        flipped[(t % 16) as usize] ^= 1u8 << (t % 8);
        let cipher = SEED::new(&key);
        total += count_flipped_bits(&cipher.encrypt_block(block), &cipher.encrypt_block(flipped));
    }
    // On average about half of the 128 output bits should change.
    let average_times_trials = total;
    assert!(average_times_trials > 48 * trials, "average too low: {}", total);
    assert!(average_times_trials < 80 * trials, "average too high: {}", total);
}

#[test]
fn avalanche_on_key_bits() {
    let mut rng = XorShift(0x0f1e_2d3c_4b5a_6978);
    let mut total = 0u32;
    let trials = 64;
    for t in 0..trials {
        let key = rng.bytes_16();
        let block = rng.bytes_16();
        let mut flipped_key = key;
        flipped_key[(t % 16) as usize] ^= 1u8 << (t % 8);
        total += count_flipped_bits(
            &SEED::new(&key).encrypt_block(block),
            &SEED::new(&flipped_key).encrypt_block(block),
        );
    }
    assert!(total > 48 * trials, "average too low: {}", total);
    assert!(total < 80 * trials, "average too high: {}", total);
}

#[test]
fn wipe_clears_the_schedule() {
    let key = hex_bytes_16("000102030405060708090a0b0c0d0e0f");
    let mut cipher = SEED::new(&key);
    cipher.wipe();
    // A wiped instance behaves as one whose schedule is all zeros.
    let zeroed = cipher.encrypt_block([0u8; 16]);
    let mut expected = [0u8; 16];
    encrypt([0u8; 16], [0u32; 32], &mut expected);
    assert_eq!(zeroed, expected);
}
