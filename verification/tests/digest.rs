use miner_core::digest::{hash_eq, hash_le, mining_hash, nonce_be_bytes};

fn challenge() -> [u8; 32] {
    let mut bytes = [0u8; 32];
    for (i, byte) in bytes.iter_mut().enumerate() {
        *byte = i as u8;
    }
    bytes
}

fn pubkey() -> [u8; 32] {
    let mut bytes = [0u8; 32];
    for (i, byte) in bytes.iter_mut().enumerate() {
        *byte = 32 + i as u8;
    }
    bytes
}

fn reference(challenge: &[u8; 32], pubkey: &[u8; 32], nonce: u64) -> [u8; 32] {
    solana_sdk::keccak::hashv(&[
        challenge.as_slice(),
        pubkey.as_slice(),
        nonce.to_be_bytes().as_slice(),
    ])
    .to_bytes()
}

#[test]
fn nonce_bytes_are_big_endian() {
    assert_eq!(nonce_be_bytes(0x0102_0304_0506_0708), [1, 2, 3, 4, 5, 6, 7, 8]);
    assert_eq!(nonce_be_bytes(0), [0; 8]);
    assert_eq!(nonce_be_bytes(1), [0, 0, 0, 0, 0, 0, 0, 1]);
    assert_eq!(nonce_be_bytes(256), [0, 0, 0, 0, 0, 0, 1, 0]);
    assert_eq!(nonce_be_bytes(u64::MAX), [255; 8]);
    assert_eq!(nonce_be_bytes(1 << 56), [1, 0, 0, 0, 0, 0, 0, 0]);
}

#[test]
fn nonce_bytes_agree_with_std() {
    for nonce in [0u64, 1, 255, 256, 65_535, 10_000, 0xdead_beef, 0x8000_0000_0000_0000, u64::MAX] {
        assert_eq!(nonce_be_bytes(nonce), nonce.to_be_bytes());
    }
}

#[test]
fn mining_hash_of_zero_inputs() {
    let zero = [0u8; 32];
    assert_eq!(
        mining_hash(&zero, &zero, 0),
        [
            60, 172, 49, 121, 8, 198, 153, 254, 135, 58, 127, 110, 228, 232, 205, 99, 251, 233,
            145, 139, 35, 21, 201, 123, 233, 21, 133, 89, 1, 104, 227, 1
        ]
    );
}

#[test]
fn mining_hash_known_values() {
    assert_eq!(
        mining_hash(&challenge(), &pubkey(), 0),
        [
            35, 180, 247, 209, 62, 85, 198, 112, 213, 154, 25, 189, 113, 233, 35, 15, 250, 93, 90,
            138, 111, 111, 109, 160, 188, 193, 138, 14, 15, 66, 206, 244
        ]
    );
    assert_eq!(
        mining_hash(&challenge(), &pubkey(), 1),
        [
            69, 231, 144, 13, 200, 133, 165, 49, 9, 98, 59, 200, 61, 89, 30, 211, 93, 64, 98, 220,
            134, 200, 243, 196, 204, 52, 192, 65, 127, 86, 61, 175
        ]
    );
    assert_eq!(
        mining_hash(&challenge(), &pubkey(), 0x0102_0304_0506_0708),
        [
            96, 26, 41, 216, 166, 124, 195, 94, 103, 178, 69, 209, 242, 238, 221, 124, 184, 69, 15,
            252, 119, 16, 103, 110, 26, 58, 106, 204, 171, 167, 223, 239
        ]
    );
}

#[test]
fn mining_hash_is_deterministic() {
    for nonce in [0u64, 1, 2, 9_999, 10_000, u64::MAX] {
        let first = mining_hash(&challenge(), &pubkey(), nonce);
        let second = mining_hash(&challenge(), &pubkey(), nonce);
        assert_eq!(first, second);
    }
}

#[test]
fn mining_hash_agrees_with_keccak() {
    for nonce in [0u64, 1, 41, 10_000, 1 << 40, u64::MAX] {
        assert_eq!(
            mining_hash(&challenge(), &pubkey(), nonce),
            reference(&challenge(), &pubkey(), nonce)
        );
    }
}

#[test]
fn mining_hash_depends_on_every_input() {
    let base = mining_hash(&challenge(), &pubkey(), 5);
    assert_ne!(base, challenge());
    assert_ne!(base, pubkey());
    assert_ne!(base, mining_hash(&challenge(), &pubkey(), 6));
    assert_ne!(base, mining_hash(&pubkey(), &challenge(), 5));
    let mut other = challenge();
    other[31] ^= 1;
    assert_ne!(base, mining_hash(&other, &pubkey(), 5));
    let mut other_key = pubkey();
    other_key[0] ^= 0x80;
    assert_ne!(base, mining_hash(&challenge(), &other_key, 5));
}

#[test]
fn hash_le_orders_by_first_differing_byte() {
    let low = [0u8; 32];
    let high = [255u8; 32];
    assert!(hash_le(&low, &high));
    assert!(!hash_le(&high, &low));
    assert!(hash_le(&low, &low));
    assert!(hash_le(&high, &high));

    let mut a = [7u8; 32];
    let mut b = [7u8; 32];
    a[0] = 1;
    b[0] = 2;
    a[31] = 200;
    b[31] = 100;
    assert!(hash_le(&a, &b));
    assert!(!hash_le(&b, &a));

    let mut c = [7u8; 32];
    let mut d = [7u8; 32];
    c[31] = 8;
    d[31] = 9;
    assert!(hash_le(&c, &d));
    assert!(!hash_le(&d, &c));
}

#[test]
fn hash_le_is_the_numeric_order() {
    let mut small = [0u8; 32];
    let mut large = [0u8; 32];
    small[24..].copy_from_slice(&1_000u64.to_be_bytes());
    large[24..].copy_from_slice(&1_000_000u64.to_be_bytes());
    assert!(hash_le(&small, &large));
    assert!(!hash_le(&large, &small));

    let mut carry = [0u8; 32];
    carry[23] = 1;
    let mut below = [0u8; 32];
    below[24..].copy_from_slice(&u64::MAX.to_be_bytes());
    assert!(hash_le(&below, &carry));
    assert!(!hash_le(&carry, &below));
}

#[test]
fn hash_le_agrees_with_keccak_hash_order() {
    for nonce in 0u64..64 {
        let a = mining_hash(&challenge(), &pubkey(), nonce);
        let b = mining_hash(&challenge(), &pubkey(), nonce + 1);
        let expected =
            solana_sdk::keccak::Hash::new_from_array(a) <= solana_sdk::keccak::Hash::new_from_array(b);
        assert_eq!(hash_le(&a, &b), expected);
    }
}

#[test]
fn hash_eq_compares_every_byte() {
    let a = [3u8; 32];
    let mut b = [3u8; 32];
    assert!(hash_eq(&a, &b));
    b[31] = 4;
    assert!(!hash_eq(&a, &b));
    b[31] = 3;
    b[0] = 0;
    assert!(!hash_eq(&a, &b));
}
