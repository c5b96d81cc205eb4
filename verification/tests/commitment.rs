use auction_engine::commitment::{commitment_hash, digests_equal, encode_preimage};

#[test]
fn preimage_is_amount_then_salt() {
    let salt = [7u8; 32];
    let bytes = encode_preimage(100, &salt);
    assert_eq!(bytes.len(), 48);
    let mut expected = vec![0u8; 15];
    expected.push(100);
    expected.extend_from_slice(&salt);
    assert_eq!(bytes, expected);
}

#[test]
fn preimage_puts_the_high_byte_first() {
    let salt = [0u8; 32];
    let bytes = encode_preimage(0x0102030405060708090a0b0c0d0e0f10, &salt);
    assert_eq!(&bytes[..16], &[1, 2, 3, 4, 5, 6, 7, 8, 9, 10, 11, 12, 13, 14, 15, 16]);
}

#[test]
fn preimage_of_negative_amounts() {
    let salt = [0u8; 32];
    let bytes = encode_preimage(-2, &salt);
    let mut head = vec![255u8; 15];
    head.push(254);
    assert_eq!(&bytes[..16], &head[..]);
    let least = encode_preimage(i128::MIN, &salt);
    assert_eq!(least[0], 128);
    assert!(least[1..16].iter().all(|b| *b == 0));
    let most = encode_preimage(i128::MAX, &salt);
    assert_eq!(most[0], 127);
    assert!(most[1..16].iter().all(|b| *b == 255));
}

#[test]
fn commitment_is_the_sha256_of_the_preimage() {
    let salt = [7u8; 32];
    let expected: [u8; 32] = [
        191, 101, 191, 5, 50, 38, 193, 175, 90, 86, 133, 103, 121, 247, 146, 109, 32, 195, 22,
        63, 247, 43, 255, 167, 181, 111, 9, 101, 79, 135, 32, 240,
    ];
    assert_eq!(commitment_hash(100, &salt), expected);
}

#[test]
fn commitment_of_a_negative_amount() {
    let mut salt = [0u8; 32];
    for (k, b) in salt.iter_mut().enumerate() {
        *b = k as u8;
    }
    let expected: [u8; 32] = [
        102, 200, 230, 25, 22, 194, 129, 141, 39, 182, 108, 1, 245, 21, 112, 229, 175, 226, 157,
        148, 15, 41, 119, 15, 173, 212, 19, 216, 159, 239, 207, 184,
    ];
    assert_eq!(commitment_hash(-1, &salt), expected);
}

#[test]
fn commitment_depends_on_amount_and_salt() {
    let salt = [7u8; 32];
    let other = [8u8; 32];
    assert_eq!(commitment_hash(100, &salt), commitment_hash(100, &salt));
    assert_ne!(commitment_hash(100, &salt), commitment_hash(100, &other));
    assert_ne!(commitment_hash(100, &salt), commitment_hash(101, &salt));
    assert_ne!(commitment_hash(100, &salt), salt);
}

#[test]
fn digests_compare_byte_for_byte() {
    let a = [5u8; 32];
    let mut b = [5u8; 32];
    assert!(digests_equal(&a, &b));
    b[31] = 6;
    assert!(!digests_equal(&a, &b));
    b[31] = 5;
    b[0] = 4;
    assert!(!digests_equal(&a, &b));
}
