use doomslug::crypto::{hash, CryptoHash};

#[test]
fn test_hash_is_sha256() {
    // SHA-256 of the empty input.
    let expected_empty: [u8; 32] = [
        0xe3, 0xb0, 0xc4, 0x42, 0x98, 0xfc, 0x1c, 0x14, 0x9a, 0xfb, 0xf4, 0xc8, 0x99, 0x6f,
        0xb9, 0x24, 0x27, 0xae, 0x41, 0xe4, 0x64, 0x9b, 0x93, 0x4c, 0xa4, 0x95, 0x99, 0x1b,
        0x78, 0x52, 0xb8, 0x55,
    ];
    assert_eq!(hash(&[]).0, expected_empty);

    // SHA-256 of b"abc".
    let expected_abc: [u8; 32] = [
        0xba, 0x78, 0x16, 0xbf, 0x8f, 0x01, 0xcf, 0xea, 0x41, 0x41, 0x40, 0xde, 0x5d, 0xae,
        0x22, 0x23, 0xb0, 0x03, 0x61, 0xa3, 0x96, 0x17, 0x7a, 0x9c, 0xb4, 0x10, 0xff, 0x61,
        0xf2, 0x00, 0x15, 0xad,
    ];
    assert_eq!(hash(b"abc").0, expected_abc);

    assert_eq!(CryptoHash::hash_bytes(b"abc"), hash(b"abc"));
    assert_ne!(hash(b"abc"), hash(b"abd"));
}

#[test]
fn test_zero_hash_construction() {
    assert_eq!(CryptoHash::new().0, [0u8; 32]);
    assert_eq!(CryptoHash::default(), CryptoHash::new());
}

#[test]
fn test_base58_rendering() {
    // 32 zero bytes render as 32 leading-zero digits of the alphabet.
    assert_eq!(
        CryptoHash::new().to_base58(),
        "11111111111111111111111111111111"
    );
    // A known digest renders to the base58 alphabet, not to the raw bytes.
    let h = hash(b"abc");
    let encoded = h.to_base58();
    assert!(encoded.len() >= 32 && encoded.len() <= 45);
    assert!(encoded.chars().all(|c| c.is_ascii_alphanumeric()));
    assert!(!encoded.contains('0') && !encoded.contains('O'));
    assert_ne!(CryptoHash::new().to_base58(), h.to_base58());
}
