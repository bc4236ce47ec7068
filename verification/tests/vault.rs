use image_search::vault::{decrypt, encrypt, VaultError, NONCE_LEN, SALT_LEN, TAG_LEN};

#[test]
fn round_trip_returns_plaintext() {
    let plaintext: Vec<u8> = b"{\"api_id\":123,\"api_hash\":\"abc\"}".to_vec();
    let password: Vec<u8> = b"correct horse battery staple".to_vec();
    let blob = encrypt(&plaintext, &password).unwrap();
    assert_eq!(blob.len(), plaintext.len() + SALT_LEN + NONCE_LEN + TAG_LEN);
    let out = decrypt(&blob, &password).unwrap();
    assert_eq!(out, plaintext);
}

#[test]
fn round_trip_empty_plaintext() {
    let plaintext: Vec<u8> = Vec::new();
    let password: Vec<u8> = b"p".to_vec();
    let blob = encrypt(&plaintext, &password).unwrap();
    assert_eq!(blob.len(), SALT_LEN + NONCE_LEN + TAG_LEN);
    let out = decrypt(&blob, &password).unwrap();
    assert_eq!(out, plaintext);
}

#[test]
fn wrong_password_fails() {
    let plaintext: Vec<u8> = b"secret credentials".to_vec();
    let password: Vec<u8> = b"right password".to_vec();
    let other: Vec<u8> = b"wrong password".to_vec();
    let blob = encrypt(&plaintext, &password).unwrap();
    let r = decrypt(&blob, &other);
    assert_eq!(r, Err(VaultError::AuthenticationFailure));
}

#[test]
fn tampering_is_detected() {
    let plaintext: Vec<u8> = b"tamper with me".to_vec();
    let password: Vec<u8> = b"pw".to_vec();
    let blob = encrypt(&plaintext, &password).unwrap();
    // One bit flip in each part of the ciphertext-and-tag region: its first
    // byte, a middle byte, and the last tag byte, at different bit positions.
    let ct_start = SALT_LEN + NONCE_LEN;
    let positions = [
        (ct_start, 0u8),
        ((ct_start + blob.len()) / 2, 3u8),
        (blob.len() - 1, 7u8),
    ];
    for &(byte, bit) in positions.iter() {
        let mut tampered = blob.clone();
        tampered[byte] ^= 1u8 << bit;
        let r = decrypt(&tampered, &password);
        assert_eq!(r, Err(VaultError::AuthenticationFailure));
    }
}

#[test]
fn two_encryptions_differ() {
    let plaintext: Vec<u8> = b"same plaintext".to_vec();
    let password: Vec<u8> = b"same password".to_vec();
    let blob1 = encrypt(&plaintext, &password).unwrap();
    let blob2 = encrypt(&plaintext, &password).unwrap();
    assert_ne!(blob1, blob2);
    // Salt and nonce are each freshly randomized per encryption.
    assert_ne!(&blob1[..SALT_LEN], &blob2[..SALT_LEN]);
    assert_ne!(
        &blob1[SALT_LEN..SALT_LEN + NONCE_LEN],
        &blob2[SALT_LEN..SALT_LEN + NONCE_LEN]
    );
    // Both still decrypt to the same plaintext.
    assert_eq!(decrypt(&blob1, &password).unwrap(), plaintext);
    assert_eq!(decrypt(&blob2, &password).unwrap(), plaintext);
}

#[test]
fn truncated_blob_fails() {
    let password: Vec<u8> = b"pw".to_vec();
    let short: Vec<u8> = vec![0u8; SALT_LEN + NONCE_LEN - 1];
    assert_eq!(decrypt(&short, &password), Err(VaultError::AuthenticationFailure));
    let empty: Vec<u8> = Vec::new();
    assert_eq!(decrypt(&empty, &password), Err(VaultError::AuthenticationFailure));
}
