use commemorate::{
    decrypt, derive_key, encrypt, hash_password, open, seal, verify_password, CryptoError,
    NONCE_LENGTH, SALT_LENGTH,
};

const TAG: usize = 16;
const MIN_ENVELOPE: usize = 2 + SALT_LENGTH + NONCE_LENGTH + TAG;

fn credential_len(envelope: &[u8]) -> usize {
    (envelope[0] as usize) * 256 + envelope[1] as usize
}

#[test]
fn hello_world_scenario() {
    let env = seal(b"hello world", "correct horse").unwrap();
    assert!(env.len() >= MIN_ENVELOPE + 11);
    assert_eq!(env.len(), 2 + credential_len(&env) + SALT_LENGTH + NONCE_LENGTH + 11 + TAG);
    assert_eq!(open(&env, "correct horse").unwrap(), b"hello world".to_vec());
    assert_eq!(open(&env, "wrong"), Err(CryptoError::WrongPassword));
}

#[test]
fn round_trip_empty_plaintext() {
    let env = seal(b"", "pw").unwrap();
    assert_eq!(env.len(), 2 + credential_len(&env) + SALT_LENGTH + NONCE_LENGTH + TAG);
    assert_eq!(open(&env, "pw").unwrap(), Vec::<u8>::new());
}

#[test]
fn round_trip_binary_plaintext() {
    let data: Vec<u8> = (0..=255u8).collect();
    let env = seal(&data, "p\u{e9}ssw\u{f6}rd").unwrap();
    assert_eq!(open(&env, "p\u{e9}ssw\u{f6}rd").unwrap(), data);
}

#[test]
fn sealing_twice_differs_but_both_open() {
    let a = seal(b"same", "pw").unwrap();
    let b = seal(b"same", "pw").unwrap();
    assert_ne!(a, b);
    assert_eq!(open(&a, "pw").unwrap(), b"same".to_vec());
    assert_eq!(open(&b, "pw").unwrap(), b"same".to_vec());
}

#[test]
fn flipped_bit_in_ciphertext_is_detected() {
    let env = seal(b"hello world", "pw").unwrap();
    let start = 2 + credential_len(&env) + SALT_LENGTH + NONCE_LENGTH;
    let mut first = env.clone();
    first[start] ^= 0x01;
    assert_eq!(open(&first, "pw"), Err(CryptoError::IntegrityError));
    let mut last = env.clone();
    let end = last.len() - 1;
    last[end] ^= 0x80;
    assert_eq!(open(&last, "pw"), Err(CryptoError::IntegrityError));
}

#[test]
fn wrong_password_is_reported() {
    let env = seal(b"secret", "alpha").unwrap();
    assert_eq!(open(&env, "beta"), Err(CryptoError::WrongPassword));
}

#[test]
fn truncated_envelopes_are_malformed() {
    let env = seal(b"hello world", "pw").unwrap();
    for k in 0..MIN_ENVELOPE {
        assert_eq!(open(&env[..k], "pw"), Err(CryptoError::MalformedEnvelope));
    }
    let cut = 2 + credential_len(&env) + SALT_LENGTH + NONCE_LENGTH + TAG - 1;
    assert_eq!(open(&env[..cut], "pw"), Err(CryptoError::MalformedEnvelope));
}

#[test]
fn prefix_past_the_end_is_malformed() {
    let mut env = vec![0xffu8, 0xff];
    env.extend_from_slice(&[0u8; 100]);
    assert_eq!(open(&env, "pw"), Err(CryptoError::MalformedEnvelope));
}

#[test]
fn unreadable_credential_is_auth_format_error() {
    let mut env = vec![0u8, 3, b'a', b'b', b'c'];
    env.extend_from_slice(&[7u8; SALT_LENGTH + NONCE_LENGTH + TAG]);
    assert_eq!(open(&env, "pw"), Err(CryptoError::AuthFormatError));
    assert_eq!(verify_password("pw", b"not a hash"), Err(CryptoError::AuthFormatError));
}

#[test]
fn credentials_are_independent_and_verify() {
    let a = hash_password("correct horse").unwrap();
    let b = hash_password("correct horse").unwrap();
    assert_ne!(a, b);
    assert_eq!(verify_password("correct horse", &a), Ok(true));
    assert_eq!(verify_password("correct horse", &b), Ok(true));
    assert_eq!(verify_password("wrong", &a), Ok(false));
}

#[test]
fn derived_key_is_deterministic() {
    let salt = b"abcdefghijklmnopqrstuv";
    let k1 = derive_key("pw", salt).unwrap();
    let k2 = derive_key("pw", salt).unwrap();
    assert_eq!(k1.len(), 32);
    assert_eq!(k1, k2);
    assert_ne!(k1.as_slice(), &salt[..]);
    assert_ne!(k1, derive_key("pw2", salt).unwrap());
}

#[test]
fn short_salt_fails_key_derivation() {
    assert_eq!(derive_key("pw", b"short"), Err(CryptoError::KeyDerivationFailure));
}

#[test]
fn payload_layout_and_round_trip() {
    let payload = encrypt(b"abc", "pw").unwrap();
    assert_eq!(payload.len(), SALT_LENGTH + NONCE_LENGTH + 3 + TAG);
    assert_ne!(&payload[SALT_LENGTH + NONCE_LENGTH..SALT_LENGTH + NONCE_LENGTH + 3], b"abc");
    assert_eq!(decrypt(&payload, "pw").unwrap(), b"abc".to_vec());
    assert_eq!(decrypt(&payload, "other"), Err(CryptoError::IntegrityError));
    assert_eq!(decrypt(&payload[..10], "pw"), Err(CryptoError::MalformedEnvelope));
}

#[test]
fn salt_is_b64_text_and_plaintext_length_follows_payload() {
    let payload = encrypt(b"twelve bytes", "pw").unwrap();
    assert!(payload[..SALT_LENGTH]
        .iter()
        .all(|b| b.is_ascii_alphanumeric() || *b == b'+' || *b == b'/'));
    assert!(std::str::from_utf8(&payload[..SALT_LENGTH]).is_ok());
    let plain = decrypt(&payload, "pw").unwrap();
    assert_eq!(plain.len() + SALT_LENGTH + NONCE_LENGTH + TAG, payload.len());
}
