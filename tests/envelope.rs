use base64::Engine;
use integrity_core::envelope::{
    frame_envelope, generate_keys, open_envelope, seal_report, seal_with, split_envelope,
    CryptoError, KEM_CIPHERTEXT_LEN, NONCE_LEN, PUBLIC_KEY_LEN, SECRET_KEY_LEN, TAG_LEN,
};

#[test]
fn keys_have_kyber_lengths() {
    let keys = generate_keys().expect("keys");
    assert_eq!(keys.public.len(), PUBLIC_KEY_LEN);
    assert_eq!(keys.secret.len(), SECRET_KEY_LEN);
}

#[test]
fn sealed_report_opens_to_the_same_bytes() {
    let keys = generate_keys().expect("keys");
    let report = "Forbidden Process detected: OBS64.exe (PID: 4521)\nVirtual Machine Detected";
    let envelope = seal_report(report, &keys.public).expect("sealed");
    let opened = open_envelope(&envelope, &keys.secret).expect("opened");
    assert_eq!(opened, report.as_bytes().to_vec());
}

#[test]
fn empty_report_round_trips() {
    let keys = generate_keys().expect("keys");
    let envelope = seal_report("", &keys.public).expect("sealed");
    assert_eq!(open_envelope(&envelope, &keys.secret), Ok(vec![]));
}

#[test]
fn envelope_has_the_framed_layout() {
    let keys = generate_keys().expect("keys");
    let report = "abc";
    let envelope = seal_report(report, &keys.public).expect("sealed");
    let bytes = base64::engine::general_purpose::STANDARD.decode(&envelope).expect("base64");
    assert_eq!(bytes.len(), KEM_CIPHERTEXT_LEN + NONCE_LEN + report.len() + TAG_LEN);
    // the report does not appear in the clear
    assert!(!bytes.windows(3).any(|w| w == b"abc"));
}

#[test]
fn two_seals_of_one_report_differ() {
    let keys = generate_keys().expect("keys");
    let a = seal_report("same report", &keys.public).expect("sealed");
    let b = seal_report("same report", &keys.public).expect("sealed");
    assert_ne!(a, b);
}

#[test]
fn wrong_public_key_length_is_refused() {
    assert_eq!(seal_report("x", &[0u8; 10]), Err(CryptoError::InvalidPublicKey));
    assert_eq!(seal_report("x", &[]), Err(CryptoError::InvalidPublicKey));
}

#[test]
fn wrong_secret_key_length_is_refused() {
    let keys = generate_keys().expect("keys");
    let envelope = seal_report("x", &keys.public).expect("sealed");
    assert_eq!(open_envelope(&envelope, &keys.secret[..100]), Err(CryptoError::InvalidSecretKey));
}

#[test]
fn malformed_envelopes_are_refused() {
    let keys = generate_keys().expect("keys");
    assert_eq!(open_envelope("not base64!", &keys.secret), Err(CryptoError::Malformed));
    let short = base64::engine::general_purpose::STANDARD.encode([1u8; 50]);
    assert_eq!(open_envelope(&short, &keys.secret), Err(CryptoError::Malformed));
}

#[test]
fn tampered_envelope_does_not_authenticate() {
    let keys = generate_keys().expect("keys");
    let envelope = seal_report("report", &keys.public).expect("sealed");
    let mut bytes = base64::engine::general_purpose::STANDARD.decode(&envelope).expect("base64");
    let last = bytes.len() - 1;
    bytes[last] ^= 1;
    let tampered = base64::engine::general_purpose::STANDARD.encode(&bytes);
    assert_eq!(open_envelope(&tampered, &keys.secret), Err(CryptoError::Authentication));
}

#[test]
fn other_receiver_cannot_open() {
    let keys = generate_keys().expect("keys");
    let other = generate_keys().expect("keys");
    let envelope = seal_report("report", &keys.public).expect("sealed");
    assert_eq!(open_envelope(&envelope, &other.secret), Err(CryptoError::Authentication));
}

#[test]
fn frame_and_split_are_inverse() {
    let ct = vec![7u8; KEM_CIPHERTEXT_LEN];
    let nonce = vec![9u8; NONCE_LEN];
    let sealed = vec![1u8, 2, 3];
    let framed = frame_envelope(&ct, &nonce, &sealed);
    assert_eq!(framed.len(), KEM_CIPHERTEXT_LEN + NONCE_LEN + 3);
    assert_eq!(split_envelope(&framed), Some((ct, nonce, sealed)));
    assert_eq!(split_envelope(&framed[..KEM_CIPHERTEXT_LEN + NONCE_LEN - 1]), None);
}

#[test]
fn sealing_with_fixed_randomness_is_deterministic() {
    let ct = vec![3u8; KEM_CIPHERTEXT_LEN];
    let secret = vec![5u8; 32];
    let nonce = vec![0u8; NONCE_LEN];
    let a = seal_with("hello", &ct, &secret, &nonce).expect("sealed");
    let b = seal_with("hello", &ct, &secret, &nonce).expect("sealed");
    assert_eq!(a, b);
    let c = seal_with("hellp", &ct, &secret, &nonce).expect("sealed");
    assert_ne!(a, c);
    let bytes = base64::engine::general_purpose::STANDARD.decode(&a).expect("base64");
    assert_eq!(&bytes[..KEM_CIPHERTEXT_LEN], &ct[..]);
    assert_eq!(&bytes[KEM_CIPHERTEXT_LEN..KEM_CIPHERTEXT_LEN + NONCE_LEN], &nonce[..]);
    assert_ne!(&bytes[KEM_CIPHERTEXT_LEN + NONCE_LEN..KEM_CIPHERTEXT_LEN + NONCE_LEN + 5], b"hello");
}
