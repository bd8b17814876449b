use aes_gcm::aead::{Aead, KeyInit};
use aes_gcm::{Aes256Gcm, Nonce};
use rofl_kyc_oracle::pqc_module::{
    KEM_CIPHERTEXT_LEN, KEM_PUBLIC_KEY_LEN, KEM_SECRET_KEY_LEN, NONCE_LEN, SHARED_SECRET_LEN,
};
use rofl_kyc_oracle::{KyberHandler, OracleError};

fn seal(public_key: &[u8], plaintext: &[u8], nonce: [u8; 12]) -> Vec<u8> {
    let mut rng = rand::thread_rng();
    let (ciphertext, shared_secret) = pqc_kyber::encapsulate(public_key, &mut rng).unwrap();
    let cipher = Aes256Gcm::new_from_slice(&shared_secret).unwrap();
    let sealed = cipher.encrypt(Nonce::from_slice(&nonce), plaintext).unwrap();
    let mut package = ciphertext.to_vec();
    package.extend_from_slice(&nonce);
    package.extend_from_slice(&sealed);
    package
}

#[test]
fn test_kyber_roundtrip() {
    let handler = KyberHandler::new();
    let pk = handler.get_public_key();

    let mut rng = rand::thread_rng();
    let (ciphertext, shared_secret) = pqc_kyber::encapsulate(&pk, &mut rng).unwrap();

    let decapped = handler.decapsulate(&ciphertext).unwrap();

    assert_eq!(shared_secret.to_vec(), decapped);
}

#[test]
fn constants_match_kyber768() {
    assert_eq!(KEM_CIPHERTEXT_LEN, pqc_kyber::KYBER_CIPHERTEXTBYTES);
    assert_eq!(KEM_PUBLIC_KEY_LEN, pqc_kyber::KYBER_PUBLICKEYBYTES);
    assert_eq!(KEM_SECRET_KEY_LEN, pqc_kyber::KYBER_SECRETKEYBYTES);
    assert_eq!(SHARED_SECRET_LEN, pqc_kyber::KYBER_SSBYTES);
    assert_eq!(KEM_CIPHERTEXT_LEN, 1088);
    assert_eq!(NONCE_LEN, 12);
}

#[test]
fn public_key_has_kyber768_length() {
    let handler = KyberHandler::new();
    assert_eq!(handler.get_public_key().len(), 1184);
}

#[test]
fn roundtrip_empty_plaintext() {
    let handler = KyberHandler::new();
    let package = seal(&handler.get_public_key(), b"", [7u8; 12]);
    assert_eq!(handler.decrypt(&package), Ok(Vec::new()));
}

#[test]
fn roundtrip_one_byte() {
    let handler = KyberHandler::new();
    let package = seal(&handler.get_public_key(), &[0x5a], [1u8; 12]);
    assert_eq!(handler.decrypt(&package), Ok(vec![0x5a]));
}

#[test]
fn roundtrip_ten_kilobytes() {
    let handler = KyberHandler::new();
    let plaintext: Vec<u8> = (0..10 * 1024).map(|i| (i % 251) as u8).collect();
    let package = seal(&handler.get_public_key(), &plaintext, [9u8; 12]);
    assert_eq!(handler.decrypt(&package), Ok(plaintext));
}

#[test]
fn tampered_kem_ciphertext_is_rejected() {
    let handler = KyberHandler::new();
    let mut package = seal(&handler.get_public_key(), b"secret data", [3u8; 12]);
    package[10] ^= 0x01;
    assert_eq!(handler.decrypt(&package), Err(OracleError::AuthenticationFailure));
}

#[test]
fn tampered_aead_ciphertext_is_rejected() {
    let handler = KyberHandler::new();
    let mut package = seal(&handler.get_public_key(), b"secret data", [3u8; 12]);
    package[KEM_CIPHERTEXT_LEN + NONCE_LEN] ^= 0x80;
    assert_eq!(handler.decrypt(&package), Err(OracleError::AuthenticationFailure));
}

#[test]
fn tampered_tag_is_rejected() {
    let handler = KyberHandler::new();
    let mut package = seal(&handler.get_public_key(), b"secret data", [3u8; 12]);
    let last = package.len() - 1;
    package[last] ^= 0x04;
    assert_eq!(handler.decrypt(&package), Err(OracleError::AuthenticationFailure));
}

#[test]
fn tampered_nonce_is_rejected() {
    let handler = KyberHandler::new();
    let mut package = seal(&handler.get_public_key(), b"secret data", [3u8; 12]);
    package[KEM_CIPHERTEXT_LEN] ^= 0x10;
    assert_eq!(handler.decrypt(&package), Err(OracleError::AuthenticationFailure));
}

#[test]
fn package_shorter_than_kem_ciphertext_is_malformed() {
    let handler = KyberHandler::new();
    assert_eq!(handler.decrypt(&[]), Err(OracleError::MalformedPackage));
    assert_eq!(
        handler.decrypt(&vec![0u8; KEM_CIPHERTEXT_LEN - 1]),
        Err(OracleError::MalformedPackage)
    );
}

#[test]
fn package_without_full_nonce_is_malformed() {
    let handler = KyberHandler::new();
    assert_eq!(
        handler.decrypt(&vec![0u8; KEM_CIPHERTEXT_LEN + NONCE_LEN - 1]),
        Err(OracleError::MalformedPackage)
    );
}

#[test]
fn sealed_part_shorter_than_tag_fails_authentication() {
    let handler = KyberHandler::new();
    assert_eq!(
        handler.decrypt(&vec![0u8; KEM_CIPHERTEXT_LEN + NONCE_LEN + 15]),
        Err(OracleError::AuthenticationFailure)
    );
}

#[test]
fn package_under_another_key_fails_authentication() {
    let handler = KyberHandler::new();
    let other = KyberHandler::new();
    let package = seal(&other.get_public_key(), b"for someone else", [4u8; 12]);
    assert_eq!(handler.decrypt(&package), Err(OracleError::AuthenticationFailure));
}

#[test]
fn decapsulate_refuses_wrong_length() {
    let handler = KyberHandler::new();
    assert_eq!(handler.decapsulate(&[0u8; 10]), Err(OracleError::MalformedPackage));
}

#[test]
fn from_keys_checks_lengths() {
    let mut rng = rand::thread_rng();
    let keys = pqc_kyber::keypair(&mut rng).unwrap();
    let handler = KyberHandler::from_keys(keys.public.to_vec(), keys.secret.to_vec()).unwrap();
    assert_eq!(handler.get_public_key(), keys.public.to_vec());
    let package = seal(&keys.public, b"hello", [2u8; 12]);
    assert_eq!(handler.decrypt(&package), Ok(b"hello".to_vec()));
    assert!(matches!(
        KyberHandler::from_keys(vec![0u8; 5], keys.secret.to_vec()),
        Err(OracleError::ConfigurationError)
    ));
}
