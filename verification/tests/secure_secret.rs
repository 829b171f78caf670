use pqc_kyber::adds::secure::SecureSecret;
use pqc_kyber::adds::secure::SecureSecretError;
use pqc_kyber::adds::tls::secure_clear;

#[test]
fn test_secure_secret_creation() {
    let test_data = vec![1, 2, 3, 4];
    let secret = SecureSecret::from_bytes(&test_data);
    assert_eq!(secret.expose(), &test_data[..]);
}

#[test]
fn test_secure_secret_comparison() {
    let secret1 = SecureSecret::from_bytes(&[1, 2, 3]);
    let secret2 = SecureSecret::from_bytes(&[1, 2, 3]);
    let secret3 = SecureSecret::from_bytes(&[1, 2, 4]);

    assert!(secret1 == secret2);
    assert!(secret1 != secret3);
}

#[test]
fn test_memory_layout() {
    assert!(std::mem::align_of::<SecureSecret>() >= std::mem::align_of::<u8>());
    assert!(std::mem::size_of::<SecureSecret>() > 0);
}

#[test]
fn test_empty_secret() {
    let secret = SecureSecret::from_bytes(&[]);
    assert!(secret.is_empty());
    assert_eq!(secret.len(), 0);
}

#[test]
fn test_zeroize() {
    let mut secret = SecureSecret::from_bytes(&[1, 2, 3, 4]);
    secret.zeroize();
    assert_eq!(secret.expose(), &[0, 0, 0, 0]);
}

#[test]
fn test_metadata() {
    let secret = SecureSecret::from_bytes(&[1, 2, 3]);
    assert!(!secret.is_empty());
    assert_eq!(secret.len(), 3);
}

#[test]
fn test_comparison_differing_lengths() {
    let short = SecureSecret::from_bytes(&[1, 2]);
    let long = SecureSecret::from_bytes(&[1, 2, 0]);
    assert!(short != long);
}

#[test]
fn test_secure_secret_error_variants() {
    assert_ne!(
        SecureSecretError::ProcessingError,
        SecureSecretError::InvalidLength
    );
}

#[test]
fn test_secure_clear_wipes_buffer() {
    let mut buffer = vec![1u8, 2, 3, 255];
    secure_clear(&mut buffer);
    assert_eq!(buffer, vec![0u8, 0, 0, 0]);
}
