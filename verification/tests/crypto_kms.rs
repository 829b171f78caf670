use pqc_kyber::adds::secure::SecureSecret;
use pqc_kyber::crypto::kms::Certificate;
use pqc_kyber::crypto::kms::DummySharedSecret;
use pqc_kyber::crypto::kms::KeyManagementSystem;
use pqc_kyber::crypto::kms::KmsError;
use pqc_kyber::crypto::kms::SharedSecret;
use pqc_kyber::crypto::kms::CERTIFICATE_VALIDITY_SECONDS;

const TEST_KEY_ID: &str = "test-key";

fn create_store_test_secret() -> DummySharedSecret {
    DummySharedSecret::new([0u8; 32]).expect("Failed to create test secret")
}

#[test]
fn mod_test_shared_secret_creation() {
    let data = [0u8; 32];
    let secret = DummySharedSecret::new(data).expect("Failed to create shared secret");
    assert_eq!(secret.as_bytes(), &data);
}

#[test]
fn mod_test_from_bytes() {
    let data = [1u8; 32];
    let secret = DummySharedSecret::from_bytes(&data).expect("Failed to create secret from bytes");
    assert_eq!(secret.as_bytes(), &data);
}

#[test]
fn mod_test_invalid_length() {
    let data = [1u8; 16];
    let err = DummySharedSecret::from_bytes(&data).expect_err("Expected error for invalid length");
    assert!(err.to_string().contains("BadLength"));
}

#[test]
fn mod_test_certificate_creation() {
    let mut secret = create_store_test_secret();
    let cert = secret
        .create_certificate(TEST_KEY_ID)
        .expect("Failed to create certificate");

    assert_eq!(cert.key_id, TEST_KEY_ID);
    assert_eq!(cert.status, "ACTIVE");

    let now = DummySharedSecret::get_current_timestamp().expect("Failed to get current time");

    assert!(cert.creation_date <= now);
    assert_eq!(
        cert.expiration_date,
        cert.creation_date + CERTIFICATE_VALIDITY_SECONDS
    );
}

#[test]
fn mod_test_default_implementation() {
    let secret = DummySharedSecret::default();
    assert_eq!(secret.as_bytes(), &[0u8; 32]);
}

#[test]
fn mod_test_timestamp_creation() {
    let secret = create_store_test_secret();
    let now = DummySharedSecret::get_current_timestamp().expect("Failed to get current time");
    assert!(secret.timestamp <= now);
    assert!(now - secret.timestamp < 2);
}

#[test]
fn test_kms_operations() {
    let mut kms = KeyManagementSystem::new();
    let secret = SecureSecret::from_bytes(&[1u8; 32]);

    assert!(kms.add_secret("test-key", secret).is_ok());

    assert!(kms.get_secret("test-key").is_some());

    let cert = Certificate {
        key_id: "test-key".to_string(),
        creation_date: 0,
        expiration_date: 100,
        status: "ACTIVE".to_string(),
    };

    assert!(kms.add_certificate(cert).is_ok());
    assert!(kms.get_certificate("test-key").is_some());
}

#[test]
fn test_kms_duplicate_secret_rejected() {
    let mut kms = KeyManagementSystem::new();
    assert!(kms.add_secret("k1", SecureSecret::from_bytes(&[1u8; 4])).is_ok());
    let err = kms
        .add_secret("k1", SecureSecret::from_bytes(&[2u8; 4]))
        .expect_err("duplicate identifier must be rejected");
    assert_eq!(err, KmsError::DuplicateKey);
    assert!(kms.get_secret("k2").is_none());
}

#[test]
fn test_kms_rotate_and_remove() {
    let mut kms = KeyManagementSystem::new();
    assert_eq!(
        kms.rotate_secret("missing", SecureSecret::from_bytes(&[0u8; 1])),
        Err(KmsError::NotFound)
    );
    assert!(kms.add_secret("k1", SecureSecret::from_bytes(&[1u8, 2u8])).is_ok());
    assert!(kms
        .rotate_secret("k1", SecureSecret::from_bytes(&[9u8, 9u8]))
        .is_ok());
    assert_eq!(kms.get_secret("k1").unwrap().expose(), &[9u8, 9u8]);
    assert!(kms.remove_secret("k1").is_ok());
    assert!(kms.get_secret("k1").is_none());
    assert_eq!(kms.remove_secret("k1"), Err(KmsError::NotFound));
}

#[test]
fn test_kms_error_messages() {
    assert!(KmsError::NotFound.to_string().contains("NotFound"));
    assert!(KmsError::DuplicateKey.to_string().contains("DuplicateKey"));
    assert!(KmsError::TimeError.to_string().contains("TimeError"));
}
