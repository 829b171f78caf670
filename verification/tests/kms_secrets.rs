use pqc_kyber::adds::kms::CertificateInfo;
use pqc_kyber::adds::kms::DummySharedSecret;
use pqc_kyber::adds::kms::SharedSecretError;
use pqc_kyber::adds::kms::CERTIFICATE_VALIDITY_SECONDS;
use pqc_kyber::adds::kms::SHARED_SECRET_LENGTH;

const TEST_KEY_ID: &str = "test-key";

fn create_test_secret() -> DummySharedSecret {
    DummySharedSecret::new([0u8; 32]).expect("Failed to create test secret")
}

#[test]
fn kms_test_shared_secret_creation() {
    let data = [0u8; 32];
    let secret = DummySharedSecret::new(data).expect("Failed to create shared secret");
    assert_eq!(secret.as_bytes(), &data);
}

#[test]
fn kms_test_from_bytes() {
    let data = [1u8; 32];
    let secret = DummySharedSecret::from_bytes(&data).expect("Failed to create secret from bytes");
    assert_eq!(secret.as_bytes(), &data);
}

#[test]
fn kms_test_invalid_length() {
    let data = [1u8; 16];
    let err = DummySharedSecret::from_bytes(&data).expect_err("Expected error for invalid length");
    match err {
        SharedSecretError::InvalidLength { expected, actual } => {
            assert_eq!(expected, SHARED_SECRET_LENGTH);
            assert_eq!(actual, 16);
        }
        _ => panic!("Expected InvalidLength error"),
    }
}

#[test]
fn kms_test_certificate_creation() {
    let mut secret = create_test_secret();
    let cert = secret
        .create_certificate(TEST_KEY_ID)
        .expect("Failed to create certificate");

    assert_eq!(cert.key_id, TEST_KEY_ID);
    assert_eq!(cert.status, "ACTIVE");

    let now = DummySharedSecret::get_current_timestamp().expect("Failed to get current time");

    assert!(cert.creation_date <= now);
    assert_eq!(
        cert.expiration_date,
        cert.creation_date + CERTIFICATE_VALIDITY_SECONDS
    );
}

#[test]
fn kms_test_default_implementation() {
    let secret = DummySharedSecret::default();
    assert_eq!(secret.as_bytes(), &[0u8; 32]);
}

#[test]
fn kms_test_timestamp_creation() {
    let secret = create_test_secret();
    let now = DummySharedSecret::get_current_timestamp().expect("Failed to get current time");
    assert!(secret.timestamp <= now);
    assert!(now - secret.timestamp < 2);
}

#[test]
fn kms_test_new_at_pins_fields() {
    let secret = DummySharedSecret::new_at([7u8; 32], 1234);
    assert_eq!(secret.as_bytes(), &[7u8; 32]);
    assert_eq!(secret.timestamp, 1234);
}

#[test]
fn kms_test_certificate_fields_visible() {
    let cert = CertificateInfo {
        key_id: "k".to_string(),
        creation_date: 10,
        expiration_date: 20,
        status: "ACTIVE".to_string(),
    };
    assert_eq!(cert.expiration_date - cert.creation_date, 10);
}
