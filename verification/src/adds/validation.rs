//! Validation results and key-material validation.

use vstd::prelude::*;

use crate::kyber::kyber_public_key_bytes;
use crate::kyber::kyber_secret_key_bytes;

verus! {

/// Outcome of validating one transaction or key.
#[derive(Clone, Debug)]
pub struct ValidationResult {
    pub is_valid: bool,
    pub errors: Vec<ValidationError>,
    pub timestamp: String,
    pub validator: String,
}

/// The ways a validation can fail.
#[derive(Clone, Debug)]
pub enum ValidationError {
    InvalidSource,
    InvalidTarget,
    InvalidAmount,
    InvalidCurrency,
    InvalidKey,
    SystemError(String),
}

/// The decision behind key validation: both byte strings must be non-empty.
pub fn keys_nonempty(public_bytes: &[u8], secret_bytes: &[u8]) -> (r: bool)
    ensures
        r == (public_bytes@.len() > 0 && secret_bytes@.len() > 0),
{
    !public_bytes.is_empty() && !secret_bytes.is_empty()
}

/// Validates a Kyber key pair: both keys must expose non-empty byte strings.
/// Kyber-1024 keys are fixed-size arrays, so validation always succeeds and
/// always reports the pair as valid.
pub fn validate_keys(
    public_key: &pqcrypto_kyber::kyber1024::PublicKey,
    secret_key: &pqcrypto_kyber::kyber1024::SecretKey,
) -> (r: Result<bool, ValidationError>)
    ensures
        r matches Ok(b) && b,
{
    let public_bytes = kyber_public_key_bytes(public_key);
    let secret_bytes = kyber_secret_key_bytes(secret_key);
    Ok(keys_nonempty(public_bytes.as_slice(), secret_bytes.as_slice()))
}

} // verus!
