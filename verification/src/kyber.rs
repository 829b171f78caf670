//! The external Kyber-1024 key-encapsulation primitive, consumed as opaque
//! byte operations.  The mathematics lives in the outside library; this
//! module declares its key types and the few calls the crate relies on.

use vstd::prelude::*;

use pqcrypto_traits::kem::PublicKey as KemPublicKey;
use pqcrypto_traits::kem::SecretKey as KemSecretKey;
use pqcrypto_traits::kem::SharedSecret as KemSharedSecret;

use crate::strutil::bytes_eq;

verus! {

/// Declares the outside public-key type so it can appear in signatures.
#[verifier::external_type_specification]
#[verifier::external_body]
pub struct ExKyberPublicKey(pqcrypto_kyber::kyber1024::PublicKey);

/// Declares the outside secret-key type so it can appear in signatures.
#[verifier::external_type_specification]
#[verifier::external_body]
pub struct ExKyberSecretKey(pqcrypto_kyber::kyber1024::SecretKey);

/// Relies on `pqcrypto_traits::kem::PublicKey::as_bytes` for Kyber-1024:
/// the public key is a fixed 1568-byte array, as its source defines it.
#[verifier::external_body]
pub fn kyber_public_key_bytes(k: &pqcrypto_kyber::kyber1024::PublicKey) -> (r: Vec<u8>)
    ensures
        r@.len() == 1568,
{
    KemPublicKey::as_bytes(k).to_vec()
}

/// Relies on `pqcrypto_traits::kem::SecretKey::as_bytes` for Kyber-1024:
/// the secret key is a fixed 3168-byte array, as its source defines it.
#[verifier::external_body]
pub fn kyber_secret_key_bytes(k: &pqcrypto_kyber::kyber1024::SecretKey) -> (r: Vec<u8>)
    ensures
        r@.len() == 3168,
{
    KemSecretKey::as_bytes(k).to_vec()
}

/// Relies on `pqcrypto_kyber::kyber1024::keypair`: draws a fresh key pair
/// from the library's randomness.  The values are random, so nothing is
/// promised of them.
#[verifier::external_body]
pub fn kyber_keypair() -> (r: (
    pqcrypto_kyber::kyber1024::PublicKey,
    pqcrypto_kyber::kyber1024::SecretKey,
))
{
    pqcrypto_kyber::kyber1024::keypair()
}

/// Relies on `pqcrypto_kyber::kyber1024::{keypair, encapsulate, decapsulate}`
/// and `SharedSecret::as_bytes`: runs one encapsulation round trip on a fresh
/// key pair and hands back the encapsulated and the decapsulated shared
/// secret as bytes.  The key pair is random, so only the lengths, fixed by
/// the source, are promised.
#[verifier::external_body]
fn kem_roundtrip_secrets() -> (r: (Vec<u8>, Vec<u8>))
    ensures
        r.0@.len() == 32,
        r.1@.len() == 32,
{
    let (pk, sk) = pqcrypto_kyber::kyber1024::keypair();
    let (ss, ct) = pqcrypto_kyber::kyber1024::encapsulate(&pk);
    let ss2 = pqcrypto_kyber::kyber1024::decapsulate(&ct, &sk);
    (
        KemSharedSecret::as_bytes(&ss).to_vec(),
        KemSharedSecret::as_bytes(&ss2).to_vec(),
    )
}

/// Runs one encapsulation round trip on a fresh key pair and reports whether
/// the two shared secrets agree byte for byte; the comparison is verified,
/// the secrets come from the external library.
pub fn kem_roundtrip_matches() -> (r: bool)
{
    let (encapsulated, decapsulated) = kem_roundtrip_secrets();
    bytes_eq(encapsulated.as_slice(), decapsulated.as_slice())
}

} // verus!
