//! Shared secrets with creation timestamps and one-year certificates.

use vstd::prelude::*;

use crate::utils::time_utils::unix_time_seconds;

verus! {

/// Length, in bytes, of a shared secret.
pub const SHARED_SECRET_LENGTH: usize = 32;

/// Certificate validity window: one year in seconds.
pub const CERTIFICATE_VALIDITY_SECONDS: u64 = 31_536_000;

/// Errors of shared-secret operations.
#[derive(Clone, Copy, Debug, PartialEq, Eq, Structural)]
pub enum SharedSecretError {
    /// The input has the wrong number of bytes.
    InvalidLength { expected: usize, actual: usize },
    /// The system clock could not be read.
    TimeError,
}

/// A shared secret with timestamp information, as used for post-quantum key
/// management.
#[derive(Clone, Copy, Debug)]
pub struct DummySharedSecret {
    /// The secret bytes, fixed length.
    pub data: [u8; 32],
    /// Unix seconds at which the secret was created.
    pub timestamp: u64,
}

impl View for DummySharedSecret {
    type V = Seq<u8>;

    open spec fn view(&self) -> Seq<u8> {
        self.data@
    }
}

/// Certificate metadata for a shared secret.
#[derive(Clone, Debug)]
pub struct CertificateInfo {
    /// Unique identifier of the certificate.
    pub key_id: String,
    /// Unix seconds of creation.
    pub creation_date: u64,
    /// Unix seconds of expiry.
    pub expiration_date: u64,
    /// Current status of the certificate.
    pub status: String,
}

impl DummySharedSecret {
    /// Current Unix time in seconds; fails when the clock cannot be read.
    pub fn get_current_timestamp() -> (r: Result<u64, SharedSecretError>)
        ensures
            r is Err ==> r == Err::<u64, SharedSecretError>(SharedSecretError::TimeError),
    {
        match unix_time_seconds() {
            Some(t) => Ok(t),
            None => Err(SharedSecretError::TimeError),
        }
    }

    /// Builds a secret from the given bytes with an explicit creation time.
    pub fn new_at(data: [u8; 32], timestamp: u64) -> (r: Self)
        ensures
            r@ == data@,
            r.timestamp == timestamp,
    {
        DummySharedSecret { data, timestamp }
    }

    /// Builds a secret from the given bytes, stamped with the current time;
    /// fails only when the clock cannot be read.
    pub fn new(data: [u8; 32]) -> (r: Result<Self, SharedSecretError>)
        ensures
            r matches Ok(s) ==> s@ == data@,
            r is Err ==> r == Err::<Self, SharedSecretError>(SharedSecretError::TimeError),
    {
        match Self::get_current_timestamp() {
            Ok(t) => Ok(Self::new_at(data, t)),
            Err(e) => Err(e),
        }
    }

    /// The secret bytes.
    pub fn as_bytes(&self) -> (r: &[u8])
        ensures
            r@ == self@,
    {
        self.data.as_slice()
    }

    /// Builds a secret from a byte slice; the slice must hold exactly
    /// `SHARED_SECRET_LENGTH` bytes, and the result is stamped with the
    /// current time (zero when the clock cannot be read).
    pub fn from_bytes(bytes: &[u8]) -> (r: Result<Self, SharedSecretError>)
        ensures
            bytes@.len() != SHARED_SECRET_LENGTH ==> r == Err::<Self, SharedSecretError>(
                SharedSecretError::InvalidLength {
                    expected: SHARED_SECRET_LENGTH,
                    actual: bytes@.len() as usize,
                },
            ),
            bytes@.len() == SHARED_SECRET_LENGTH ==> (r matches Ok(s) && s@ == bytes@),
    {
        if bytes.len() != SHARED_SECRET_LENGTH {
            return Err(SharedSecretError::InvalidLength {
                expected: SHARED_SECRET_LENGTH,
                actual: bytes.len(),
            });
        }
        let mut data: [u8; 32] = vstd::array::array_fill_for_copy_types(0u8);
        let mut i: usize = 0;
        while i < 32
            invariant
                bytes@.len() == 32,
                0 <= i <= 32,
                data@.len() == 32,
                forall|j: int| 0 <= j < i ==> data@[j] == bytes@[j],
            decreases 32 - i,
        {
            data.set(i, bytes[i]);
            i = i + 1;
        }
        proof {
            assert(data@ =~= bytes@);
        }
        let timestamp = match unix_time_seconds() {
            Some(t) => t,
            None => 0,
        };
        Ok(DummySharedSecret { data, timestamp })
    }

    /// Builds the active one-year certificate issued at the given instant.
    pub fn certificate_at(key_id: &str, now: u64) -> (r: CertificateInfo)
        requires
            now <= u64::MAX - CERTIFICATE_VALIDITY_SECONDS,
        ensures
            r.key_id@ == key_id@,
            r.creation_date == now,
            r.expiration_date == now + CERTIFICATE_VALIDITY_SECONDS,
            r.status@ == "ACTIVE"@,
    {
        CertificateInfo {
            key_id: key_id.to_owned(),
            creation_date: now,
            expiration_date: now + CERTIFICATE_VALIDITY_SECONDS,
            status: "ACTIVE".to_owned(),
        }
    }

    /// Issues a certificate for this secret, valid for one year from its
    /// creation instant; fails only when the clock cannot be read or the
    /// expiry would not fit the integer range.
    pub fn create_certificate(&mut self, key_id: &str) -> (r: Result<
        CertificateInfo,
        SharedSecretError,
    >)
        ensures
            *final(self) == *old(self),
            r matches Ok(c) ==> {
                &&& c.key_id@ == key_id@
                &&& c.status@ == "ACTIVE"@
                &&& c.expiration_date == c.creation_date + CERTIFICATE_VALIDITY_SECONDS
            },
            r matches Err(e) ==> e == SharedSecretError::TimeError,
    {
        let now = match Self::get_current_timestamp() {
            Ok(t) => t,
            Err(e) => {
                return Err(e);
            },
        };
        if now > u64::MAX - CERTIFICATE_VALIDITY_SECONDS {
            return Err(SharedSecretError::TimeError);
        }
        Ok(Self::certificate_at(key_id, now))
    }
}

impl Default for DummySharedSecret {
    /// The default secret is zero-filled; when the clock cannot be read the
    /// creation time falls back to the epoch.
    fn default() -> (r: Self)
        ensures
            forall|i: int| 0 <= i < r@.len() ==> r@[i] == 0u8,
            r@.len() == SHARED_SECRET_LENGTH,
    {
        let data: [u8; 32] = vstd::array::array_fill_for_copy_types(0u8);
        match DummySharedSecret::new(data) {
            Ok(s) => s,
            Err(_) => DummySharedSecret::new_at(data, 0),
        }
    }
}

} // verus!
