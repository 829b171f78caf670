//! Shared secrets, certificates, and an in-memory key-management system
//! keyed by certificate identifiers.

use vstd::prelude::*;

use crate::adds::secure::SecureSecret;
use crate::strutil::str_eq;
use crate::utils::time_utils::unix_time_seconds;

verus! {

/// Length, in bytes, of a shared secret.
pub const SHARED_SECRET_LENGTH: usize = 32;

/// Certificate validity window: one year in seconds.
pub const CERTIFICATE_VALIDITY_SECONDS: u64 = 31_536_000;

/// Errors of the key-management system.
#[derive(Clone, Copy, Debug, PartialEq, Eq, Structural)]
pub enum KmsError {
    /// The system clock could not be read.
    TimeError,
    /// The input has the wrong number of bytes.
    BadLength { expected: usize, actual: usize },
    /// An entry with this identifier already exists.
    DuplicateKey,
    /// No entry with this identifier exists.
    NotFound,
}

impl KmsError {
    /// A short description of the error, for reporting.
    pub fn to_string(&self) -> (r: String)
        ensures
            self matches KmsError::TimeError ==> r@ == "TimeError: failed to read the clock"@,
            self matches KmsError::BadLength { .. } ==> r@
                == "BadLength: invalid secret length"@,
            self matches KmsError::DuplicateKey ==> r@ == "DuplicateKey: entry already exists"@,
            self matches KmsError::NotFound ==> r@ == "NotFound: no such entry"@,
    {
        match self {
            KmsError::TimeError => "TimeError: failed to read the clock".to_owned(),
            KmsError::BadLength { .. } => "BadLength: invalid secret length".to_owned(),
            KmsError::DuplicateKey => "DuplicateKey: entry already exists".to_owned(),
            KmsError::NotFound => "NotFound: no such entry".to_owned(),
        }
    }
}

/// A certificate issued for a stored key.
#[derive(Clone, Debug)]
pub struct Certificate {
    pub key_id: String,
    pub creation_date: u64,
    pub expiration_date: u64,
    pub status: String,
}

/// A shared secret with its creation time.
#[derive(Clone, Copy, Debug)]
pub struct DummySharedSecret {
    pub data: [u8; 32],
    pub timestamp: u64,
}

impl View for DummySharedSecret {
    type V = Seq<u8>;

    open spec fn view(&self) -> Seq<u8> {
        self.data@
    }
}

/// The capability a shared secret offers: its bytes can be read back, and a
/// value can be rebuilt from bytes.  Backend integrations implement this for
/// their own secret types.
pub trait SharedSecret: Sized {
    /// The bytes this secret stands for.
    spec fn secret_bytes(&self) -> Seq<u8>;

    /// Reads the secret bytes back.
    fn as_bytes(&self) -> (r: &[u8])
        ensures
            r@ == self.secret_bytes(),
    ;

    /// Rebuilds a secret from bytes; which inputs are accepted is up to the
    /// implementation, but an accepted input is stored faithfully.
    fn from_bytes(bytes: &[u8]) -> (r: Result<Self, KmsError>)
        ensures
            r matches Ok(s) ==> s.secret_bytes() == bytes@,
    ;
}

impl DummySharedSecret {
    /// Current Unix time in seconds; fails when the clock cannot be read.
    pub fn get_current_timestamp() -> (r: Result<u64, KmsError>)
        ensures
            r is Err ==> r == Err::<u64, KmsError>(KmsError::TimeError),
    {
        match unix_time_seconds() {
            Some(t) => Ok(t),
            None => Err(KmsError::TimeError),
        }
    }

    /// Builds a secret from the given bytes, stamped with the current time;
    /// fails only when the clock cannot be read.
    pub fn new(data: [u8; 32]) -> (r: Result<Self, KmsError>)
        ensures
            r matches Ok(s) ==> s@ == data@,
            r is Err ==> r == Err::<Self, KmsError>(KmsError::TimeError),
    {
        match Self::get_current_timestamp() {
            Ok(t) => Ok(DummySharedSecret { data, timestamp: t }),
            Err(e) => Err(e),
        }
    }

    /// Builds the active one-year certificate issued at the given instant.
    pub fn certificate_at(key_id: &str, now: u64) -> (r: Certificate)
        requires
            now <= u64::MAX - CERTIFICATE_VALIDITY_SECONDS,
        ensures
            r.key_id@ == key_id@,
            r.creation_date == now,
            r.expiration_date == now + CERTIFICATE_VALIDITY_SECONDS,
            r.status@ == "ACTIVE"@,
    {
        Certificate {
            key_id: key_id.to_owned(),
            creation_date: now,
            expiration_date: now + CERTIFICATE_VALIDITY_SECONDS,
            status: "ACTIVE".to_owned(),
        }
    }

    /// Issues a certificate for this secret, valid for one year; fails only
    /// when the clock cannot be read or the expiry would not fit the integer
    /// range.
    pub fn create_certificate(&mut self, key_id: &str) -> (r: Result<Certificate, KmsError>)
        ensures
            *final(self) == *old(self),
            r matches Ok(c) ==> {
                &&& c.key_id@ == key_id@
                &&& c.status@ == "ACTIVE"@
                &&& c.expiration_date == c.creation_date + CERTIFICATE_VALIDITY_SECONDS
            },
            r matches Err(e) ==> e == KmsError::TimeError,
    {
        let now = match Self::get_current_timestamp() {
            Ok(t) => t,
            Err(e) => {
                return Err(e);
            },
        };
        if now > u64::MAX - CERTIFICATE_VALIDITY_SECONDS {
            return Err(KmsError::TimeError);
        }
        Ok(Self::certificate_at(key_id, now))
    }
}

impl SharedSecret for DummySharedSecret {
    open spec fn secret_bytes(&self) -> Seq<u8> {
        self.data@
    }

    fn as_bytes(&self) -> (r: &[u8]) {
        self.data.as_slice()
    }

    fn from_bytes(bytes: &[u8]) -> (r: Result<Self, KmsError>) {
        if bytes.len() != SHARED_SECRET_LENGTH {
            return Err(KmsError::BadLength {
                expected: SHARED_SECRET_LENGTH,
                actual: bytes.len(),
            });
        }
        let mut data: [u8; 32] = vstd::array::array_fill_for_copy_types(0u8);
        let mut i: usize = 0;
        while i < 32
            invariant
                bytes@.len() == 32,
                0 <= i <= 32,
                data@.len() == 32,
                forall|j: int| 0 <= j < i ==> data@[j] == bytes@[j],
            decreases 32 - i,
        {
            data.set(i, bytes[i]);
            i = i + 1;
        }
        proof {
            assert(data@ =~= bytes@);
        }
        let timestamp = match unix_time_seconds() {
            Some(t) => t,
            None => 0,
        };
        Ok(DummySharedSecret { data, timestamp })
    }
}

impl Default for DummySharedSecret {
    /// The default secret is zero-filled; when the clock cannot be read the
    /// creation time falls back to the epoch.
    fn default() -> (r: Self)
        ensures
            forall|i: int| 0 <= i < r@.len() ==> r@[i] == 0u8,
            r@.len() == SHARED_SECRET_LENGTH,
    {
        let data: [u8; 32] = vstd::array::array_fill_for_copy_types(0u8);
        match DummySharedSecret::new(data) {
            Ok(s) => s,
            Err(_) => DummySharedSecret { data, timestamp: 0 },
        }
    }
}

/// First position keyed by `id` in a list of labelled entries.
pub open spec fn pair_index<T>(pairs: Seq<(String, T)>, id: Seq<char>) -> Option<int>
    decreases pairs.len(),
{
    if pairs.len() == 0 {
        None
    } else if pairs[0].0@ == id {
        Some(0int)
    } else {
        match pair_index(pairs.drop_first(), id) {
            Some(i) => Some(i + 1),
            None => None,
        }
    }
}

/// The position returned by `pair_index` is in range, matches, and nothing
/// before it matches.
pub proof fn lemma_pair_index<T>(pairs: Seq<(String, T)>, id: Seq<char>)
    ensures
        pair_index(pairs, id) matches Some(i) ==> 0 <= i < pairs.len() && pairs[i].0@ == id && (
        forall|j: int| 0 <= j < i ==> (#[trigger] pairs[j]).0@ != id),
        pair_index(pairs, id) is None ==> forall|j: int|
            0 <= j < pairs.len() ==> (#[trigger] pairs[j]).0@ != id,
    decreases pairs.len(),
{
    if pairs.len() > 0 && pairs[0].0@ != id {
        let rest = pairs.drop_first();
        lemma_pair_index(rest, id);
        match pair_index(rest, id) {
            Some(i2) => {
                assert(pairs[i2 + 1] == rest[i2]);
                assert forall|j: int| 0 <= j < i2 + 1 implies (#[trigger] pairs[j]).0@ != id by {
                    if j > 0 {
                        assert(rest[j - 1] == pairs[j]);
                    }
                }
            },
            None => {
                assert forall|j: int| 0 <= j < pairs.len() implies (#[trigger] pairs[j]).0@
                    != id by {
                    if j > 0 {
                        assert(rest[j - 1] == pairs[j]);
                    }
                }
            },
        }
    }
}

/// Position of the entry keyed by `id`, if any.
fn find_pair<T>(pairs: &Vec<(String, T)>, id: &str) -> (r: Option<usize>)
    ensures
        r matches Some(i) ==> Some(i as int) == pair_index(pairs@, id@),
        r is None ==> pair_index(pairs@, id@) is None,
{
    proof {
        lemma_pair_index(pairs@, id@);
    }
    let n = pairs.len();
    let mut i: usize = 0;
    while i < n
        invariant
            n == pairs@.len(),
            0 <= i <= n,
            forall|j: int| 0 <= j < i ==> (#[trigger] pairs@[j]).0@ != id@,
        decreases n - i,
    {
        if str_eq(pairs[i].0.as_str(), id) {
            proof {
                lemma_pair_index(pairs@, id@);
                if pair_index(pairs@, id@) is None {
                    assert(pairs@[i as int].0@ != id@);
                }
                let k = pair_index(pairs@, id@)->Some_0;
                if k < i as int {
                    assert(pairs@[k].0@ != id@);
                }
                if k > i as int {
                    assert(pairs@[i as int].0@ != id@);
                }
            }
            return Some(i);
        }
        i = i + 1;
    }
    proof {
        lemma_pair_index(pairs@, id@);
        if pair_index(pairs@, id@) is Some {
            let k = pair_index(pairs@, id@)->Some_0;
            assert(pairs@[k].0@ == id@);
        }
    }
    None
}

/// In-memory store of secrets and certificates, keyed by identifier.
pub struct KeyManagementSystem {
    pub secrets: Vec<(String, SecureSecret)>,
    pub certificates: Vec<(String, Certificate)>,
}

impl KeyManagementSystem {
    /// Identifiers are unique in both stores.
    pub open spec fn wf(&self) -> bool {
        &&& forall|i: int, j: int|
            0 <= i < j < self.secrets@.len() ==> (#[trigger] self.secrets@[i]).0@
                != (#[trigger] self.secrets@[j]).0@
        &&& forall|i: int, j: int|
            0 <= i < j < self.certificates@.len() ==> (#[trigger] self.certificates@[i]).0@
                != (#[trigger] self.certificates@[j]).0@
    }

    /// Whether a secret is stored under `id`.
    pub open spec fn has_secret(&self, id: Seq<char>) -> bool {
        pair_index(self.secrets@, id) is Some
    }

    /// Whether a certificate is stored under `id`.
    pub open spec fn has_certificate(&self, id: Seq<char>) -> bool {
        pair_index(self.certificates@, id) is Some
    }

    /// Creates an empty store.
    pub fn new() -> (r: Self)
        ensures
            r.wf(),
            r.secrets@.len() == 0,
            r.certificates@.len() == 0,
    {
        KeyManagementSystem { secrets: Vec::new(), certificates: Vec::new() }
    }

    /// Stores a secret under a fresh identifier; fails with `DuplicateKey`
    /// exactly when the identifier is already taken.
    pub fn add_secret(&mut self, key_id: &str, secret: SecureSecret) -> (r: Result<(), KmsError>)
        requires
            old(self).wf(),
        ensures
            final(self).wf(),
            final(self).certificates@ == old(self).certificates@,
            r is Ok <==> !old(self).has_secret(key_id@),
            r is Err ==> r == Err::<(), KmsError>(KmsError::DuplicateKey) && final(self).secrets@
                == old(self).secrets@,
            r is Ok ==> final(self).secrets@.len() == old(self).secrets@.len() + 1 && final(self).secrets@.drop_last() == old(self).secrets@ && final(self).secrets@.last().0@
                == key_id@ && final(self).secrets@.last().1@ == secret@,
    {
        proof {
            lemma_pair_index(self.secrets@, key_id@);
        }
        match find_pair(&self.secrets, key_id) {
            Some(_) => Err(KmsError::DuplicateKey),
            None => {
                self.secrets.push((key_id.to_owned(), secret));
                proof {
                    assert(self.secrets@.drop_last() =~= old(self).secrets@);
                }
                Ok(())
            },
        }
    }

    /// Reads the secret stored under `key_id`, if any.
    pub fn get_secret(&self, key_id: &str) -> (r: Option<&SecureSecret>)
        ensures
            r is Some <==> self.has_secret(key_id@),
            r matches Some(s) ==> (pair_index(self.secrets@, key_id@) matches Some(i) && s@
                == self.secrets@[i].1@),
    {
        proof {
            lemma_pair_index(self.secrets@, key_id@);
        }
        match find_pair(&self.secrets, key_id) {
            Some(i) => Some(&self.secrets[i].1),
            None => None,
        }
    }

    /// Stores a certificate under its own identifier; fails with
    /// `DuplicateKey` exactly when a certificate with that identifier exists.
    pub fn add_certificate(&mut self, certificate: Certificate) -> (r: Result<(), KmsError>)
        requires
            old(self).wf(),
        ensures
            final(self).wf(),
            final(self).secrets@ == old(self).secrets@,
            r is Ok <==> !old(self).has_certificate(certificate.key_id@),
            r is Err ==> r == Err::<(), KmsError>(KmsError::DuplicateKey) && final(self).certificates@ == old(self).certificates@,
            r is Ok ==> final(self).certificates@.len() == old(self).certificates@.len() + 1
                && final(self).certificates@.drop_last() == old(self).certificates@ && final(self).certificates@.last().0@ == certificate.key_id@,
    {
        proof {
            lemma_pair_index(self.certificates@, certificate.key_id@);
        }
        match find_pair(&self.certificates, certificate.key_id.as_str()) {
            Some(_) => Err(KmsError::DuplicateKey),
            None => {
                let id = certificate.key_id.clone();
                self.certificates.push((id, certificate));
                proof {
                    assert(self.certificates@.drop_last() =~= old(self).certificates@);
                }
                Ok(())
            },
        }
    }

    /// Reads the certificate stored under `key_id`, if any.
    pub fn get_certificate(&self, key_id: &str) -> (r: Option<&Certificate>)
        ensures
            r is Some <==> self.has_certificate(key_id@),
            r matches Some(c) ==> (pair_index(self.certificates@, key_id@) matches Some(i)
                && c.key_id@ == self.certificates@[i].1.key_id@),
    {
        proof {
            lemma_pair_index(self.certificates@, key_id@);
        }
        match find_pair(&self.certificates, key_id) {
            Some(i) => Some(&self.certificates[i].1),
            None => None,
        }
    }

    /// Replaces the secret stored under `key_id`; fails with `NotFound`
    /// exactly when no secret is stored under it.
    pub fn rotate_secret(&mut self, key_id: &str, new_secret: SecureSecret) -> (r: Result<
        (),
        KmsError,
    >)
        requires
            old(self).wf(),
        ensures
            final(self).wf(),
            final(self).certificates@ == old(self).certificates@,
            r is Ok <==> old(self).has_secret(key_id@),
            r is Err ==> r == Err::<(), KmsError>(KmsError::NotFound) && final(self).secrets@
                == old(self).secrets@,
            r is Ok ==> (pair_index(old(self).secrets@, key_id@) matches Some(i) && final(self).secrets@.len() == old(self).secrets@.len() && (forall|j: int|
                0 <= j < old(self).secrets@.len() && j != i ==> final(self).secrets@[j] == old(self).secrets@[j]) && final(self).secrets@[i].0@ == key_id@ && final(self).secrets@[i].1@ == new_secret@),
    {
        proof {
            lemma_pair_index(self.secrets@, key_id@);
        }
        match find_pair(&self.secrets, key_id) {
            Some(i) => {
                self.secrets.set(i, (key_id.to_owned(), new_secret));
                Ok(())
            },
            None => Err(KmsError::NotFound),
        }
    }

    /// Removes the secret stored under `key_id`; fails with `NotFound`
    /// exactly when no secret is stored under it.
    pub fn remove_secret(&mut self, key_id: &str) -> (r: Result<(), KmsError>)
        requires
            old(self).wf(),
        ensures
            final(self).wf(),
            final(self).certificates@ == old(self).certificates@,
            r is Ok <==> old(self).has_secret(key_id@),
            r is Err ==> r == Err::<(), KmsError>(KmsError::NotFound) && final(self).secrets@
                == old(self).secrets@,
            r is Ok ==> (pair_index(old(self).secrets@, key_id@) matches Some(i) && final(self).secrets@ == old(self).secrets@.remove(i)),
    {
        proof {
            lemma_pair_index(self.secrets@, key_id@);
        }
        match find_pair(&self.secrets, key_id) {
            Some(i) => {
                self.secrets.remove(i);
                Ok(())
            },
            None => Err(KmsError::NotFound),
        }
    }
}

} // verus!
