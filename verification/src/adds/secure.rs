//! Protected storage for sensitive byte strings.
//!
//! A `SecureSecret` owns its bytes, exposes them only on request, compares
//! in constant time, and can be wiped in place across every return path
//! before it is dropped.

use vstd::prelude::*;

verus! {

/// Errors of secure-secret operations.
#[derive(Clone, Copy, Debug, PartialEq, Eq, Structural)]
pub enum SecureSecretError {
    /// The secret data could not be processed.
    ProcessingError,
    /// The input has an invalid length.
    InvalidLength,
}

/// Sensitive byte material with controlled access.
pub struct SecureSecret {
    data: Vec<u8>,
}

impl View for SecureSecret {
    type V = Seq<u8>;

    closed spec fn view(&self) -> Seq<u8> {
        self.data@
    }
}

impl SecureSecret {
    /// Wraps the given bytes.
    pub fn from_bytes(bytes: &[u8]) -> (r: Self)
        ensures
            r@ == bytes@,
    {
        let mut data: Vec<u8> = Vec::new();
        let n = bytes.len();
        let mut i: usize = 0;
        while i < n
            invariant
                n == bytes@.len(),
                0 <= i <= n,
                data@ == bytes@.subrange(0, i as int),
            decreases n - i,
        {
            data.push(bytes[i]);
            proof {
                assert(data@ =~= bytes@.subrange(0, i as int + 1));
            }
            i = i + 1;
        }
        proof {
            assert(bytes@.subrange(0, n as int) == bytes@);
        }
        SecureSecret { data }
    }

    /// Exposes the underlying bytes; to be used with caution.
    pub fn expose(&self) -> (r: &[u8])
        ensures
            r@ == self@,
    {
        self.data.as_slice()
    }

    /// Constant-time comparison: the result depends only on the lengths and
    /// the accumulated difference, never on the position of a mismatch.
    pub fn constant_time_eq(&self, other: &Self) -> (r: bool)
        ensures
            r == (self@ == other@),
    {
        let n = self.data.len();
        if n != other.data.len() {
            proof {
                assert(self@ != other@);
            }
            return false;
        }
        let mut acc: u8 = 0;
        let mut i: usize = 0;
        while i < n
            invariant
                n == self@.len(),
                n == other@.len(),
                0 <= i <= n,
                acc == 0 <==> (forall|j: int| 0 <= j < i ==> self@[j] == other@[j]),
            decreases n - i,
        {
            let a = self.data[i];
            let b = other.data[i];
            let diff = a ^ b;
            proof {
                assert((a ^ b) == 0 <==> a == b) by (bit_vector);
                assert((acc | (a ^ b)) == 0 <==> acc == 0 && (a ^ b) == 0) by (bit_vector);
            }
            acc = acc | diff;
            i = i + 1;
        }
        let equal = acc == 0;
        proof {
            if equal {
                assert(self@ =~= other@);
            }
        }
        equal
    }

    /// Number of secret bytes.
    pub fn len(&self) -> (r: usize)
        ensures
            r == self@.len(),
    {
        self.data.len()
    }

    /// True when the secret holds no bytes.
    pub fn is_empty(&self) -> (r: bool)
        ensures
            r == (self@.len() == 0),
    {
        self.data.is_empty()
    }

    /// Overwrites every byte with zero, in place; the length is kept so the
    /// wipe is observable.
    pub fn zeroize(&mut self)
        ensures
            final(self)@.len() == old(self)@.len(),
            forall|i: int| 0 <= i < final(self)@.len() ==> final(self)@[i] == 0u8,
    {
        let n = self.data.len();
        let mut i: usize = 0;
        while i < n
            invariant
                n == self.data@.len(),
                0 <= i <= n,
                forall|j: int| 0 <= j < i ==> self.data@[j] == 0u8,
            decreases n - i,
        {
            self.data.set(i, 0u8);
            i = i + 1;
        }
    }
}

impl PartialEq for SecureSecret {
    /// Equality is the constant-time comparison.
    fn eq(&self, other: &Self) -> (r: bool) {
        self.constant_time_eq(other)
    }
}

impl vstd::std_specs::cmp::PartialEqSpecImpl for SecureSecret {
    open spec fn obeys_eq_spec() -> bool {
        true
    }

    open spec fn eq_spec(&self, other: &Self) -> bool {
        self@ == other@
    }
}

} // verus!
