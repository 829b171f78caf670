//! Key generation at a chosen security level.

use vstd::prelude::*;

verus! {

/// The Kyber parameter sets a key pair can be generated for.
#[derive(Clone, Copy, Debug, PartialEq, Eq, Structural)]
pub enum SecurityLevel {
    Kyber768,
    Kyber1024,
}

/// Generates key pairs at a fixed security level.
#[derive(Clone, Copy, Debug)]
pub struct KeyGenerator {
    pub security_level: SecurityLevel,
}

impl KeyGenerator {
    /// A generator pinned to the given security level.
    pub fn new(security_level: SecurityLevel) -> (r: Self)
        ensures
            r.security_level == security_level,
    {
        KeyGenerator { security_level }
    }
}

} // verus!
