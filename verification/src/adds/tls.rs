//! Session states of the TLS-like handshake layer.  The handshake state
//! machine itself is an external collaborator of this core; only its state
//! vocabulary is shared here.

use vstd::prelude::*;

verus! {

/// The states a TLS-like session moves through.
#[derive(Clone, Copy, Debug, PartialEq, Eq, Structural)]
pub enum TlsState {
    Initial,
    HandshakeInProgress,
    EstablishingKeys,
    Connected,
    Closed,
}

/// Securely clears sensitive data from memory: every byte is overwritten
/// with zero, in place, across the whole buffer.
pub fn secure_clear(data: &mut Vec<u8>)
    ensures
        final(data)@.len() == old(data)@.len(),
        forall|i: int| 0 <= i < final(data)@.len() ==> final(data)@[i] == 0u8,
{
    let n = data.len();
    let mut i: usize = 0;
    while i < n
        invariant
            n == data@.len(),
            0 <= i <= n,
            forall|j: int| 0 <= j < i ==> data@[j] == 0u8,
        decreases n - i,
    {
        data.set(i, 0u8);
        i = i + 1;
    }
}

} // verus!
