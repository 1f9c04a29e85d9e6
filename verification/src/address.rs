//! Ledger addresses, held as plain machine words so that verified code can
//! compare and carry them.

use vstd::prelude::*;

verus! {

/// A 32-byte ledger account address, stored as four 64-bit words.
///
/// The scheduling logic only ever compares addresses for equality and copies
/// them into account lists; it never inspects the byte encoding. Callers that
/// hold an address in its external 32-byte form convert it to and from these
/// words outside the verified library.
#[derive(Clone, Copy, PartialEq, Eq, Structural, Debug)]
pub struct Address {
    pub w0: u64,
    pub w1: u64,
    pub w2: u64,
    pub w3: u64,
}

impl Address {
    /// Builds an address from its four words.
    pub fn new(w0: u64, w1: u64, w2: u64, w3: u64) -> (r: Address)
        ensures
            r == (Address { w0, w1, w2, w3 }),
    {
        Address { w0, w1, w2, w3 }
    }
}

} // verus!
