use vstd::prelude::*;

verus! {

/// A 32-byte account identity (a public key or a derived record address),
/// held as its two 16-byte halves read little-endian.
#[derive(Clone, Copy, Debug, PartialEq, Eq, Hash, Structural)]
pub struct Address {
    pub lo: u128,
    pub hi: u128,
}

impl Address {
    pub fn new(lo: u128, hi: u128) -> (r: Address)
        ensures
            r.lo == lo,
            r.hi == hi,
    {
        Address { lo, hi }
    }
}

} // verus!
