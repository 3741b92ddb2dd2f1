//! Fixed-width 256-bit opaque values.
//!
//! Account identities, deposit commitments and redemption nullifiers are all
//! opaque 32-byte values. They are held as four 64-bit words so that equality
//! in contracts is plain structural equality.

use vstd::prelude::*;

verus! {

/// An opaque 256-bit value: an account identity, a commitment or a nullifier.
#[derive(Clone, Copy, PartialEq, Eq, Structural, Debug)]
pub struct Bits256 {
    pub w0: u64,
    pub w1: u64,
    pub w2: u64,
    pub w3: u64,
}

impl Bits256 {
    /// A value whose low word is `x` and whose other words are zero;
    /// convenient for building identities from small numbers.
    pub fn from_u64(x: u64) -> (r: Bits256)
        ensures
            r == (Bits256 { w0: x, w1: 0u64, w2: 0u64, w3: 0u64 }),
    {
        Bits256 { w0: x, w1: 0, w2: 0, w3: 0 }
    }
}

} // verus!
