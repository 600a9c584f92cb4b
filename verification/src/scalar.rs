//! A carrier for one real-valued quantity.
//!
//! The engine's weights, positions and radii are IEEE-754 single-precision
//! values, but their arithmetic is not part of the verified core. Inside
//! the library a real number is therefore held only as its 32-bit pattern:
//! two scalars are equal exactly when their bit patterns are, which is the
//! equality the genome snapshots in the history log are compared under.

use vstd::prelude::*;

verus! {

/// One real-valued quantity, held as its IEEE-754 single-precision
/// bit pattern.
#[derive(Clone, Copy, PartialEq, Eq, Structural, Debug)]
pub struct Scalar {
    pub bits: u32,
}

impl Scalar {
    /// The scalar with the given bit pattern.
    pub fn from_bits(bits: u32) -> (r: Scalar)
        ensures
            r.bits == bits,
    {
        Scalar { bits }
    }

    /// The bit pattern of this scalar.
    pub fn to_bits(self) -> (r: u32)
        ensures
            r == self.bits,
    {
        self.bits
    }

    /// The scalar standing for positive zero.
    pub fn zero() -> (r: Scalar)
        ensures
            r.bits == 0,
    {
        Scalar { bits: 0 }
    }
}

} // verus!
