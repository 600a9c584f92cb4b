//! The two points where the engine draws on outside randomness.
//!
//! Every other stochastic choice of the engine (mutation selection,
//! perturbation values, starting positions, zone placement) reaches the
//! library as an argument, already drawn by the unverified shell.

use vstd::prelude::*;

use rand::Rng;

verus! {

/// Relies on `uuid::Uuid::new_v4` and `Uuid::as_u128`: a freshly drawn
/// random version-4 UUID, returned as its 128-bit value. Nothing is
/// promised of the value — identities are random.
#[verifier::external_body]
pub(crate) fn fresh_id() -> u128 {
    uuid::Uuid::new_v4().as_u128()
}

/// Relies on `rand::Rng::gen_range` over `0..bound` (on the thread-local
/// generator): the sample lies in the range. `gen_range` panics on an empty
/// range, which the precondition rules out; nothing more is promised of
/// which index comes back.
#[verifier::external_body]
pub(crate) fn pick_index(bound: usize) -> (r: usize)
    requires
        bound > 0,
    ensures
        r < bound,
{
    rand::thread_rng().gen_range(0..bound)
}

} // verus!
