//! The source of randomness that sampling draws from.

use rand::{Rng, XorShiftRng};
use vstd::prelude::*;

verus! {

/// A source of random bits.
///
/// Nothing is asked of a source but that it yields bits on demand, and
/// nothing is promised of the bits it yields: what a distribution computes
/// from them holds whatever they are. A source says what a draw may do to
/// it, so that what is computed with a source can say how often it drew.
pub trait RandomSource {
    /// One draw from the source as it stands may yield `bits` and leave the
    /// source as `after`. A source of which nothing is known may yield any
    /// bits and be left in any state.
    spec fn may_yield(&self, bits: u32, after: &Self) -> bool;

    /// Returns the next 32 bits of the source, and moves it on by one draw.
    fn next_u32(&mut self) -> (bits: u32)
        ensures
            old(self).may_yield(bits, final(self)),
    ;
}

/// The generator that `rand::weak_rng` returns. Nothing is known of its
/// state.
#[verifier::external_type_specification]
#[verifier::external_body]
pub struct ExXorShiftRng(XorShiftRng);

/// `rand::weak_rng` makes a fast generator, seeded from the generator of the
/// thread. Nothing is claimed of the generator it returns. It aborts where
/// the system has no entropy to seed the thread's generator with.
pub assume_specification[ rand::weak_rng ]() -> (r: XorShiftRng)
;

/// `rand::Rng::next_u32` of a `XorShiftRng` moves the generator on by one
/// step and returns 32 bits. Nothing is claimed of the bits, nor of the
/// state the generator is left in.
#[verifier::external_body]
fn xorshift_next_u32(r: &mut XorShiftRng) -> (bits: u32) {
    Rng::next_u32(r)
}

/// The generator of `rand::weak_rng` as a source of randomness. Of its draws
/// nothing is known: any bits may come, and any state may be left.
impl RandomSource for XorShiftRng {
    open spec fn may_yield(&self, bits: u32, after: &Self) -> bool {
        true
    }

    fn next_u32(&mut self) -> u32 {
        xorshift_next_u32(self)
    }
}

} // verus!
