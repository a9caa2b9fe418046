//! The random number generator of the playouts.

use vstd::prelude::*;
use rand::Rng;
use rand::XorShiftRng;
use crate::board::Coord;

verus! {

#[verifier::external_type_specification]
#[verifier::external_body]
pub struct ExXorShiftRng(rand::XorShiftRng);

/// `Rng::gen::<usize>` of the `rand` crate: the next number of the
/// generator. Nothing is claimed of its value.
#[verifier::external_body]
pub(crate) fn next_usize(rng: &mut XorShiftRng) -> (r: usize) {
    rng.gen::<usize>()
}

/// `Rng::next_u32` of the `rand` crate: the next 32 bits of the generator.
/// Nothing is claimed of their value.
#[verifier::external_body]
pub(crate) fn next_u32(rng: &mut XorShiftRng) -> (r: u32) {
    rng.next_u32()
}

/// `Rng::shuffle` of the `rand` crate, which swaps elements of the slice
/// among themselves: the same points are there afterwards, each as often as
/// before. Nothing is claimed of their order.
#[verifier::external_body]
pub(crate) fn shuffle(rng: &mut XorShiftRng, coords: &mut Vec<Coord>)
    ensures
        final(coords)@.to_multiset() == old(coords)@.to_multiset(),
{
    rng.shuffle(coords.as_mut_slice())
}

} // verus!
