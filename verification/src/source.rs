//! The seedable generator from which a run draws its numbers.
//!
//! The generator is a value of an outside crate and opaque here: nothing is
//! claimed of which numbers it yields, only of the range they fall in.

use rand::Rng;
use rand::RngCore;
use rand::SeedableRng;
use rand_xorshift::XorShiftRng;
use vstd::prelude::*;

verus! {

/// `rand_xorshift::XorShiftRng`: a seedable generator, opaque here.
#[verifier::external_type_specification]
#[verifier::external_body]
pub struct ExXorShiftRng(XorShiftRng);

/// `SeedableRng::seed_from_u64`: a generator made from a seed.
#[verifier::external_body]
pub(crate) fn seeded(seed: u64) -> (rng: XorShiftRng) {
    XorShiftRng::seed_from_u64(seed)
}

/// `Rng::gen_range` on an inclusive range: a number within the range. The
/// call panics on an empty range, so `low <= high` is required.
#[verifier::external_body]
pub(crate) fn draw_range(rng: &mut XorShiftRng, low: usize, high: usize) -> (drawn: usize)
    requires
        low <= high,
    ensures
        low <= drawn <= high,
{
    rng.gen_range(low..=high)
}

/// `Rng::gen` for `u32`: the generator's next 32-bit number.
#[verifier::external_body]
pub(crate) fn draw_u32(rng: &mut XorShiftRng) -> (drawn: u32) {
    rng.gen::<u32>()
}

/// `RngCore::fill_bytes`: overwrites every byte of `dest`, whose length
/// stays as it was.
#[verifier::external_body]
pub(crate) fn fill_bytes(rng: &mut XorShiftRng, dest: &mut Vec<u8>)
    ensures
        final(dest)@.len() == old(dest)@.len(),
{
    rng.fill_bytes(&mut dest[..])
}

} // verus!
