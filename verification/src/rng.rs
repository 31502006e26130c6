use vstd::prelude::*;

verus! {

#[verifier::external_type_specification]
#[verifier::external_body]
pub struct ExStdRng(rand::rngs::StdRng);

/// The filter's random source: a seedable generator supplying the uniform
/// draws the relocation loop needs. Nothing is assumed of a draw beyond
/// its range, so everything proved about the filter holds for every
/// possible sequence of draws.
pub struct RandomSource {
    rng: rand::rngs::StdRng,
}

impl RandomSource {
    /// Relies on rand's `SeedableRng::seed_from_u64` for `StdRng`: builds a
    /// generator from a 64-bit seed; the same seed gives the same stream.
    #[verifier::external_body]
    pub fn from_seed(seed: u64) -> RandomSource {
        RandomSource { rng: <rand::rngs::StdRng as rand::SeedableRng>::seed_from_u64(seed) }
    }

    /// Relies on rand's `SeedableRng::from_entropy` for `StdRng`: builds a
    /// generator seeded from the operating system.
    #[verifier::external_body]
    pub fn from_entropy() -> RandomSource {
        RandomSource { rng: <rand::rngs::StdRng as rand::SeedableRng>::from_entropy() }
    }

    /// Relies on rand's `Rng::gen_range`: a draw from `0..n` lies below `n`,
    /// and the range is non-empty so the call cannot panic.
    #[verifier::external_body]
    pub fn below(&mut self, n: u8) -> (r: u8)
        requires
            n > 0,
        ensures
            r < n,
    {
        rand::Rng::gen_range(&mut self.rng, 0..n)
    }

    /// Relies on rand's `SliceRandom::choose`: on a non-empty slice it
    /// returns `Some` of one of the slice's elements.
    #[verifier::external_body]
    pub fn choose2(&mut self, a: u32, b: u32) -> (r: u32)
        ensures
            r == a || r == b,
    {
        match rand::seq::SliceRandom::choose(&[a, b][..], &mut self.rng) {
            Some(&x) => x,
            None => a,
        }
    }
}

} // verus!
