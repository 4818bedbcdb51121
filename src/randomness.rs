//! Seedable pseudo-random source: a thin layer over `rand_pcg::Pcg64`.
use rand::{Rng, SeedableRng};
use rand_pcg::Lcg128Xsl64;
use vstd::prelude::*;

verus! {

#[verifier::external_type_specification]
#[verifier::external_body]
pub struct ExLcg128Xsl64(Lcg128Xsl64);

/// The `index`-th number (counting from 0) that a `Pcg64` seeded with
/// `seed_from_u64(seed)` hands out when every draw is `gen_range(low..high)`.
pub uninterp spec fn pcg_draw(seed: u64, low: u64, high: u64, index: nat) -> u64;

/// To be implemented by sources of pseudo-random numbers.
pub trait Randomizer {
    /// Returns the next pseudo-random number.
    fn get(&mut self) -> u64;
}

/// A deterministic source of pseudo-random numbers in `[lower_limit, upper_limit)`.
pub struct PRandomizer {
    generator: Lcg128Xsl64,
    lower_limit: u64,
    upper_limit: u64,
    seed: Ghost<u64>,
    drawn: Ghost<nat>,
}

impl PRandomizer {
    #[verifier::type_invariant]
    spec fn inv(&self) -> bool {
        self.lower_limit < self.upper_limit
    }

    /// The seed the source was made from.
    pub closed spec fn seed(&self) -> u64 {
        self.seed@
    }

    /// How many numbers the source has handed out so far.
    pub closed spec fn drawn(&self) -> nat {
        self.drawn@
    }

    pub closed spec fn low(&self) -> u64 {
        self.lower_limit
    }

    pub closed spec fn high(&self) -> u64 {
        self.upper_limit
    }

    /// The number that the next call of `get` returns.
    pub open spec fn next_draw(&self) -> u64 {
        pcg_draw(self.seed(), self.low(), self.high(), self.drawn())
    }

    /// A source over the whole range `[0, u64::MAX)`, made from `seed`.
    pub fn new(seed: u64) -> (r: Self)
        ensures
            r.seed() == seed,
            r.drawn() == 0,
            r.low() == 0,
            r.high() == u64::MAX,
    {
        Self::new_limited(seed, 0, u64::MAX)
    }

    /// Relies on `rand_pcg::Pcg64::seed_from_u64`: a fresh generator whose
    /// draws are fixed by `seed` alone.
    #[verifier::external_body]
    pub fn new_limited(seed: u64, from: u64, to: u64) -> (r: Self)
        requires
            from < to,
        ensures
            r.seed() == seed,
            r.drawn() == 0,
            r.low() == from,
            r.high() == to,
    {
        Self {
            generator: Lcg128Xsl64::seed_from_u64(seed),
            lower_limit: from,
            upper_limit: to,
            seed: Ghost(seed),
            drawn: Ghost(0),
        }
    }

    /// The next number of the stream, in `[low, high)`.
    pub fn get(&mut self) -> (r: u64)
        ensures
            r == old(self).next_draw(),
            old(self).low() <= r < old(self).high(),
            final(self).seed() == old(self).seed(),
            final(self).low() == old(self).low(),
            final(self).high() == old(self).high(),
            final(self).drawn() == old(self).drawn() + 1,
    {
        proof {
            use_type_invariant(&*self);
        }
        self.draw()
    }

    /// Relies on `rand::Rng::gen_range` over `Pcg64`: the next number of the
    /// stream, in `[low, high)` (the range must not be empty).
    #[verifier::external_body]
    fn draw(&mut self) -> (r: u64)
        requires
            old(self).low() < old(self).high(),
        ensures
            r == pcg_draw(old(self).seed(), old(self).low(), old(self).high(), old(self).drawn()),
            old(self).low() <= r < old(self).high(),
            final(self).seed() == old(self).seed(),
            final(self).low() == old(self).low(),
            final(self).high() == old(self).high(),
            final(self).drawn() == old(self).drawn() + 1,
    {
        let r = self.generator.gen_range(self.lower_limit..self.upper_limit);
        self.drawn = Ghost(self.drawn@ + 1);
        r
    }
}

impl Randomizer for PRandomizer {
    fn get(&mut self) -> u64 {
        PRandomizer::get(self)
    }
}

} // verus!
