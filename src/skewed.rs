//! A pseudo-random source skewed toward given values ("peeks"): each draw
//! takes two numbers and keeps the one closer to its nearest peek.
use rand::{Rng, SeedableRng};
use rand_pcg::Lcg64Xsh32;
use vstd::prelude::*;

verus! {

#[verifier::external_type_specification]
#[verifier::external_body]
pub struct ExLcg64Xsh32(Lcg64Xsh32);

/// The `index`-th number (counting from 0) that a `Pcg32` seeded with
/// `seed_from_u64(seed)` hands out when every draw is `gen_range(low..high)`.
pub uninterp spec fn pcg32_draw(seed: u64, low: u32, high: u32, index: nat) -> u32;

pub open spec fn is_ascending(s: Seq<u32>) -> bool {
    forall|i: int, j: int| 0 <= i < j < s.len() ==> s[i] <= s[j]
}

/// Relies on `slice::sort_unstable`: the same numbers, in ascending order.
#[verifier::external_body]
fn sort_ascending(v: &mut Vec<u32>)
    ensures
        final(v)@.to_multiset() == old(v)@.to_multiset(),
        is_ascending(final(v)@),
{
    v.sort_unstable();
}

/// `|left - right|`.
pub open spec fn distance(left: u32, right: u32) -> u32 {
    if left > right {
        (left - right) as u32
    } else {
        (right - left) as u32
    }
}

/// The peek closest to `num` among ascending `peeks`: the first one that is
/// strictly closer than the peek after it, else the last.
pub open spec fn closest_from(peeks: Seq<u32>, num: u32, i: int) -> u32
    decreases peeks.len() - i,
{
    if i + 1 >= peeks.len() {
        peeks.last()
    } else if distance(peeks[i], num) < distance(peeks[i + 1], num) {
        peeks[i]
    } else {
        closest_from(peeks, num, i + 1)
    }
}

/// What a skewed draw keeps from the pair `(next, controller)`: the
/// controller when it lies strictly closer to its closest peek than `next`
/// to its own; `next` when there are no peeks.
pub open spec fn skewed_pick(peeks: Seq<u32>, next: u32, controller: u32) -> u32 {
    if peeks.len() == 0 {
        next
    } else if distance(controller, closest_from(peeks, controller, 0)) < distance(
        next,
        closest_from(peeks, next, 0),
    ) {
        controller
    } else {
        next
    }
}

/// A deterministic source of numbers in `[lower_limit, upper_limit)`,
/// skewed toward its peeks.
pub struct SkewedPRandomizer {
    generator: Lcg64Xsh32,
    lower_limit: u32,
    upper_limit: u32,
    peeks: Vec<u32>,
    seed: Ghost<u64>,
    drawn: Ghost<nat>,
}

impl SkewedPRandomizer {
    #[verifier::type_invariant]
    spec fn inv(&self) -> bool {
        self.lower_limit < self.upper_limit
    }

    pub closed spec fn seed(&self) -> u64 {
        self.seed@
    }

    /// How many numbers the underlying generator has handed out.
    pub closed spec fn drawn(&self) -> nat {
        self.drawn@
    }

    pub closed spec fn low(&self) -> u32 {
        self.lower_limit
    }

    pub closed spec fn high(&self) -> u32 {
        self.upper_limit
    }

    /// The peeks, in ascending order.
    pub closed spec fn peeks(&self) -> Seq<u32> {
        self.peeks@
    }

    /// Relies on `rand_pcg::Pcg32::seed_from_u64`: a fresh generator whose
    /// draws are fixed by `seed` alone.
    #[verifier::external_body]
    fn seeded(seed: u64, from: u32, to: u32, peeks: Vec<u32>) -> (r: Self)
        requires
            from < to,
        ensures
            r.seed() == seed,
            r.drawn() == 0,
            r.low() == from,
            r.high() == to,
            r.peeks() == peeks@,
    {
        Self {
            generator: Lcg64Xsh32::seed_from_u64(seed),
            lower_limit: from,
            upper_limit: to,
            peeks,
            seed: Ghost(seed),
            drawn: Ghost(0),
        }
    }

    /// Relies on `rand::Rng::gen_range` over `Pcg32`: the next number of the
    /// stream, in `[low, high)` (the range must not be empty).
    #[verifier::external_body]
    fn draw(&mut self) -> (r: u32)
        requires
            old(self).low() < old(self).high(),
        ensures
            r == pcg32_draw(old(self).seed(), old(self).low(), old(self).high(), old(self).drawn()),
            old(self).low() <= r < old(self).high(),
            final(self).seed() == old(self).seed(),
            final(self).low() == old(self).low(),
            final(self).high() == old(self).high(),
            final(self).peeks() == old(self).peeks(),
            final(self).drawn() == old(self).drawn() + 1,
    {
        let r = self.generator.gen_range(self.lower_limit..self.upper_limit);
        self.drawn = Ghost(self.drawn@ + 1);
        r
    }

    /// A source over `[0, u32::MAX)` made from `seed`, skewed toward `peeks`.
    pub fn new(seed: u64, peeks: Vec<u32>) -> (r: Self)
        ensures
            r.seed() == seed,
            r.drawn() == 0,
            r.low() == 0,
            r.high() == u32::MAX,
            r.peeks().to_multiset() == peeks@.to_multiset(),
            is_ascending(r.peeks()),
            is_ascending(peeks@) ==> r.peeks() == peeks@,
    {
        Self::new_limited(seed, 0, u32::MAX, peeks)
    }

    /// A source over `[from, to)` made from `seed`, skewed toward `peeks`.
    pub fn new_limited(seed: u64, from: u32, to: u32, peeks: Vec<u32>) -> (r: Self)
        requires
            from < to,
        ensures
            r.seed() == seed,
            r.drawn() == 0,
            r.low() == from,
            r.high() == to,
            r.peeks().to_multiset() == peeks@.to_multiset(),
            is_ascending(r.peeks()),
            is_ascending(peeks@) ==> r.peeks() == peeks@,
    {
        let mut peeks = peeks;
        let mut sorted = true;
        let mut i: usize = 1;
        while i < peeks.len()
            invariant
                1 <= i,
                sorted ==> forall|a: int, b: int| 0 <= a < b < i && b < peeks@.len() ==> peeks@[a] <= peeks@[b],
                !sorted ==> !is_ascending(peeks@),
            decreases peeks.len() - i,
        {
            if peeks[i - 1] > peeks[i] {
                sorted = false;
            }
            i = i + 1;
        }
        if !sorted {
            sort_ascending(&mut peeks);
        }
        Self::seeded(seed, from, to, peeks)
    }

    /// `|left - right|`.
    pub fn abs_subtract(left: u32, right: u32) -> (r: u32)
        ensures
            r == distance(left, right),
    {
        if left > right {
            left - right
        } else {
            right - left
        }
    }

    /// The peek closest to `num`; `None` without peeks.
    pub fn find_closest_peek(&self, num: u32) -> (r: Option<u32>)
        ensures
            self.peeks().len() == 0 ==> r is None,
            self.peeks().len() > 0 ==> r == Some(closest_from(self.peeks(), num, 0)),
    {
        let n = self.peeks.len();
        if n == 0 {
            return None;
        }
        let mut i: usize = 0;
        while i + 1 < n
            invariant
                n == self.peeks().len(),
                n > 0,
                i < n,
                closest_from(self.peeks(), num, 0) == closest_from(self.peeks(), num, i as int),
            decreases n - i,
        {
            if Self::abs_subtract(self.peeks[i], num) < Self::abs_subtract(self.peeks[i + 1], num) {
                return Some(self.peeks[i]);
            }
            i = i + 1;
        }
        Some(self.peeks[n - 1])
    }

    /// Draws two numbers and keeps the one closer to its closest peek
    /// (the first on a tie, or without peeks).
    pub fn get(&mut self) -> (r: u32)
        ensures
            r == skewed_pick(
                old(self).peeks(),
                pcg32_draw(old(self).seed(), old(self).low(), old(self).high(), old(self).drawn()),
                pcg32_draw(
                    old(self).seed(),
                    old(self).low(),
                    old(self).high(),
                    old(self).drawn() + 1,
                ),
            ),
            old(self).low() <= r < old(self).high(),
            final(self).seed() == old(self).seed(),
            final(self).low() == old(self).low(),
            final(self).high() == old(self).high(),
            final(self).peeks() == old(self).peeks(),
            final(self).drawn() == old(self).drawn() + 2,
    {
        proof {
            use_type_invariant(&*self);
        }
        let next = self.draw();
        proof {
            use_type_invariant(&*self);
        }
        let controller = self.draw();
        match (self.find_closest_peek(next), self.find_closest_peek(controller)) {
            (Some(peek1), Some(peek2)) => {
                let dist1 = Self::abs_subtract(next, peek1);
                let dist2 = Self::abs_subtract(controller, peek2);
                if dist2 < dist1 {
                    controller
                } else {
                    next
                }
            },
            _ => next,
        }
    }
}

} // verus!
