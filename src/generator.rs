//! The generation-based fuzzer: an endless, reproducible sequence of values
//! of one automaton.
use vstd::prelude::*;

use crate::automaton::{same_result, Automaton, InvalidAutomaton, NESTING_LIMIT};
use crate::randomness::PRandomizer;

verus! {

/// A seedable sequence of fuzz values: each pull draws a seed from the
/// source and generates a value of the automaton from it.
pub struct Generator {
    automaton: Automaton,
    seeder: PRandomizer,
}

impl Generator {
    pub closed spec fn automaton_spec(&self) -> Automaton {
        self.automaton
    }

    pub closed spec fn seeder_spec(&self) -> PRandomizer {
        self.seeder
    }

    /// A generator of `automaton` whose seeds come from `seeder`.
    pub fn new(automaton: Automaton, seeder: PRandomizer) -> (r: Self)
        ensures
            r.automaton_spec() == automaton,
            r.seeder_spec() == seeder,
    {
        Generator { automaton, seeder }
    }

    /// The next fuzz value; an error when the automaton is invalid.
    pub fn next(&mut self) -> (r: Result<String, InvalidAutomaton>)
        ensures
            same_result(
                r,
                old(self).automaton_spec().generate_spec(
                    old(self).automaton_spec().start_spec(),
                    old(self).seeder_spec().next_draw(),
                    NESTING_LIMIT as nat,
                ),
            ),
            final(self).automaton_spec() == old(self).automaton_spec(),
            final(self).seeder_spec().seed() == old(self).seeder_spec().seed(),
            final(self).seeder_spec().low() == old(self).seeder_spec().low(),
            final(self).seeder_spec().high() == old(self).seeder_spec().high(),
            final(self).seeder_spec().drawn() == old(self).seeder_spec().drawn() + 1,
    {
        let seed = self.seeder.get();
        self.automaton.generate(seed)
    }
}

} // verus!
