//! The mutation engine: re-walks a chosen subset of the tokens of an input
//! through their automata and splices the results back, tracking how each
//! replacement moves the positions after it.
use std::collections::{BTreeMap, BTreeSet};
use vstd::prelude::*;

use crate::automaton::{Automaton, NESTING_LIMIT};
use crate::configuration::{Config, Configurable};
use crate::randomness::PRandomizer;
use crate::text::{chars_of, copy_of, slice, splice, string_of};

verus! {

broadcast use vstd::std_specs::btree::group_btree_axioms;

/// One token of the input: the span `from..to` of the original text (in
/// characters) and the entry of the automaton family that mutates it.
pub struct AutomatonToken {
    pub from: usize,
    pub to: usize,
    pub automaton: usize,
}

/// The sum of the deltas recorded at positions below `below`.
pub open spec fn offset_sum(m: Map<usize, i64>, below: nat) -> int
    decreases below,
{
    if below == 0 {
        0
    } else {
        let q = (below - 1) as nat;
        offset_sum(m, q) + if m.contains_key(q as usize) {
            m[q as usize] as int
        } else {
            0
        }
    }
}

/// Where the character at original position `p` stands after the moves of
/// `m`: `p` plus every delta recorded strictly below `p`.
pub open spec fn moved(m: Map<usize, i64>, p: usize) -> int {
    p + offset_sum(m, p as nat)
}

/// `m` after recording the delta `delta` at position `p` (summed with what is
/// already there; a zero delta records nothing).
pub open spec fn recorded(m: Map<usize, i64>, p: usize, delta: i64) -> Map<usize, i64> {
    if delta == 0 {
        m
    } else if m.contains_key(p) {
        m.insert(p, (m[p] + delta) as i64)
    } else {
        m.insert(p, delta)
    }
}

pub open spec fn fits_i64(x: int) -> bool {
    i64::MIN <= x <= i64::MAX
}

/// Whether a delta can be recorded at `p` without leaving the range of `i64`.
pub open spec fn can_record(m: Map<usize, i64>, p: usize, delta: i64) -> bool {
    delta == 0 || !m.contains_key(p) || fits_i64(m[p] + delta)
}

/// How many of `n` tokens a mutation touches under the horizontal
/// coefficient `h`: the ceiling of `h * n / 100`.
pub open spec fn budget(h: nat, n: nat) -> nat {
    (h * n + 99) / 100
}

/// Whether token `i` of `n` is among the `cnt` tokens that follow `start`
/// (wrapping around).
pub open spec fn is_selected(n: nat, start: nat, cnt: nat, i: nat) -> bool {
    &&& i < n
    &&& start < n
    &&& (if i >= start {
        i - start
    } else {
        i + n - start
    }) < cnt
}

/// The tokens chosen for one production with the draw `seed`.
pub open spec fn selection(n: nat, seed: u64, cnt: nat) -> Set<usize> {
    if n == 0 {
        Set::empty()
    } else {
        Set::new(|i: usize| is_selected(n, ((seed as int) % (n as int)) as nat, cnt, i as nat))
    }
}

/// Why a mutation failed. Each is a broken invariant of the automata or the
/// tokens, never a property of well-formed input.
#[derive(PartialEq, Eq, Debug, Clone, Copy)]
pub enum MutationError {
    /// A token's automaton is invalid (a cycle depth reaches past the start
    /// of the walk's history).
    InvalidAutomaton,
    /// A token's translated span is not a range of the text.
    SpanOutsideText,
    /// A length change does not fit the offset table's `i64` deltas.
    OffsetOverflow,
}

/// The offset table and text after the mutation of token `tok`: its span is
/// translated through `m`, the text there is walked through its automaton,
/// spliced back, and the length change recorded at the token's original end.
pub open spec fn fuzz_token_spec(
    family: Automaton,
    tok: AutomatonToken,
    seed: u64,
    m: Map<usize, i64>,
    res: Seq<char>,
) -> Result<(Map<usize, i64>, Seq<char>), MutationError> {
    let f = moved(m, tok.from);
    let t = moved(m, tok.to);
    if 0 <= f <= t <= res.len() {
        match family.traverse_spec(tok.automaton, res.subrange(f, t), seed, NESTING_LIMIT as nat) {
            Some(out) => {
                let delta = out.len() - (t - f);
                if out.len() <= i64::MAX && t - f <= i64::MAX && can_record(m, tok.to, delta as i64) {
                    Ok(
                        (
                            recorded(m, tok.to, delta as i64),
                            res.subrange(0, f) + out + res.subrange(t, res.len() as int),
                        ),
                    )
                } else {
                    Err(MutationError::OffsetOverflow)
                }
            },
            None => Err(MutationError::InvalidAutomaton),
        }
    } else {
        Err(MutationError::SpanOutsideText)
    }
}

/// The text after mutating, in ascending order from token `i` on, the tokens
/// in `chosen`.
pub open spec fn fuzz_from(
    family: Automaton,
    tokens: Seq<AutomatonToken>,
    seed: u64,
    chosen: Set<usize>,
    i: nat,
    m: Map<usize, i64>,
    res: Seq<char>,
) -> Result<Seq<char>, MutationError>
    decreases tokens.len() - i,
{
    if i >= tokens.len() {
        Ok(res)
    } else if chosen.contains(i as usize) {
        match fuzz_token_spec(family, tokens[i as int], seed, m, res) {
            Ok(next) => fuzz_from(family, tokens, seed, chosen, i + 1, next.0, next.1),
            Err(e) => Err(e),
        }
    } else {
        fuzz_from(family, tokens, seed, chosen, i + 1, m, res)
    }
}

proof fn lemma_empty_sum(b: nat)
    ensures
        offset_sum(Map::empty(), b) == 0,
    decreases b,
{
    if b > 0 {
        lemma_empty_sum((b - 1) as nat);
    }
}

/// With an empty offset table, every position translates to itself.
pub proof fn law_empty_table_identity(p: usize)
    ensures
        moved(Map::empty(), p) == p,
{
    lemma_empty_sum(p as nat);
}

proof fn lemma_recorded_sum(m: Map<usize, i64>, q: usize, d: i64, b: nat)
    requires
        can_record(m, q, d),
        b <= usize::MAX + 1,
    ensures
        offset_sum(recorded(m, q, d), b) == offset_sum(m, b) + if b > q {
            d as int
        } else {
            0
        },
    decreases b,
{
    if b > 0 {
        lemma_recorded_sum(m, q, d, (b - 1) as nat);
    }
}

/// Recording a delta `d` at original position `q` moves exactly the
/// positions after `q` by `d`; `q` itself and every position before it stay.
pub proof fn law_single_move(m: Map<usize, i64>, q: usize, d: i64, p: usize)
    requires
        can_record(m, q, d),
    ensures
        moved(recorded(m, q, d), p) == moved(m, p) + if p > q {
            d as int
        } else {
            0
        },
{
    lemma_recorded_sum(m, q, d, p as nat);
}

/// A mutation of a non-empty token list touches at least one token, and
/// never more than there are, whatever the coefficient in 1..=100.
pub proof fn law_budget_floor(h: nat, n: nat)
    requires
        1 <= h <= 100,
        n > 0,
    ensures
        1 <= budget(h, n) <= n,
{
    assert(h * n >= 1) by (nonlinear_arith)
        requires
            h >= 1,
            n >= 1,
    ;
    assert(h * n <= 100 * n) by (nonlinear_arith)
        requires
            h <= 100,
    ;
}

/// A mutation-based fuzzer over one tokenized input.
pub struct Mutator {
    seeder: PRandomizer,
    tokens: Vec<AutomatonToken>,
    input: Vec<char>,
    family: Automaton,
    config: Config,
}

impl Mutator {
    pub closed spec fn tokens_spec(&self) -> Seq<AutomatonToken> {
        self.tokens@
    }

    pub closed spec fn input_spec(&self) -> Seq<char> {
        self.input@
    }

    pub closed spec fn family_spec(&self) -> Automaton {
        self.family
    }

    pub closed spec fn seeder_spec(&self) -> PRandomizer {
        self.seeder
    }

    pub closed spec fn config_spec(&self) -> Config {
        self.config
    }

    /// The number of tokens a production touches.
    pub open spec fn count_spec(&self) -> nat {
        budget(self.config_spec().horizontal() as nat, self.tokens_spec().len())
    }

    /// What one production yields with the draw `seed`.
    pub open spec fn production(&self, seed: u64) -> Result<Seq<char>, MutationError> {
        fuzz_from(
            self.family_spec(),
            self.tokens_spec(),
            seed,
            selection(self.tokens_spec().len(), seed, self.count_spec()),
            0,
            Map::empty(),
            self.input_spec(),
        )
    }

    /// A mutator of `input`, whose tokens are `tokens` and whose automata are
    /// the entries of `family`; `seed` seeds the draws of the productions.
    pub fn new(seed: u64, input: &str, tokens: Vec<AutomatonToken>, family: Automaton, config: Config) -> (r: Self)
        ensures
            r.tokens_spec() == tokens@,
            r.input_spec() == input@,
            r.family_spec() == family,
            r.config_spec() == config,
            r.seeder_spec().seed() == seed,
            r.seeder_spec().drawn() == 0,
            r.seeder_spec().low() == 0,
            r.seeder_spec().high() == u64::MAX,
    {
        Mutator { seeder: PRandomizer::new(seed), tokens, input: chars_of(input), family, config }
    }

    /// The translated position of `original`, if it is a `usize`.
    pub fn moved_position(offset_table: &BTreeMap<usize, i64>, original: usize) -> (r: Option<usize>)
        ensures
            r == (if 0 <= moved(offset_table@, original) <= usize::MAX {
                Some(moved(offset_table@, original) as usize)
            } else {
                None
            }),
    {
        let mut acc: i128 = 0;
        let mut i: usize = 0;
        while i < original
            invariant
                i <= original,
                acc == offset_sum(offset_table@, i as nat),
                -(i * 0x8000_0000_0000_0000) <= acc <= i * 0x8000_0000_0000_0000,
            decreases original - i,
        {
            match offset_table.get(&i) {
                Some(d) => {
                    acc = acc + *d as i128;
                },
                None => {},
            }
            i = i + 1;
        }
        match acc.checked_add(original as i128) {
            Some(total) => if total >= 0 && total <= usize::MAX as i128 {
                Some(total as usize)
            } else {
                None
            },
            None => None,
        }
    }

    /// Calculates where the element at `original` stands after the moves
    /// recorded in `offset_table`: `original` plus every delta recorded at a
    /// position strictly below it.
    pub fn get_moved_index(offset_table: &BTreeMap<usize, i64>, original: usize) -> (r: usize)
        requires
            0 <= moved(offset_table@, original) <= usize::MAX,
        ensures
            r == moved(offset_table@, original),
    {
        match Self::moved_position(offset_table, original) {
            Some(p) => p,
            None => 0,
        }
    }

    /// Records in `offset_table` that the element at `original` moved by
    /// `offset`, adding to any move already recorded there.
    pub fn move_index(offset_table: &mut BTreeMap<usize, i64>, original: usize, offset: i64)
        requires
            can_record(old(offset_table)@, original, offset),
        ensures
            final(offset_table)@ == recorded(old(offset_table)@, original, offset),
    {
        if offset != 0 {
            let current: i64 = match offset_table.get(&original) {
                Some(d) => *d,
                None => 0,
            };
            offset_table.insert(original, current + offset);
        }
    }

    /// The number of tokens to fuzz: the ceiling of `h_coef / 100` times the
    /// number of tokens.
    pub fn get_tokens_count(&self) -> (r: usize)
        ensures
            r == self.count_spec(),
            1 <= self.config_spec().horizontal() <= 100,
    {
        let h = self.config.get_horizontal_randomness_coef();
        let n = self.tokens.len();
        proof {
            assert(h as nat * n as nat <= 100 * n as nat) by (nonlinear_arith)
                requires
                    h <= 100,
            ;
            assert((h as nat * n as nat + 99) / 100 <= n as nat) by (nonlinear_arith)
                requires
                    h as nat * n as nat <= 100 * n as nat,
            ;
        }
        let total: u128 = h as u128 * n as u128 + 99;
        (total / 100) as usize
    }

    /// The tokens to fuzz with the draw `seed`: the tokens from `seed % n` on,
    /// wrapping around, as many as `get_tokens_count` says.
    pub fn choose_for_mutation(&self, seed: u64) -> (r: BTreeSet<usize>)
        ensures
            r@ == selection(self.tokens_spec().len(), seed, self.count_spec()),
            self.tokens_spec().len() > 0 ==> r@.contains(
                ((seed as int) % (self.tokens_spec().len() as int)) as usize,
            ),
    {
        let n = self.tokens.len();
        let mut chosen: BTreeSet<usize> = BTreeSet::new();
        if n == 0 {
            assert(chosen@ =~= selection(0, seed, self.count_spec()));
            return chosen;
        }
        let cnt = self.get_tokens_count();
        proof {
            law_budget_floor(self.config_spec().horizontal() as nat, n as nat);
        }
        let start = (seed % (n as u64)) as usize;
        let mut i: usize = 0;
        while i < n
            invariant
                n == self.tokens_spec().len(),
                n > 0,
                cnt == self.count_spec(),
                start == (seed as int) % (n as int),
                i <= n,
                forall|j: usize|
                    chosen@.contains(j) <==> (j < i && is_selected(n as nat, start as nat, cnt as nat, j as nat)),
            decreases n - i,
        {
            let dist = if i >= start {
                i - start
            } else {
                i + (n - start)
            };
            if dist < cnt {
                chosen.insert(i);
            }
            i = i + 1;
        }
        assert(chosen@ =~= selection(n as nat, seed, cnt as nat));
        chosen
    }

    /// Fuzzes token `idx` with `seed`, updating the offset table and the text;
    /// an error (with both left as they were) when the token cannot be
    /// mutated.
    pub fn fuzz_token(
        &self,
        seed: u64,
        idx: usize,
        offsets: &mut BTreeMap<usize, i64>,
        result: &mut Vec<char>,
    ) -> (r: Result<(), MutationError>)
        requires
            idx < self.tokens_spec().len(),
        ensures
            match fuzz_token_spec(
                self.family_spec(),
                self.tokens_spec()[idx as int],
                seed,
                old(offsets)@,
                old(result)@,
            ) {
                Ok((m, t)) => r is Ok && final(offsets)@ == m && final(result)@ == t,
                Err(e) => r == Err::<(), MutationError>(e) && final(offsets)@ == old(offsets)@
                    && final(result)@ == old(result)@,
            },
    {
        let tok = &self.tokens[idx];
        let rl = result.len();
        assert(result@.len() == rl);
        let ghost f = moved(offsets@, tok.from);
        let ghost t = moved(offsets@, tok.to);
        let from = match Self::moved_position(offsets, tok.from) {
            Some(p) => p,
            None => {
                assert(!(0 <= f <= t <= result@.len()));
                return Err(MutationError::SpanOutsideText);
            },
        };
        let to = match Self::moved_position(offsets, tok.to) {
            Some(p) => p,
            None => {
                assert(!(0 <= f <= t <= result@.len()));
                return Err(MutationError::SpanOutsideText);
            },
        };
        if !(from <= to && to <= result.len()) {
            return Err(MutationError::SpanOutsideText);
        }
        let piece = slice(result, from, to);
        let fuzzed = match self.family.traverse_entry(tok.automaton, &piece, seed) {
            Some(out) => out,
            None => {
                return Err(MutationError::InvalidAutomaton);
            },
        };
        if fuzzed.len() as u64 > 0x7FFF_FFFF_FFFF_FFFF || (to - from) as u64 > 0x7FFF_FFFF_FFFF_FFFF {
            return Err(MutationError::OffsetOverflow);
        }
        let delta: i64 = fuzzed.len() as i64 - (to - from) as i64;
        let fits = match offsets.get(&tok.to) {
            Some(d) => match d.checked_add(delta) {
                Some(_) => true,
                None => false,
            },
            None => true,
        };
        if !fits {
            return Err(MutationError::OffsetOverflow);
        }
        let updated = splice(result, from, to, &fuzzed);
        *result = updated;
        Self::move_index(offsets, tok.to, delta);
        Ok(())
    }

    /// One production: draws a seed, chooses the tokens, and mutates them in
    /// ascending order.
    fn fuzz(&mut self) -> (r: Result<String, MutationError>)
        ensures
            match old(self).production(old(self).seeder_spec().next_draw()) {
                Ok(t) => r matches Ok(x) && x@ == t,
                Err(e) => r == Err::<String, MutationError>(e),
            },
            final(self).seeder_spec().seed() == old(self).seeder_spec().seed(),
            final(self).seeder_spec().low() == old(self).seeder_spec().low(),
            final(self).seeder_spec().high() == old(self).seeder_spec().high(),
            final(self).seeder_spec().drawn() == old(self).seeder_spec().drawn() + 1,
            final(self).tokens_spec() == old(self).tokens_spec(),
            final(self).input_spec() == old(self).input_spec(),
            final(self).family_spec() == old(self).family_spec(),
            final(self).config_spec() == old(self).config_spec(),
    {
        let next_seed = self.seeder.get();
        let chosen = self.choose_for_mutation(next_seed);
        let mut offsets: BTreeMap<usize, i64> = BTreeMap::new();
        let mut result = copy_of(&self.input);
        let ghost target = self.production(next_seed);
        let n = self.tokens.len();
        let mut i: usize = 0;
        while i < n
            invariant
                n == self.tokens_spec().len(),
                i <= n,
                chosen@ == selection(n as nat, next_seed, self.count_spec()),
                self.tokens_spec() == old(self).tokens_spec(),
                self.input_spec() == old(self).input_spec(),
                self.family_spec() == old(self).family_spec(),
                self.config_spec() == old(self).config_spec(),
                self.seeder_spec().seed() == old(self).seeder_spec().seed(),
                self.seeder_spec().low() == old(self).seeder_spec().low(),
                self.seeder_spec().high() == old(self).seeder_spec().high(),
                self.seeder_spec().drawn() == old(self).seeder_spec().drawn() + 1,
                next_seed == old(self).seeder_spec().next_draw(),
                target == old(self).production(old(self).seeder_spec().next_draw()),
                fuzz_from(self.family_spec(), self.tokens_spec(), next_seed, chosen@, i as nat, offsets@, result@) == target,
            decreases n - i,
        {
            if chosen.contains(&i) {
                match self.fuzz_token(next_seed, i, &mut offsets, &mut result) {
                    Ok(()) => {},
                    Err(e) => {
                        return Err(e);
                    },
                }
            }
            i = i + 1;
        }
        assert(fuzz_from(self.family_spec(), self.tokens_spec(), next_seed, chosen@, n as nat, offsets@, result@) == Ok::<Seq<char>, MutationError>(result@));
        Ok(string_of(&result))
    }

    /// The next fuzzed text; `Ok(None)` when the input has no tokens, an
    /// error when a token cannot be mutated.
    pub fn next(&mut self) -> (r: Result<Option<String>, MutationError>)
        ensures
            old(self).tokens_spec().len() == 0 ==> r == Ok::<Option<String>, MutationError>(None)
                && final(self).seeder_spec() == old(self).seeder_spec(),
            old(self).tokens_spec().len() > 0 ==> final(self).seeder_spec().drawn()
                == old(self).seeder_spec().drawn() + 1 && final(self).seeder_spec().seed()
                == old(self).seeder_spec().seed() && match old(self).production(
                old(self).seeder_spec().next_draw(),
            ) {
                Ok(t) => r matches Ok(Some(x)) && x@ == t,
                Err(e) => r == Err::<Option<String>, MutationError>(e),
            },
            final(self).tokens_spec() == old(self).tokens_spec(),
            final(self).input_spec() == old(self).input_spec(),
            final(self).family_spec() == old(self).family_spec(),
            final(self).config_spec() == old(self).config_spec(),
    {
        if self.tokens.len() == 0 {
            Ok(None)
        } else {
            match self.fuzz() {
                Ok(x) => Ok(Some(x)),
                Err(e) => Err(e),
            }
        }
    }
}

} // verus!
