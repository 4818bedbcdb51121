//! The automaton engine: an arena of nodes, each with a transformation and a
//! transition, walked with a seeded random source.
use vstd::prelude::*;

use crate::configuration::{Config, Configurable};
use crate::helper::{
    capitalized, capitalized_chars, drop_last_char, drop_last_chars, encode_char, encode_char_chars,
    enlarged, enlarged_chars, escape_u, get_unicode_char, insert_text, insert_text_chars, pick_char,
    pick_char_chars, random_case, random_case_chars, remove_char, remove_char_chars, repeat,
    repeat_chars, replace_all, replace_all_chars, replace_occurrence, replace_occurrence_chars,
    surrogate_pair, unicode_point, upper_all, upper_chars, with_member, with_member_chars,
    control_point, control_value, escape_chars,
};
use crate::numbers::{
    big_squared_chars, big_squared_text, decimal, decimal_text, doubled_chars, doubled_text,
    hex_chars, hex_text, octal_chars, octal_text, squared_chars, squared_text,
};
use crate::randomness::{pcg_draw, PRandomizer};
use crate::skewed::{pcg32_draw, skewed_pick, SkewedPRandomizer};
use crate::text::{chars_of, concat, copy_of, same_text, string_of};
use crate::weights::{choice_spec, TransitionChoice, WeightedTransition, MAX_TRANSITIONS};

verus! {

/// How deep generations may nest inside one another (an array inside an
/// array, ...). At the limit, a nested generation yields nothing.
pub const NESTING_LIMIT: u64 = 16;

/// How many nodes one walk visits at most.
pub const STEP_LIMIT: u64 = 0xFFFF_FFFF_FFFF_FFFF;

/// How a node picks the node visited after it.
pub enum Transition {
    /// The node is final.
    Terminal,
    /// Always the given node.
    Single(usize),
    /// Chosen by a weighted table from the draw.
    Weighted(TransitionChoice),
}

/// What the transition function of `t` returns for a draw.
pub open spec fn next_spec(t: Transition, draw: u64) -> Option<usize> {
    match t {
        Transition::Terminal => None,
        Transition::Single(n) => Some(n),
        Transition::Weighted(c) => choice_spec(c@, draw),
    }
}

impl Transition {
    /// The node that follows for the draw, `None` if the walk ends.
    pub fn next(&self, draw: u64) -> (r: Option<usize>)
        ensures
            r == next_spec(*self, draw),
    {
        match self {
            Transition::Terminal => None,
            Transition::Single(n) => Some(*n),
            Transition::Weighted(c) => c.choice_func(draw),
        }
    }
}

/// The operation a node applies to the value when it is visited.
#[derive(PartialEq, Eq, Debug)]
pub enum Transform {
    /// Leaves the value as it is.
    Identity,
    /// Replaces the value by the given text.
    Constant(Vec<char>),
    /// Puts the text in front of the value.
    Prepend(Vec<char>),
    /// Puts the text after the value.
    Append(Vec<char>),
    /// Puts the first text in front of the value and the second after it.
    Wrap(Vec<char>, Vec<char>),
    /// Every ASCII letter in upper case.
    UpperCase,
    /// The first character in upper case.
    Capitalize,
    /// The case of each character flipped or kept, by draws from the draw.
    RandomCase,
    /// Every occurrence of the character replaced by the text.
    ReplaceChar(char, Vec<char>),
    /// The second text when the value equals the first, else the third.
    IfEquals(Vec<char>, Vec<char>, Vec<char>),
    /// The text inserted at a position picked by the draw.
    InsertText(Vec<char>),
    /// One of the texts, picked by the draw, inserted at a position picked
    /// by the draw.
    InsertOneOf(Vec<Vec<char>>),
    /// A character picked by the draw, inserted.
    InsertRandomChar,
    /// An escaped control character, inserted.
    InsertControlChar,
    /// An escaped lone surrogate, inserted.
    InsertSurrogate,
    /// An escaped surrogate pair, inserted.
    InsertSurrogatePair,
    /// The escape of a character picked by the draw, inserted.
    InsertEncodedChar,
    /// A character of the set, inserted.
    InsertFromSet(Vec<char>),
    /// A character of the set, put in front.
    PrependFromSet(Vec<char>),
    /// One character removed.
    RemoveChar,
    /// One character replaced by its escape.
    EncodeChar,
    /// One occurrence of the first text replaced by the second.
    ReplaceOccurrence(Vec<char>, Vec<char>),
    /// The last character removed.
    DropLast,
    /// A decimal number squared (capped at `u64::MAX`).
    Square,
    /// A decimal number doubled (capped at `u64::MAX`).
    Double,
    /// A decimal number squared without bound.
    BigSquare,
    /// A decimal number in hexadecimal.
    Hex,
    /// A decimal number in octal.
    Octal,
    /// A collection between the two characters blown up by repetition.
    Enlarge(char, char),
    /// An array with one more element, generated by the given entry.
    ArrayElement(usize),
    /// An object with one more member: a key generated by the first entry
    /// and a value generated by the second.
    ObjectMember(usize, usize),
    /// A word of the word list repeated, between double quotes.
    LongWord,
}

pub open spec fn code_of(c: char) -> u32 {
    c as u32
}

/// The character whose code point is `unicode_point(n)`.
pub open spec fn unicode_char(n: u64) -> char {
    choose|c: char| #[trigger] code_of(c) == unicode_point(n)
}

/// How the first value of a generation is made from the seed.
pub enum InitValue {
    /// Always the given text.
    Fixed(Vec<char>),
    /// The seed in decimal.
    SeedDigits,
    /// The first text for an even seed, the second for an odd one.
    Parity(Vec<char>, Vec<char>),
    /// What the entry of the given index generates from the seed.
    Generated(usize),
    /// A word of the word list, between double quotes.
    QuotedWord,
    /// A number below 2^20 drawn from the seed by a source skewed toward 1
    /// and 1000, in decimal.
    DigitString,
}

/// One state of an automaton: a transformation, a transition, and a cycle
/// depth. A non-zero cycle depth makes the walk jump back that many steps in
/// its own history instead of following the transition.
pub struct AutomatonNode {
    transition: Transition,
    transformation: Transform,
    cycle: usize,
}

impl AutomatonNode {
    pub closed spec fn transition_spec(&self) -> Transition {
        self.transition
    }

    pub closed spec fn transform_spec(&self) -> Transform {
        self.transformation
    }

    pub closed spec fn cycle_spec(&self) -> usize {
        self.cycle
    }

    /// A trivial node: identity transformation, final, no cycle.
    pub fn new() -> (r: Self)
        ensures
            r.transition_spec() == Transition::Terminal,
            r.transform_spec() == Transform::Identity,
            r.cycle_spec() == 0,
    {
        AutomatonNode { transition: Transition::Terminal, transformation: Transform::Identity, cycle: 0 }
    }

    /// Makes `next` the only successor; clears any cycle.
    pub fn set_edge(self, next: usize) -> (r: Self)
        ensures
            r.transition_spec() == Transition::Single(next),
            r.transform_spec() == self.transform_spec(),
            r.cycle_spec() == 0,
    {
        AutomatonNode { transition: Transition::Single(next), transformation: self.transformation, cycle: 0 }
    }

    /// Makes the successor a weighted choice among `edges`, with the vertical
    /// randomness coefficient of `config`; clears any cycle.
    pub fn set_edges(self, edges: Vec<(u32, usize)>, config: &Config) -> (r: Self)
        requires
            edges@.len() <= MAX_TRANSITIONS,
        ensures
            r.transition_spec() matches Transition::Weighted(c) && c@ == crate::weights::table_of(
                edges@.map_values(|e: (u32, usize)| (e.0, Some(e.1))),
                config.vertical() as nat,
            ),
            r.transform_spec() == self.transform_spec(),
            r.cycle_spec() == 0,
    {
        let mut weighted: Vec<WeightedTransition> = Vec::new();
        let mut i: usize = 0;
        while i < edges.len()
            invariant
                i <= edges@.len(),
                weighted@ =~= edges@.map_values(|e: (u32, usize)| (e.0, Some(e.1))).subrange(0, i as int),
            decreases edges@.len() - i,
        {
            let (w, n) = edges[i];
            weighted.push((w, Some(n)));
            i = i + 1;
        }
        assert(weighted@ =~= edges@.map_values(|e: (u32, usize)| (e.0, Some(e.1))));
        let v = config.get_vertical_randomness_coef();
        AutomatonNode {
            transition: TransitionChoice::new(weighted, v).into_transition(),
            transformation: self.transformation,
            cycle: 0,
        }
    }

    /// Sets the transformation.
    pub fn set_func(self, func: Transform) -> (r: Self)
        ensures
            r.transition_spec() == self.transition_spec(),
            r.transform_spec() == func,
            r.cycle_spec() == self.cycle_spec(),
    {
        AutomatonNode { transition: self.transition, transformation: func, cycle: self.cycle }
    }

    /// Makes the walk jump back `cycle` steps after this node; clears the
    /// transition.
    pub fn set_cycle(self, cycle: usize) -> (r: Self)
        ensures
            r.transition_spec() == Transition::Terminal,
            r.transform_spec() == self.transform_spec(),
            r.cycle_spec() == cycle,
    {
        AutomatonNode { transition: Transition::Terminal, transformation: self.transformation, cycle }
    }

    /// The node that the transition function picks for the draw.
    pub fn transition(&self, draw: u64) -> (r: Option<usize>)
        ensures
            r == next_spec(self.transition_spec(), draw),
    {
        self.transition.next(draw)
    }

    /// The transformation.
    pub fn transformation(&self) -> (r: &Transform)
        ensures
            *r == self.transform_spec(),
    {
        &self.transformation
    }

    /// The cycle depth.
    pub fn cycle(&self) -> (r: usize)
        ensures
            r == self.cycle_spec(),
    {
        self.cycle
    }
}

/// A family of automata sharing one arena of nodes. Each entry is an initial
/// node with the way its first value is made; `start` is the entry that
/// `generate` and `traverse` use.
pub struct Automaton {
    nodes: Vec<AutomatonNode>,
    entries: Vec<(usize, InitValue)>,
    start: usize,
    words: Vec<Vec<char>>,
}

/// The word that the draw `num` picks: `words[num % len]`, empty without
/// words.
pub open spec fn word_for(words: Seq<Seq<char>>, num: u64) -> Seq<char> {
    if words.len() == 0 {
        Seq::empty()
    } else {
        words[(num as int) % (words.len() as int)]
    }
}

/// The first draw of a source over `[0, 2^20)` made from `seed` and skewed
/// toward 1 and 1000.
pub open spec fn skewed_digits(seed: u64) -> u32 {
    skewed_pick(
        seq![1u32, 1000u32],
        pcg32_draw(seed, 0, 0x10_0000, 0),
        pcg32_draw(seed, 0, 0x10_0000, 1),
    )
}

/// The first draw of a source over `[0, 2^20)` made from `seed` and skewed
/// toward 1 and 1000.
pub fn skewed_number(seed: u64) -> (r: u32)
    ensures
        r == skewed_digits(seed),
        r < 0x10_0000,
{
    let mut peeks: Vec<u32> = Vec::new();
    peeks.push(1);
    peeks.push(1000);
    assert(peeks@ =~= seq![1u32, 1000u32]);
    let mut randomizer = SkewedPRandomizer::new_limited(seed, 0, 0x10_0000, peeks);
    let r = randomizer.get();
    r
}

/// The `k`-th draw of the random source made from `seed`.
pub open spec fn draw_at(seed: u64, k: nat) -> u64 {
    pcg_draw(seed, 0, u64::MAX, k)
}

impl Automaton {
    pub closed spec fn node_count(&self) -> nat {
        self.nodes@.len()
    }

    pub closed spec fn node(&self, n: int) -> AutomatonNode {
        self.nodes@[n]
    }

    pub closed spec fn entry_count(&self) -> nat {
        self.entries@.len()
    }

    pub closed spec fn entry(&self, e: int) -> (usize, InitValue) {
        self.entries@[e]
    }

    pub closed spec fn start_spec(&self) -> usize {
        self.start
    }

    pub closed spec fn words_spec(&self) -> Seq<Seq<char>> {
        self.words@.map_values(|w: Vec<char>| w@)
    }

    fn word(&self, num: u64) -> (r: Vec<char>)
        ensures
            r@ == word_for(self.words_spec(), num),
    {
        if self.words.len() == 0 {
            Vec::new()
        } else {
            copy_of(&self.words[(num as u128 % self.words.len() as u128) as usize])
        }
    }

    /// The value after a node applies `t` with the given draw, for every
    /// transformation but the two that add collection members (see
    /// `apply_spec`).
    pub open spec fn plain_apply(self, t: Transform, draw: u64, v: Seq<char>) -> Seq<char> {
        match t {
            Transform::Identity => v,
            Transform::Constant(c) => c@,
            Transform::Prepend(p) => p@ + v,
            Transform::Append(s) => v + s@,
            Transform::Wrap(p, s) => p@ + v + s@,
            Transform::UpperCase => upper_all(v),
            Transform::Capitalize => capitalized(v),
            Transform::RandomCase => random_case(draw, v),
            Transform::ReplaceChar(c, w) => replace_all(v, c, w@),
            Transform::IfEquals(p, yes, no) => if v == p@ {
                yes@
            } else {
                no@
            },
            Transform::InsertText(t) => insert_text(draw, v, t@),
            Transform::InsertOneOf(ts) => if ts@.len() == 0 {
                v
            } else {
                insert_text(draw, v, ts@[(draw as int) % (ts@.len() as int)]@)
            },
            Transform::InsertRandomChar => insert_text(draw, v, seq![unicode_char(draw)]),
            Transform::InsertControlChar => insert_text(draw, v, escape_u(control_point(draw))),
            Transform::InsertSurrogate => insert_text(draw, v, escape_u((draw % 2048) as nat + 0xD800)),
            Transform::InsertSurrogatePair => insert_text(draw, v, surrogate_pair(draw)),
            Transform::InsertEncodedChar => insert_text(draw, v, escape_u(unicode_point(draw) as nat)),
            Transform::InsertFromSet(set) => insert_text(draw, v, pick_char(draw, set@)),
            Transform::PrependFromSet(set) => pick_char(draw, set@) + v,
            Transform::RemoveChar => remove_char(draw, v),
            Transform::EncodeChar => encode_char(draw, v),
            Transform::ReplaceOccurrence(p, w) => replace_occurrence(v, p@, w@, draw),
            Transform::DropLast => drop_last_char(v),
            Transform::Square => squared_text(v),
            Transform::Double => doubled_text(v),
            Transform::BigSquare => big_squared_text(v),
            Transform::Hex => hex_text(v),
            Transform::Octal => octal_text(v),
            Transform::Enlarge(open, close) => enlarged(v, open, close, draw),
            Transform::ArrayElement(e) => v,
            Transform::ObjectMember(k, e) => v,
            Transform::LongWord => seq!['"'] + repeat(word_for(self.words_spec(), draw), (draw % 1024) as nat)
                + seq!['"'],
        }
    }

    /// The value after a node applies `t` with the given draw; `None` when a
    /// nested generation fails on an invalid cycle depth.
    pub open spec fn apply_spec(self, t: Transform, draw: u64, v: Seq<char>, depth: nat) -> Option<
        Seq<char>,
    >
        decreases depth, 0nat, 0nat,
    {
        match t {
            Transform::ArrayElement(e) => if depth == 0 {
                Some(v)
            } else {
                match self.generate_spec(e, draw, (depth - 1) as nat) {
                    Some(m) => Some(with_member(v, '[', ']', m)),
                    None => None,
                }
            },
            Transform::ObjectMember(k, e) => if depth == 0 {
                Some(v)
            } else {
                match (
                    self.generate_spec(k, draw, (depth - 1) as nat),
                    self.generate_spec(e, draw, (depth - 1) as nat),
                ) {
                    (Some(key), Some(value)) => Some(
                        with_member(v, '{', '}', key + seq![':', ' '] + value),
                    ),
                    _ => None,
                }
            },
            _ => Some(self.plain_apply(t, draw, v)),
        }
    }

    /// The first value of a generation of the entry that uses `g`.
    pub open spec fn init_spec(self, g: InitValue, seed: u64, depth: nat) -> Option<Seq<char>>
        decreases depth, 0nat, 0nat,
    {
        match g {
            InitValue::Fixed(t) => Some(t@),
            InitValue::SeedDigits => Some(decimal(seed as nat)),
            InitValue::Parity(even, odd) => if seed % 2 == 0 {
                Some(even@)
            } else {
                Some(odd@)
            },
            InitValue::Generated(e) => if depth == 0 {
                Some(Seq::empty())
            } else {
                self.generate_spec(e, seed, (depth - 1) as nat)
            },
            InitValue::QuotedWord => Some(seq!['"'] + word_for(self.words_spec(), seed) + seq!['"']),
            InitValue::DigitString => Some(decimal(skewed_digits(seed) as nat)),
        }
    }

    /// The value at the end of a walk that is at `state` with the visited
    /// nodes `stack`, the value `v`, `k` numbers drawn from the source of
    /// `seed`, and `fuel` more steps allowed. `None` when a node's cycle depth
    /// reaches past the start of the history: the automaton is invalid.
    pub open spec fn walk_spec(
        self,
        state: Option<usize>,
        stack: Seq<usize>,
        v: Seq<char>,
        seed: u64,
        k: nat,
        fuel: nat,
        depth: nat,
    ) -> Option<Seq<char>>
        decreases depth, 1nat, fuel,
    {
        match state {
            None => Some(v),
            Some(n) => if fuel == 0 || n >= self.node_count() {
                Some(v)
            } else {
                let node = self.node(n as int);
                let draw = draw_at(seed, k);
                match self.apply_spec(node.transform_spec(), draw, v, depth) {
                None => None,
                Some(v2) => {
                let st = stack.push(n);
                let c = node.cycle_spec();
                if c != 0 {
                    if c < st.len() {
                        let kept = st.subrange(0, st.len() - c);
                        self.walk_spec(
                            Some(kept.last()),
                            kept,
                            v2,
                            seed,
                            k + 1,
                            (fuel - 1) as nat,
                            depth,
                        )
                    } else {
                        None
                    }
                } else {
                    self.walk_spec(
                        next_spec(node.transition_spec(), draw),
                        st,
                        v2,
                        seed,
                        k + 1,
                        (fuel - 1) as nat,
                        depth,
                    )
                }
                },
                }
            },
        }
    }

    /// What a walk of entry `e` from the value `v` ends with.
    pub open spec fn traverse_spec(self, e: usize, v: Seq<char>, seed: u64, depth: nat) -> Option<Seq<char>> {
        if e >= self.entry_count() {
            Some(v)
        } else {
            self.walk_spec(Some(self.entry(e as int).0), Seq::empty(), v, seed, 0, STEP_LIMIT as nat, depth)
        }
    }

    /// What entry `e` generates from `seed`.
    pub open spec fn generate_spec(self, e: usize, seed: u64, depth: nat) -> Option<Seq<char>>
        decreases depth, 2nat, 0nat,
    {
        if e >= self.entry_count() {
            Some(Seq::empty())
        } else {
            match self.init_spec(self.entry(e as int).1, seed, depth) {
                Some(first) => self.walk_spec(
                    Some(self.entry(e as int).0),
                    Seq::empty(),
                    first,
                    seed,
                    0,
                    STEP_LIMIT as nat,
                    depth,
                ),
                None => None,
            }
        }
    }

    fn apply_plain(&self, t: &Transform, draw: u64, v: &Vec<char>) -> (r: Vec<char>)
        ensures
            r@ == self.plain_apply(*t, draw, v@),
    {
        match t {
            Transform::Identity => copy_of(v),
            Transform::Constant(c) => copy_of(c),
            Transform::Prepend(p) => concat(p, v),
            Transform::Append(s) => concat(v, s),
            Transform::Wrap(p, s) => concat(&concat(p, v), s),
            Transform::UpperCase => upper_chars(v),
            Transform::Capitalize => capitalized_chars(v),
            Transform::RandomCase => random_case_chars(draw, v),
            Transform::ReplaceChar(c, w) => replace_all_chars(v, *c, w),
            Transform::IfEquals(p, yes, no) => if same_text(v, p) {
                copy_of(yes)
            } else {
                copy_of(no)
            },
            Transform::InsertText(t) => insert_text_chars(draw, v, t),
            Transform::InsertOneOf(ts) => if ts.len() == 0 {
                copy_of(v)
            } else {
                insert_text_chars(draw, v, &ts[(draw as u128 % ts.len() as u128) as usize])
            },
            Transform::InsertRandomChar => {
                let c = get_unicode_char(draw);
                let mut t: Vec<char> = Vec::new();
                t.push(c);
                proof {
                    assert(code_of(c) == unicode_point(draw));
                    let u = unicode_char(draw);
                    assert(code_of(u) == unicode_point(draw));
                    assert(u == c);
                }
                assert(t@ =~= seq![unicode_char(draw)]);
                insert_text_chars(draw, v, &t)
            },
            Transform::InsertControlChar => insert_text_chars(draw, v, &escape_chars(control_value(draw))),
            Transform::InsertSurrogate => insert_text_chars(draw, v, &escape_chars(draw % 2048 + 0xD800)),
            Transform::InsertSurrogatePair => insert_text_chars(draw, v, &crate::helper::surrogate_pair_chars(draw)),
            Transform::InsertEncodedChar => {
                let c = get_unicode_char(draw);
                insert_text_chars(draw, v, &escape_chars(c as u32 as u64))
            },
            Transform::InsertFromSet(set) => insert_text_chars(draw, v, &pick_char_chars(draw, set)),
            Transform::PrependFromSet(set) => concat(&pick_char_chars(draw, set), v),
            Transform::RemoveChar => remove_char_chars(draw, v),
            Transform::EncodeChar => encode_char_chars(draw, v),
            Transform::ReplaceOccurrence(p, w) => replace_occurrence_chars(v, p, w, draw),
            Transform::DropLast => drop_last_chars(v),
            Transform::Square => squared_chars(v),
            Transform::Double => doubled_chars(v),
            Transform::BigSquare => big_squared_chars(v),
            Transform::Hex => hex_chars(v),
            Transform::Octal => octal_chars(v),
            Transform::Enlarge(open, close) => enlarged_chars(v, *open, *close, draw),
            Transform::ArrayElement(_) => copy_of(v),
            Transform::ObjectMember(_, _) => copy_of(v),
            Transform::LongWord => {
                let w = self.word(draw);
                let body = repeat_chars(&w, draw % 1024);
                let mut r: Vec<char> = Vec::new();
                r.push('"');
                crate::text::append(&mut r, &body);
                r.push('"');
                assert(r@ =~= seq!['"'] + repeat(word_for(self.words_spec(), draw), (draw % 1024) as nat)
                    + seq!['"']);
                r
            },
        }
    }

    fn apply(&self, t: &Transform, draw: u64, v: &Vec<char>, depth: u64) -> (r: Option<Vec<char>>)
        ensures
            same_outcome(r, self.apply_spec(*t, draw, v@, depth as nat)),
        decreases depth, 0nat, 0nat,
    {
        match t {
            Transform::ArrayElement(e) => if depth == 0 {
                Some(copy_of(v))
            } else {
                match self.generate_entry(*e, draw, depth - 1) {
                    Some(m) => Some(with_member_chars(v, '[', ']', &m)),
                    None => None,
                }
            },
            Transform::ObjectMember(k, e) => if depth == 0 {
                Some(copy_of(v))
            } else {
                let key = self.generate_entry(*k, draw, depth - 1);
                let value = self.generate_entry(*e, draw, depth - 1);
                match (key, value) {
                    (Some(key), Some(value)) => {
                        let ghost ks = key@;
                        let mut m = key;
                        m.push(':');
                        m.push(' ');
                        crate::text::append(&mut m, &value);
                        assert(m@ =~= ks + seq![':', ' '] + value@);
                        Some(with_member_chars(v, '{', '}', &m))
                    },
                    _ => None,
                }
            },
            _ => Some(self.apply_plain(t, draw, v)),
        }
    }

    fn init(&self, g: &InitValue, seed: u64, depth: u64) -> (r: Option<Vec<char>>)
        ensures
            same_outcome(r, self.init_spec(*g, seed, depth as nat)),
        decreases depth, 0nat, 0nat,
    {
        Some(match g {
            InitValue::Fixed(t) => copy_of(t),
            InitValue::SeedDigits => decimal_text(seed),
            InitValue::Parity(even, odd) => if seed % 2 == 0 {
                copy_of(even)
            } else {
                copy_of(odd)
            },
            InitValue::Generated(e) => if depth == 0 {
                Vec::new()
            } else {
                return self.generate_entry(*e, seed, depth - 1);
            },
            InitValue::QuotedWord => {
                let w = self.word(seed);
                let mut r: Vec<char> = Vec::new();
                r.push('"');
                crate::text::append(&mut r, &w);
                r.push('"');
                assert(r@ =~= seq!['"'] + word_for(self.words_spec(), seed) + seq!['"']);
                r
            },
            InitValue::DigitString => decimal_text(skewed_number(seed) as u64),
        })
    }

    fn walk(&self, start: usize, v: Vec<char>, seed: u64, depth: u64) -> (r: Option<Vec<char>>)
        ensures
            same_outcome(
                r,
                self.walk_spec(Some(start), Seq::empty(), v@, seed, 0, STEP_LIMIT as nat, depth as nat),
            ),
        decreases depth, 1nat, 0nat,
    {
        let ghost target = self.walk_spec(Some(start), Seq::empty(), v@, seed, 0, STEP_LIMIT as nat, depth as nat);
        let ghost v_in = v@;
        let mut seeder = PRandomizer::new(seed);
        let mut stack: Vec<usize> = Vec::new();
        let mut state: Option<usize> = Some(start);
        let mut value = v;
        let mut fuel: u64 = STEP_LIMIT;
        let mut failed = false;
        while fuel > 0
            invariant_except_break
                !failed,
                self.walk_spec(state, stack@, value@, seed, seeder.drawn(), fuel as nat, depth as nat) == target,
            invariant
                seeder.seed() == seed,
                seeder.low() == 0,
                seeder.high() == u64::MAX,
                target == self.walk_spec(Some(start), Seq::empty(), v_in, seed, 0, STEP_LIMIT as nat, depth as nat),
            ensures
                failed ==> target == None::<Seq<char>>,
                !failed ==> target == Some(value@),
            decreases fuel,
        {
            let n = match state {
                Some(n) => n,
                None => {
                    break ;
                },
            };
            if n >= self.nodes.len() {
                break ;
            }
            let node = &self.nodes[n];
            let ghost st0 = stack@;
            let ghost v0 = value@;
            let ghost k0 = seeder.drawn();
            let draw = seeder.get();
            value = match self.apply(&node.transformation, draw, &value, depth) {
                Some(next) => next,
                None => {
                    assert(self.walk_spec(Some(n), st0, v0, seed, k0, fuel as nat, depth as nat)
                        == None::<Seq<char>>);
                    failed = true;
                    break ;
                },
            };
            stack.push(n);
            if node.cycle != 0 {
                if node.cycle < stack.len() {
                    let keep = stack.len() - node.cycle;
                    stack.truncate(keep);
                    state = Some(stack[keep - 1]);
                } else {
                    assert(self.walk_spec(Some(n), st0, v0, seed, k0, fuel as nat, depth as nat)
                        == None::<Seq<char>>);
                    failed = true;
                    break ;
                }
            } else {
                state = node.transition.next(draw);
            }
            fuel = fuel - 1;
        }
        if failed {
            None
        } else {
            Some(value)
        }
    }

    fn generate_entry(&self, e: usize, seed: u64, depth: u64) -> (r: Option<Vec<char>>)
        ensures
            same_outcome(r, self.generate_spec(e, seed, depth as nat)),
        decreases depth, 2nat, 0nat,
    {
        if e >= self.entries.len() {
            return Some(Vec::new());
        }
        match self.init(&self.entries[e].1, seed, depth) {
            Some(first) => self.walk(self.entries[e].0, first, seed, depth),
            None => None,
        }
    }

    /// The walk of entry `e` from the value `v`; `None` when the automaton
    /// is invalid (a cycle depth reaches past the start of the history).
    pub fn traverse_entry(&self, e: usize, v: &Vec<char>, seed: u64) -> (r: Option<Vec<char>>)
        ensures
            same_outcome(r, self.traverse_spec(e, v@, seed, NESTING_LIMIT as nat)),
    {
        if e >= self.entries.len() {
            return Some(copy_of(v));
        }
        self.walk(self.entries[e].0, copy_of(v), seed, NESTING_LIMIT)
    }

    /// An automaton with one entry: the walk starts at `initial_node`, and
    /// `generator` makes the first value of a generation.
    pub fn new(nodes: Vec<AutomatonNode>, initial_node: usize, generator: InitValue) -> (r: Self)
        ensures
            r.node_count() == nodes@.len(),
            forall|i: int| 0 <= i < nodes@.len() ==> r.node(i) == nodes@[i],
            r.entry_count() == 1,
            r.entry(0) == (initial_node, generator),
            r.start_spec() == 0,
            r.words_spec().len() == 0,
    {
        let mut entries: Vec<(usize, InitValue)> = Vec::new();
        entries.push((initial_node, generator));
        Automaton { nodes, entries, start: 0, words: Vec::new() }
    }

    /// A family of automata over one arena; `start` picks the entry that
    /// `generate` and `traverse` use.
    pub fn with_entries(
        nodes: Vec<AutomatonNode>,
        entries: Vec<(usize, InitValue)>,
        start: usize,
        words: Vec<Vec<char>>,
    ) -> (r: Self)
        ensures
            r.words_spec() == words@.map_values(|w: Vec<char>| w@),
            r.node_count() == nodes@.len(),
            forall|i: int| 0 <= i < nodes@.len() ==> r.node(i) == nodes@[i],
            r.entry_count() == entries@.len(),
            forall|i: int| 0 <= i < entries@.len() ==> r.entry(i) == entries@[i],
            r.start_spec() == start,
    {
        Automaton { nodes, entries, start, words }
    }

    /// The same family with another start entry.
    pub fn select(self, start: usize) -> (r: Self)
        ensures
            r.node_count() == self.node_count(),
            forall|i: int| 0 <= i < self.node_count() ==> r.node(i) == self.node(i),
            r.entry_count() == self.entry_count(),
            forall|i: int| 0 <= i < self.entry_count() ==> r.entry(i) == self.entry(i),
            r.start_spec() == start,
            r.words_spec() == self.words_spec(),
    {
        Automaton { nodes: self.nodes, entries: self.entries, start, words: self.words }
    }

    /// The initial node of the start entry (`None` if there is no such entry).
    pub fn init_state(&self) -> (r: Option<usize>)
        ensures
            r == (if self.start_spec() < self.entry_count() {
                Some(self.entry(self.start_spec() as int).0)
            } else {
                None
            }),
    {
        if self.start < self.entries.len() {
            Some(self.entries[self.start].0)
        } else {
            None
        }
    }

    /// The first value of a generation from `seed`; an error when the
    /// automaton is invalid.
    pub fn init_value(&self, seed: u64) -> (r: Result<String, InvalidAutomaton>)
        ensures
            same_result(
                r,
                if self.start_spec() < self.entry_count() {
                    self.init_spec(self.entry(self.start_spec() as int).1, seed, NESTING_LIMIT as nat)
                } else {
                    Some(Seq::empty())
                },
            ),
    {
        if self.start < self.entries.len() {
            to_result(self.init(&self.entries[self.start].1, seed, NESTING_LIMIT))
        } else {
            Ok(String::new())
        }
    }

    /// Generates a first value from `seed` and walks the automaton with it,
    /// drawing from the same seed; an error when the automaton is invalid.
    pub fn generate(&self, seed: u64) -> (r: Result<String, InvalidAutomaton>)
        ensures
            same_result(r, self.generate_spec(self.start_spec(), seed, NESTING_LIMIT as nat)),
    {
        to_result(self.generate_entry(self.start, seed, NESTING_LIMIT))
    }

    /// Walks the automaton with `input`, drawing from the source of `seed`;
    /// an error when the automaton is invalid.
    pub fn traverse(&self, input: String, seed: u64) -> (r: Result<String, InvalidAutomaton>)
        ensures
            same_result(r, self.traverse_spec(self.start_spec(), input@, seed, NESTING_LIMIT as nat)),
    {
        let v = chars_of(input.as_str());
        to_result(self.traverse_entry(self.start, &v, seed))
    }
}

/// The error of a walk over an invalid automaton: a node's cycle depth
/// reaches past the start of the walk's history.
#[derive(PartialEq, Eq, Debug, Clone, Copy)]
pub enum InvalidAutomaton {
    CycleTooDeep,
}

/// An exec outcome that matches a spec outcome.
pub open spec fn same_outcome(r: Option<Vec<char>>, x: Option<Seq<char>>) -> bool {
    match x {
        Some(t) => r matches Some(y) && y@ == t,
        None => r is None,
    }
}

/// A public result that matches a spec outcome.
pub open spec fn same_result(r: Result<String, InvalidAutomaton>, x: Option<Seq<char>>) -> bool {
    match x {
        Some(t) => r matches Ok(y) && y@ == t,
        None => r is Err,
    }
}

fn to_result(v: Option<Vec<char>>) -> (r: Result<String, InvalidAutomaton>)
    ensures
        forall|x: Option<Seq<char>>| same_outcome(v, x) ==> same_result(r, x),
{
    match v {
        Some(t) => Ok(string_of(&t)),
        None => Err(InvalidAutomaton::CycleTooDeep),
    }
}

} // verus!
