//! The fuzzing configuration: the two randomness coefficients and the word
//! list that string automata draw from.
use vstd::prelude::*;

verus! {

/// The coefficient that a fresh configuration holds.
pub const DEFAULT_COEFFICIENT: u32 = 50;

/// Rules for interaction with a fuzzing configuration.
pub trait Configurable {
    /// The vertical randomness coefficient (v-coef): how strongly the edge
    /// weights of an automaton are flattened; from 1 to 100.
    fn get_vertical_randomness_coef(&self) -> (r: u32)
        ensures
            1 <= r <= 100,
    ;

    /// The horizontal randomness coefficient (h-coef): which share of the
    /// tokens of an input a mutation touches; from 1 to 100.
    fn get_horizontal_randomness_coef(&self) -> (r: u32)
        ensures
            1 <= r <= 100,
    ;

    fn set_horizontal_randomness_coef(&mut self, value: u32)
        requires
            1 <= value <= 100,
    ;

    fn set_vertical_randomness_coef(&mut self, value: u32)
        requires
            1 <= value <= 100,
    ;
}

/// An explicitly passed fuzzing configuration.
pub struct Config {
    vertical_randomness_coef: u32,
    horizontal_randomness_coef: u32,
    common_words: Vec<String>,
}

/// Checks whether a coefficient lies in the supported range, 1 to 100.
pub fn is_valid_value(value: u32) -> (r: bool)
    ensures
        r == (1 <= value <= 100),
{
    value > 0 && value <= 100
}

impl Config {
    #[verifier::type_invariant]
    spec fn inv(&self) -> bool {
        &&& 1 <= self.vertical_randomness_coef <= 100
        &&& 1 <= self.horizontal_randomness_coef <= 100
    }

    pub closed spec fn vertical(&self) -> u32 {
        self.vertical_randomness_coef
    }

    pub closed spec fn horizontal(&self) -> u32 {
        self.horizontal_randomness_coef
    }

    /// The word list, as character sequences.
    pub closed spec fn words(&self) -> Seq<Seq<char>> {
        self.common_words@.map_values(|w: String| w@)
    }

    /// Both coefficients lie in 1..=100.
    pub open spec fn wf(&self) -> bool {
        &&& 1 <= self.vertical() <= 100
        &&& 1 <= self.horizontal() <= 100
    }

    /// The default configuration: both coefficients at 50, and a short list
    /// of common words.
    pub fn new() -> (r: Self)
        ensures
            r.wf(),
            r.words().len() > 0,
            r.vertical() == DEFAULT_COEFFICIENT,
            r.horizontal() == DEFAULT_COEFFICIENT,
    {
        let mut common_words: Vec<String> = Vec::new();
        common_words.push(String::from_str("the"));
        common_words.push(String::from_str("of"));
        common_words.push(String::from_str("and"));
        common_words.push(String::from_str("time"));
        common_words.push(String::from_str("people"));
        common_words.push(String::from_str("year"));
        common_words.push(String::from_str("way"));
        common_words.push(String::from_str("day"));
        common_words.push(String::from_str("thing"));
        common_words.push(String::from_str("world"));
        common_words.push(String::from_str("life"));
        common_words.push(String::from_str("hand"));
        common_words.push(String::from_str("part"));
        common_words.push(String::from_str("child"));
        common_words.push(String::from_str("eye"));
        common_words.push(String::from_str("woman"));
        Config {
            vertical_randomness_coef: DEFAULT_COEFFICIENT,
            horizontal_randomness_coef: DEFAULT_COEFFICIENT,
            common_words,
        }
    }

    /// A configuration with the given coefficients and word list.
    pub fn with_values(vertical: u32, horizontal: u32, common_words: Vec<String>) -> (r: Self)
        requires
            1 <= vertical <= 100,
            1 <= horizontal <= 100,
        ensures
            r.wf(),
            r.vertical() == vertical,
            r.horizontal() == horizontal,
            r.words() == common_words@.map_values(|w: String| w@),
    {
        Config {
            vertical_randomness_coef: vertical,
            horizontal_randomness_coef: horizontal,
            common_words,
        }
    }

    /// The number of words in the word list.
    pub fn word_count(&self) -> (r: usize)
        ensures
            r == self.words().len(),
    {
        self.common_words.len()
    }

    /// The word at position `i` of the word list.
    pub fn common_word(&self, i: usize) -> (r: &str)
        requires
            i < self.words().len(),
        ensures
            r@ == self.words()[i as int],
    {
        self.common_words[i].as_str()
    }
}

impl Configurable for Config {
    fn get_vertical_randomness_coef(&self) -> (r: u32)
        ensures
            r == self.vertical(),
    {
        proof {
            use_type_invariant(self);
        }
        self.vertical_randomness_coef
    }

    fn get_horizontal_randomness_coef(&self) -> (r: u32)
        ensures
            r == self.horizontal(),
    {
        proof {
            use_type_invariant(self);
        }
        self.horizontal_randomness_coef
    }

    fn set_horizontal_randomness_coef(&mut self, value: u32)
        ensures
            final(self).horizontal() == value,
            final(self).vertical() == old(self).vertical(),
            final(self).words() == old(self).words(),
    {
        proof {
            use_type_invariant(&*self);
        }
        self.horizontal_randomness_coef = value;
    }

    fn set_vertical_randomness_coef(&mut self, value: u32)
        ensures
            final(self).vertical() == value,
            final(self).horizontal() == old(self).horizontal(),
            final(self).words() == old(self).words(),
    {
        proof {
            use_type_invariant(&*self);
        }
        self.vertical_randomness_coef = value;
    }
}

} // verus!
