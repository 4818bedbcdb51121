//! Case and digit helpers that take their seed as a `u32`.
use vstd::prelude::*;

use crate::helper::{capitalized, flip_case, random_case, upper_all};
use crate::automaton::{skewed_digits, skewed_number};
use crate::numbers::{decimal, decimal_text};

verus! {

/// The seed that `to_random_case` uses.
pub const RANDOM_CASE_SEED: u32 = 123;

/// Flips the case of an ASCII letter; other characters stay as they are.
pub fn char_flip_case(ch: char) -> (r: char)
    ensures
        r == flip_case(ch),
{
    crate::helper::char_flip_case(ch)
}

/// Flips the case of each character whose draw from the source of `seed`
/// is odd.
pub fn random_capitalization(seed: u32, to_transform: String) -> (r: String)
    ensures
        r@ == random_case(seed as u64, to_transform@),
{
    crate::helper::random_capitalization(seed as u64, to_transform)
}

/// A number below 2^20 drawn from `seed` by a source skewed toward 1 and
/// 1000, in decimal.
pub fn random_digit_string(seed: u32) -> (r: String)
    ensures
        r@ == decimal(skewed_digits(seed as u64) as nat),
        skewed_digits(seed as u64) < 0x10_0000,
{
    crate::text::string_of(&decimal_text(skewed_number(seed as u64) as u64))
}

/// Every ASCII letter in upper case.
pub fn to_upper_case(s: String) -> (r: String)
    ensures
        r@ == upper_all(s@),
{
    crate::helper::to_upper_case(0, s)
}

/// The first character in upper case.
pub fn to_capitalized(s: String) -> (r: String)
    ensures
        r@ == capitalized(s@),
{
    crate::helper::to_capitalized(0, s)
}

/// The case of each character flipped or kept, with a fixed seed.
pub fn to_random_case(s: String) -> (r: String)
    ensures
        r@ == random_case(RANDOM_CASE_SEED as u64, s@),
{
    random_capitalization(RANDOM_CASE_SEED, s)
}

} // verus!
