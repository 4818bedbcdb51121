//! Reading and writing unsigned integers as text.
use num_bigint::BigUint;
use vstd::prelude::*;

use crate::text::{chars_of, copy_of, string_of};

verus! {

/// The character of a digit below 16 (lower-case for 10 and above).
pub open spec fn digit_char(d: nat) -> char {
    if d == 0 { '0' }
    else if d == 1 { '1' }
    else if d == 2 { '2' }
    else if d == 3 { '3' }
    else if d == 4 { '4' }
    else if d == 5 { '5' }
    else if d == 6 { '6' }
    else if d == 7 { '7' }
    else if d == 8 { '8' }
    else if d == 9 { '9' }
    else if d == 10 { 'a' }
    else if d == 11 { 'b' }
    else if d == 12 { 'c' }
    else if d == 13 { 'd' }
    else if d == 14 { 'e' }
    else { 'f' }
}

/// `n` written in base `b` (2 to 16), most significant digit first.
pub open spec fn radix_digits(n: nat, b: nat) -> Seq<char>
    decreases n via radix_digits_decreases
{
    if b < 2 || b > 16 {
        Seq::empty()
    } else if n < b {
        seq![digit_char(n)]
    } else {
        radix_digits(n / b, b).push(digit_char(n % b))
    }
}

#[via_fn]
proof fn radix_digits_decreases(n: nat, b: nat) {
    if 2 <= b <= 16 && n >= b {
        assert(n / b < n) by (nonlinear_arith)
            requires
                n >= b,
                b >= 2,
        ;
    }
}

/// `n` in decimal.
pub open spec fn decimal(n: nat) -> Seq<char> {
    radix_digits(n, 10)
}

pub open spec fn is_digit(c: char) -> bool {
    '0' <= c <= '9'
}

pub open spec fn all_digits(s: Seq<char>) -> bool {
    forall|i: int| 0 <= i < s.len() ==> is_digit(#[trigger] s[i])
}

/// The number that a string of decimal digits denotes.
pub open spec fn decimal_value(s: Seq<char>) -> nat
    decreases s.len(),
{
    if s.len() == 0 {
        0
    } else {
        10 * decimal_value(s.drop_last()) + (s.last() as nat - '0' as nat) as nat
    }
}

fn digit_exec(d: u64) -> (c: char)
    requires
        d < 16,
    ensures
        c == digit_char(d as nat),
{
    if d == 0 { '0' }
    else if d == 1 { '1' }
    else if d == 2 { '2' }
    else if d == 3 { '3' }
    else if d == 4 { '4' }
    else if d == 5 { '5' }
    else if d == 6 { '6' }
    else if d == 7 { '7' }
    else if d == 8 { '8' }
    else if d == 9 { '9' }
    else if d == 10 { 'a' }
    else if d == 11 { 'b' }
    else if d == 12 { 'c' }
    else if d == 13 { 'd' }
    else if d == 14 { 'e' }
    else { 'f' }
}

/// `n` written in base `b`.
pub fn radix_text(n: u64, b: u64) -> (r: Vec<char>)
    requires
        2 <= b <= 16,
    ensures
        r@ == radix_digits(n as nat, b as nat),
    decreases n,
{
    if n < b {
        let mut r: Vec<char> = Vec::new();
        r.push(digit_exec(n));
        assert(r@ =~= seq![digit_char(n as nat)]);
        r
    } else {
        assert(n / b < n) by (nonlinear_arith)
            requires
                n >= b,
                b >= 2,
        ;
        let mut r = radix_text(n / b, b);
        r.push(digit_exec(n % b));
        r
    }
}

/// `n` in decimal.
pub fn decimal_text(n: u64) -> (r: Vec<char>)
    ensures
        r@ == decimal(n as nat),
{
    radix_text(n, 10)
}

proof fn lemma_value_grows(s: Seq<char>, k: int)
    requires
        0 <= k <= s.len(),
        all_digits(s),
    ensures
        decimal_value(s.subrange(0, k)) <= decimal_value(s),
    decreases s.len() - k,
{
    if k < s.len() {
        lemma_value_grows(s, k + 1);
        let p = s.subrange(0, k + 1);
        assert(p.drop_last() =~= s.subrange(0, k));
        assert(is_digit(p.last()));
    } else {
        assert(s.subrange(0, k) =~= s);
    }
}

/// The value of a non-empty string of decimal digits, if it fits in a `u64`.
pub fn parse_u64(s: &Vec<char>) -> (r: Option<u64>)
    ensures
        r == (if s@.len() > 0 && all_digits(s@) && decimal_value(s@) <= u64::MAX {
            Some(decimal_value(s@) as u64)
        } else {
            None
        }),
{
    if s.len() == 0 {
        return None;
    }
    let mut i: usize = 0;
    while i < s.len()
        invariant
            i <= s@.len(),
            forall|k: int| 0 <= k < i ==> is_digit(#[trigger] s@[k]),
        decreases s.len() - i,
    {
        if !(s[i] >= '0' && s[i] <= '9') {
            return None;
        }
        i = i + 1;
    }
    let mut v: u64 = 0;
    let mut j: usize = 0;
    while j < s.len()
        invariant
            j <= s@.len(),
            all_digits(s@),
            v == decimal_value(s@.subrange(0, j as int)),
        decreases s.len() - j,
    {
        let d = (s[j] as u32 - '0' as u32) as u64;
        proof {
            let p = s@.subrange(0, j + 1);
            assert(p.drop_last() =~= s@.subrange(0, j as int));
            assert(is_digit(s@[j as int]));
        }
        match v.checked_mul(10) {
            Some(m) => match m.checked_add(d) {
                Some(nv) => {
                    v = nv;
                },
                None => {
                    proof {
                        lemma_value_grows(s@, j + 1);
                    }
                    return None;
                },
            },
            None => {
                proof {
                    lemma_value_grows(s@, j + 1);
                }
                return None;
            },
        }
        j = j + 1;
    }
    assert(s@.subrange(0, s@.len() as int) =~= s@);
    Some(v)
}

pub fn all_digits_exec(s: &Vec<char>) -> (r: bool)
    ensures
        r == (s@.len() > 0 && all_digits(s@)),
{
    if s.len() == 0 {
        return false;
    }
    let mut i: usize = 0;
    while i < s.len()
        invariant
            i <= s@.len(),
            forall|k: int| 0 <= k < i ==> is_digit(#[trigger] s@[k]),
        decreases s.len() - i,
    {
        if !(s[i] >= '0' && s[i] <= '9') {
            return false;
        }
        i = i + 1;
    }
    true
}

/// A natural number written in decimal squared, capped: the square when the
/// number is below `u32::MAX`, else `u64::MAX`. Text that is not a number
/// stays as it is.
pub open spec fn squared_text(s: Seq<char>) -> Seq<char> {
    if s.len() > 0 && all_digits(s) {
        let n = decimal_value(s);
        if n < u32::MAX {
            decimal(n * n)
        } else {
            decimal(u64::MAX as nat)
        }
    } else {
        s
    }
}

/// A natural number written in decimal doubled, capped: twice the number
/// when it is below `u64::MAX / 2`, else `u64::MAX`. Text that is not a
/// number stays as it is.
pub open spec fn doubled_text(s: Seq<char>) -> Seq<char> {
    if s.len() > 0 && all_digits(s) {
        let n = decimal_value(s);
        if n < u64::MAX / 2 {
            decimal(2 * n)
        } else {
            decimal(u64::MAX as nat)
        }
    } else {
        s
    }
}

/// A decimal `u64` rewritten as `0x` and its hexadecimal digits; other text
/// stays.
pub open spec fn hex_text(s: Seq<char>) -> Seq<char> {
    if s.len() > 0 && all_digits(s) && decimal_value(s) <= u64::MAX {
        seq!['0', 'x'] + radix_digits(decimal_value(s), 16)
    } else {
        s
    }
}

/// A decimal `u64` rewritten as `0` and its octal digits; other text stays.
pub open spec fn octal_text(s: Seq<char>) -> Seq<char> {
    if s.len() > 0 && all_digits(s) && decimal_value(s) <= u64::MAX {
        seq!['0'] + radix_digits(decimal_value(s), 8)
    } else {
        s
    }
}

/// A natural number written in decimal squared without bound; other text
/// stays.
pub open spec fn big_squared_text(s: Seq<char>) -> Seq<char> {
    if s.len() > 0 && all_digits(s) {
        decimal(decimal_value(s) * decimal_value(s))
    } else {
        s
    }
}

pub fn squared_chars(s: &Vec<char>) -> (r: Vec<char>)
    ensures
        r@ == squared_text(s@),
{
    if !all_digits_exec(s) {
        return copy_of(s);
    }
    match parse_u64(s) {
        Some(n) => if n < 0xFFFF_FFFF {
            assert(n * n <= 0xFFFF_FFFF * 0xFFFF_FFFF) by (nonlinear_arith)
                requires
                    n < 0xFFFF_FFFF,
            ;
            decimal_text(n * n)
        } else {
            decimal_text(u64::MAX)
        },
        None => decimal_text(u64::MAX),
    }
}

pub fn doubled_chars(s: &Vec<char>) -> (r: Vec<char>)
    ensures
        r@ == doubled_text(s@),
{
    if !all_digits_exec(s) {
        return copy_of(s);
    }
    match parse_u64(s) {
        Some(n) => if n < u64::MAX / 2 {
            decimal_text(2 * n)
        } else {
            decimal_text(u64::MAX)
        },
        None => decimal_text(u64::MAX),
    }
}

pub fn hex_chars(s: &Vec<char>) -> (r: Vec<char>)
    ensures
        r@ == hex_text(s@),
{
    match parse_u64(s) {
        Some(n) => {
            let mut r: Vec<char> = Vec::new();
            r.push('0');
            r.push('x');
            let d = radix_text(n, 16);
            let mut i: usize = 0;
            while i < d.len()
                invariant
                    i <= d@.len(),
                    r@ =~= seq!['0', 'x'] + d@.subrange(0, i as int),
                decreases d.len() - i,
            {
                r.push(d[i]);
                i = i + 1;
            }
            r
        },
        None => copy_of(s),
    }
}

pub fn octal_chars(s: &Vec<char>) -> (r: Vec<char>)
    ensures
        r@ == octal_text(s@),
{
    match parse_u64(s) {
        Some(n) => {
            let mut r: Vec<char> = Vec::new();
            r.push('0');
            let d = radix_text(n, 8);
            let mut i: usize = 0;
            while i < d.len()
                invariant
                    i <= d@.len(),
                    r@ =~= seq!['0'] + d@.subrange(0, i as int),
                decreases d.len() - i,
            {
                r.push(d[i]);
                i = i + 1;
            }
            r
        },
        None => copy_of(s),
    }
}

/// Relies on `num_bigint::BigUint`: `from_str` reads a non-empty string of
/// decimal digits as its value, `pow(2)` squares it, and `to_string` writes
/// the result in decimal without leading zeros.
#[verifier::external_body]
fn big_square(s: &str) -> (r: String)
    requires
        s@.len() > 0,
        all_digits(s@),
    ensures
        r@ == decimal(decimal_value(s@) * decimal_value(s@)),
{
    match s.parse::<BigUint>() {
        Ok(n) => n.pow(2).to_string(),
        Err(_) => String::new(),
    }
}

pub fn big_squared_chars(s: &Vec<char>) -> (r: Vec<char>)
    ensures
        r@ == big_squared_text(s@),
{
    if !all_digits_exec(s) {
        return copy_of(s);
    }
    let text = string_of(s);
    chars_of(big_square(text.as_str()).as_str())
}

} // verus!
