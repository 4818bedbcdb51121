//! String operations that automaton nodes apply to values.
use vstd::prelude::*;
use vstd::string::StringSliceAdditionalSpecFns;

use crate::automaton::draw_at;
use crate::numbers::{radix_digits, radix_text};
use crate::randomness::PRandomizer;
use crate::text::{chars_of, concat, copy_of, insert_at, slice, splice, string_of};

verus! {

/// `c` in upper case, for ASCII letters; other characters stay.
pub open spec fn upper_ascii(c: char) -> char {
    if 'a' <= c <= 'z' {
        ((c as u8) - 32) as char
    } else {
        c
    }
}

/// `c` in lower case, for ASCII letters; other characters stay.
pub open spec fn lower_ascii(c: char) -> char {
    if 'A' <= c <= 'Z' {
        ((c as u8) + 32) as char
    } else {
        c
    }
}

/// `c` with its case flipped, for ASCII letters; other characters stay.
pub open spec fn flip_case(c: char) -> char {
    if 'A' <= c <= 'Z' {
        lower_ascii(c)
    } else {
        upper_ascii(c)
    }
}

/// Flips the case of an ASCII letter; other characters stay as they are.
pub fn char_flip_case(ch: char) -> (r: char)
    ensures
        r == flip_case(ch),
{
    if ch >= 'A' && ch <= 'Z' {
        ((ch as u8) + 32) as char
    } else if ch >= 'a' && ch <= 'z' {
        ((ch as u8) - 32) as char
    } else {
        ch
    }
}

/// Every ASCII letter of `s` in upper case.
pub open spec fn upper_all(s: Seq<char>) -> Seq<char> {
    s.map_values(|c: char| upper_ascii(c))
}

/// `s` with its first character in upper case (ASCII letters only).
pub open spec fn capitalized(s: Seq<char>) -> Seq<char> {
    if s.len() == 0 {
        s
    } else {
        s.update(0, upper_ascii(s[0]))
    }
}

/// `s` with the case of character `i` flipped when the `i`-th draw of the
/// source of `seed` is odd.
pub open spec fn random_case(seed: u64, s: Seq<char>) -> Seq<char> {
    Seq::new(s.len(), |i: int| if draw_at(seed, i as nat) % 2 == 0 { s[i] } else { flip_case(s[i]) })
}

pub fn upper_chars(s: &Vec<char>) -> (r: Vec<char>)
    ensures
        r@ == upper_all(s@),
{
    let mut r: Vec<char> = Vec::new();
    let mut i: usize = 0;
    while i < s.len()
        invariant
            i <= s@.len(),
            r@ =~= upper_all(s@).subrange(0, i as int),
        decreases s.len() - i,
    {
        let c = s[i];
        let u = if c >= 'a' && c <= 'z' {
            ((c as u8) - 32) as char
        } else {
            c
        };
        r.push(u);
        i = i + 1;
    }
    r
}

pub fn capitalized_chars(s: &Vec<char>) -> (r: Vec<char>)
    ensures
        r@ == capitalized(s@),
{
    let mut r = copy_of(s);
    if r.len() > 0 {
        let c = r[0];
        if c >= 'a' && c <= 'z' {
            r.set(0, ((c as u8) - 32) as char);
        }
        assert(r@ =~= capitalized(s@));
    }
    r
}

pub fn random_case_chars(seed: u64, s: &Vec<char>) -> (r: Vec<char>)
    ensures
        r@ == random_case(seed, s@),
{
    let mut randomizer = PRandomizer::new(seed);
    let mut r: Vec<char> = Vec::new();
    let mut i: usize = 0;
    while i < s.len()
        invariant
            i <= s@.len(),
            randomizer.seed() == seed,
            randomizer.low() == 0,
            randomizer.high() == u64::MAX,
            randomizer.drawn() == i,
            r@ =~= random_case(seed, s@).subrange(0, i as int),
        decreases s.len() - i,
    {
        let d = randomizer.get();
        let c = if d % 2 == 0 {
            s[i]
        } else {
            char_flip_case(s[i])
        };
        r.push(c);
        i = i + 1;
    }
    r
}

/// Flips the case of each character of `to_transform` whose draw from the
/// source of `seed` is odd.
pub fn random_capitalization(seed: u64, to_transform: String) -> (r: String)
    ensures
        r@ == random_case(seed, to_transform@),
{
    string_of(&random_case_chars(seed, &chars_of(to_transform.as_str())))
}

/// Every ASCII letter in upper case.
pub fn to_upper_case(_seed: u64, s: String) -> (r: String)
    ensures
        r@ == upper_all(s@),
{
    string_of(&upper_chars(&chars_of(s.as_str())))
}

/// The first character in upper case.
pub fn to_capitalized(_seed: u64, s: String) -> (r: String)
    ensures
        r@ == capitalized(s@),
{
    string_of(&capitalized_chars(&chars_of(s.as_str())))
}

/// The case of each character flipped or kept according to `seed`.
pub fn to_random_case(seed: u64, s: String) -> (r: String)
    ensures
        r@ == random_case(seed, s@),
{
    random_capitalization(seed, s)
}

/// The first position from `from` on that is `len` or a character boundary
/// of `bytes`.
pub open spec fn boundary_from(bytes: Seq<u8>, len: int, from: int) -> int
    decreases len - from,
{
    if from >= len || vstd::utf8::is_char_boundary(bytes, from) {
        from
    } else {
        boundary_from(bytes, len, from + 1)
    }
}

/// Picks a byte position of `s` from the seed: `seed` modulo the length in
/// bytes, moved forward to the next character boundary; `None` for an empty
/// string.
pub fn random_position_in_string(seed: u64, s: &str) -> (r: Option<usize>)
    ensures
        s.len() == 0 ==> r is None,
        s.len() > 0 ==> r == Some(
            boundary_from(s.spec_bytes(), s.len() as int, (seed as int) % (s.len() as int)) as usize,
        ),
{
    let len = s.len();
    if len == 0 {
        return None;
    }
    let mut n: usize = (seed as u128 % len as u128) as usize;
    let ghost start = n as int;
    while n < len && !s.is_char_boundary(n)
        invariant
            n <= len,
            len == s.len(),
            boundary_from(s.spec_bytes(), len as int, start) == boundary_from(s.spec_bytes(), len as int, n as int),
        decreases len - n,
    {
        n = n + 1;
    }
    Some(n)
}

/// Whether `num` is a surrogate code point.
pub fn is_surrogate(num: u32) -> (r: bool)
    ensures
        r == (0xD800 <= num <= 0xDFFF),
{
    0xD800 <= num && num <= 0xDFFF
}

/// The code point picked for `n`: `n` modulo 2^20, moved past the surrogate
/// range when it falls in it.
pub open spec fn unicode_point(n: u64) -> u32 {
    let v = (n % 0x10_0000) as u32;
    if 0xD800 <= v <= 0xDFFF {
        (v + 2048) as u32
    } else {
        v
    }
}

/// Relies on `char::from_u32`: the character of a valid scalar value.
#[verifier::external_body]
fn char_from_u32(v: u32) -> (r: Option<char>)
    ensures
        (v < 0xD800 || 0xE000 <= v < 0x11_0000) ==> r is Some,
        r matches Some(c) ==> c as u32 == v,
{
    char::from_u32(v)
}

/// The character whose code point is `unicode_point(n)`.
pub fn get_unicode_char(n: u64) -> (r: char)
    ensures
        r as u32 == unicode_point(n),
{
    let mut v: u32 = (n % 0x10_0000) as u32;
    if is_surrogate(v) {
        v = v + 2048;
    }
    match char_from_u32(v) {
        Some(c) => c,
        None => ' ',
    }
}

/// `v` in lower-case hexadecimal, padded with zeros to at least 4 digits.
pub open spec fn hex4(v: nat) -> Seq<char> {
    let d = radix_digits(v, 16);
    if d.len() < 4 {
        Seq::new((4 - d.len()) as nat, |i: int| '0') + d
    } else {
        d
    }
}

/// The JSON escape `\\u` followed by `hex4(v)`.
pub open spec fn escape_u(v: nat) -> Seq<char> {
    seq!['\\', 'u'] + hex4(v)
}

pub fn escape_chars(v: u64) -> (r: Vec<char>)
    ensures
        r@ == escape_u(v as nat),
{
    let d = radix_text(v, 16);
    let mut r: Vec<char> = Vec::new();
    r.push('\\');
    r.push('u');
    let mut pad: usize = d.len();
    while pad < 4
        invariant
            d.len() <= pad <= 4 || (pad == d.len() && d.len() > 4),
            r@ =~= seq!['\\', 'u'] + Seq::new((pad - d@.len()) as nat, |i: int| '0'),
        decreases 4 - pad,
    {
        r.push('0');
        pad = pad + 1;
    }
    let out = concat(&r, &d);
    assert(out@ =~= escape_u(v as nat));
    out
}

/// The control character picked for `n`: `n` modulo 64, shifted into the C1
/// range (0x80..) above 0x1F.
pub open spec fn control_point(n: u64) -> nat {
    let v = (n % 64) as nat;
    if v > 0x1F {
        v + 0x80
    } else {
        v
    }
}

pub fn control_value(n: u64) -> (r: u64)
    ensures
        r == control_point(n),
{
    let v: u64 = n % 64;
    if v > 0x1F {
        v + 0x80
    } else {
        v
    }
}

/// An escaped control character, picked by `n`.
pub fn get_control_char(n: u64) -> (r: String)
    ensures
        r@ == escape_u(control_point(n)),
{
    string_of(&escape_chars(control_value(n)))
}

/// An escaped lone surrogate, picked by `n`.
pub fn get_surrogate(n: u64) -> (r: String)
    ensures
        r@ == escape_u((n % 2048) as nat + 0xD800),
{
    string_of(&escape_chars(n % 2048 + 0xD800))
}

/// An escaped surrogate pair: the high half is taken from `n << 32` and the
/// low half from `n >> 32`, each modulo 1024.
pub open spec fn surrogate_pair(n: u64) -> Seq<char> {
    escape_u(((n << 32u64) as u64 % 1024) as nat + 0xD800) + escape_u(((n >> 32u64) % 1024) as nat + 0xDC00)
}

pub fn surrogate_pair_chars(n: u64) -> (r: Vec<char>)
    ensures
        r@ == surrogate_pair(n),
{
    let first_num = n << 32;
    let sec_num = n >> 32;
    let high = escape_chars(first_num % 1024 + 0xD800);
    let low = escape_chars(sec_num % 1024 + 0xDC00);
    concat(&high, &low)
}

/// An escaped surrogate pair picked by `n`.
pub fn get_surrogate_pair(n: u64) -> (r: String)
    ensures
        r@ == surrogate_pair(n),
{
    string_of(&surrogate_pair_chars(n))
}

/// The number of bytes of `c` in UTF-8.
pub open spec fn utf8_width(c: char) -> nat {
    if (c as u32) < 0x80 {
        1
    } else if (c as u32) < 0x800 {
        2
    } else if (c as u32) < 0x1_0000 {
        3
    } else {
        4
    }
}

/// The number of bytes of `s` in UTF-8.
pub open spec fn byte_len(s: Seq<char>) -> nat
    decreases s.len(),
{
    if s.len() == 0 {
        0
    } else {
        byte_len(s.drop_last()) + utf8_width(s.last())
    }
}

/// The first character index from `j` on whose byte offset is at least
/// `target` (the length of `s` if there is none): the byte offset `target`
/// moved forward to the next character boundary, counted in characters.
pub open spec fn char_at_byte(s: Seq<char>, target: nat, j: int) -> int
    decreases s.len() - j,
{
    if j >= s.len() || byte_len(s.subrange(0, j)) >= target {
        j
    } else {
        char_at_byte(s, target, j + 1)
    }
}

/// The character position that `seed` picks in a non-empty `s`: the byte
/// offset `seed % byte_len(s)`, moved forward to the next character
/// boundary.
pub open spec fn insert_position(seed: u64, s: Seq<char>) -> int {
    char_at_byte(s, ((seed as int) % (byte_len(s) as int)) as nat, 0)
}

/// `s` with `t` inserted at `insert_position(seed, s)`; just `t` when `s` is
/// empty.
pub open spec fn insert_text(seed: u64, s: Seq<char>, t: Seq<char>) -> Seq<char> {
    if s.len() == 0 {
        t
    } else {
        let p = insert_position(seed, s);
        s.subrange(0, p) + t + s.subrange(p, s.len() as int)
    }
}

fn utf8_width_exec(c: char) -> (r: u8)
    ensures
        r == utf8_width(c),
{
    let v = c as u32;
    if v < 0x80 {
        1
    } else if v < 0x800 {
        2
    } else if v < 0x1_0000 {
        3
    } else {
        4
    }
}

proof fn lemma_byte_len_step(s: Seq<char>, j: int)
    requires
        0 <= j < s.len(),
    ensures
        byte_len(s.subrange(0, j + 1)) == byte_len(s.subrange(0, j)) + utf8_width(s[j]),
{
    assert(s.subrange(0, j + 1).drop_last() =~= s.subrange(0, j));
}

fn byte_length(s: &Vec<char>) -> (r: u128)
    ensures
        r == byte_len(s@),
        r >= s@.len(),
{
    let mut acc: u128 = 0;
    let mut j: usize = 0;
    while j < s.len()
        invariant
            j <= s@.len(),
            acc == byte_len(s@.subrange(0, j as int)),
            j <= acc <= 4 * j,
        decreases s.len() - j,
    {
        proof {
            lemma_byte_len_step(s@, j as int);
        }
        acc = acc + utf8_width_exec(s[j]) as u128;
        j = j + 1;
    }
    assert(s@.subrange(0, s@.len() as int) =~= s@);
    acc
}

fn insert_position_exec(seed: u64, s: &Vec<char>) -> (r: usize)
    requires
        s@.len() > 0,
    ensures
        r == insert_position(seed, s@),
        r <= s@.len(),
{
    let total = byte_length(s);
    let target: u128 = seed as u128 % total;
    let ghost t = ((seed as int) % (byte_len(s@) as int)) as nat;
    assert(target == t);
    let mut acc: u128 = 0;
    let mut j: usize = 0;
    assert(s@.subrange(0, 0) =~= Seq::<char>::empty());
    while j < s.len() && acc < target
        invariant
            j <= s@.len(),
            acc == byte_len(s@.subrange(0, j as int)),
            acc <= 4 * j,
            target == t,
            char_at_byte(s@, t, 0) == char_at_byte(s@, t, j as int),
        decreases s.len() - j,
    {
        proof {
            lemma_byte_len_step(s@, j as int);
        }
        acc = acc + utf8_width_exec(s[j]) as u128;
        j = j + 1;
    }
    j
}

pub fn insert_text_chars(seed: u64, s: &Vec<char>, t: &Vec<char>) -> (r: Vec<char>)
    ensures
        r@ == insert_text(seed, s@, t@),
{
    if s.len() == 0 {
        return copy_of(t);
    }
    let p = insert_position_exec(seed, s);
    insert_at(s, p, t)
}

/// Inserts `to_insert` into `s` at a position picked by `seed`.
pub fn insert_string_in_string(seed: u64, s: &str, to_insert: &str) -> (r: String)
    ensures
        r@ == insert_text(seed, s@, to_insert@),
{
    string_of(&insert_text_chars(seed, &chars_of(s), &chars_of(to_insert)))
}

/// Inserts the character `get_unicode_char(seed)` at a position picked by
/// `seed`.
pub fn insert_random_char_in_string(seed: u64, s: &str) -> (r: String)
    ensures
        exists|c: char| c as u32 == unicode_point(seed) && r@ == insert_text(seed, s@, seq![c]),
{
    let c = get_unicode_char(seed);
    let mut t: Vec<char> = Vec::new();
    t.push(c);
    assert(t@ =~= seq![c]);
    string_of(&insert_text_chars(seed, &chars_of(s), &t))
}

/// Inserts an escaped control character picked by `seed`.
pub fn insert_random_unescaped_control_char(seed: u64, s: &str) -> (r: String)
    ensures
        r@ == insert_text(seed, s@, escape_u(control_point(seed))),
{
    let c = get_control_char(seed);
    insert_string_in_string(seed, s, c.as_str())
}

/// Inserts an escaped lone surrogate picked by `seed`.
pub fn insert_random_surrogate_in_string(seed: u64, s: &str) -> (r: String)
    ensures
        r@ == insert_text(seed, s@, escape_u((seed % 2048) as nat + 0xD800)),
{
    let c = get_surrogate(seed);
    insert_string_in_string(seed, s, c.as_str())
}

/// Inserts an escaped surrogate pair picked by `seed`.
pub fn insert_random_surrogate_pair_in_string(seed: u64, s: &str) -> (r: String)
    ensures
        r@ == insert_text(seed, s@, surrogate_pair(seed)),
{
    let c = get_surrogate_pair(seed);
    insert_string_in_string(seed, s, c.as_str())
}

/// Inserts the escape `\\uXXXX` of the character picked by `seed`.
pub fn insert_random_encoded_char_in_string(seed: u64, s: &str) -> (r: String)
    ensures
        r@ == insert_text(seed, s@, escape_u(unicode_point(seed) as nat)),
{
    let c = get_unicode_char(seed);
    let e = escape_chars(c as u32 as u64);
    string_of(&insert_text_chars(seed, &chars_of(s), &e))
}

/// The character of `s` at position `seed % len`, as text; empty for an
/// empty `s`.
pub open spec fn pick_char(seed: u64, s: Seq<char>) -> Seq<char> {
    if s.len() == 0 {
        Seq::empty()
    } else {
        seq![s[(seed % (s.len() as u64)) as int]]
    }
}

pub fn pick_char_chars(seed: u64, s: &Vec<char>) -> (r: Vec<char>)
    ensures
        r@ == pick_char(seed, s@),
{
    let mut r: Vec<char> = Vec::new();
    if s.len() > 0 {
        r.push(s[(seed % (s.len() as u64)) as usize]);
        assert(r@ =~= pick_char(seed, s@));
    }
    r
}

/// A character of `s` picked by `seed`.
pub fn pick_random_char(seed: u64, s: &str) -> (r: String)
    ensures
        r@ == pick_char(seed, s@),
{
    string_of(&pick_char_chars(seed, &chars_of(s)))
}

/// Inserts a character of `chars`, picked by `seed`, at a position of `s`
/// picked by `seed`.
pub fn insert_random_char_from_range_in_string(seed: u64, s: &str, chars: &str) -> (r: String)
    ensures
        r@ == insert_text(seed, s@, pick_char(seed, chars@)),
{
    let c = pick_random_char(seed, chars);
    insert_string_in_string(seed, s, c.as_str())
}

/// `s` without the character at position `seed % len`.
pub open spec fn remove_char(seed: u64, s: Seq<char>) -> Seq<char> {
    if s.len() == 0 {
        s
    } else {
        s.remove((seed % (s.len() as u64)) as int)
    }
}

pub fn remove_char_chars(seed: u64, s: &Vec<char>) -> (r: Vec<char>)
    ensures
        r@ == remove_char(seed, s@),
{
    let mut r = copy_of(s);
    if r.len() > 0 {
        let p = (seed % (r.len() as u64)) as usize;
        r.remove(p);
    }
    r
}

/// `s` with the character at position `seed % len` replaced by its escape.
pub open spec fn encode_char(seed: u64, s: Seq<char>) -> Seq<char> {
    if s.len() == 0 {
        s
    } else {
        let p = (seed % (s.len() as u64)) as int;
        s.subrange(0, p) + escape_u(s[p] as u32 as nat) + s.subrange(p + 1, s.len() as int)
    }
}

pub fn encode_char_chars(seed: u64, s: &Vec<char>) -> (r: Vec<char>)
    ensures
        r@ == encode_char(seed, s@),
{
    if s.len() == 0 {
        return copy_of(s);
    }
    let p = (seed % (s.len() as u64)) as usize;
    let e = escape_chars(s[p] as u32 as u64);
    splice(s, p, p + 1, &e)
}

/// Start positions of the non-overlapping occurrences of a non-empty `p`
/// in `s` up to `end`, found from the right.
pub open spec fn rmatches(s: Seq<char>, p: Seq<char>, end: int) -> Seq<int>
    decreases end,
{
    if p.len() == 0 || end < p.len() || end > s.len() {
        Seq::empty()
    } else if s.subrange(end - p.len(), end) == p {
        seq![end - p.len()] + rmatches(s, p, end - p.len())
    } else {
        rmatches(s, p, end - 1)
    }
}

/// `s` with one occurrence of `p` replaced by `w`: among the occurrences
/// found from the right, the one at index `seed % count`. An empty `p`
/// occurs at every position, from `len` down to 0.
pub open spec fn replace_occurrence(s: Seq<char>, p: Seq<char>, w: Seq<char>, seed: u64) -> Seq<char> {
    let occ = if p.len() == 0 {
        Seq::new(s.len() + 1, |i: int| s.len() - i)
    } else {
        rmatches(s, p, s.len() as int)
    };
    if occ.len() == 0 {
        s
    } else {
        let at = occ[(seed as int) % (occ.len() as int)];
        s.subrange(0, at) + w + s.subrange(at + p.len(), s.len() as int)
    }
}

proof fn lemma_rmatches_bounds(s: Seq<char>, p: Seq<char>, end: int)
    ensures
        rmatches(s, p, end).len() <= if end < 0 { 0 } else { end },
        forall|i: int|
            0 <= i < rmatches(s, p, end).len() ==> 0 <= #[trigger] rmatches(s, p, end)[i] && rmatches(
                s,
                p,
                end,
            )[i] + p.len() <= end && end <= s.len(),
    decreases end,
{
    if p.len() == 0 || end < p.len() || end > s.len() {
    } else if s.subrange(end - p.len(), end) == p {
        lemma_rmatches_bounds(s, p, end - p.len());
        let r = rmatches(s, p, end);
        let t = rmatches(s, p, end - p.len());
        assert forall|i: int| 0 <= i < r.len() implies 0 <= #[trigger] r[i] && r[i] + p.len() <= end
            && end <= s.len() by {
            if i > 0 {
                assert(r[i] == t[i - 1]);
            }
        }
    } else {
        lemma_rmatches_bounds(s, p, end - 1);
    }
}

fn matches_at(s: &Vec<char>, p: &Vec<char>, at: usize) -> (r: bool)
    requires
        at + p@.len() <= s@.len(),
    ensures
        r == (s@.subrange(at as int, at + p@.len()) == p@),
{
    let sl = s.len();
    let mut i: usize = 0;
    while i < p.len()
        invariant
            sl == s@.len(),
            i <= p@.len(),
            at + p@.len() <= s@.len(),
            forall|k: int| 0 <= k < i ==> s@[at + k] == p@[k],
        decreases p.len() - i,
    {
        if s[at + i] != p[i] {
            assert(s@.subrange(at as int, at + p@.len())[i as int] != p@[i as int]);
            return false;
        }
        i = i + 1;
    }
    assert(s@.subrange(at as int, at + p@.len()) =~= p@);
    true
}

pub fn replace_occurrence_chars(s: &Vec<char>, p: &Vec<char>, w: &Vec<char>, seed: u64) -> (r: Vec<char>)
    ensures
        r@ == replace_occurrence(s@, p@, w@, seed),
{
    if p.len() == 0 {
        let count: u128 = s.len() as u128 + 1;
        let k = (seed as u128 % count) as usize;
        let at: usize = s.len() - k;
        return splice(s, at, at, w);
    }
    let mut occ: Vec<usize> = Vec::new();
    let mut end: usize = s.len();
    let ghost all = rmatches(s@, p@, s@.len() as int);
    while end >= p.len()
        invariant
            p@.len() > 0,
            end <= s@.len(),
            occ@.map_values(|x: usize| x as int) + rmatches(s@, p@, end as int) == all,
        decreases end,
    {
        let at = end - p.len();
        if matches_at(s, p, at) {
            let ghost before = occ@.map_values(|x: usize| x as int);
            occ.push(at);
            proof {
                assert(rmatches(s@, p@, end as int) == seq![at as int] + rmatches(s@, p@, at as int));
                assert(occ@.map_values(|x: usize| x as int) =~= before.push(at as int));
                assert(before.push(at as int) + rmatches(s@, p@, at as int) =~= before + (seq![at as int]
                    + rmatches(s@, p@, at as int)));
            }
            end = at;
        } else {
            end = end - 1;
        }
    }
    assert(occ@.map_values(|x: usize| x as int) =~= all);
    if occ.len() == 0 {
        return copy_of(s);
    }
    proof {
        lemma_rmatches_bounds(s@, p@, s@.len() as int);
    }
    let at = occ[(seed as u128 % occ.len() as u128) as usize];
    proof {
        let idx = (seed as int) % (occ@.len() as int);
        assert(all[idx] == at as int);
    }
    splice(s, at, at + p.len(), w)
}

/// Replaces one occurrence of `to_replace` by `replace_with`, picked by
/// `seed` among the occurrences found from the right.
pub fn replace_random_occurrence(original: String, to_replace: &str, replace_with: &str, seed: u64) -> (r: String)
    ensures
        r@ == replace_occurrence(original@, to_replace@, replace_with@, seed),
{
    string_of(
        &replace_occurrence_chars(
            &chars_of(original.as_str()),
            &chars_of(to_replace),
            &chars_of(replace_with),
            seed,
        ),
    )
}

/// `s` with every occurrence of the character `c` replaced by `w`.
pub open spec fn replace_all(s: Seq<char>, c: char, w: Seq<char>) -> Seq<char>
    decreases s.len(),
{
    if s.len() == 0 {
        s
    } else {
        replace_all(s.drop_last(), c, w) + if s.last() == c {
            w
        } else {
            seq![s.last()]
        }
    }
}

pub fn replace_all_chars(s: &Vec<char>, c: char, w: &Vec<char>) -> (r: Vec<char>)
    ensures
        r@ == replace_all(s@, c, w@),
{
    let mut r: Vec<char> = Vec::new();
    let mut i: usize = 0;
    while i < s.len()
        invariant
            i <= s@.len(),
            r@ == replace_all(s@.subrange(0, i as int), c, w@),
        decreases s.len() - i,
    {
        let ghost before = r@;
        if s[i] == c {
            crate::text::append(&mut r, w);
        } else {
            r.push(s[i]);
        }
        assert(s@.subrange(0, i + 1).drop_last() =~= s@.subrange(0, i as int));
        i = i + 1;
    }
    assert(s@.subrange(0, s@.len() as int) =~= s@);
    r
}

/// `s` repeated `k` times.
pub open spec fn repeat(s: Seq<char>, k: nat) -> Seq<char>
    decreases k,
{
    if k == 0 {
        Seq::empty()
    } else {
        repeat(s, (k - 1) as nat) + s
    }
}

pub fn repeat_chars(s: &Vec<char>, k: u64) -> (r: Vec<char>)
    ensures
        r@ == repeat(s@, k as nat),
{
    let mut r: Vec<char> = Vec::new();
    let mut i: u64 = 0;
    while i < k
        invariant
            i <= k,
            r@ == repeat(s@, i as nat),
        decreases k - i,
    {
        crate::text::append(&mut r, s);
        i = i + 1;
    }
    r
}

/// The first position at or after `from` that holds `c`, if any.
pub open spec fn first_index(s: Seq<char>, c: char, from: int) -> Option<int>
    decreases s.len() - from,
{
    if from >= s.len() || from < 0 {
        None
    } else if s[from] == c {
        Some(from)
    } else {
        first_index(s, c, from + 1)
    }
}

/// `s` with its first `c` replaced by `w`; unchanged without a `c`.
pub open spec fn replace_first(s: Seq<char>, c: char, w: Seq<char>) -> Seq<char> {
    match first_index(s, c, 0) {
        Some(i) => s.subrange(0, i) + w + s.subrange(i + 1, s.len() as int),
        None => s,
    }
}

proof fn lemma_first_index_bound(s: Seq<char>, c: char, from: int)
    ensures
        first_index(s, c, from) matches Some(i) ==> 0 <= from <= i < s.len() && s[i] == c,
    decreases s.len() - from,
{
    if from >= 0 && from < s.len() && s[from] != c {
        lemma_first_index_bound(s, c, from + 1);
    }
}

pub fn replace_first_chars(s: &Vec<char>, c: char, w: &Vec<char>) -> (r: Vec<char>)
    ensures
        r@ == replace_first(s@, c, w@),
{
    let mut i: usize = 0;
    while i < s.len()
        invariant
            i <= s@.len(),
            first_index(s@, c, 0) == first_index(s@, c, i as int),
        decreases s.len() - i,
    {
        if s[i] == c {
            return splice(s, i, i + 1, w);
        }
        i = i + 1;
    }
    copy_of(s)
}

/// A collection (delimited by `open` and `close`) with one more member:
/// `[m]` for the empty `[]`, else `[ m,` put in place of the first `[`.
pub open spec fn with_member(v: Seq<char>, open: char, close: char, m: Seq<char>) -> Seq<char> {
    if v == seq![open, close] {
        seq![open] + m + seq![close]
    } else {
        replace_first(v, open, seq![open, ' '] + m + seq![','])
    }
}

pub fn with_member_chars(v: &Vec<char>, open: char, close: char, m: &Vec<char>) -> (r: Vec<char>)
    ensures
        r@ == with_member(v@, open, close, m@),
{
    if v.len() == 2 && v[0] == open && v[1] == close {
        assert(v@ =~= seq![open, close]);
        let mut r: Vec<char> = Vec::new();
        r.push(open);
        crate::text::append(&mut r, m);
        r.push(close);
        assert(r@ =~= seq![open] + m@ + seq![close]);
        return r;
    }
    assert(v@ != seq![open, close]) by {
        if v@ == seq![open, close] {
            assert(v@.len() == 2 && v@[0] == open && v@[1] == close);
        }
    }
    let mut w: Vec<char> = Vec::new();
    w.push(open);
    w.push(' ');
    crate::text::append(&mut w, m);
    w.push(',');
    assert(w@ =~= seq![open, ' '] + m@ + seq![',']);
    replace_first_chars(v, open, &w)
}

/// A collection blown up: its members followed by `, ` repeated
/// `num % 128` times, then `, ` and the members once more, between `open`
/// and `close`. An empty collection, or text shorter than two characters,
/// stays.
pub open spec fn enlarged(v: Seq<char>, open: char, close: char, num: u64) -> Seq<char> {
    if v == seq![open, close] || v.len() < 2 {
        v
    } else {
        let members = v.subrange(1, v.len() - 1);
        seq![open] + repeat(members + seq![',', ' '], (num % 128) as nat) + seq![',', ' '] + members
            + seq![close]
    }
}

pub fn enlarged_chars(v: &Vec<char>, open: char, close: char, num: u64) -> (r: Vec<char>)
    ensures
        r@ == enlarged(v@, open, close, num),
{
    if v.len() < 2 || (v.len() == 2 && v[0] == open && v[1] == close) {
        proof {
            if v@.len() == 2 && v@[0] == open && v@[1] == close {
                assert(v@ =~= seq![open, close]);
            }
        }
        return copy_of(v);
    }
    assert(v@ != seq![open, close]) by {
        if v@ == seq![open, close] {
            assert(v@.len() == 2 && v@[0] == open && v@[1] == close);
        }
    }
    let members = slice(v, 1, v.len() - 1);
    let mut sep: Vec<char> = Vec::new();
    sep.push(',');
    sep.push(' ');
    let unit = concat(&members, &sep);
    let expanded = repeat_chars(&unit, num % 128);
    let mut r: Vec<char> = Vec::new();
    r.push(open);
    crate::text::append(&mut r, &expanded);
    crate::text::append(&mut r, &sep);
    crate::text::append(&mut r, &members);
    r.push(close);
    assert(sep@ =~= seq![',', ' ']);
    assert(r@ =~= enlarged(v@, open, close, num));
    r
}

/// `s` without its last character (unchanged when empty).
pub open spec fn drop_last_char(s: Seq<char>) -> Seq<char> {
    if s.len() == 0 {
        s
    } else {
        s.drop_last()
    }
}

pub fn drop_last_chars(s: &Vec<char>) -> (r: Vec<char>)
    ensures
        r@ == drop_last_char(s@),
{
    let mut r = copy_of(s);
    if r.len() > 0 {
        r.pop();
    }
    r
}

} // verus!
