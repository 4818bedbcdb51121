//! The JSON tokenizer: splits a document into the spans of its values, each
//! with the automaton that mutates it.
use vstd::prelude::*;

use crate::catalog::{ARRAY_ENTRY, BOOL_ENTRY, ENTRY_COUNT, NULL_ENTRY, NUMBER_ENTRY, OBJECT_ENTRY, STRING_ENTRY};
use crate::mutator::AutomatonToken;
use crate::text::chars_of;

verus! {

/// The grammar rules of JSON values.
#[derive(PartialEq, Eq, Debug, Clone, Copy)]
pub enum JsonRule {
    Object,
    Array,
    String,
    Number,
    Boolean,
    Null,
}

/// Maps a grammar rule to the automaton that mutates its tokens.
pub trait LexerRule {
    /// The catalog entry for the rule, if it has one.
    fn to_automaton(&self) -> Option<usize>;
}

/// The automaton of each rule.
pub open spec fn rule_entry(rule: JsonRule) -> usize {
    match rule {
        JsonRule::Object => OBJECT_ENTRY,
        JsonRule::Array => ARRAY_ENTRY,
        JsonRule::String => STRING_ENTRY,
        JsonRule::Number => NUMBER_ENTRY,
        JsonRule::Boolean => BOOL_ENTRY,
        JsonRule::Null => NULL_ENTRY,
    }
}

impl LexerRule for JsonRule {
    fn to_automaton(&self) -> (r: Option<usize>)
        ensures
            r == Some(rule_entry(*self)),
            rule_entry(*self) < ENTRY_COUNT,
    {
        match self {
            JsonRule::Object => Some(OBJECT_ENTRY),
            JsonRule::Array => Some(ARRAY_ENTRY),
            JsonRule::String => Some(STRING_ENTRY),
            JsonRule::Number => Some(NUMBER_ENTRY),
            JsonRule::Boolean => Some(BOOL_ENTRY),
            JsonRule::Null => Some(NULL_ENTRY),
        }
    }
}

pub open spec fn is_ws(c: char) -> bool {
    c == ' ' || c == '\t' || c == '\r' || c == '\n'
}

pub open spec fn is_digit(c: char) -> bool {
    '0' <= c <= '9'
}

pub open spec fn is_hex(c: char) -> bool {
    ('0' <= c <= '9') || ('a' <= c <= 'f') || ('A' <= c <= 'F')
}

/// The first position from `p` on that does not hold whitespace.
pub open spec fn ws_end(s: Seq<char>, p: int) -> int
    decreases s.len() - p,
{
    if p < 0 || p >= s.len() || !is_ws(s[p]) {
        p
    } else {
        ws_end(s, p + 1)
    }
}

/// The first position from `p` on that does not hold a digit.
pub open spec fn digits_end(s: Seq<char>, p: int) -> int
    decreases s.len() - p,
{
    if p < 0 || p >= s.len() || !is_digit(s[p]) {
        p
    } else {
        digits_end(s, p + 1)
    }
}

pub open spec fn digit_at(s: Seq<char>, p: int) -> bool {
    0 <= p < s.len() && is_digit(s[p])
}

pub open spec fn char_is(s: Seq<char>, p: int, c: char) -> bool {
    0 <= p < s.len() && s[p] == c
}

/// The end of the number at `p`:
/// `-? (0 | [1-9][0-9]*) (. [0-9]*)? ([eE] [+-]? [0-9]+)?`.
pub open spec fn number_end(s: Seq<char>, p: int) -> Option<int> {
    let p1 = if char_is(s, p, '-') { p + 1 } else { p };
    if !digit_at(s, p1) {
        None
    } else {
        let p2 = if s[p1] == '0' { p1 + 1 } else { digits_end(s, p1 + 1) };
        let p3 = if char_is(s, p2, '.') { digits_end(s, p2 + 1) } else { p2 };
        if char_is(s, p3, 'e') || char_is(s, p3, 'E') {
            let q = if char_is(s, p3 + 1, '+') || char_is(s, p3 + 1, '-') { p3 + 2 } else { p3 + 1 };
            if !digit_at(s, q) {
                None
            } else {
                Some(digits_end(s, q))
            }
        } else {
            Some(p3)
        }
    }
}

/// The end of a string whose opening quote lies before `q`: characters up
/// to the closing quote, with the escapes `\" \\ \/ \b \f \n \r \t` and
/// `\u` followed by four hexadecimal digits.
pub open spec fn string_rest(s: Seq<char>, q: int) -> Option<int>
    decreases s.len() - q,
{
    if q < 0 || q >= s.len() {
        None
    } else if s[q] == '"' {
        Some(q + 1)
    } else if s[q] == '\\' {
        if q + 1 >= s.len() {
            None
        } else {
            let e = s[q + 1];
            if e == '"' || e == '\\' || e == '/' || e == 'b' || e == 'f' || e == 'n' || e == 'r' || e == 't' {
                string_rest(s, q + 2)
            } else if e == 'u' && s.len() - q > 5 && is_hex(s[q + 2]) && is_hex(s[q + 3]) && is_hex(s[q + 4])
                && is_hex(s[q + 5]) {
                string_rest(s, q + 6)
            } else {
                None
            }
        }
    } else {
        string_rest(s, q + 1)
    }
}

/// The end of the string at `p` (quotes included).
pub open spec fn string_end(s: Seq<char>, p: int) -> Option<int> {
    if char_is(s, p, '"') {
        string_rest(s, p + 1)
    } else {
        None
    }
}

/// The end of the literal `lit` at `p`.
pub open spec fn literal_end(s: Seq<char>, p: int, lit: Seq<char>) -> Option<int> {
    if 0 <= p && p + lit.len() <= s.len() && s.subrange(p, p + lit.len()) == lit {
        Some(p + lit.len())
    } else {
        None
    }
}

pub open spec fn token(from: int, to: int, automaton: usize) -> AutomatonToken {
    AutomatonToken { from: from as usize, to: to as usize, automaton }
}

/// A scalar value at `p` (string, boolean, null or number): where it ends,
/// and its token.
pub open spec fn scalar_spec(s: Seq<char>, p: int) -> Option<(int, AutomatonToken)> {
    let c = s[p];
    let found = if c == '"' {
        string_end(s, p)
    } else if c == 't' {
        literal_end(s, p, seq!['t', 'r', 'u', 'e'])
    } else if c == 'f' {
        literal_end(s, p, seq!['f', 'a', 'l', 's', 'e'])
    } else if c == 'n' {
        literal_end(s, p, seq!['n', 'u', 'l', 'l'])
    } else {
        number_end(s, p)
    };
    let entry = if c == '"' {
        STRING_ENTRY
    } else if c == 't' || c == 'f' {
        BOOL_ENTRY
    } else if c == 'n' {
        NULL_ENTRY
    } else {
        NUMBER_ENTRY
    };
    match found {
        Some(e) => Some((e, token(p, e, entry))),
        None => None,
    }
}

/// The value at `p`: where it ends, and its tokens with every value before
/// the values inside it (an object's keys are string tokens).
pub open spec fn value_spec(s: Seq<char>, p: int) -> Option<(int, Seq<AutomatonToken>)>
    decreases s.len() - p, 0nat via value_spec_decreases
{
    if p < 0 || p >= s.len() {
        None
    } else if s[p] == '{' || s[p] == '[' {
        let open = s[p];
        let close = if open == '{' { '}' } else { ']' };
        let entry = if open == '{' { OBJECT_ENTRY } else { ARRAY_ENTRY };
        let q = ws_end(s, p + 1);
        if char_is(s, q, close) {
            Some((q + 1, seq![token(p, q + 1, entry)]))
        } else {
            match members_spec(s, open, q) {
                Some((e, ts)) => Some((e, seq![token(p, e, entry)] + ts)),
                None => None,
            }
        }
    } else {
        match scalar_spec(s, p) {
            Some((e, t)) => Some((e, seq![t])),
            None => None,
        }
    }
}

/// The members of a collection opened by `open`, from `p` on (the first
/// member starts at `p`): where the collection ends (after its closing
/// character), and the members' tokens in order.
pub open spec fn members_spec(s: Seq<char>, open: char, p: int) -> Option<(int, Seq<AutomatonToken>)>
    decreases s.len() - p, 1nat via members_spec_decreases
{
    if p < 0 || p > s.len() {
        None
    } else {
        let close = if open == '{' { '}' } else { ']' };
        let key = if open == '{' {
            match string_end(s, p) {
                Some(ke) => {
                    let q = ws_end(s, ke);
                    if char_is(s, q, ':') {
                        Some((ws_end(s, q + 1), seq![token(p, ke, STRING_ENTRY)]))
                    } else {
                        None
                    }
                },
                None => None,
            }
        } else {
            Some((p, Seq::<AutomatonToken>::empty()))
        };
        match key {
            None => None,
            Some((vp, kt)) => if vp < p {
                None
            } else {
                match value_spec(s, vp) {
                    None => None,
                    Some((e, vt)) => {
                        let q = ws_end(s, e);
                        if char_is(s, q, ',') && ws_end(s, q + 1) > p {
                            match members_spec(s, open, ws_end(s, q + 1)) {
                                Some((e2, rest)) => Some((e2, kt + vt + rest)),
                                None => None,
                            }
                        } else if char_is(s, q, close) {
                            Some((q + 1, kt + vt))
                        } else {
                            None
                        }
                    },
                }
            },
        }
    }
}

#[via_fn]
proof fn value_spec_decreases(s: Seq<char>, p: int) {
    if 0 <= p < s.len() {
        lemma_ws_end_bounds(s, p + 1);
    }
}

#[via_fn]
proof fn members_spec_decreases(s: Seq<char>, open: char, p: int) {
    if 0 <= p <= s.len() {
        lemma_string_rest_bounds(s, p + 1);
        match string_end(s, p) {
            Some(ke) => {
                lemma_ws_end_bounds(s, ke);
                let q = ws_end(s, ke);
                if char_is(s, q, ':') {
                    lemma_ws_end_bounds(s, q + 1);
                }
            },
            None => {},
        }
        let vp = if open == '{' {
            match string_end(s, p) {
                Some(ke) => ws_end(s, ws_end(s, ke) + 1),
                None => p,
            }
        } else {
            p
        };
        assert forall|e: int| char_is(s, #[trigger] ws_end(s, e), ',') implies ws_end(
            s,
            ws_end(s, e) + 1,
        ) <= s.len() by {
            lemma_ws_end_bounds(s, ws_end(s, e) + 1);
        }
    }
}

/// The tokens of a JSON document `s`, innermost first (every value after
/// the values inside it), or `None` when `s` is not a document. A document
/// is one value with optional whitespace around it, or whitespace only (no
/// tokens).
pub open spec fn json_tokens(s: Seq<char>) -> Option<Seq<AutomatonToken>> {
    let p = ws_end(s, 0);
    if p >= s.len() {
        Some(Seq::empty())
    } else {
        match value_spec(s, p) {
            Some((e, ts)) => if ws_end(s, e) == s.len() {
                Some(ts.reverse())
            } else {
                None
            },
            None => None,
        }
    }
}

proof fn lemma_ws_end_blank(s: Seq<char>, p: int)
    requires
        0 <= p <= s.len(),
        forall|k: int| 0 <= k < s.len() ==> is_ws(#[trigger] s[k]),
    ensures
        ws_end(s, p) == s.len(),
    decreases s.len() - p,
{
    if p < s.len() {
        lemma_ws_end_blank(s, p + 1);
    }
}

/// A blank text (empty, or whitespace only) is a document without tokens.
pub proof fn law_blank_document_has_no_tokens(s: Seq<char>)
    requires
        forall|k: int| 0 <= k < s.len() ==> is_ws(#[trigger] s[k]),
    ensures
        json_tokens(s) == Some(Seq::<AutomatonToken>::empty()),
{
    lemma_ws_end_blank(s, 0);
}

/// Whether `s` is a JSON document.
pub open spec fn is_json_document(s: Seq<char>) -> bool {
    json_tokens(s) is Some
}

proof fn lemma_ws_end_bounds(s: Seq<char>, p: int)
    requires
        0 <= p <= s.len(),
    ensures
        p <= ws_end(s, p) <= s.len(),
    decreases s.len() - p,
{
    if p < s.len() && is_ws(s[p]) {
        lemma_ws_end_bounds(s, p + 1);
    }
}

proof fn lemma_digits_end_bounds(s: Seq<char>, p: int)
    requires
        0 <= p <= s.len(),
    ensures
        p <= digits_end(s, p) <= s.len(),
    decreases s.len() - p,
{
    if p < s.len() && is_digit(s[p]) {
        lemma_digits_end_bounds(s, p + 1);
    }
}

proof fn lemma_string_rest_bounds(s: Seq<char>, q: int)
    ensures
        string_rest(s, q) matches Some(e) ==> q < e <= s.len(),
    decreases s.len() - q,
{
    if 0 <= q < s.len() && s[q] != '"' {
        if s[q] == '\\' {
            if q + 1 < s.len() {
                lemma_string_rest_bounds(s, q + 2);
                if s.len() - q > 5 {
                    lemma_string_rest_bounds(s, q + 6);
                }
            }
        } else {
            lemma_string_rest_bounds(s, q + 1);
        }
    }
}

proof fn lemma_number_end_bounds(s: Seq<char>, p: int)
    requires
        0 <= p <= s.len(),
    ensures
        number_end(s, p) matches Some(e) ==> p < e <= s.len(),
{
    let p1 = if char_is(s, p, '-') { p + 1 } else { p };
    if digit_at(s, p1) {
        lemma_digits_end_bounds(s, p1 + 1);
        let p2 = if s[p1] == '0' { p1 + 1 } else { digits_end(s, p1 + 1) };
        if char_is(s, p2, '.') {
            lemma_digits_end_bounds(s, p2 + 1);
        }
        let p3 = if char_is(s, p2, '.') { digits_end(s, p2 + 1) } else { p2 };
        let q = if char_is(s, p3 + 1, '+') || char_is(s, p3 + 1, '-') { p3 + 2 } else { p3 + 1 };
        if digit_at(s, q) {
            lemma_digits_end_bounds(s, q);
        }
    }
}

fn skip_ws(s: &Vec<char>, pos: usize) -> (r: usize)
    requires
        pos <= s@.len(),
    ensures
        r == ws_end(s@, pos as int),
        pos <= r <= s@.len(),
{
    let mut p = pos;
    while p < s.len() && (s[p] == ' ' || s[p] == '\t' || s[p] == '\r' || s[p] == '\n')
        invariant
            pos <= p <= s@.len(),
            ws_end(s@, pos as int) == ws_end(s@, p as int),
        decreases s.len() - p,
    {
        p = p + 1;
    }
    p
}

fn skip_digits(s: &Vec<char>, pos: usize) -> (r: usize)
    requires
        pos <= s@.len(),
    ensures
        r == digits_end(s@, pos as int),
        pos <= r <= s@.len(),
{
    let mut p = pos;
    while p < s.len() && s[p] >= '0' && s[p] <= '9'
        invariant
            pos <= p <= s@.len(),
            digits_end(s@, pos as int) == digits_end(s@, p as int),
        decreases s.len() - p,
    {
        p = p + 1;
    }
    p
}

fn is_digit_at(s: &Vec<char>, p: usize) -> (r: bool)
    ensures
        r == digit_at(s@, p as int),
{
    p < s.len() && s[p] >= '0' && s[p] <= '9'
}

fn is_char_at(s: &Vec<char>, p: usize, c: char) -> (r: bool)
    ensures
        r == char_is(s@, p as int, c),
{
    p < s.len() && s[p] == c
}

fn is_hex_exec(c: char) -> (r: bool)
    ensures
        r == is_hex(c),
{
    (c >= '0' && c <= '9') || (c >= 'a' && c <= 'f') || (c >= 'A' && c <= 'F')
}

fn literal_at(s: &Vec<char>, pos: usize, l: &Vec<char>) -> (r: Option<usize>)
    requires
        pos <= s@.len(),
    ensures
        r == (match literal_end(s@, pos as int, l@) {
            Some(e) => Some(e as usize),
            None => None::<usize>,
        }),
        literal_end(s@, pos as int, l@) matches Some(e) ==> e == pos + l@.len() <= s@.len(),
{
    let sl = s.len();
    if l.len() > sl - pos {
        return None;
    }
    let mut i: usize = 0;
    while i < l.len()
        invariant
            sl == s@.len(),
            i <= l@.len(),
            pos + l@.len() <= s@.len(),
            forall|k: int| 0 <= k < i ==> s@[pos + k] == l@[k],
        decreases l.len() - i,
    {
        if s[pos + i] != l[i] {
            assert(s@.subrange(pos as int, pos + l@.len())[i as int] != l@[i as int]);
            return None;
        }
        i = i + 1;
    }
    assert(s@.subrange(pos as int, pos + l@.len()) =~= l@);
    Some(pos + l.len())
}

fn number_at(s: &Vec<char>, pos: usize) -> (r: Option<usize>)
    requires
        pos <= s@.len(),
    ensures
        r == (match number_end(s@, pos as int) {
            Some(e) => Some(e as usize),
            None => None::<usize>,
        }),
        r matches Some(e) ==> pos < e <= s@.len(),
        number_end(s@, pos as int) matches Some(e) ==> pos < e <= s@.len(),
{
    let sl = s.len();
    proof {
        lemma_number_end_bounds(s@, pos as int);
    }
    let p1 = if is_char_at(s, pos, '-') {
        pos + 1
    } else {
        pos
    };
    if !is_digit_at(s, p1) {
        return None;
    }
    let p2 = if s[p1] == '0' {
        p1 + 1
    } else {
        skip_digits(s, p1 + 1)
    };
    let p3 = if is_char_at(s, p2, '.') {
        skip_digits(s, p2 + 1)
    } else {
        p2
    };
    if is_char_at(s, p3, 'e') || is_char_at(s, p3, 'E') {
        let q = if is_char_at(s, p3 + 1, '+') || is_char_at(s, p3 + 1, '-') {
            p3 + 2
        } else {
            p3 + 1
        };
        if !is_digit_at(s, q) {
            return None;
        }
        Some(skip_digits(s, q))
    } else {
        Some(p3)
    }
}

fn string_at(s: &Vec<char>, pos: usize) -> (r: Option<usize>)
    requires
        pos <= s@.len(),
    ensures
        r == (match string_end(s@, pos as int) {
            Some(e) => Some(e as usize),
            None => None::<usize>,
        }),
        r matches Some(e) ==> pos < e <= s@.len(),
        string_end(s@, pos as int) matches Some(e) ==> pos < e <= s@.len(),
{
    let sl = s.len();
    proof {
        lemma_string_rest_bounds(s@, pos + 1);
    }
    if !is_char_at(s, pos, '"') {
        return None;
    }
    let mut p = pos + 1;
    proof {
        lemma_string_rest_bounds(s@, p as int);
    }
    while p < s.len()
        invariant
            pos < p <= s@.len(),
            string_end(s@, pos as int) == string_rest(s@, p as int),
        decreases s.len() - p,
    {
        proof {
            lemma_string_rest_bounds(s@, p as int);
        }
        let c = s[p];
        if c == '"' {
            return Some(p + 1);
        } else if c == '\\' {
            if p + 1 >= s.len() {
                return None;
            }
            let e = s[p + 1];
            if e == '"' || e == '\\' || e == '/' || e == 'b' || e == 'f' || e == 'n' || e == 'r' || e
                == 't' {
                p = p + 2;
            } else if e == 'u' && s.len() - p > 5 && is_hex_exec(s[p + 2]) && is_hex_exec(s[p + 3])
                && is_hex_exec(s[p + 4]) && is_hex_exec(s[p + 5]) {
                p = p + 6;
            } else {
                return None;
            }
        } else {
            p = p + 1;
        }
    }
    None
}

fn append_tokens(a: &mut Vec<AutomatonToken>, b: Vec<AutomatonToken>)
    ensures
        final(a)@ == old(a)@ + b@,
{
    let ghost a0 = a@;
    let mut i: usize = 0;
    while i < b.len()
        invariant
            i <= b@.len(),
            a@ == a0 + b@.subrange(0, i as int),
        decreases b.len() - i,
    {
        let t = &b[i];
        a.push(AutomatonToken { from: t.from, to: t.to, automaton: t.automaton });
        assert(b@.subrange(0, i + 1) =~= b@.subrange(0, i as int).push(b@[i as int]));
        i = i + 1;
    }
    assert(b@.subrange(0, b@.len() as int) =~= b@);
}

fn scalar_at(s: &Vec<char>, pos: usize) -> (r: Option<(usize, AutomatonToken)>)
    requires
        pos < s@.len(),
    ensures
        match scalar_spec(s@, pos as int) {
            Some((e, t)) => r matches Some((e2, t2)) && e2 == e && t2 == t && pos < e <= s@.len(),
            None => r is None,
        },
{
    let sl = s.len();
    let c = s[pos];
    let found = if c == '"' {
        string_at(s, pos)
    } else if c == 't' {
        let mut l: Vec<char> = Vec::new();
        l.push('t');
        l.push('r');
        l.push('u');
        l.push('e');
        assert(l@ =~= seq!['t', 'r', 'u', 'e']);
        literal_at(s, pos, &l)
    } else if c == 'f' {
        let mut l: Vec<char> = Vec::new();
        l.push('f');
        l.push('a');
        l.push('l');
        l.push('s');
        l.push('e');
        assert(l@ =~= seq!['f', 'a', 'l', 's', 'e']);
        literal_at(s, pos, &l)
    } else if c == 'n' {
        let mut l: Vec<char> = Vec::new();
        l.push('n');
        l.push('u');
        l.push('l');
        l.push('l');
        assert(l@ =~= seq!['n', 'u', 'l', 'l']);
        literal_at(s, pos, &l)
    } else {
        number_at(s, pos)
    };
    let rule = if c == '"' {
        JsonRule::String
    } else if c == 't' || c == 'f' {
        JsonRule::Boolean
    } else if c == 'n' {
        JsonRule::Null
    } else {
        JsonRule::Number
    };
    let entry = match rule.to_automaton() {
        Some(e) => e,
        None => {
            return None;
        },
    };
    match found {
        Some(e) => Some((e, AutomatonToken { from: pos, to: e, automaton: entry })),
        None => None,
    }
}

/// The value at `pos`, as `value_spec` states it.
fn value_at(s: &Vec<char>, pos: usize) -> (r: Option<(usize, Vec<AutomatonToken>)>)
    requires
        pos <= s@.len(),
    ensures
        match value_spec(s@, pos as int) {
            Some((e, ts)) => r matches Some((e2, ts2)) && e2 == e && ts2@ == ts && pos < e <= s@.len(),
            None => r is None,
        },
    decreases s@.len() - pos, 0nat,
{
    let sl = s.len();
    if pos >= s.len() {
        return None;
    }
    let open = s[pos];
    if open == '{' || open == '[' {
        let close = if open == '{' {
            '}'
        } else {
            ']'
        };
        let rule = if open == '{' {
            JsonRule::Object
        } else {
            JsonRule::Array
        };
        let entry = match rule.to_automaton() {
            Some(e) => e,
            None => {
                return None;
            },
        };
        let q = skip_ws(s, pos + 1);
        if is_char_at(s, q, close) {
            let mut out: Vec<AutomatonToken> = Vec::new();
            out.push(AutomatonToken { from: pos, to: q + 1, automaton: entry });
            assert(out@ =~= seq![token(pos as int, q + 1, entry)]);
            return Some((q + 1, out));
        }
        match members_at(s, open, q) {
            Some((e, ts)) => {
                let mut out: Vec<AutomatonToken> = Vec::new();
                out.push(AutomatonToken { from: pos, to: e, automaton: entry });
                let ghost head = out@;
                append_tokens(&mut out, ts);
                assert(head =~= seq![token(pos as int, e as int, entry)]);
                Some((e, out))
            },
            None => None,
        }
    } else {
        match scalar_at(s, pos) {
            Some((e, t)) => {
                let mut out: Vec<AutomatonToken> = Vec::new();
                out.push(t);
                assert(out@ =~= seq![t]);
                Some((e, out))
            },
            None => None,
        }
    }
}

/// The members of a collection from `pos` on, as `members_spec` states it.
fn members_at(s: &Vec<char>, open: char, pos: usize) -> (r: Option<(usize, Vec<AutomatonToken>)>)
    requires
        pos <= s@.len(),
    ensures
        match members_spec(s@, open, pos as int) {
            Some((e, ts)) => r matches Some((e2, ts2)) && e2 == e && ts2@ == ts && pos < e <= s@.len(),
            None => r is None,
        },
    decreases s@.len() - pos, 1nat,
{
    let sl = s.len();
    let close = if open == '{' {
        '}'
    } else {
        ']'
    };
    let mut out: Vec<AutomatonToken> = Vec::new();
    let vp = if open == '{' {
        let ke = match string_at(s, pos) {
            Some(e) => e,
            None => {
                return None;
            },
        };
        let q = skip_ws(s, ke);
        if !is_char_at(s, q, ':') {
            return None;
        }
        out.push(AutomatonToken { from: pos, to: ke, automaton: STRING_ENTRY });
        assert(out@ =~= seq![token(pos as int, ke as int, STRING_ENTRY)]);
        skip_ws(s, q + 1)
    } else {
        assert(out@ =~= Seq::<AutomatonToken>::empty());
        pos
    };
    let ghost kt = out@;
    let (e, vt) = match value_at(s, vp) {
        Some(found) => found,
        None => {
            return None;
        },
    };
    let ghost vts = vt@;
    append_tokens(&mut out, vt);
    let q = skip_ws(s, e);
    if is_char_at(s, q, ',') {
        let next = skip_ws(s, q + 1);
        if next > pos {
            match members_at(s, open, next) {
                Some((e2, rest)) => {
                    let ghost rs = rest@;
                    append_tokens(&mut out, rest);
                    assert(out@ =~= kt + vts + rs);
                    return Some((e2, out));
                },
                None => {
                    return None;
                },
            }
        }
    }
    if is_char_at(s, q, close) {
        Some((q + 1, out))
    } else {
        None
    }
}

/// The JSON tokenizer.
pub struct JsonLexer;

impl JsonLexer {
    /// The tokens of a JSON document, innermost first (every value after
    /// the values inside it): objects, arrays, strings (object keys
    /// included), numbers, booleans and nulls, with their spans in
    /// characters. `None` exactly when the text is not a document.
    pub fn tokenize(input: &str) -> (r: Option<Vec<AutomatonToken>>)
        ensures
            r is Some <==> is_json_document(input@),
            r matches Some(ts) ==> ts@ == json_tokens(input@)->0,
    {
        let s = chars_of(input);
        let start = skip_ws(&s, 0);
        if start >= s.len() {
            return Some(Vec::new());
        }
        let (end, out) = match value_at(&s, start) {
            Some(found) => found,
            None => {
                return None;
            },
        };
        if skip_ws(&s, end) != s.len() {
            return None;
        }
        let mut rev: Vec<AutomatonToken> = Vec::new();
        let mut i: usize = out.len();
        while i > 0
            invariant
                i <= out@.len(),
                rev@ =~= out@.subrange(i as int, out@.len() as int).reverse(),
            decreases i,
        {
            i = i - 1;
            let t = &out[i];
            rev.push(AutomatonToken { from: t.from, to: t.to, automaton: t.automaton });
        }
        assert(out@.subrange(0, out@.len() as int) =~= out@);
        Some(rev)
    }
}

} // verus!
