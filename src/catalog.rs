//! The automata of the supported protocols: JSON values and YAML flow
//! scalars and indentation. All of them share one arena of nodes; each is an
//! entry of the family that `catalog` builds.
use vstd::prelude::*;

use crate::automaton::{Automaton, AutomatonNode, InitValue, Transform};
use crate::configuration::Config;
use crate::text::chars_of;

verus! {

/// Entry of the JSON null automaton.
pub const NULL_ENTRY: usize = 0;
/// Entry of the JSON boolean automaton.
pub const BOOL_ENTRY: usize = 1;
/// Entry of the JSON number automaton.
pub const NUMBER_ENTRY: usize = 2;
/// Entry of the JSON string automaton.
pub const STRING_ENTRY: usize = 3;
/// Entry of the JSON array automaton.
pub const ARRAY_ENTRY: usize = 4;
/// Entry of the JSON object automaton.
pub const OBJECT_ENTRY: usize = 5;
/// Entry of the YAML flow scalar automaton.
pub const FLOW_SCALAR_ENTRY: usize = 6;
/// Entry of the YAML indentation automaton.
pub const INDENTATION_ENTRY: usize = 7;
/// The number of entries of the catalog.
pub const ENTRY_COUNT: usize = 8;
/// The number of nodes of the catalog's arena.
pub const NODE_COUNT: usize = 100;

const FINAL: usize = 0;
const START_WS: usize = 1;
const LEADING_CR: usize = 2;
const LEADING_LF: usize = 3;
const LEADING_TAB: usize = 4;
const LEADING_SPACE: usize = 5;
const TRAILING_CR: usize = 6;
const TRAILING_LF: usize = 7;
const TRAILING_TAB: usize = 8;
const TRAILING_SPACE: usize = 9;
/// The initial node of an entry.
pub const START_NULL: usize = 10;
const CASED_NULL: usize = 11;
const NIL_NULL: usize = 12;
const NONE_NULL: usize = 13;
const ZERO_NULL: usize = 14;
const EMPTY_NULL: usize = 15;
const UPPER_CASED_NULL: usize = 16;
const RANDOM_CASED_NULL: usize = 17;
const CAPITALIZED_NULL: usize = 18;
/// The initial node of an entry.
pub const START_BOOLEAN: usize = 19;
const REVERSE_BOOLEAN: usize = 20;
const NUMERICAL_BOOLEAN: usize = 21;
const QUOTED_BOOLEAN: usize = 22;
const CASED_BOOLEAN: usize = 23;
const UPPER_CASED_BOOLEAN: usize = 24;
const RANDOM_CASED_BOOLEAN: usize = 25;
const CAPITALIZED_BOOLEAN: usize = 26;
/// The initial node of an entry.
pub const START_NUMBER: usize = 27;
const REAL_NUMBER: usize = 28;
const INCREASED_PRECISION_REAL_NUMBER: usize = 29;
const DECIMAL_COMMA_REAL_NUMBER: usize = 30;
const WHOLE_NUMBER: usize = 31;
const OVERFLOWED_WHOLE_NUMBER: usize = 32;
const POWER_OVERFLOWED_NATURAL_NUMBER: usize = 33;
const SUM_OVERFLOWED_NATURAL_NUMBER: usize = 34;
const OVERFLOWED_REAL_NUMBER: usize = 35;
const POWER_NATURAL_NUMBER: usize = 36;
const SUM_NATURAL_NUMBER: usize = 37;
const HEX_NUMBER: usize = 38;
const OCTAL_NUMBER: usize = 39;
const NA_NUMBER: usize = 40;
const INFINITE_NUMBER: usize = 41;
const SCI_NOTATION_REAL_NUMBER: usize = 42;
const NEGATIVE_NUMBER: usize = 43;
const POSITIVE_NUMBER: usize = 44;
/// The initial node of an entry.
pub const START_STRING: usize = 45;
const EMPTY_STRING: usize = 46;
const NON_EMPTY_STRING: usize = 47;
const SINGLE_QUOTED_STRING: usize = 48;
const LONG_STRING: usize = 49;
const UNQUOTED_STRING: usize = 50;
const ADD_VALID_UNESCAPED_CHAR: usize = 51;
const ADD_UNESCAPED_QUOTATION_MARK: usize = 52;
const ADD_UNESCAPED_REVERSE_SOLIDUS: usize = 53;
const ADD_ESCAPED_CHARACTER: usize = 54;
const ADD_ENCODED: usize = 55;
const ADD_ENCODED_RANDOM_CASE: usize = 56;
const ADD_ENCODED_UPPER_CASE: usize = 57;
const ADD_ENCODED_LOWER_CASE: usize = 58;
const REMOVE_CHAR: usize = 59;
const REPLACE_CHAR: usize = 60;
const ADD_UNPAIRED_SURROGATE: usize = 61;
const ADD_SURROGATE_PAIR: usize = 62;
const ADD_INVALID_CHAR: usize = 63;
const ADD_UNESCAPED_CHAR: usize = 64;
const ADD_UNESCAPED_CONTROL_CHAR: usize = 65;
const ADD_VALID_CHAR: usize = 66;
/// The initial node of an entry.
pub const START_ARRAY: usize = 67;
const ADD_ELEMENT_ARRAY: usize = 68;
const LARGE_ARRAY: usize = 69;
const ARRAY_ADD_NULL: usize = 70;
const ARRAY_ADD_BOOL: usize = 71;
const ARRAY_ADD_NUMBER: usize = 72;
const ARRAY_ADD_STRING: usize = 73;
const ARRAY_ADD_ARRAY: usize = 74;
/// The initial node of an entry.
pub const START_OBJECT: usize = 75;
const ADD_ELEMENT_OBJECT: usize = 76;
const LARGE_OBJECT: usize = 77;
const OBJECT_ADD_NULL: usize = 78;
const OBJECT_ADD_BOOL: usize = 79;
const OBJECT_ADD_NUMBER: usize = 80;
const OBJECT_ADD_STRING: usize = 81;
const OBJECT_ADD_ARRAY: usize = 82;
const OBJECT_ADD_OBJECT: usize = 83;
/// The initial node of an entry.
pub const START_FLOW_SCALAR: usize = 84;
const MULTI_LINE_QUOTED_SCALAR: usize = 85;
const SINGLE_QUOTED_SCALAR: usize = 86;
const ESCAPED_QUOTES_SINGLE_QUOTED_SCALAR: usize = 87;
const UNQUOTED_SCALAR: usize = 88;
const INVALID_UNQUOTED_SCALAR: usize = 89;
const LEADING_INDICATOR_SCALAR: usize = 90;
const FORBIDDEN_SUBSTR_SCALAR: usize = 91;
const INVALID_FLOW_COLLECTION_SCALAR: usize = 92;
const INVALID_IMPLICIT_KEY_SCALAR: usize = 93;
const VALID_UNQUOTED_SCALAR: usize = 94;
/// The initial node of an entry.
pub const START_INDENTATION: usize = 95;
const TABULATED_INDENTATION_2: usize = 96;
const TABULATED_INDENTATION_4: usize = 97;
const EXPANDED_INDENTATION: usize = 98;
const SHRINKED_INDENTATION: usize = 99;

fn plain(t: Transform) -> (r: AutomatonNode) {
    AutomatonNode::new().set_func(t)
}

/// The nodes of the catalog's arena.
#[verifier::rlimit(50)]
fn catalog_nodes(config: &Config) -> (r: Vec<AutomatonNode>)
    ensures
        r@.len() == NODE_COUNT,
{
    let mut escapes: Vec<Vec<char>> = Vec::new();
    escapes.push(chars_of("\\\""));
    escapes.push(chars_of("\\\\"));
    escapes.push(chars_of("\\/"));
    escapes.push(chars_of("\\b"));
    escapes.push(chars_of("\\f"));
    escapes.push(chars_of("\\\n"));
    escapes.push(chars_of("\\\r"));
    escapes.push(chars_of("\\\t"));
    let mut separators: Vec<Vec<char>> = Vec::new();
    separators.push(chars_of(": "));
    separators.push(chars_of(" #"));
    let mut nodes: Vec<AutomatonNode> = Vec::new();
    nodes.push(AutomatonNode::new());
    assert(nodes@.len() == 1);
    nodes.push(AutomatonNode::new().set_edges(vec![(10, FINAL), (1, LEADING_CR), (1, LEADING_LF), (1, LEADING_TAB), (1, LEADING_SPACE), (1, TRAILING_CR), (1, TRAILING_LF), (1, TRAILING_TAB), (1, TRAILING_SPACE)], config));
    assert(nodes@.len() == 2);
    nodes.push(plain(Transform::Prepend(chars_of("\r"))).set_cycle(1));
    assert(nodes@.len() == 3);
    nodes.push(plain(Transform::Prepend(chars_of("\n"))).set_cycle(1));
    assert(nodes@.len() == 4);
    nodes.push(plain(Transform::Prepend(chars_of("\t"))).set_cycle(1));
    assert(nodes@.len() == 5);
    nodes.push(plain(Transform::Prepend(chars_of(" "))).set_cycle(1));
    assert(nodes@.len() == 6);
    nodes.push(plain(Transform::Append(chars_of("\r"))).set_cycle(1));
    assert(nodes@.len() == 7);
    nodes.push(plain(Transform::Append(chars_of("\n"))).set_cycle(1));
    assert(nodes@.len() == 8);
    nodes.push(plain(Transform::Append(chars_of("\t"))).set_cycle(1));
    assert(nodes@.len() == 9);
    nodes.push(plain(Transform::Append(chars_of(" "))).set_cycle(1));
    assert(nodes@.len() == 10);
    nodes.push(AutomatonNode::new().set_edges(vec![(1, CASED_NULL), (1, NIL_NULL), (1, NONE_NULL), (3, ZERO_NULL), (2, EMPTY_NULL)], config));
    assert(nodes@.len() == 11);
    nodes.push(AutomatonNode::new().set_edges(vec![(2, UPPER_CASED_NULL), (1, RANDOM_CASED_NULL), (2, CAPITALIZED_NULL)], config));
    assert(nodes@.len() == 12);
    nodes.push(plain(Transform::Constant(chars_of("nil"))).set_edge(CASED_NULL));
    assert(nodes@.len() == 13);
    nodes.push(plain(Transform::Constant(chars_of("none"))).set_edge(CASED_NULL));
    assert(nodes@.len() == 14);
    nodes.push(plain(Transform::Constant(chars_of("0"))).set_edge(START_WS));
    assert(nodes@.len() == 15);
    nodes.push(plain(Transform::Constant(Vec::new())).set_edge(START_WS));
    assert(nodes@.len() == 16);
    nodes.push(plain(Transform::UpperCase).set_edge(START_WS));
    assert(nodes@.len() == 17);
    nodes.push(plain(Transform::RandomCase).set_edge(START_WS));
    assert(nodes@.len() == 18);
    nodes.push(plain(Transform::Capitalize).set_edge(START_WS));
    assert(nodes@.len() == 19);
    nodes.push(AutomatonNode::new().set_edges(vec![(2, FINAL), (1, REVERSE_BOOLEAN)], config));
    assert(nodes@.len() == 20);
    nodes.push(plain(Transform::IfEquals(chars_of("true"), chars_of("false"), chars_of("true"))).set_edges(vec![(1, CASED_BOOLEAN), (1, NUMERICAL_BOOLEAN)], config));
    assert(nodes@.len() == 21);
    nodes.push(plain(Transform::IfEquals(chars_of("true"), chars_of("1"), chars_of("0"))).set_edges(vec![(1, QUOTED_BOOLEAN), (3, CASED_BOOLEAN)], config));
    assert(nodes@.len() == 22);
    nodes.push(plain(Transform::Wrap(chars_of("\""), chars_of("\""))).set_edge(CASED_BOOLEAN));
    assert(nodes@.len() == 23);
    nodes.push(AutomatonNode::new().set_edges(vec![(1, UPPER_CASED_BOOLEAN), (1, RANDOM_CASED_BOOLEAN), (2, CAPITALIZED_BOOLEAN), (2, FINAL)], config));
    assert(nodes@.len() == 24);
    nodes.push(plain(Transform::UpperCase));
    assert(nodes@.len() == 25);
    nodes.push(plain(Transform::RandomCase));
    assert(nodes@.len() == 26);
    nodes.push(plain(Transform::Capitalize));
    assert(nodes@.len() == 27);
    nodes.push(AutomatonNode::new().set_edges(vec![(8, WHOLE_NUMBER), (1, START_NULL), (1, HEX_NUMBER), (1, OCTAL_NUMBER), (1, NA_NUMBER), (1, INFINITE_NUMBER)], config));
    assert(nodes@.len() == 28);
    nodes.push(AutomatonNode::new().set_edges(vec![(1, INCREASED_PRECISION_REAL_NUMBER), (1, SCI_NOTATION_REAL_NUMBER), (1, DECIMAL_COMMA_REAL_NUMBER), (2, START_WS)], config));
    assert(nodes@.len() == 29);
    nodes.push(AutomatonNode::new().set_cycle(1));
    assert(nodes@.len() == 30);
    nodes.push(plain(Transform::ReplaceChar('.', chars_of(","))).set_edge(START_WS));
    assert(nodes@.len() == 31);
    nodes.push(AutomatonNode::new().set_edges(vec![(2, POSITIVE_NUMBER), (2, NEGATIVE_NUMBER), (2, POWER_NATURAL_NUMBER), (2, SUM_NATURAL_NUMBER), (1, OVERFLOWED_WHOLE_NUMBER)], config));
    assert(nodes@.len() == 32);
    nodes.push(AutomatonNode::new().set_edges(vec![(2, FINAL), (1, OVERFLOWED_REAL_NUMBER), (1, POWER_OVERFLOWED_NATURAL_NUMBER), (1, SUM_OVERFLOWED_NATURAL_NUMBER)], config));
    assert(nodes@.len() == 33);
    nodes.push(plain(Transform::BigSquare).set_cycle(1));
    assert(nodes@.len() == 34);
    nodes.push(plain(Transform::Append(chars_of("1"))).set_cycle(1));
    assert(nodes@.len() == 35);
    nodes.push(plain(Transform::Prepend(chars_of("0."))));
    assert(nodes@.len() == 36);
    nodes.push(plain(Transform::Square).set_cycle(1));
    assert(nodes@.len() == 37);
    nodes.push(plain(Transform::Double).set_cycle(1));
    assert(nodes@.len() == 38);
    nodes.push(plain(Transform::Hex));
    assert(nodes@.len() == 39);
    nodes.push(plain(Transform::Octal));
    assert(nodes@.len() == 40);
    nodes.push(plain(Transform::Constant(chars_of("NaN"))));
    assert(nodes@.len() == 41);
    nodes.push(plain(Transform::Constant(chars_of("∞"))));
    assert(nodes@.len() == 42);
    nodes.push(AutomatonNode::new().set_edge(START_WS));
    assert(nodes@.len() == 43);
    nodes.push(plain(Transform::Prepend(chars_of("-"))).set_edges(vec![(1, FINAL), (1, REAL_NUMBER)], config));
    assert(nodes@.len() == 44);
    nodes.push(AutomatonNode::new().set_edges(vec![(1, FINAL), (1, REAL_NUMBER)], config));
    assert(nodes@.len() == 45);
    nodes.push(AutomatonNode::new().set_edges(vec![(1, EMPTY_STRING), (1, LONG_STRING), (5, NON_EMPTY_STRING)], config));
    assert(nodes@.len() == 46);
    nodes.push(plain(Transform::Constant(chars_of("\"\""))));
    assert(nodes@.len() == 47);
    nodes.push(AutomatonNode::new().set_edges(vec![(5, START_WS), (1, SINGLE_QUOTED_STRING), (1, UNQUOTED_STRING), (5, ADD_VALID_CHAR), (5, ADD_INVALID_CHAR), (1, REMOVE_CHAR), (1, REPLACE_CHAR)], config));
    assert(nodes@.len() == 48);
    nodes.push(plain(Transform::ReplaceChar('"', chars_of("'"))));
    assert(nodes@.len() == 49);
    nodes.push(plain(Transform::LongWord));
    assert(nodes@.len() == 50);
    nodes.push(plain(Transform::ReplaceChar('"', Vec::new())));
    assert(nodes@.len() == 51);
    nodes.push(plain(Transform::InsertRandomChar).set_cycle(2));
    assert(nodes@.len() == 52);
    nodes.push(plain(Transform::InsertText(chars_of("\""))).set_cycle(3));
    assert(nodes@.len() == 53);
    nodes.push(plain(Transform::InsertText(chars_of("\\"))).set_cycle(3));
    assert(nodes@.len() == 54);
    nodes.push(plain(Transform::InsertOneOf(escapes)).set_cycle(2));
    assert(nodes@.len() == 55);
    nodes.push(plain(Transform::InsertEncodedChar).set_edges(vec![(1, ADD_ENCODED_RANDOM_CASE), (1, ADD_ENCODED_UPPER_CASE), (1, ADD_ENCODED_LOWER_CASE)], config));
    assert(nodes@.len() == 56);
    nodes.push(plain(Transform::RandomCase).set_cycle(3));
    assert(nodes@.len() == 57);
    nodes.push(plain(Transform::UpperCase).set_cycle(3));
    assert(nodes@.len() == 58);
    nodes.push(AutomatonNode::new().set_cycle(3));
    assert(nodes@.len() == 59);
    nodes.push(plain(Transform::RemoveChar).set_cycle(1));
    assert(nodes@.len() == 60);
    nodes.push(plain(Transform::EncodeChar).set_cycle(1));
    assert(nodes@.len() == 61);
    nodes.push(plain(Transform::InsertSurrogate).set_cycle(2));
    assert(nodes@.len() == 62);
    nodes.push(plain(Transform::InsertSurrogatePair).set_cycle(2));
    assert(nodes@.len() == 63);
    nodes.push(AutomatonNode::new().set_edges(vec![(1, ADD_UNESCAPED_CHAR), (1, ADD_UNPAIRED_SURROGATE)], config));
    assert(nodes@.len() == 64);
    nodes.push(AutomatonNode::new().set_edges(vec![(1, ADD_UNESCAPED_QUOTATION_MARK), (1, ADD_UNESCAPED_REVERSE_SOLIDUS), (1, ADD_UNESCAPED_CONTROL_CHAR)], config));
    assert(nodes@.len() == 65);
    nodes.push(plain(Transform::InsertControlChar).set_cycle(3));
    assert(nodes@.len() == 66);
    nodes.push(AutomatonNode::new().set_edges(vec![(1, ADD_VALID_UNESCAPED_CHAR), (1, ADD_ESCAPED_CHARACTER), (1, ADD_SURROGATE_PAIR), (1, ADD_ENCODED)], config));
    assert(nodes@.len() == 67);
    nodes.push(AutomatonNode::new().set_edges(vec![(5, ADD_ELEMENT_ARRAY), (1, LARGE_ARRAY), (5, FINAL)], config));
    assert(nodes@.len() == 68);
    nodes.push(AutomatonNode::new().set_edges(vec![(1, ARRAY_ADD_NULL), (1, ARRAY_ADD_BOOL), (1, ARRAY_ADD_NUMBER), (1, ARRAY_ADD_STRING), (1, ARRAY_ADD_ARRAY)], config));
    assert(nodes@.len() == 69);
    nodes.push(plain(Transform::Enlarge('[', ']')));
    assert(nodes@.len() == 70);
    nodes.push(plain(Transform::ArrayElement(NULL_ENTRY)).set_cycle(2));
    assert(nodes@.len() == 71);
    nodes.push(plain(Transform::ArrayElement(BOOL_ENTRY)).set_cycle(2));
    assert(nodes@.len() == 72);
    nodes.push(plain(Transform::ArrayElement(NUMBER_ENTRY)).set_cycle(2));
    assert(nodes@.len() == 73);
    nodes.push(plain(Transform::ArrayElement(STRING_ENTRY)).set_cycle(2));
    assert(nodes@.len() == 74);
    nodes.push(plain(Transform::ArrayElement(ARRAY_ENTRY)).set_cycle(2));
    assert(nodes@.len() == 75);
    nodes.push(AutomatonNode::new().set_edges(vec![(5, ADD_ELEMENT_OBJECT), (1, LARGE_OBJECT), (5, FINAL)], config));
    assert(nodes@.len() == 76);
    nodes.push(AutomatonNode::new().set_edges(vec![(1, OBJECT_ADD_NULL), (1, OBJECT_ADD_BOOL), (1, OBJECT_ADD_NUMBER), (1, OBJECT_ADD_STRING), (1, OBJECT_ADD_ARRAY), (1, OBJECT_ADD_OBJECT)], config));
    assert(nodes@.len() == 77);
    nodes.push(plain(Transform::Enlarge('{', '}')));
    assert(nodes@.len() == 78);
    nodes.push(plain(Transform::ObjectMember(STRING_ENTRY, NULL_ENTRY)).set_cycle(2));
    assert(nodes@.len() == 79);
    nodes.push(plain(Transform::ObjectMember(STRING_ENTRY, BOOL_ENTRY)).set_cycle(2));
    assert(nodes@.len() == 80);
    nodes.push(plain(Transform::ObjectMember(STRING_ENTRY, NUMBER_ENTRY)).set_cycle(2));
    assert(nodes@.len() == 81);
    nodes.push(plain(Transform::ObjectMember(STRING_ENTRY, STRING_ENTRY)).set_cycle(2));
    assert(nodes@.len() == 82);
    nodes.push(plain(Transform::ObjectMember(STRING_ENTRY, ARRAY_ENTRY)).set_cycle(2));
    assert(nodes@.len() == 83);
    nodes.push(plain(Transform::ObjectMember(STRING_ENTRY, OBJECT_ENTRY)).set_cycle(2));
    assert(nodes@.len() == 84);
    nodes.push(AutomatonNode::new().set_edges(vec![(1, MULTI_LINE_QUOTED_SCALAR), (1, SINGLE_QUOTED_SCALAR), (1, UNQUOTED_SCALAR), (5, FINAL)], config));
    assert(nodes@.len() == 85);
    nodes.push(plain(Transform::InsertText(chars_of("\n"))).set_cycle(1));
    assert(nodes@.len() == 86);
    nodes.push(plain(Transform::ReplaceChar('"', chars_of("'"))).set_edges(vec![(1, ESCAPED_QUOTES_SINGLE_QUOTED_SCALAR), (5, MULTI_LINE_QUOTED_SCALAR), (10, FINAL)], config));
    assert(nodes@.len() == 87);
    nodes.push(plain(Transform::InsertText(chars_of("''"))).set_cycle(1));
    assert(nodes@.len() == 88);
    nodes.push(plain(Transform::ReplaceChar('"', Vec::new())).set_edges(vec![(1, INVALID_UNQUOTED_SCALAR), (5, VALID_UNQUOTED_SCALAR), (5, FINAL)], config));
    assert(nodes@.len() == 89);
    nodes.push(AutomatonNode::new().set_edges(vec![(1, LEADING_INDICATOR_SCALAR), (1, FORBIDDEN_SUBSTR_SCALAR), (1, INVALID_FLOW_COLLECTION_SCALAR), (1, INVALID_IMPLICIT_KEY_SCALAR), (5, FINAL)], config));
    assert(nodes@.len() == 90);
    nodes.push(plain(Transform::PrependFromSet(chars_of("#[],-?:{{}}&*!|>\"'%@"))).set_cycle(2));
    assert(nodes@.len() == 91);
    nodes.push(plain(Transform::InsertOneOf(separators)).set_cycle(2));
    assert(nodes@.len() == 92);
    nodes.push(plain(Transform::InsertFromSet(chars_of("[],{{}}"))));
    assert(nodes@.len() == 93);
    nodes.push(plain(Transform::InsertText(chars_of("\n"))));
    assert(nodes@.len() == 94);
    nodes.push(AutomatonNode::new());
    assert(nodes@.len() == 95);
    nodes.push(AutomatonNode::new().set_edges(vec![(1, TABULATED_INDENTATION_2), (1, TABULATED_INDENTATION_4), (1, EXPANDED_INDENTATION), (1, SHRINKED_INDENTATION), (4, FINAL)], config));
    assert(nodes@.len() == 96);
    nodes.push(plain(Transform::ReplaceOccurrence(chars_of("  "), chars_of("\t"))).set_cycle(1));
    assert(nodes@.len() == 97);
    nodes.push(plain(Transform::ReplaceOccurrence(chars_of("    "), chars_of("\t"))).set_cycle(1));
    assert(nodes@.len() == 98);
    nodes.push(plain(Transform::Append(chars_of(" "))).set_cycle(1));
    assert(nodes@.len() == 99);
    nodes.push(plain(Transform::DropLast).set_cycle(1));
    assert(nodes@.len() == 100);
    nodes
}

/// The family of all catalog automata, weighted with the vertical randomness
/// coefficient of `config` and drawing words from its word list. Its start
/// entry is the JSON null automaton.
pub fn catalog(config: &Config) -> (r: Automaton)
    ensures
        r.entry_count() == ENTRY_COUNT,
        r.node_count() == NODE_COUNT,
        r.start_spec() == NULL_ENTRY,
        r.words_spec() == config.words(),
        r.entry(NULL_ENTRY as int).0 == START_NULL,
        r.entry(BOOL_ENTRY as int).0 == START_BOOLEAN,
        r.entry(NUMBER_ENTRY as int).0 == START_NUMBER,
        r.entry(STRING_ENTRY as int).0 == START_STRING,
        r.entry(ARRAY_ENTRY as int).0 == START_ARRAY,
        r.entry(OBJECT_ENTRY as int).0 == START_OBJECT,
        r.entry(FLOW_SCALAR_ENTRY as int).0 == START_FLOW_SCALAR,
        r.entry(INDENTATION_ENTRY as int).0 == START_INDENTATION,
        r.entry(NUMBER_ENTRY as int).1 == InitValue::DigitString,
        r.entry(STRING_ENTRY as int).1 == InitValue::QuotedWord,
        r.entry(FLOW_SCALAR_ENTRY as int).1 == InitValue::Generated(STRING_ENTRY),
        r.entry(NULL_ENTRY as int).1 matches InitValue::Fixed(t) && t@ == seq!['n', 'u', 'l', 'l'],
        r.entry(ARRAY_ENTRY as int).1 matches InitValue::Fixed(t) && t@ == seq!['[', ']'],
        r.entry(OBJECT_ENTRY as int).1 matches InitValue::Fixed(t) && t@ == seq!['{', '}'],
        r.entry(BOOL_ENTRY as int).1 matches InitValue::Parity(a, b) && a@ == seq!['t', 'r', 'u', 'e']
            && b@ == seq!['f', 'a', 'l', 's', 'e'],
{
    let nodes = catalog_nodes(config);
    assert(nodes@.len() == NODE_COUNT);
    proof {
        reveal_strlit("null");
        reveal_strlit("true");
        reveal_strlit("false");
        reveal_strlit("[]");
        reveal_strlit("{}");
    }
    let mut entries: Vec<(usize, InitValue)> = Vec::new();
    entries.push((START_NULL, InitValue::Fixed(chars_of("null"))));
    entries.push((START_BOOLEAN, InitValue::Parity(chars_of("true"), chars_of("false"))));
    entries.push((START_NUMBER, InitValue::DigitString));
    entries.push((START_STRING, InitValue::QuotedWord));
    entries.push((START_ARRAY, InitValue::Fixed(chars_of("[]"))));
    entries.push((START_OBJECT, InitValue::Fixed(chars_of("{}"))));
    entries.push((START_FLOW_SCALAR, InitValue::Generated(STRING_ENTRY)));
    entries.push((START_INDENTATION, InitValue::Fixed(chars_of("  "))));
    let mut words: Vec<Vec<char>> = Vec::new();
    let mut i: usize = 0;
    while i < config.word_count()
        invariant
            nodes@.len() == NODE_COUNT,
            i <= config.words().len(),
            words@.map_values(|w: Vec<char>| w@) =~= config.words().subrange(0, i as int),
        decreases config.words().len() - i,
    {
        let ghost before = words@;
        let w = chars_of(config.common_word(i));
        words.push(w);
        assert(words@ =~= before.push(w));
        assert(words@.map_values(|w: Vec<char>| w@) =~= before.map_values(|w: Vec<char>| w@).push(w@));
        assert(config.words().subrange(0, i + 1) =~= config.words().subrange(0, i as int).push(config.words()[i as int]));
        i = i + 1;
    }
    assert(words@.map_values(|w: Vec<char>| w@) =~= config.words());
    Automaton::with_entries(nodes, entries, NULL_ENTRY, words)
}

} // verus!
