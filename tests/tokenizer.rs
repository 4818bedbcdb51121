use talasum::catalog::{ARRAY_ENTRY, NUMBER_ENTRY, OBJECT_ENTRY, STRING_ENTRY};
use talasum::mutator::AutomatonToken;
use talasum::tokenizer::JsonLexer;

fn tokenize_json_input_helper(input: &str) -> Vec<AutomatonToken> {
    JsonLexer::tokenize(input).unwrap()
}

#[test]
fn tokenize_null() {
    let result = tokenize_json_input_helper("null");
    assert_eq!(result.len(), 1);

    assert_eq!(result[0].from, 0);
    assert_eq!(result[0].to, 4);
}

#[test]
fn tokenize_true_boolean() {
    let result = tokenize_json_input_helper("true");
    assert_eq!(result.len(), 1);

    assert_eq!(result[0].from, 0);
    assert_eq!(result[0].to, 4);
}

#[test]
fn tokenize_false_boolean() {
    let result = tokenize_json_input_helper("false");
    assert_eq!(result.len(), 1);

    assert_eq!(result[0].from, 0);
    assert_eq!(result[0].to, 5);
}

#[test]
fn tokenize_string() {
    let result = tokenize_json_input_helper("\"asd\"");
    assert_eq!(result.len(), 1);

    assert_eq!(result[0].from, 0);
    assert_eq!(result[0].to, 5);
}

#[test]
fn tokenize_object() {
    let result = tokenize_json_input_helper("{\"a\":1}");
    assert_eq!(result.len(), 3);

    assert_eq!(result[1].from, 1);
    assert_eq!(result[1].to, 4);
    assert_eq!(result[0].from, 5);
    assert_eq!(result[0].to, 6);
    assert_eq!(result[2].from, 0);
    assert_eq!(result[2].to, 7);
}

#[test]
fn tokenize_array() {
    let result = tokenize_json_input_helper("[1,2,3]");
    assert_eq!(result.len(), 4);

    assert_eq!(result[2].from, 1);
    assert_eq!(result[2].to, 2);
    assert_eq!(result[1].from, 3);
    assert_eq!(result[1].to, 4);
    assert_eq!(result[0].from, 5);
    assert_eq!(result[0].to, 6);
    assert_eq!(result[3].from, 0);
    assert_eq!(result[3].to, 7);
}

#[test]
#[should_panic]
fn fail_to_tokenize_invalid_json() {
    tokenize_json_input_helper("asd");
}

#[test]
fn tokens_carry_their_automata() {
    let result = tokenize_json_input_helper(" { \"k\" : [ -1.5e3 , \"x\\u00e9\" ] } ");
    let kinds: Vec<usize> = result.iter().map(|t| t.automaton).collect();
    assert_eq!(kinds, vec![STRING_ENTRY, NUMBER_ENTRY, ARRAY_ENTRY, STRING_ENTRY, OBJECT_ENTRY]);
}

#[test]
fn malformed_documents_are_rejected() {
    for bad in ["(", "[1,]", "{1}", "\"abc", "01", "[1 2]", "tru", "{\"a\" 1}", "1e", "\"\\q\""] {
        assert!(JsonLexer::tokenize(bad).is_none(), "{}", bad);
    }
}

#[test]
fn nested_values_come_before_their_containers() {
    let result = tokenize_json_input_helper("[[1],{\"a\":[]}]");
    let spans: Vec<(usize, usize)> = result.iter().map(|t| (t.from, t.to)).collect();
    assert_eq!(spans, vec![(10, 12), (6, 9), (5, 13), (2, 3), (1, 4), (0, 14)]);
}

#[test]
fn blank_documents_have_no_tokens() {
    assert_eq!(tokenize_json_input_helper("").len(), 0);
    assert_eq!(tokenize_json_input_helper(" \n\t").len(), 0);
}
