use talasum::configuration::{Config, Configurable};
use talasum::json;
use talasum::tokenizer::JsonLexer;

#[test]
fn array_document_is_mutated_token_by_token() {
    let tokens = JsonLexer::tokenize("[1,2,3]").unwrap();
    assert_eq!(tokens.len(), 4);

    let mut config = Config::new();
    config.set_horizontal_randomness_coef(100);
    let mut mutator = json::mutate_with("[1,2,3]", 1234, config).unwrap();
    assert_eq!(mutator.choose_for_mutation(0).len(), 4);
    for _ in 0..5 {
        let out = mutator.next().unwrap().unwrap();
        assert_ne!(out, "[1,2,3]");
    }
}

#[test]
fn empty_document_yields_no_production() {
    let mut mutator = json::mutate("", 1234).unwrap();
    assert_eq!(mutator.next(), Ok(None));
}
