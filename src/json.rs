//! Entry points for JSON: generators of each value type, and a mutator of
//! whole documents.
use vstd::prelude::*;

use crate::automaton::Automaton;
use crate::catalog::{
    catalog, ARRAY_ENTRY, BOOL_ENTRY, ENTRY_COUNT, NODE_COUNT, NULL_ENTRY, NUMBER_ENTRY, OBJECT_ENTRY,
    STRING_ENTRY,
};
use crate::configuration::Config;
use crate::generator::Generator;
use crate::mutator::Mutator;
use crate::randomness::PRandomizer;
use crate::tokenizer::{is_json_document, json_tokens, JsonLexer};

verus! {

/// The generator of catalog entry `entry` under the default configuration,
/// seeded with `seed`.
fn generator_of(entry: usize, seed: u64) -> (r: Generator)
    ensures
        r.automaton_spec().start_spec() == entry,
        r.automaton_spec().entry_count() == ENTRY_COUNT,
        r.automaton_spec().node_count() == NODE_COUNT,
        r.seeder_spec().seed() == seed,
        r.seeder_spec().drawn() == 0,
        r.seeder_spec().low() == 0,
        r.seeder_spec().high() == u64::MAX,
{
    let config = Config::new();
    Generator::new(catalog(&config).select(entry), PRandomizer::new(seed))
}

/// A JSON number generator.
pub fn number(seed: u64) -> (r: Generator)
    ensures
        r.automaton_spec().start_spec() == NUMBER_ENTRY,
        r.automaton_spec().entry_count() == ENTRY_COUNT,
        r.automaton_spec().node_count() == NODE_COUNT,
        r.seeder_spec().seed() == seed,
        r.seeder_spec().drawn() == 0,
        r.seeder_spec().low() == 0,
        r.seeder_spec().high() == u64::MAX,
{
    generator_of(NUMBER_ENTRY, seed)
}

/// A JSON boolean generator.
pub fn boolean(seed: u64) -> (r: Generator)
    ensures
        r.automaton_spec().start_spec() == BOOL_ENTRY,
        r.automaton_spec().entry_count() == ENTRY_COUNT,
        r.automaton_spec().node_count() == NODE_COUNT,
        r.seeder_spec().seed() == seed,
        r.seeder_spec().drawn() == 0,
        r.seeder_spec().low() == 0,
        r.seeder_spec().high() == u64::MAX,
{
    generator_of(BOOL_ENTRY, seed)
}

/// A JSON null generator.
pub fn null(seed: u64) -> (r: Generator)
    ensures
        r.automaton_spec().start_spec() == NULL_ENTRY,
        r.automaton_spec().entry_count() == ENTRY_COUNT,
        r.automaton_spec().node_count() == NODE_COUNT,
        r.seeder_spec().seed() == seed,
        r.seeder_spec().drawn() == 0,
        r.seeder_spec().low() == 0,
        r.seeder_spec().high() == u64::MAX,
{
    generator_of(NULL_ENTRY, seed)
}

/// A JSON string generator.
pub fn string(seed: u64) -> (r: Generator)
    ensures
        r.automaton_spec().start_spec() == STRING_ENTRY,
        r.automaton_spec().entry_count() == ENTRY_COUNT,
        r.automaton_spec().node_count() == NODE_COUNT,
        r.seeder_spec().seed() == seed,
        r.seeder_spec().drawn() == 0,
        r.seeder_spec().low() == 0,
        r.seeder_spec().high() == u64::MAX,
{
    generator_of(STRING_ENTRY, seed)
}

/// A JSON array generator.
pub fn array(seed: u64) -> (r: Generator)
    ensures
        r.automaton_spec().start_spec() == ARRAY_ENTRY,
        r.automaton_spec().entry_count() == ENTRY_COUNT,
        r.automaton_spec().node_count() == NODE_COUNT,
        r.seeder_spec().seed() == seed,
        r.seeder_spec().drawn() == 0,
        r.seeder_spec().low() == 0,
        r.seeder_spec().high() == u64::MAX,
{
    generator_of(ARRAY_ENTRY, seed)
}

/// A JSON object generator.
pub fn object(seed: u64) -> (r: Generator)
    ensures
        r.automaton_spec().start_spec() == OBJECT_ENTRY,
        r.automaton_spec().entry_count() == ENTRY_COUNT,
        r.automaton_spec().node_count() == NODE_COUNT,
        r.seeder_spec().seed() == seed,
        r.seeder_spec().drawn() == 0,
        r.seeder_spec().low() == 0,
        r.seeder_spec().high() == u64::MAX,
{
    generator_of(OBJECT_ENTRY, seed)
}

/// A mutator of the JSON document `input` under `config`; `None` when the
/// input is not a JSON document.
pub fn mutate_with(input: &str, seed: u64, config: Config) -> (r: Option<Mutator>)
    ensures
        r is Some <==> is_json_document(input@),
        r matches Some(m) ==> m.tokens_spec() == json_tokens(input@)->0 && m.input_spec() == input@
            && m.seeder_spec().seed() == seed && m.seeder_spec().drawn() == 0
            && m.seeder_spec().low() == 0 && m.seeder_spec().high() == u64::MAX
            && m.config_spec() == config && m.family_spec().entry_count() == ENTRY_COUNT
            && m.family_spec().node_count() == NODE_COUNT && m.family_spec().words_spec()
            == config.words(),
{
    match JsonLexer::tokenize(input) {
        Some(tokens) => {
            let family: Automaton = catalog(&config);
            Some(Mutator::new(seed, input, tokens, family, config))
        },
        None => None,
    }
}

/// A JSON mutator under the default configuration; `None` when the input is
/// not a JSON document.
pub fn mutate(input: &str, seed: u64) -> (r: Option<Mutator>)
    ensures
        r is Some <==> is_json_document(input@),
        r matches Some(m) ==> m.tokens_spec() == json_tokens(input@)->0 && m.input_spec() == input@
            && m.seeder_spec().seed() == seed && m.seeder_spec().drawn() == 0
            && m.seeder_spec().low() == 0 && m.seeder_spec().high() == u64::MAX
            && m.config_spec().vertical() == 50 && m.config_spec().horizontal() == 50
            && m.family_spec().entry_count() == ENTRY_COUNT,
{
    mutate_with(input, seed, Config::new())
}

} // verus!
