use std::collections::BTreeSet;
use talasum::automaton::Automaton;
use talasum::catalog::{
    catalog, ARRAY_ENTRY, BOOL_ENTRY, FLOW_SCALAR_ENTRY, INDENTATION_ENTRY, NULL_ENTRY,
    NUMBER_ENTRY, OBJECT_ENTRY, STRING_ENTRY,
};
use talasum::configuration::Config;
use talasum::randomness::PRandomizer;

fn automaton(entry: usize) -> Automaton {
    catalog(&Config::new()).select(entry)
}

// sorted list of a 1000 fuzzed values
fn fuzz_values(entry: usize) -> Vec<String> {
    let automaton = automaton(entry);
    let mut values: Vec<String> = (1..1000).map(|i| automaton.generate(i).unwrap()).collect();
    values.sort();
    values
}

fn unique_count(values: &[String]) -> usize {
    values.iter().collect::<BTreeSet<_>>().len()
}

#[test]
fn array_automaton_is_seedable() {
    let values = fuzz_values(ARRAY_ENTRY);
    assert_ne!(values.last(), values.first());
}

#[test]
fn array_result_is_diverse_enough() {
    assert!(unique_count(&fuzz_values(ARRAY_ENTRY)) > 5);
}

#[test]
fn try_array() {
    let automaton = automaton(ARRAY_ENTRY);
    for i in 1..20 {
        let res: String = automaton.generate(i).unwrap();
        println!("Res is: {}", res);
    }
}

#[test]
fn try_array1() {
    let automaton = automaton(ARRAY_ENTRY);
    let mut rand = PRandomizer::new(100);
    for _ in 0..1000 {
        let res: String = automaton.generate(rand.get()).unwrap();
        println!("Res is: {}", res);
    }
}

#[test]
fn bool_automaton_is_seedable() {
    let values = fuzz_values(BOOL_ENTRY);
    assert_ne!(values.last(), values.first());
}

#[test]
fn true_and_false_results_are_equally_likely() {
    let values = fuzz_values(BOOL_ENTRY);
    let trues = values.iter().filter(|fuzzed| "true".eq_ignore_ascii_case(fuzzed)).count();
    let falses = values.iter().filter(|fuzzed| "false".eq_ignore_ascii_case(fuzzed)).count();
    let delta = 20_usize;
    assert!(trues < falses + delta);
    assert!(trues > falses - delta);
}

#[test]
fn boolean_result_is_diverse_enough() {
    assert!(unique_count(&fuzz_values(BOOL_ENTRY)) > 5);
}

#[test]
fn try_bool1() {
    let automaton = automaton(BOOL_ENTRY);
    for i in 1..20 {
        let res: String = automaton.generate(i).unwrap();
        println!("Res is: {}", res);
    }
}

#[test]
fn null_automaton_is_seedable() {
    let values = fuzz_values(NULL_ENTRY);
    assert_ne!(values.last(), values.first());
}

#[test]
fn null_result_is_diverse_enough() {
    assert!(unique_count(&fuzz_values(NULL_ENTRY)) > 5);
}

#[test]
fn try_null2() {
    let automaton = automaton(NULL_ENTRY);
    for i in 1..20 {
        let res: String = automaton.generate(i).unwrap();
        println!("Res is: {}", res);
    }
}

#[test]
fn number_automaton_is_seedable() {
    let values = fuzz_values(NUMBER_ENTRY);
    assert_ne!(values.last(), values.first());
}

#[test]
fn number_result_is_diverse_enough() {
    assert!(unique_count(&fuzz_values(NUMBER_ENTRY)) > 15);
}

#[test]
fn try_number() {
    let automaton = automaton(NUMBER_ENTRY);
    for i in 1..20 {
        let res: String = automaton.traverse(String::from("1"), i).unwrap();
        println!("Res is: {}", res);
    }
}

#[test]
fn try_number1() {
    let automaton = automaton(NUMBER_ENTRY);
    for i in 1..50 {
        let res: String = automaton.generate(i).unwrap();
        println!("Res is: {}", res);
    }
}

#[test]
fn object_automaton_is_seedable() {
    let values = fuzz_values(OBJECT_ENTRY);
    assert_ne!(values.last(), values.first());
}

#[test]
fn object_result_is_diverse_enough() {
    assert!(unique_count(&fuzz_values(OBJECT_ENTRY)) > 5);
}

#[test]
fn try_object() {
    let automaton = automaton(OBJECT_ENTRY);
    for i in 1..20 {
        let res: String = automaton.generate(i).unwrap();
        println!("Res is: {}", res);
    }
}

#[test]
fn try_object1() {
    let automaton = automaton(OBJECT_ENTRY);
    let mut rand = PRandomizer::new(100);
    for _ in 0..1000 {
        let res: String = automaton.generate(rand.get()).unwrap();
        println!("Res is: {}", res);
    }
}

#[test]
fn string_string_automaton_is_seedable() {
    let values = fuzz_values(STRING_ENTRY);
    assert_ne!(values.last(), values.first());
}

#[test]
fn string_result_is_diverse_enough() {
    assert!(unique_count(&fuzz_values(STRING_ENTRY)) > 15);
}

#[test]
fn string_try_string() {
    let automaton = automaton(STRING_ENTRY);
    for i in 1..20 {
        let res: String = automaton.traverse(String::from("1"), i).unwrap();
        println!("Res is: {}", res);
    }
}

#[test]
fn string_try_string1() {
    let automaton = automaton(STRING_ENTRY);
    let mut rand = PRandomizer::new(100);
    for _ in 0..1000 {
        let res: String = automaton.generate(rand.get()).unwrap();
        println!("Res is: {}", res);
    }
}

#[test]
fn flow_scalar_string_automaton_is_seedable() {
    let values = fuzz_values(FLOW_SCALAR_ENTRY);
    assert_ne!(values.last(), values.first());
}

#[test]
fn flow_scalar_result_is_diverse_enough() {
    assert!(unique_count(&fuzz_values(FLOW_SCALAR_ENTRY)) > 15);
}

#[test]
fn flow_scalar_try_string() {
    let automaton = automaton(FLOW_SCALAR_ENTRY);
    for i in 1..20 {
        let res: String = automaton.traverse(String::from("1"), i).unwrap();
        println!("Res is: {}", res);
    }
}

#[test]
fn flow_scalar_try_string1() {
    let automaton = automaton(FLOW_SCALAR_ENTRY);
    let mut rand = PRandomizer::new(100);
    for _ in 0..1000 {
        let res: String = automaton.generate(rand.get()).unwrap();
        println!("Res is: {}", res);
    }
}

#[test]
fn indentation_automaton_is_seedable() {
    let values = fuzz_values(INDENTATION_ENTRY);
    assert_ne!(values.last(), values.first());
}

#[test]
fn indentation_result_is_diverse_enough() {
    assert!(unique_count(&fuzz_values(INDENTATION_ENTRY)) > 5);
}

#[test]
fn try_indentation2() {
    let automaton = automaton(INDENTATION_ENTRY);
    for i in 1..20 {
        let res: String = automaton.generate(i).unwrap();
        println!("Res is: {}", res);
    }
}

#[test]
fn json_automata_are_deterministic_and_seed_sensitive() {
    for entry in [NULL_ENTRY, BOOL_ENTRY, NUMBER_ENTRY, STRING_ENTRY, ARRAY_ENTRY, OBJECT_ENTRY] {
        let automaton = automaton(entry);
        assert_eq!(automaton.generate(42), automaton.generate(42));
        let distinct: BTreeSet<String> = (0..50).map(|s| automaton.generate(s).unwrap()).collect();
        assert!(distinct.len() > 1);
    }
}
