use talasum::automaton::{Automaton, AutomatonNode, InitValue, InvalidAutomaton, Transform};
use talasum::configuration::{Config, Configurable};
use talasum::text::chars_of;

const TEST_NODE1: usize = 0;
const TEST_NODE2: usize = 1;

fn prepend(text: &str) -> Transform {
    Transform::Prepend(chars_of(text))
}

// Weights at their raw proportions (vertical coefficient 100).
fn test_config() -> Config {
    let mut config = Config::new();
    config.set_vertical_randomness_coef(100);
    config
}

// FIRST -> (SECOND | THIRD), SECOND -> THIRD
fn test_automaton() -> Automaton {
    let config = test_config();
    let nodes = vec![
        AutomatonNode::new().set_func(prepend("1")).set_edges(vec![(1, 1), (1, 2)], &config),
        AutomatonNode::new().set_func(prepend("2")).set_edge(2),
        AutomatonNode::new().set_func(prepend("3")),
    ];
    Automaton::new(nodes, 0, InitValue::SeedDigits)
}

// FIRST_CYCLIC -> SECOND_CYCLIC -> (THIRD_CYCLIC | FINAL), THIRD_CYCLIC jumps back two steps
fn test_cyclic_automaton() -> Automaton {
    let config = test_config();
    let nodes = vec![
        AutomatonNode::new().set_func(prepend("4")).set_edge(1),
        AutomatonNode::new().set_func(prepend("5")).set_edges(vec![(2, 2), (1, 3)], &config),
        AutomatonNode::new().set_func(prepend("6")).set_cycle(2),
        AutomatonNode::new(),
    ];
    Automaton::new(nodes, 0, InitValue::SeedDigits)
}

#[test]
fn new_nodes_are_nulled_out() {
    let empty = AutomatonNode::new();
    assert_eq!(*empty.transformation(), Transform::Identity);
    assert_eq!(empty.cycle(), 0);
}

#[test]
fn setting_single_edge_resets_transition() {
    let node = AutomatonNode::new()
        .set_cycle(1)
        .set_edges(vec![(1, TEST_NODE1), (1, TEST_NODE2)], &Config::new())
        .set_edge(TEST_NODE1);
    assert_eq!(node.transition(123), Some(TEST_NODE1));
    assert_eq!(node.cycle(), 0);
}

#[test]
fn setting_single_edge_correctly() {
    let node = AutomatonNode::new().set_edge(TEST_NODE1);
    assert_eq!(node.transition(123), Some(TEST_NODE1));
}

#[test]
fn setting_multiple_edges_resets_transition() {
    let node = AutomatonNode::new()
        .set_cycle(1)
        .set_edge(TEST_NODE1)
        .set_edges(vec![(1, TEST_NODE2)], &Config::new());
    assert_eq!(node.transition(123), Some(TEST_NODE2));
    assert_eq!(node.cycle(), 0);
}

#[test]
fn setting_multiple_edges_when_list_is_empty_does_nothing() {
    assert!(AutomatonNode::new().set_edges(vec![], &Config::new()).transition(123).is_none());
}

#[test]
fn setting_multiple_edges_correctly() {
    let config = Config::new();
    let node1 = AutomatonNode::new().set_edges(vec![(1, TEST_NODE1), (10000, TEST_NODE2)], &config);
    let node2 = AutomatonNode::new().set_edges(vec![(10000, TEST_NODE1), (1, TEST_NODE2)], &config);

    assert_eq!(node1.transition(123), Some(TEST_NODE2));
    assert_eq!(node2.transition(123), Some(TEST_NODE1));
}

#[test]
fn setting_cycle_resets_transition() {
    let node = AutomatonNode::new()
        .set_edge(TEST_NODE1)
        .set_edges(vec![(1, TEST_NODE2)], &Config::new())
        .set_cycle(1);
    assert!(node.transition(123).is_none());
    assert_eq!(node.cycle(), 1);
}

#[test]
fn setting_cycle_correctly() {
    assert_eq!(AutomatonNode::new().set_cycle(123).cycle(), 123);
}

#[test]
fn setting_transformation_correctly() {
    let node = AutomatonNode::new().set_func(Transform::Constant(chars_of("works")));
    assert_eq!(*node.transformation(), Transform::Constant(chars_of("works")));
}

#[test]
fn init_state_is_set_correctly() {
    let automaton = test_automaton();
    assert_eq!(automaton.init_state(), Some(0));
    assert_eq!(automaton.traverse(String::from(""), 0).unwrap().chars().last(), Some('1'));
}

#[test]
fn init_value_is_generated_correctly() {
    assert_eq!(test_automaton().init_value(123).unwrap(), String::from("123"));
}

#[test]
fn generate_acts_as_traverse_for_init_value() {
    let automaton = test_automaton();
    for i in 1..101 {
        assert_eq!(automaton.generate(i).unwrap(), automaton.traverse(i.to_string(), i).unwrap());
    }
}

#[test]
fn traversal_depends_on_input_for_acyclic_automaton() {
    let automaton = test_automaton();
    assert_ne!(
        automaton.traverse(String::from("1"), 123).unwrap(),
        automaton.traverse(String::from("2"), 123).unwrap()
    );
}

#[test]
fn fuzzing_works_as_expected_for_acyclic_automaton() {
    assert_eq!(test_automaton().generate(123).unwrap(), String::from("321123"));
}

#[test]
fn traversal_depends_on_input_for_cyclic_automaton() {
    let automaton = test_cyclic_automaton();
    assert_ne!(
        automaton.traverse(String::from("1"), 123).unwrap(),
        automaton.traverse(String::from("2"), 123).unwrap()
    );
}

#[test]
fn fuzzing_works_as_expected_for_cyclic_automaton() {
    // ends_with is used because we don't want this test to depend on
    // the number of repetitions in the cycle
    assert!(test_cyclic_automaton().generate(123).unwrap().ends_with("654123"));
}

#[test]
fn generation_is_deterministic() {
    let automaton = test_cyclic_automaton();
    for seed in [0u64, 1, 42, 123, u64::MAX] {
        assert_eq!(automaton.generate(seed), automaton.generate(seed));
        assert!(automaton.generate(seed).is_ok());
    }
}

#[test]
#[should_panic(expected = "Invalid automaton definition!")]
fn traverse_panics_if_cycle_number_is_invalid() {
    let invalid_automata = Automaton::new(
        vec![AutomatonNode::new().set_cycle(1)],
        0,
        InitValue::SeedDigits,
    );
    invalid_automata.generate(123).expect("Invalid automaton definition!");
}

#[test]
fn invalid_cycle_is_an_error() {
    let nodes = vec![AutomatonNode::new().set_func(prepend("x")).set_cycle(1)];
    let automaton = Automaton::new(nodes, 0, InitValue::SeedDigits);
    assert_eq!(automaton.generate(123), Err(InvalidAutomaton::CycleTooDeep));
    assert_eq!(automaton.traverse(String::from("a"), 1), Err(InvalidAutomaton::CycleTooDeep));
}

#[test]
fn missing_entry_generates_nothing() {
    let automaton = test_automaton().select(5);
    assert_eq!(automaton.generate(1).unwrap(), String::new());
    assert_eq!(automaton.traverse(String::from("keep"), 1).unwrap(), String::from("keep"));
    assert_eq!(automaton.init_state(), None);
}

fn apply_once(t: Transform, input: &str) -> String {
    Automaton::new(vec![AutomatonNode::new().set_func(t)], 0, InitValue::SeedDigits)
        .traverse(String::from(input), 0)
        .unwrap()
}

#[test]
fn numeric_transformations_compute_exact_values() {
    assert_eq!(apply_once(Transform::Square, "12"), "144");
    assert_eq!(apply_once(Transform::Square, "4294967295"), "18446744073709551615");
    assert_eq!(apply_once(Transform::Double, "21"), "42");
    assert_eq!(apply_once(Transform::Double, "99999999999999999999999"), "18446744073709551615");
    assert_eq!(apply_once(Transform::Hex, "255"), "0xff");
    assert_eq!(apply_once(Transform::Octal, "8"), "010");
    assert_eq!(apply_once(Transform::BigSquare, "99999999999"), "9999999999800000000001");
    assert_eq!(apply_once(Transform::BigSquare, "007"), "49");
    assert_eq!(apply_once(Transform::Square, "-3"), "-3");
    assert_eq!(apply_once(Transform::Hex, "x"), "x");
}

#[test]
fn text_transformations_compute_exact_values() {
    assert_eq!(
        apply_once(Transform::IfEquals(chars_of("true"), chars_of("false"), chars_of("true")), "true"),
        "false"
    );
    assert_eq!(apply_once(Transform::Wrap(chars_of("\""), chars_of("\"")), "true"), "\"true\"");
    assert_eq!(apply_once(Transform::ReplaceChar('"', chars_of("'")), "\"a\""), "'a'");
    assert_eq!(apply_once(Transform::ReplaceChar('.', chars_of(",")), "1.5"), "1,5");
    assert_eq!(apply_once(Transform::UpperCase, "null"), "NULL");
    assert_eq!(apply_once(Transform::Capitalize, "null"), "Null");
    assert_eq!(apply_once(Transform::DropLast, "  "), " ");
    assert_eq!(apply_once(Transform::Append(chars_of("1")), "9"), "91");
    assert_eq!(apply_once(Transform::Enlarge('[', ']'), "[]"), "[]");
}

#[test]
fn enlarged_collections_repeat_their_members() {
    let out = apply_once(Transform::Enlarge('[', ']'), "[1]");
    assert!(out.starts_with('[') && out.ends_with(", 1]"));
    // "[" + "1, " repeated k times + ", 1]": as many members as separators
    assert_eq!(out.matches('1').count(), out.matches(", ").count());
}
