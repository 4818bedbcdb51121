use std::collections::BTreeMap;
use talasum::configuration::{Config, Configurable};
use talasum::json;
use talasum::mutator::{MutationError, Mutator};

fn get_mutator_helper(seed: u64, input: &str) -> Mutator {
    json::mutate_with(input, seed, Config::new()).unwrap()
}

fn get_mocked_mutator_helper(seed: u64, input: &str, h_coef: u32) -> Mutator {
    let mut config = Config::new();
    config.set_horizontal_randomness_coef(h_coef);
    json::mutate_with(input, seed, config).unwrap()
}

#[test]
fn empty_input_cannot_be_mutated() {
    assert_eq!(get_mutator_helper(1, "").next().unwrap(), None);
}

#[test]
fn mutators_require_valid_input() {
    assert!(json::mutate_with("(", 1, Config::new()).is_none());
}

#[test]
fn mutation_is_reproducible() {
    let mut first = get_mutator_helper(1, "123");
    let mut sec = get_mutator_helper(1, "123");
    assert_eq!(first.next().unwrap().unwrap(), sec.next().unwrap().unwrap());
}

#[test]
fn mutation_is_seedable() {
    let mut first = get_mutator_helper(1, "1");
    let mut sec = get_mutator_helper(2, "123");
    assert_ne!(first.next().unwrap().unwrap(), sec.next().unwrap().unwrap());
}

#[test]
fn mutation_produces_different_result_each_time() {
    let mut first = get_mutator_helper(1, "123");

    // search for a change in output in the first few values
    let mut different = false;
    for _ in 1..3 {
        if first.next().unwrap().unwrap() != first.next().unwrap().unwrap() {
            different = true;
            break;
        }
    }
    assert!(different);
}

#[test]
fn get_moved_index_with_no_offset_table() {
    assert_eq!(Mutator::get_moved_index(&BTreeMap::<usize, i64>::new(), 1234), 1234);
    assert_eq!(Mutator::get_moved_index(&BTreeMap::<usize, i64>::new(), 0), 0);
    assert_eq!(Mutator::get_moved_index(&BTreeMap::<usize, i64>::new(), 1), 1);
}

#[test]
fn get_moved_index_with_positive_offsets() {
    let mut offsets = BTreeMap::<usize, i64>::new();
    offsets.insert(4, 5);
    assert_eq!(Mutator::get_moved_index(&offsets, 5), 10);
}

#[test]
fn moved_positions_are_not_inclusive() {
    let mut offsets = BTreeMap::<usize, i64>::new();
    offsets.insert(5, 5);
    assert_ne!(Mutator::get_moved_index(&offsets, 5), 10);
}

#[test]
fn get_moved_index_with_negative_offsets() {
    let mut offsets = BTreeMap::<usize, i64>::new();
    offsets.insert(4, -2);
    assert_eq!(Mutator::get_moved_index(&offsets, 5), 3);
}

#[test]
fn get_moved_index_after_multiple_moves() {
    let mut offsets = BTreeMap::<usize, i64>::new();
    offsets.insert(4, 5);
    offsets.insert(5, 7);
    offsets.insert(7, -2);
    assert_eq!(Mutator::get_moved_index(&offsets, 8), 18);
}

#[test]
fn move_index_when_offset_table_is_empty() {
    let mut offsets = BTreeMap::<usize, i64>::new();
    Mutator::move_index(&mut offsets, 2, 3);
    assert!(offsets.contains_key(&2));
    assert_eq!(offsets.get(&2).unwrap(), &3);
}

#[test]
fn move_same_position_repeatedly() {
    let mut offsets = BTreeMap::<usize, i64>::new();
    Mutator::move_index(&mut offsets, 2, 3);
    Mutator::move_index(&mut offsets, 2, 5);
    Mutator::move_index(&mut offsets, 2, -2);
    assert!(offsets.contains_key(&2));
    assert_eq!(offsets.get(&2).unwrap(), &6);
}

#[test]
fn position_moves_get_summed_up() {
    let mut offsets = BTreeMap::<usize, i64>::new();
    Mutator::move_index(&mut offsets, 3, 2);
    Mutator::move_index(&mut offsets, 5, 2);
    assert_eq!(Mutator::get_moved_index(&offsets, 4), 6);
    assert_eq!(Mutator::get_moved_index(&offsets, 5), 7); // moves are not inclusive
    assert_eq!(Mutator::get_moved_index(&offsets, 6), 10);
}

#[test]
fn automata_not_filtered_upon_max_quota_with_single_automaton() {
    let mutator = get_mutator_helper(123, "1234");
    assert_eq!(mutator.choose_for_mutation(0).len(), 1);
    assert_eq!(mutator.choose_for_mutation(1).len(), 1);
    assert_eq!(mutator.choose_for_mutation(2).len(), 1);
}

#[test]
fn nothing_to_choose_for_mutation_when_input_is_empty() {
    let mutator = get_mutator_helper(123, "");
    assert_eq!(mutator.choose_for_mutation(0).len(), 0);
}

#[test]
fn automata_are_chosen_in_asc_order() {
    let mutator = get_mutator_helper(123, "1234");
    let chosen = mutator.choose_for_mutation(100);
    assert!(chosen.len() > 0);
    for el_idx in 1..chosen.len() {
        assert!(chosen.get(&el_idx).unwrap() > chosen.get(&(el_idx - 1)).unwrap());
    }
}

#[test]
fn automata_not_filtered_upon_max_quota_with_multiple_automata() {
    assert_eq!(get_mocked_mutator_helper(123, "[1,2,3]", 100).choose_for_mutation(0).len(), 4);
}

#[test]
fn there_is_always_at_least_one_token_to_be_fuzzed() {
    assert_eq!(get_mocked_mutator_helper(123, "[1,2,3]", 1).get_tokens_count(), 1);
}

#[test]
fn number_of_fuzzed_tokens_is_proportional_to_h_coef() {
    for (cnt, coef) in vec![(1, 20_u32), (2, 40_u32), (3, 60_u32), (4, 80_u32), (5, 100_u32)] {
        assert_eq!(get_mocked_mutator_helper(123, "[1,2,3,4]", coef).get_tokens_count(), cnt);
    }
}

#[test]
fn mutating_different_inputs_produces_different_result() {
    let mut first = get_mutator_helper(1, "123");
    let mut sec = get_mutator_helper(1, "null");
    assert_ne!(first.next().unwrap().unwrap(), sec.next().unwrap().unwrap());
}

#[test]
fn chosen_tokens_wrap_around_from_the_seed() {
    // 4 tokens at h = 50: two tokens, starting at seed % 4
    let mutator = get_mocked_mutator_helper(7, "[1,2,3]", 50);
    let chosen: Vec<usize> = mutator.choose_for_mutation(3).into_iter().collect();
    assert_eq!(chosen, vec![0, 3]);
    let chosen: Vec<usize> = mutator.choose_for_mutation(5).into_iter().collect();
    assert_eq!(chosen, vec![1, 2]);
}

#[test]
fn full_coefficient_mutates_every_token_of_an_array() {
    let mut mutator = get_mocked_mutator_helper(99, "[1,2,3]", 100);
    assert_eq!(mutator.get_tokens_count(), 4);
    let mut seen_change = false;
    for _ in 0..5 {
        let out = mutator.next().unwrap().unwrap();
        if out != "[1,2,3]" {
            seen_change = true;
        }
    }
    assert!(seen_change);
}

#[test]
fn empty_input_yields_nothing_for_any_seed() {
    for seed in [0u64, 1, 2, 1000, u64::MAX] {
        let mut mutator = json::mutate("", seed).unwrap();
        assert_eq!(mutator.next(), Ok(None));
        assert_eq!(mutator.next(), Ok(None));
    }
}

#[test]
#[should_panic]
fn panic_when_fuzzing_token_with_invalid_idx() {
    get_mutator_helper(123, "[1,2,3]")
        .fuzz_token(123, 10000, &mut BTreeMap::<usize, i64>::new(), &mut Vec::new())
        .unwrap();
}

#[test]
fn span_outside_the_text_is_an_error() {
    let mutator = get_mutator_helper(123, "[1,2,3]");
    let mut offsets = BTreeMap::<usize, i64>::new();
    let mut result: Vec<char> = "[1".chars().collect();
    // token 3 is the whole array, 0..7, longer than the text
    assert_eq!(
        mutator.fuzz_token(123, 3, &mut offsets, &mut result),
        Err(MutationError::SpanOutsideText)
    );
    assert!(offsets.is_empty());
    assert_eq!(result, vec!['[', '1']);
}

#[test]
fn fuzz_token_records_the_length_change() {
    let mutator = get_mutator_helper(5, "[1,2,3]");
    let mut offsets = BTreeMap::<usize, i64>::new();
    let mut result: Vec<char> = "[1,2,3]".chars().collect();
    // token 0 is the last number, at 5..6
    mutator.fuzz_token(11, 0, &mut offsets, &mut result).unwrap();
    let delta = result.len() as i64 - 7;
    assert_eq!(offsets.get(&6).copied().unwrap_or(0), delta);
    assert_eq!(result[..5], ['[', '1', ',', '2', ',']);
    assert_eq!(result[result.len() - 1], ']');
}
