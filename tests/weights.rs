use talasum::configuration::Config;
use talasum::weights::{choose_transition, TransitionChoice, WeightedTransition};

const TEST_NODE1: usize = 1;
const TEST_NODE2: usize = 2;

fn recalculate_helper(weights: Vec<u32>, v_coef: u32) -> Vec<u64> {
    TransitionChoice::new(weights.iter().map(|w| (*w, None)).collect(), v_coef).thresholds()
}

fn choose_helper(input: Vec<WeightedTransition>, seed: u64) -> usize {
    // choose with v-randomness set at max
    TransitionChoice::new(input, 100).into_transition().next(seed).unwrap()
}

#[test]
fn recalculation_for_empty_input_yields_none() {
    assert_eq!(recalculate_helper([].to_vec(), 0).len(), 0);
    assert_eq!(recalculate_helper([].to_vec(), 50).len(), 0);
    assert_eq!(recalculate_helper([].to_vec(), 100).len(), 0);
}

#[test]
fn recalculation_for_single_transition() {
    for v_coef in [1, 50, 100] {
        assert_eq!(recalculate_helper([1].to_vec(), v_coef).len(), 1);
    }
}

#[test]
fn recalculation_with_min_v_randomness_preserves_fractions() {
    let new_weights = recalculate_helper(vec![1, 2, 3], 1);
    assert_eq!(new_weights.len(), 3);
    assert_eq!(new_weights[0] * 101, new_weights[1] - new_weights[0]);
    assert_eq!(new_weights[0] * 201, new_weights[2] - new_weights[1]);
}

#[test]
fn recalculation_with_max_v_randomness_preserves_fractions() {
    let new_weights = recalculate_helper(vec![1, 2, 3], 100);
    assert_eq!(new_weights.len(), 3);
    assert_eq!(new_weights[0] * 2, new_weights[1] - new_weights[0]);
    assert_eq!(new_weights[0] * 3, new_weights[2] - new_weights[1]);
}

#[test]
fn recalculation_with_equal_values_preserves_fractions() {
    for v_coef in [1, 50, 100] {
        let new_weights = recalculate_helper(vec![1, 1, 1], v_coef);
        assert_eq!(new_weights.len(), 3);
        assert_eq!(new_weights[0] * 2, new_weights[1]);
        assert_eq!(new_weights[0] * 3, new_weights[2]);
    }
}

#[test]
fn reverse_sorted_list_yields_same_result() {
    let reverse_sorted = recalculate_helper(vec![3, 2, 1], 50);
    let sorted = recalculate_helper(vec![1, 2, 3], 50);
    assert_eq!(reverse_sorted.len(), sorted.len());
    assert_eq!(reverse_sorted[0], sorted[0]);
    assert_eq!(reverse_sorted[1], sorted[1]);
    assert_eq!(reverse_sorted[2], sorted[2]);
}

#[test]
fn unsorted_list_yields_same_result() {
    let unsorted = recalculate_helper(vec![2, 3, 1], 50);
    let sorted = recalculate_helper(vec![1, 2, 3], 50);
    assert_eq!(unsorted.len(), sorted.len());
    assert_eq!(unsorted[0], sorted[0]);
    assert_eq!(unsorted[1], sorted[1]);
    assert_eq!(unsorted[2], sorted[2]);
}

#[test]
fn duplicate_elements_have_the_same_fraction() {
    for v_coef in [10, 50, 90] {
        let weights = recalculate_helper(vec![1, 2, 2, 3], v_coef);
        assert_eq!(weights.len(), 4);
        assert_eq!(weights[1] - weights[0], weights[2] - weights[1]);
        assert!(weights[1] - weights[0] > weights[0]);
        assert!(weights[3] - weights[2] > weights[2] - weights[1]);
    }
}

#[test]
fn increasing_v_coef_increases_randomness() {
    let high_randomness = recalculate_helper(vec![1, 2], 90);
    let low_randomness = recalculate_helper(vec![1, 2], 10);
    assert!(
        (low_randomness[1] - low_randomness[0]) / low_randomness[0]
            > (high_randomness[1] - high_randomness[0]) / high_randomness[0]
    );
}

#[test]
fn randomness_preserves_proportionality() {
    let small_proportion = recalculate_helper(vec![1, 2], 50);
    let big_proportion = recalculate_helper(vec![1, 100], 50);

    assert!(
        (small_proportion[1] - small_proportion[0]) / small_proportion[0]
            < (big_proportion[1] - big_proportion[0]) / big_proportion[0]
    );
}

#[test]
fn proper_values_after_recalculation() {
    let recalculated = TransitionChoice::new(
        vec![
            (1, Some(TEST_NODE1)),
            (2, Some(TEST_NODE2)),
            (3, Some(TEST_NODE1)),
            (4, Some(TEST_NODE2)),
        ],
        85,
    );
    let outcomes = recalculated.outcomes();
    assert_eq!(outcomes[0].unwrap(), outcomes[2].unwrap());
    assert_eq!(outcomes[1].unwrap(), outcomes[3].unwrap());
}

#[test]
fn choose_with_no_transitions() {
    for v_coef in [1, 50, 80, 100] {
        for seed in [0, 1, 1000, 12312] {
            assert!(TransitionChoice::new(vec![], v_coef).into_transition().next(seed).is_none());
        }
    }
}

#[test]
fn choose_with_0_seed() {
    for v_coef in [1, 50, 80, 100] {
        assert!(TransitionChoice::new(vec![(1, Some(TEST_NODE1))], v_coef)
            .into_transition()
            .next(0)
            .is_some());
    }
}

#[test]
fn choose_single_choice_regardless_seed() {
    // when there is only one option, it should
    // be chosen regardless the seed
    for seed in [0, 100, 2000] {
        assert_eq!(choose_helper(vec![(1, Some(TEST_NODE1))], seed), TEST_NODE1);
    }
}

#[test]
fn choose_correctly_from_multiple_options_based_on_seed() {
    for seed in [0, 1, 99, 100, 301] {
        assert_eq!(
            choose_helper(vec![(1, Some(TEST_NODE1)), (2, Some(TEST_NODE2))], seed),
            TEST_NODE1
        );
    }

    for seed in [101, 299, 401, 599] {
        assert_eq!(
            choose_helper(vec![(1, Some(TEST_NODE1)), (2, Some(TEST_NODE2))], seed),
            TEST_NODE2
        );
    }
}

#[test]
fn choose_macro_expands_correctly() {
    let next = choose_transition(vec![(1, Some(TEST_NODE1))], &Config::new()).next(1234);
    assert_eq!(next, Some(TEST_NODE1));
}

#[test]
fn full_skew_thresholds_are_proportional_to_weights() {
    let t = recalculate_helper(vec![1, 2, 3], 100);
    assert_eq!(t, vec![100, 300, 600]);
    let k = t[0];
    assert_eq!(t[1] - t[0], 2 * k);
    assert_eq!(t[2] - t[1], 3 * k);
}

#[test]
fn lower_skew_raises_the_second_share() {
    let mut previous: Option<(u64, u64)> = None;
    for skew in [100, 75, 50, 25, 10, 1] {
        let t = recalculate_helper(vec![1, 2], skew);
        let (share1, share2) = (t[0], t[1] - t[0]);
        assert_eq!(share1, skew as u64);
        assert_eq!(share2, 2 * skew as u64 + (100 - skew as u64));
        if let Some((p1, p2)) = previous {
            // share2 / share1 grows as the skew goes down
            assert!(share2 * p1 > p2 * share1);
        }
        previous = Some((share1, share2));
    }
}

#[test]
fn permuted_edges_build_the_same_table() {
    let a = vec![(3, Some(7)), (1, None), (2, Some(4)), (2, Some(1))];
    let b = vec![(2, Some(1)), (2, Some(4)), (1, None), (3, Some(7))];
    let ta = TransitionChoice::new(a, 40);
    let tb = TransitionChoice::new(b, 40);
    assert_eq!(ta.thresholds(), tb.thresholds());
    assert_eq!(ta.outcomes(), tb.outcomes());
    for seed in [0u64, 1, 17, 99, 1000, u64::MAX] {
        assert_eq!(ta.choice_func(seed), tb.choice_func(seed));
    }
}

#[test]
fn draws_are_reduced_modulo_the_last_threshold() {
    let t = TransitionChoice::new(vec![(1, Some(1)), (2, Some(2))], 100);
    assert_eq!(t.thresholds(), vec![100, 300]);
    // 2^32 mod 300 = 196, above the first threshold
    assert_eq!(t.choice_func(1u64 << 32), Some(2));
}

#[test]
fn zero_weights_pick_the_first_edge() {
    let t = TransitionChoice::new(vec![(0, Some(3)), (0, Some(5))], 50);
    assert_eq!(t.thresholds(), vec![0, 0]);
    assert_eq!(t.choice_func(12345), Some(3));
}
