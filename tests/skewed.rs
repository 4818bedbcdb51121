use talasum::skewed::SkewedPRandomizer;

#[test]
fn skewed_prandom_generator_is_deterministic() {
    let mut gen1 = SkewedPRandomizer::new(123, Vec::new());
    let mut gen2 = SkewedPRandomizer::new(123, Vec::new());
    assert_eq!(gen1.get(), gen2.get());
}

#[test]
fn skewed_prandom_generator_is_seedable() {
    let mut gen1 = SkewedPRandomizer::new(123, Vec::new());
    let mut gen2 = SkewedPRandomizer::new(124, Vec::new());
    assert_ne!(gen1.get(), gen2.get());
}

#[test]
fn zero_is_valid_seed_for_skewed_prandom_generator() {
    let mut gen = SkewedPRandomizer::new(0, Vec::new());
    assert_ne!(gen.get(), 0);
}

#[test]
fn skewed_prandom_generator_generates_numbers_within_limits() {
    const MIN_LIMIT: u32 = 10_u32;
    const MAX_LIMIT: u32 = 20_u32;
    let mut gen = SkewedPRandomizer::new_limited(123, MIN_LIMIT, MAX_LIMIT, Vec::new());
    for _ in 0..11 {
        let generated = gen.get();
        assert!(generated >= MIN_LIMIT);
        assert!(generated < MAX_LIMIT);
    }
}

#[test]
fn skewed_prandom_generator_is_skewed() {
    let mut gen1 = SkewedPRandomizer::new_limited(123, 0, 1000, vec![100]);
    let mut gen2 = SkewedPRandomizer::new_limited(123, 0, 1000, Vec::new());
    let mut is_skewed = false;
    for _ in 0..100 {
        if gen1.get() != gen2.get() {
            is_skewed = true;
            break;
        }
    }
    assert!(is_skewed);
}

#[test]
fn show_output() {
    let mut gen1 = SkewedPRandomizer::new_limited(123, 0, 1000, vec![500]);
    let mut gen2 = SkewedPRandomizer::new_limited(123, 0, 1000, Vec::new());

    for i in 0..100 {
        println!("{}: {}, {}", i, gen1.get(), gen2.get());
    }
}

#[test]
fn closest_peek_is_found_among_sorted_peeks() {
    let gen = SkewedPRandomizer::new(1, vec![1000, 1, 50]);
    assert_eq!(gen.find_closest_peek(0), Some(1));
    assert_eq!(gen.find_closest_peek(40), Some(50));
    assert_eq!(gen.find_closest_peek(900), Some(1000));
    assert_eq!(SkewedPRandomizer::new(1, Vec::new()).find_closest_peek(5), None);
    assert_eq!(SkewedPRandomizer::abs_subtract(3, 10), 7);
    assert_eq!(SkewedPRandomizer::abs_subtract(10, 3), 7);
}

#[test]
fn skewed_draws_stay_near_peeks_more_often() {
    let mut skewed = SkewedPRandomizer::new_limited(5, 0, 1000, vec![0]);
    let mut plain = SkewedPRandomizer::new_limited(5, 0, 1000, Vec::new());
    let (mut near_skewed, mut near_plain) = (0, 0);
    for _ in 0..500 {
        if skewed.get() < 250 {
            near_skewed += 1;
        }
        if plain.get() < 250 {
            near_plain += 1;
        }
    }
    assert!(near_skewed > near_plain);
}
