use talasum::randomness::{PRandomizer, Randomizer};

#[test]
fn pseudo_random_generator_is_deterministic() {
    let mut gen1: PRandomizer = PRandomizer::new(123);
    let mut gen2: PRandomizer = PRandomizer::new(123);
    assert_eq!(gen1.get(), gen2.get());
}

#[test]
fn pseudo_random_generator_is_seedable() {
    let mut gen1: PRandomizer = PRandomizer::new(123);
    let mut gen2: PRandomizer = PRandomizer::new(124);
    assert_ne!(gen1.get(), gen2.get());
}

#[test]
fn zero_is_valid_seed_for_pseudo_random_generator() {
    let mut gen: PRandomizer = PRandomizer::new(0);
    assert_ne!(gen.get(), 0);
}

#[test]
fn generator_is_iterable() {
    let mut gen: PRandomizer = PRandomizer::new(0);
    assert_ne!(gen.get(), gen.get());
}

#[test]
fn prandomizer_prandom_generator_is_deterministic() {
    let mut gen1: PRandomizer = PRandomizer::new(123);
    let mut gen2: PRandomizer = PRandomizer::new(123);
    assert_eq!(gen1.get(), gen2.get());
}

#[test]
fn prandomizer_prandom_generator_is_seedable() {
    let mut gen1: PRandomizer = PRandomizer::new(123);
    let mut gen2: PRandomizer = PRandomizer::new(124);
    assert_ne!(gen1.get(), gen2.get());
}

#[test]
fn prandomizer_zero_is_valid_seed_for_prandom_generator() {
    let mut gen: PRandomizer = PRandomizer::new(0);
    assert_ne!(gen.get(), 0);
}

#[test]
fn prandomizer_prandom_generator_generates_numbers_within_limits() {
    const MIN_LIMIT: u64 = 10_u64;
    const MAX_LIMIT: u64 = 20_u64;
    let mut gen: PRandomizer = PRandomizer::new_limited(123, MIN_LIMIT, MAX_LIMIT);
    for _ in 0..11 {
        let generated = gen.get();
        assert!(generated >= MIN_LIMIT);
        assert!(generated < MAX_LIMIT);
    }
}

#[test]
fn draws_through_the_trait_follow_the_stream() {
    let mut direct = PRandomizer::new(9);
    let mut through: Box<dyn Randomizer> = Box::new(PRandomizer::new(9));
    for _ in 0..5 {
        assert_eq!(direct.get(), through.get());
    }
}
