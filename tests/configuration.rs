use talasum::configuration::{is_valid_value, Config, Configurable};

#[test]
fn default_configs_are_acquired_from_file() {
    let config = Config::new();
    assert_eq!(config.get_horizontal_randomness_coef(), 50);
    assert_eq!(config.get_vertical_randomness_coef(), 50);
}

#[test]
fn change_config_at_runtime() {
    let mut config = Config::new();
    config.set_horizontal_randomness_coef(53);
    config.set_vertical_randomness_coef(47);

    assert_eq!(config.get_horizontal_randomness_coef(), 53);
    assert_eq!(config.get_vertical_randomness_coef(), 47);
}

#[test]
fn max_h_randomness_does_not_cause_panic() {
    let mut config = Config::new();
    config.set_horizontal_randomness_coef(100);
    assert_eq!(config.get_horizontal_randomness_coef(), 100);
}

#[test]
fn max_v_randomness_does_not_cause_panic() {
    let mut config = Config::new();
    config.set_vertical_randomness_coef(100);
    assert_eq!(config.get_vertical_randomness_coef(), 100);
}

#[test]
fn min_h_randomness_does_not_cause_panic() {
    let mut config = Config::new();
    config.set_horizontal_randomness_coef(1);
    assert_eq!(config.get_horizontal_randomness_coef(), 1);
}

#[test]
fn min_v_randomness_does_not_cause_panic() {
    let mut config = Config::new();
    config.set_vertical_randomness_coef(1);
    assert_eq!(config.get_vertical_randomness_coef(), 1);
}

#[test]
fn coefficients_outside_one_to_hundred_are_invalid() {
    assert!(!is_valid_value(0));
    assert!(is_valid_value(1));
    assert!(is_valid_value(100));
    assert!(!is_valid_value(101));
}

#[test]
fn explicit_values_are_kept() {
    let config = Config::with_values(7, 9, vec![String::from("alpha"), String::from("beta")]);
    assert_eq!(config.get_vertical_randomness_coef(), 7);
    assert_eq!(config.get_horizontal_randomness_coef(), 9);
    assert_eq!(config.word_count(), 2);
    assert_eq!(config.common_word(1), "beta");
}
