use talasum::randomization::{
    char_flip_case, random_capitalization, random_digit_string, to_capitalized, to_random_case,
    to_upper_case,
};

#[test]
fn mod_flip_case_for_lowercase_char() {
    assert_eq!(char_flip_case('a'), 'A')
}

#[test]
fn mod_flip_case_for_uppercase_char() {
    assert_eq!(char_flip_case('A'), 'a')
}

#[test]
fn mod_random_capitalization_is_deterministic() {
    let res1 = random_capitalization(123321, String::from("this is my test"));
    let res2 = random_capitalization(123321, String::from("this is my test"));
    assert_eq!(res1, res2);
}

#[test]
fn mod_random_capitalization_depends_on_seed() {
    let res1 = random_capitalization(123322, String::from("this is my test"));
    let res2 = random_capitalization(123321, String::from("this is my test"));
    assert_ne!(res1, res2);
}

#[test]
fn mod_random_capitalization_can_randomize_uppercase_string() {
    let res1 = random_capitalization(123322, String::from("THIS IS MY TEST"));
    assert_ne!(res1, String::from("THIS IS MY TEST"));
}

#[test]
fn digit_strings_are_numbers_below_the_bound() {
    for seed in [0u32, 1, 77, 123456] {
        let s = random_digit_string(seed);
        let n: u64 = s.parse().unwrap();
        assert!(n < 1 << 20);
        assert_eq!(s, random_digit_string(seed));
    }
}

#[test]
fn seedless_case_helpers() {
    assert_eq!(to_upper_case(String::from("abC1")), "ABC1");
    assert_eq!(to_capitalized(String::from("abc")), "Abc");
    assert_eq!(to_random_case(String::from("abc")).to_lowercase(), "abc");
}

#[test]
fn non_letters_keep_their_case() {
    assert_eq!(char_flip_case('1'), '1');
    assert_eq!(char_flip_case('ф'), 'ф');
}
