use talasum::helper::{
    char_flip_case, get_control_char, get_surrogate, get_surrogate_pair, get_unicode_char,
    insert_random_char_from_range_in_string, insert_random_encoded_char_in_string,
    insert_string_in_string, pick_random_char, random_capitalization, random_position_in_string,
    replace_random_occurrence, to_capitalized, to_random_case, to_upper_case,
};

#[test]
fn helper_flip_case_for_lowercase_char() {
    assert_eq!(char_flip_case('a'), 'A')
}

#[test]
fn helper_flip_case_for_uppercase_char() {
    assert_eq!(char_flip_case('A'), 'a')
}

#[test]
fn helper_random_capitalization_is_deterministic() {
    let res1 = random_capitalization(123321, String::from("this is my test"));
    let res2 = random_capitalization(123321, String::from("this is my test"));
    assert_eq!(res1, res2);
}

#[test]
fn helper_random_capitalization_depends_on_seed() {
    let res1 = random_capitalization(123322, String::from("this is my test"));
    let res2 = random_capitalization(123321, String::from("this is my test"));
    assert_ne!(res1, res2);
}

#[test]
fn helper_random_capitalization_can_randomize_uppercase_string() {
    let res1 = random_capitalization(123322, String::from("THIS IS MY TEST"));
    assert_ne!(res1, String::from("THIS IS MY TEST"));
}

#[test]
fn capitalized_works() {
    assert_eq!(to_capitalized(0, String::from("word")), String::from("Word"));
}

#[test]
fn to_capitalized_does_not_depend_on_seed() {
    assert_eq!(to_capitalized(100, String::from("word")), to_capitalized(0, String::from("word")));
}

#[test]
fn to_upper_case_works() {
    assert_eq!(String::from("TEST"), to_upper_case(0, String::from("tesT")));
}

#[test]
fn to_upper_case_does_not_depend_on_seed() {
    assert_eq!(to_upper_case(100, String::from("tesT")), to_upper_case(0, String::from("tesT")));
}

#[test]
fn to_random_case_works() {
    let input = String::from("test");
    assert_ne!(input, to_random_case(0, input.clone()));
}

#[test]
fn to_random_case_does_not_depend_on_seed() {
    let input = String::from("test");
    assert_ne!(to_random_case(100, input.clone()), to_random_case(0, input.clone()));
}

#[test]
fn picking_position_in_empty_string_fails() {
    assert!(random_position_in_string(0, &String::new()).is_none());
}

#[test]
fn picking_position_among_ascii_chars_works() {
    assert_eq!(random_position_in_string(0, &String::from("asd")).unwrap(), 0);
}

#[test]
fn picking_position_among_2_byte_chars_works() {
    assert_eq!(random_position_in_string(1, &String::from("aфd")).unwrap(), 1);
    assert_eq!(random_position_in_string(2, &String::from("aфd")).unwrap(), 3);
}

#[test]
fn pick_character_for_large_number() {
    assert_eq!(get_unicode_char((1 << 20) as u64 + 97), 'a');
}

#[test]
fn avoid_surrogates_while_picking_character() {
    assert_eq!(
        get_unicode_char(0xD801),
        std::char::from_u32(0xD801 + 2048).expect("Not a valid surrogate char")
    );
}

#[test]
fn pick_get_char_returns_correct_value() {
    assert_eq!(get_unicode_char(97), 'a');
}

#[test]
fn surrogate_codepoint_is_properly_formatted() {
    assert_eq!(get_surrogate(0), "\\ud800");
}

#[test]
fn pick_surrogate_codepoint_from_larger_number() {
    assert_eq!(get_surrogate(1 << 20), "\\ud800");
}

#[test]
fn replace_single_occurrence_in_string() {
    assert_eq!(replace_random_occurrence(String::from("asf"), "a", "b", 1), "bsf");
}

#[test]
fn replace_non_first_occurrence_in_string() {
    assert_eq!(replace_random_occurrence(String::from("asfasd"), "a", "b", 2), "asfbsd");
}

#[test]
fn replace_occurrence_not_in_string() {
    assert_eq!(replace_random_occurrence(String::from("asf"), "c", "b", 1), "asf");
}

#[test]
fn occurrences_are_found_from_the_right_without_overlap() {
    // "    " holds "  " at 2 and at 0
    assert_eq!(replace_random_occurrence(String::from("    "), "  ", "\t", 0), "  \t");
    assert_eq!(replace_random_occurrence(String::from("    "), "  ", "\t", 1), "\t  ");
    assert_eq!(replace_random_occurrence(String::from("   "), "  ", "\t", 5), " \t");
}

#[test]
fn control_characters_are_escaped() {
    assert_eq!(get_control_char(0), "\\u0000");
    assert_eq!(get_control_char(31), "\\u001f");
    assert_eq!(get_control_char(32), "\\u00a0");
    assert_eq!(get_control_char(64 + 5), "\\u0005");
}

#[test]
fn surrogate_pairs_are_escaped() {
    assert_eq!(get_surrogate_pair(0), "\\ud800\\udc00");
    assert_eq!(get_surrogate_pair((3u64 << 32) + 7), "\\ud800\\udc03");
}

#[test]
fn strings_are_inserted_at_the_picked_position() {
    assert_eq!(insert_string_in_string(1, "abc", "XY"), "aXYbc");
    assert_eq!(insert_string_in_string(5, "abc", "XY"), "abXYc");
    assert_eq!(insert_string_in_string(5, "", "XY"), "XY");
    // positions are byte offsets moved forward to a character boundary
    assert_eq!(insert_string_in_string(2, "фa", "x"), "фxa");
    assert_eq!(insert_string_in_string(1, "фa", "x"), "фxa");
    assert_eq!(insert_string_in_string(3, "фa", "x"), "xфa");
}

#[test]
fn encoded_characters_are_inserted() {
    assert_eq!(insert_random_encoded_char_in_string(97, "xy"), "x\\u0061y");
}

#[test]
fn characters_are_picked_from_a_set() {
    assert_eq!(pick_random_char(4, "abc"), "b");
    assert_eq!(pick_random_char(4, ""), "");
    assert_eq!(insert_random_char_from_range_in_string(1, "zz", "[]"), "z]z");
}

#[test]
fn capitalizing_empty_text_keeps_it() {
    assert_eq!(to_capitalized(0, String::new()), "");
}
