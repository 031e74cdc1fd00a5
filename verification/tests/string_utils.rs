use component_store::utils::string_utils::{
    append_other, append_seperator, append_upper, is_upper_char, lower_case, lower_case_char,
    snake_case,
};

#[test]
fn test_snake_on_empty() {
    let original_string = "".to_string();
    assert_eq!(snake_case(&original_string), original_string);
}

#[test]
fn test_snake_on_single_upper() {
    let original_string = "A".to_string();
    let expected_string = "a".to_string();
    assert_eq!(snake_case(&original_string), expected_string);
}

#[test]
fn test_snake_on_single_lower() {
    let original_string = "a".to_string();
    assert_eq!(snake_case(&original_string), original_string);
}

#[test]
fn test_snake_on_single_upper_word() {
    let original_string = "Abc".to_string();
    let expected_string = "abc".to_string();
    assert_eq!(snake_case(&original_string), expected_string);
}

#[test]
fn test_snake_on_single_lower_word() {
    let original_string = "abc".to_string();
    assert_eq!(snake_case(&original_string), original_string);
}

#[test]
fn test_snake_on_multi_upper_word() {
    let original_string = "AbcDefGhi".to_string();
    let expected_string = "abc_def_ghi".to_string();
    assert_eq!(snake_case(&original_string), expected_string);
}

#[test]
fn test_snake_on_multi_upper_word_with_seperators() {
    let original_string = "Abc  Def_Ghi-jkl".to_string();
    let expected_string = "abc_def_ghi_jkl".to_string();
    assert_eq!(snake_case(&original_string), expected_string);
}

#[test]
fn test_snake_on_leading_space() {
    let original_string = "  _ Abc".to_string();
    let expected_string = "abc".to_string();
    assert_eq!(snake_case(&original_string), expected_string);
}

#[test]
fn test_snake_on_trailing_space() {
    let original_string = "bc d  ".to_string();
    let expected_string = "bc_d".to_string();
    assert_eq!(snake_case(&original_string), expected_string);
}

#[test]
fn test_snake_on_single_space() {
    assert_eq!(snake_case(&" ".to_string()), "".to_string());
}

#[test]
fn test_snake_on_single_underscore() {
    assert_eq!(snake_case(&"_".to_string()), "".to_string());
}

#[test]
fn test_snake_keeps_digits() {
    assert_eq!(snake_case(&"Vec3Part".to_string()), "vec3_part".to_string());
}

#[test]
fn test_snake_on_adjacent_upper_letters() {
    assert_eq!(snake_case(&"ABc".to_string()), "a_bc".to_string());
}

#[test]
fn test_snake_upper_after_separator_adds_no_second_underscore() {
    assert_eq!(snake_case(&"find_all_Colors".to_string()), "find_all_colors".to_string());
    assert_eq!(snake_case(&"remove_Color".to_string()), "remove_color".to_string());
}

#[test]
fn test_snake_strips_one_trailing_underscore_only() {
    assert_eq!(snake_case(&"a_".to_string()), "a".to_string());
    assert_eq!(snake_case(&"a - _".to_string()), "a".to_string());
}

#[test]
fn test_snake_copies_other_characters() {
    assert_eq!(snake_case(&"a.b".to_string()), "a.b".to_string());
    assert_eq!(snake_case(&"é".to_string()), "é".to_string());
}

#[test]
fn test_snake_is_idempotent_on_samples() {
    for text in ["", "A", "AbcDefGhi", "Abc  Def_Ghi-jkl", "  _ Abc", "bc d  ", "find_all_Entries"] {
        let once = snake_case(&text.to_string());
        assert_eq!(snake_case(&once), once);
    }
}

#[test]
fn test_append_upper_cases() {
    assert_eq!(append_upper("".to_string(), 'a'), "a".to_string());
    assert_eq!(append_upper("x_".to_string(), 'a'), "x_a".to_string());
    assert_eq!(append_upper("x".to_string(), 'a'), "x_a".to_string());
}

#[test]
fn test_append_seperator_cases() {
    assert_eq!(append_seperator("".to_string()), "".to_string());
    assert_eq!(append_seperator("x_".to_string()), "x_".to_string());
    assert_eq!(append_seperator("x".to_string()), "x_".to_string());
}

#[test]
fn test_append_other_pushes() {
    assert_eq!(append_other("".to_string(), 'q'), "q".to_string());
    assert_eq!(append_other("x_".to_string(), '_'), "x__".to_string());
}

#[test]
fn test_lower_case_char_cases() {
    assert_eq!(lower_case_char('A'), 'a');
    assert_eq!(lower_case_char('Z'), 'z');
    assert_eq!(lower_case_char('m'), 'm');
    assert_eq!(lower_case_char('@'), '@');
    assert_eq!(lower_case_char('['), '[');
    assert_eq!(lower_case_char('É'), 'É');
}

#[test]
fn test_is_upper_char_bounds() {
    assert!(is_upper_char('A'));
    assert!(is_upper_char('Z'));
    assert!(!is_upper_char('@'));
    assert!(!is_upper_char('['));
    assert!(!is_upper_char('a'));
}

#[test]
fn test_lower_case_text() {
    assert_eq!(lower_case(&"".to_string()), "".to_string());
    assert_eq!(lower_case(&"Abc Def_GHI-9".to_string()), "abc def_ghi-9".to_string());
}
