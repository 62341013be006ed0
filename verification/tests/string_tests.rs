use ffi_rs::datatype::string::{
    can_be_c_w_string, create_c_w_string_from_units, string_to_c_w_string,
};

#[test]
fn wide_string_is_code_points_then_nul() {
    assert_eq!(string_to_c_w_string("ab".to_string()), vec![97, 98, 0]);
    assert_eq!(string_to_c_w_string(String::new()), vec![0]);
    assert_eq!(string_to_c_w_string("é😀".to_string()), vec![0xE9, 0x1F600, 0]);
}

#[test]
fn final_nul_is_the_terminator() {
    assert_eq!(string_to_c_w_string("a\0".to_string()), vec![97, 0]);
}

#[test]
fn inner_nul_is_refused() {
    assert!(can_be_c_w_string("abc"));
    assert!(can_be_c_w_string("abc\0"));
    assert!(can_be_c_w_string(""));
    assert!(!can_be_c_w_string("a\0b"));
    assert!(!can_be_c_w_string("\0\0"));
}

#[test]
fn wide_units_read_back_as_text() {
    assert_eq!(create_c_w_string_from_units(&[104, 105]), "hi");
    assert_eq!(create_c_w_string_from_units(&[0x1F600]), "😀");
    assert_eq!(create_c_w_string_from_units(&[]), "");
}

#[test]
fn invalid_wide_units_become_replacement_characters() {
    assert_eq!(create_c_w_string_from_units(&[104, 0xD800, 0x110000]), "h\u{FFFD}\u{FFFD}");
}

#[test]
fn wide_string_round_trip() {
    let text = "ffi-rs ✓";
    let units = string_to_c_w_string(text.to_string());
    assert_eq!(create_c_w_string_from_units(&units[..units.len() - 1]), text);
}
