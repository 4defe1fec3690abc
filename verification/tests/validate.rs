use briefcase::validate::is_valid_entry;

#[test]
fn single_letter_is_valid() {
    assert!(is_valid_entry("a"));
}

#[test]
fn letters_digits_and_underscores_are_valid() {
    assert!(is_valid_entry("A1_b"));
    assert!(is_valid_entry("zZ09__"));
}

#[test]
fn leading_digit_is_invalid() {
    assert!(!is_valid_entry("1abc"));
    assert!(!is_valid_entry("2bad"));
}

#[test]
fn empty_name_is_invalid() {
    assert!(!is_valid_entry(""));
}

#[test]
fn hyphen_is_invalid() {
    assert!(!is_valid_entry("a-b"));
}

#[test]
fn leading_underscore_is_invalid() {
    assert!(!is_valid_entry("_a"));
}

#[test]
fn trailing_newline_is_invalid() {
    assert!(!is_valid_entry("abc\n"));
}

#[test]
fn name_inside_other_text_is_invalid() {
    assert!(!is_valid_entry(" abc"));
    assert!(!is_valid_entry("abc def"));
    assert!(!is_valid_entry("a/b"));
}

#[test]
fn non_ascii_letters_are_invalid() {
    assert!(!is_valid_entry("é"));
    assert!(!is_valid_entry("aé"));
}
