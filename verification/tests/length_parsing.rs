use passgen::error::GenError;
use passgen::generator::Generator;
use passgen::length::parse_length;

fn form_with_length(text: &str) -> Generator {
    let mut form = Generator::default();
    form.pwd_len = text.to_string();
    form.cursor_position = 0;
    form
}

#[test]
fn plain_numbers_are_read() {
    assert_eq!(parse_length("8"), Some(8));
    assert_eq!(parse_length("0"), Some(0));
    assert_eq!(parse_length("10000"), Some(10000));
    assert_eq!(parse_length("123456789"), Some(123456789));
}

#[test]
fn leading_zeros_do_not_count() {
    assert_eq!(parse_length("0008"), Some(8));
    assert_eq!(parse_length("000"), Some(0));
    assert_eq!(parse_length("00000000000000000042"), Some(42));
}

#[test]
fn one_plus_sign_may_lead() {
    assert_eq!(parse_length("+8"), Some(8));
    assert_eq!(parse_length("+0012"), Some(12));
    assert_eq!(parse_length("+"), None);
    assert_eq!(parse_length("++8"), None);
    assert_eq!(parse_length("8+"), None);
    assert_eq!(parse_length("+ 8"), None);
}

#[test]
fn empty_text_is_no_length() {
    assert_eq!(parse_length(""), None);
}

#[test]
fn other_characters_are_turned_down() {
    assert_eq!(parse_length("-5"), None);
    assert_eq!(parse_length("-0"), None);
    assert_eq!(parse_length(" 8"), None);
    assert_eq!(parse_length("8 "), None);
    assert_eq!(parse_length("1_000"), None);
    assert_eq!(parse_length("12a"), None);
    assert_eq!(parse_length("a12"), None);
    assert_eq!(parse_length("1.5"), None);
    assert_eq!(parse_length("0x10"), None);
    assert_eq!(parse_length("eight"), None);
    assert_eq!(parse_length("/"), None);
    assert_eq!(parse_length(":"), None);
}

#[test]
fn digits_of_other_scripts_are_turned_down() {
    assert_eq!(parse_length("١٢"), None);
    assert_eq!(parse_length("８"), None);
    assert_eq!(parse_length("1²"), None);
}

#[test]
fn the_value_must_fit_in_32_bits() {
    assert_eq!(parse_length("4294967295"), Some(4294967295));
    assert_eq!(parse_length("4294967296"), None);
    assert_eq!(parse_length("04294967295"), Some(4294967295));
    assert_eq!(parse_length("42949672950"), None);
    assert_eq!(parse_length("99999999999999999999999999"), None);
    assert_eq!(parse_length("4294967296x"), None);
}

#[test]
fn parsing_agrees_with_std() {
    let samples = [
        "", "+", "-", "0", "7", "+7", "-7", "007", "4294967295", "4294967296", "18446744073709551616",
        " 1", "1 ", "1e3", "١", "12345", "+-1", "--1", "1+", "00", "+00", "9999999999",
    ];
    for text in samples {
        assert_eq!(parse_length(text), text.parse::<u32>().ok(), "{:?}", text);
    }
}

#[test]
fn shortest_length_is_accepted() {
    let form = form_with_length("4");
    assert!(form.is_valid_user_input());
    assert_eq!(form.validate_length(), Ok(4));
}

#[test]
fn one_below_the_shortest_is_turned_down() {
    let form = form_with_length("3");
    assert!(!form.is_valid_user_input());
    assert_eq!(form.validate_length(), Err(GenError::InvalidLength));
}

#[test]
fn longest_length_is_accepted() {
    let form = form_with_length("10000");
    assert!(form.is_valid_user_input());
    assert_eq!(form.validate_length(), Ok(10000));
}

#[test]
fn one_above_the_longest_is_turned_down() {
    let form = form_with_length("10001");
    assert!(!form.is_valid_user_input());
    assert_eq!(form.validate_length(), Err(GenError::InvalidLength));
}

#[test]
fn text_that_is_no_number_is_turned_down() {
    for text in ["", "abc", "8a", "-8", " 8", "8.0"] {
        let form = form_with_length(text);
        assert!(!form.is_valid_user_input(), "{:?}", text);
        assert_eq!(form.validate_length(), Err(GenError::InvalidLength), "{:?}", text);
    }
}

#[test]
fn the_bounds_of_the_form_decide() {
    let mut form = form_with_length("2");
    assert!(!form.is_valid_user_input());
    form.min_pwd_len = 2;
    assert_eq!(form.validate_length(), Ok(2));
    form.max_pwd_len = 1;
    assert_eq!(form.validate_length(), Err(GenError::InvalidLength));
    let mut form = form_with_length("20000");
    form.max_pwd_len = 20000;
    assert_eq!(form.validate_length(), Ok(20000));
}

#[test]
fn default_length_is_eight() {
    let form = Generator::default();
    assert_eq!(form.validate_length(), Ok(8));
}
