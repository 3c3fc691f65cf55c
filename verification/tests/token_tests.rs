use natsort::token::{Token, decimal_digit_char, is_decimal_digit, tokenize};

#[test]
fn tokenizes_text_and_numbers() {
    let result = tokenize("file123test", false, false, false);

    assert_eq!(
        result,
        vec![
            Token::Text("file".to_string()),
            Token::Number("123".to_string()),
            Token::Text("test".to_string()),
        ]
    );
}

#[test]
fn preserves_very_large_numbers() {
    let result = tokenize("file999999999999999999999999", false, false, false);

    assert_eq!(
        result,
        vec![
            Token::Text("file".to_string()),
            Token::Number("999999999999999999999999".to_string()),
        ]
    );
}

#[test]
fn tokenizes_negative_numbers_when_signed_is_enabled() {
    let result = tokenize("value-123test", true, false, false);

    assert_eq!(
        result,
        vec![
            Token::Text("value".to_string()),
            Token::Number("-123".to_string()),
            Token::Text("test".to_string()),
        ]
    );
}

#[test]
fn tokenizes_positive_numbers_when_signed_is_enabled() {
    let result = tokenize("value+123test", true, false, false);

    assert_eq!(
        result,
        vec![
            Token::Text("value".to_string()),
            Token::Number("+123".to_string()),
            Token::Text("test".to_string()),
        ]
    );
}

#[test]
fn treats_sign_as_text_when_signed_is_disabled() {
    let result = tokenize("value-123", false, false, false);

    assert_eq!(
        result,
        vec![
            Token::Text("value-".to_string()),
            Token::Number("123".to_string()),
        ]
    );
}

#[test]
fn tokenizes_decimal_as_one_number_in_float_mode() {
    let result = tokenize("value1.25test", false, true, false);

    assert_eq!(
        result,
        vec![
            Token::Text("value".to_string()),
            Token::Number("1.25".to_string()),
            Token::Text("test".to_string()),
        ]
    );
}

#[test]
fn keeps_decimal_point_as_text_when_float_mode_is_disabled() {
    let result = tokenize("value1.25", false, false, false);

    assert_eq!(
        result,
        vec![
            Token::Text("value".to_string()),
            Token::Number("1".to_string()),
            Token::Text(".".to_string()),
            Token::Number("25".to_string()),
        ]
    );
}

#[test]
fn tokenizes_signed_decimal_number() {
    let result = tokenize("value-12.50", true, true, false);

    assert_eq!(
        result,
        vec![
            Token::Text("value".to_string()),
            Token::Number("-12.50".to_string()),
        ]
    );
}

#[test]
fn tokenizes_float_with_leading_decimal_point() {
    let result = tokenize("value.56test", false, true, false);

    assert_eq!(
        result,
        vec![
            Token::Text("value".to_string()),
            Token::Number(".56".to_string()),
            Token::Text("test".to_string()),
        ]
    );
}

#[test]
fn tokenizes_signed_float_with_leading_decimal_point() {
    let result = tokenize("value-.56test", true, true, false);

    assert_eq!(
        result,
        vec![
            Token::Text("value".to_string()),
            Token::Number("-.56".to_string()),
            Token::Text("test".to_string()),
        ]
    );
}

#[test]
fn tokenizes_float_with_trailing_decimal_point() {
    let result = tokenize("value12.test", false, true, false);

    assert_eq!(
        result,
        vec![
            Token::Text("value".to_string()),
            Token::Number("12.".to_string()),
            Token::Text("test".to_string()),
        ]
    );
}

#[test]
fn tokenizes_signed_float_with_trailing_decimal_point() {
    let result = tokenize("value-12.test", true, true, false);

    assert_eq!(
        result,
        vec![
            Token::Text("value".to_string()),
            Token::Number("-12.".to_string()),
            Token::Text("test".to_string()),
        ]
    );
}

#[test]
fn tokenizes_scientific_notation() {
    let result = tokenize("value1.25e3test", false, true, false);

    assert_eq!(
        result,
        vec![
            Token::Text("value".to_string()),
            Token::Number("1.25e3".to_string()),
            Token::Text("test".to_string()),
        ]
    );
}

#[test]
fn tokenizes_positive_exponent() {
    let result = tokenize("value2.5E+10", false, true, false);

    assert_eq!(
        result,
        vec![
            Token::Text("value".to_string()),
            Token::Number("2.5E+10".to_string()),
        ]
    );
}

#[test]
fn tokenizes_signed_number_with_negative_exponent() {
    let result = tokenize("value-4.2E-3", true, true, false);

    assert_eq!(
        result,
        vec![
            Token::Text("value".to_string()),
            Token::Number("-4.2E-3".to_string()),
        ]
    );
}

#[test]
fn leaves_invalid_exponent_as_text() {
    let result = tokenize("value1.5e-test", false, true, false);

    assert_eq!(
        result,
        vec![
            Token::Text("value".to_string()),
            Token::Number("1.5".to_string()),
            Token::Text("e-test".to_string()),
        ]
    );
}

#[test]
fn leaves_exponent_without_digits_as_text() {
    let result = tokenize("value10e", false, true, false);

    assert_eq!(
        result,
        vec![
            Token::Text("value".to_string()),
            Token::Number("10".to_string()),
            Token::Text("e".to_string()),
        ]
    );
}

#[test]
fn leaves_invalid_positive_exponent_as_text() {
    let result = tokenize("value1e+", false, true, false);

    assert_eq!(
        result,
        vec![
            Token::Text("value".to_string()),
            Token::Number("1".to_string()),
            Token::Text("e+".to_string()),
        ]
    );
}

#[test]
fn leaves_invalid_negative_exponent_as_text() {
    let result = tokenize("value1e-", false, true, false);

    assert_eq!(
        result,
        vec![
            Token::Text("value".to_string()),
            Token::Number("1".to_string()),
            Token::Text("e-".to_string()),
        ]
    );
}

#[test]
fn leaves_exponent_as_separate_tokens_when_no_exp_is_enabled() {
    let result = tokenize("value5.034e1", false, true, true);

    assert_eq!(
        result,
        vec![
            Token::Text("value".to_string()),
            Token::Number("5.034".to_string()),
            Token::Text("e".to_string()),
            Token::Number("1".to_string()),
        ]
    );
}

#[test]
fn normalizes_unicode_integer_digits() {
    let result = tokenize("file١٢٣", false, false, false);

    assert_eq!(
        result,
        vec![
            Token::Text("file".to_string()),
            Token::Number("123".to_string()),
        ]
    );
}

#[test]
fn normalizes_devanagari_digits() {
    let result = tokenize("file१२३", false, false, false);

    assert_eq!(
        result,
        vec![
            Token::Text("file".to_string()),
            Token::Number("123".to_string()),
        ]
    );
}

#[test]
fn normalizes_fullwidth_digits() {
    let result = tokenize("file１２３", false, false, false);

    assert_eq!(
        result,
        vec![
            Token::Text("file".to_string()),
            Token::Number("123".to_string()),
        ]
    );
}

#[test]
fn normalizes_unicode_decimal_digits() {
    let result = tokenize("value١.٥", false, true, false);

    assert_eq!(
        result,
        vec![
            Token::Text("value".to_string()),
            Token::Number("1.5".to_string()),
        ]
    );
}

#[test]
fn normalizes_unicode_exponent_digits() {
    let result = tokenize("value١.٥e٢", false, true, false);

    assert_eq!(
        result,
        vec![
            Token::Text("value".to_string()),
            Token::Number("1.5e2".to_string()),
        ]
    );
}

#[test]
fn normalizes_signed_unicode_numbers() {
    let result = tokenize("value-१२", true, false, false);

    assert_eq!(
        result,
        vec![
            Token::Text("value".to_string()),
            Token::Number("-12".to_string()),
        ]
    );
}

#[test]
fn ascii_letters_are_not_decimal_digits() {
    assert!(is_decimal_digit('7'));
    assert_eq!(decimal_digit_char('7'), '7');
    assert!(!is_decimal_digit('a'));
    assert!(!is_decimal_digit('Z'));
    assert!(!is_decimal_digit('.'));
    assert!(is_decimal_digit('\u{0663}'));
    assert_eq!(decimal_digit_char('\u{0663}'), '3');
}
