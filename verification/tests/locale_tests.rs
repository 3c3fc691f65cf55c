use natsort::locale::{locale_sort_key, locale_sort_key_for, normalize_localized_numbers};
use natsort::{LocaleProfile, LocaleSymbols};

#[test]
fn parses_windows_english_india_identifier() {
    assert_eq!(
        LocaleProfile::from_identifier("English_India.1252"),
        LocaleProfile::EnglishIndia,
    );
}

#[test]
fn parses_windows_german_identifier() {
    assert_eq!(
        LocaleProfile::from_identifier("German_Germany.1252"),
        LocaleProfile::GermanGermany,
    );
}

#[test]
fn exposes_indian_numeric_symbols() {
    assert_eq!(
        LocaleProfile::EnglishIndia.symbols(),
        LocaleSymbols {
            decimal_point: '.',
            thousands_separator: ",",
            grouping: &[3, 2, 0],
        }
    );
}

#[test]
fn exposes_german_numeric_symbols() {
    assert_eq!(
        LocaleProfile::GermanGermany.symbols(),
        LocaleSymbols {
            decimal_point: ',',
            thousands_separator: ".",
            grouping: &[3, 0],
        }
    );
}

#[test]
fn strips_valid_english_grouping() {
    assert_eq!(
        normalize_localized_numbers(
            "12,543,642,642,534,980",
            LocaleProfile::EnglishUnitedStates,
            false,
        ),
        "12543642642534980",
    );
}

#[test]
fn matches_python_us_grouping_edge_case() {
    assert_eq!(
        normalize_localized_numbers(
            "12,543,642642.5345,34980",
            LocaleProfile::EnglishUnitedStates,
            true,
        ),
        "12543,642642.5345,34980",
    );
}

#[test]
fn matches_python_second_us_grouping_edge_case() {
    assert_eq!(
        normalize_localized_numbers(
            "12,59443,642,642.53,4534980",
            LocaleProfile::EnglishUnitedStates,
            true,
        ),
        "12,59443,642642.53,4534980",
    );
}

#[test]
fn normalizes_german_number() {
    assert_eq!(
        normalize_localized_numbers("1.234,50", LocaleProfile::GermanGermany, true,),
        "1234.50",
    );
}

#[test]
fn does_not_switch_decimal_without_float_mode() {
    assert_eq!(
        normalize_localized_numbers("1543,753", LocaleProfile::GermanGermany, false,),
        "1543,753",
    );
}

#[test]
fn switches_german_decimal_in_float_mode() {
    assert_eq!(
        normalize_localized_numbers("1543,753", LocaleProfile::GermanGermany, true,),
        "1543.753",
    );
}

#[test]
fn preserves_non_numeric_german_comma() {
    assert_eq!(
        normalize_localized_numbers("154s,t53", LocaleProfile::GermanGermany, true,),
        "154s,t53",
    );
}

#[test]
fn accepts_french_narrow_no_break_space() {
    assert_eq!(
        normalize_localized_numbers("1\u{202F}234,50", LocaleProfile::FrenchFrance, true,),
        "1234.50",
    );
}

#[test]
fn accepts_french_non_breaking_space_fallback() {
    assert_eq!(
        normalize_localized_numbers("1\u{00A0}234,50", LocaleProfile::FrenchFrance, true,),
        "1234.50",
    );
}

#[test]
fn c_locale_sort_keys_are_lexical() {
    assert!(
        locale_sort_key("aApPpPlLeE", LocaleProfile::C)
            < locale_sort_key("aapPpPlLeE", LocaleProfile::C)
    );
}

#[test]
fn english_locale_places_lowercase_before_uppercase() {
    assert!(
        locale_sort_key("apple", LocaleProfile::EnglishUnitedStates)
            < locale_sort_key("Apple", LocaleProfile::EnglishUnitedStates)
    );
}

#[test]
fn locale_num_after_separator_sorts_after_normal_text() {
    let separator = "\u{10FFFF}".repeat(20);

    assert!(
        locale_sort_key("~~~~~~", LocaleProfile::EnglishUnitedStates)
            < locale_sort_key(&separator, LocaleProfile::EnglishUnitedStates)
    );
}

#[test]
fn unparsable_identifiers_collate_as_english() {
    for text in ["apple", "Banana", "zebra10", "éclair"] {
        assert_eq!(
            locale_sort_key_for(text, "not a locale!"),
            locale_sort_key_for(text, "en-US"),
        );
    }
    assert!(locale_sort_key_for("apple", "not a locale!") < locale_sort_key_for("Banana", "not a locale!"));
}
