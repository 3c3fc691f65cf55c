use natsort::{AlgorithmFlags, NumericRegexKind, numeric_regex_chooser, numeric_regex_chooser_from_bits};

fn character_class(pattern: &str) -> &str {
    pattern
        .split_once("|[")
        .and_then(|(_, suffix)| suffix.strip_suffix(']'))
        .expect("numeric regex must end in one character class")
}

#[test]
fn exposes_python_flag_values() {
    assert_eq!(AlgorithmFlags::DEFAULT.bits(), 0);
    assert_eq!(AlgorithmFlags::FLOAT.bits(), 1);
    assert_eq!(AlgorithmFlags::SIGNED.bits(), 2);
    assert_eq!(AlgorithmFlags::NOEXP.bits(), 4);
    assert_eq!(AlgorithmFlags::PATH.bits(), 8);
    assert_eq!(AlgorithmFlags::LOCALEALPHA.bits(), 16);
    assert_eq!(AlgorithmFlags::LOCALENUM.bits(), 32);
    assert_eq!(AlgorithmFlags::LOCALE.bits(), 48);
    assert_eq!(AlgorithmFlags::IGNORECASE.bits(), 64);
    assert_eq!(AlgorithmFlags::LOWERCASEFIRST.bits(), 128);
    assert_eq!(AlgorithmFlags::GROUPLETTERS.bits(), 256);
    assert_eq!(AlgorithmFlags::UNGROUPLETTERS.bits(), 512);
    assert_eq!(AlgorithmFlags::NANLAST.bits(), 1024);
    assert_eq!(AlgorithmFlags::COMPATIBILITYNORMALIZE.bits(), 2048);
    assert_eq!(AlgorithmFlags::NUMAFTER.bits(), 4096);
    assert_eq!(AlgorithmFlags::PRESORT.bits(), 8192);
    assert_eq!(AlgorithmFlags::REAL.bits(), 3);
}

#[test]
fn exposes_python_aliases() {
    assert_eq!(AlgorithmFlags::DEFAULT, AlgorithmFlags::INT);
    assert_eq!(AlgorithmFlags::INT, AlgorithmFlags::UNSIGNED);
    assert_eq!(
        AlgorithmFlags::REAL,
        AlgorithmFlags::FLOAT | AlgorithmFlags::SIGNED
    );
    assert_eq!(
        AlgorithmFlags::LOCALE,
        AlgorithmFlags::LOCALEALPHA | AlgorithmFlags::LOCALENUM
    );
    assert_eq!(AlgorithmFlags::CAPITALFIRST, AlgorithmFlags::UNGROUPLETTERS);
    assert_eq!(AlgorithmFlags::R, AlgorithmFlags::REAL);
    assert_eq!(AlgorithmFlags::L, AlgorithmFlags::LOCALE);
}

#[test]
fn chooses_unsigned_integer_pattern_by_default() {
    let pattern = numeric_regex_chooser(AlgorithmFlags::DEFAULT);

    assert!(pattern.starts_with(r"\d+|["));
    assert_eq!(character_class(&pattern).chars().count(), 128);
    assert!(character_class(&pattern).starts_with("²³¹፩፪"));
    assert!(character_class(&pattern).ends_with("🄆🄇🄈🄉🄊"));
}

#[test]
fn chooses_signed_integer_pattern() {
    assert!(numeric_regex_chooser(AlgorithmFlags::SIGNED).starts_with(r"[-+]?\d+|["));
}

#[test]
fn chooses_float_pattern_with_unicode_numeric_class() {
    let pattern = numeric_regex_chooser(AlgorithmFlags::FLOAT);

    assert!(pattern.starts_with(r"(?:\d+\.?\d*|\.\d+)(?:[eE][-+]?\d+)?|["));
    assert_eq!(character_class(&pattern).chars().count(), 1242);
    assert!(character_class(&pattern).starts_with("²³¹¼½¾"));
    assert!(character_class(&pattern).ends_with("𠬙𢎐𢦘𣬛𦉭廾"));
}

#[test]
fn chooses_all_six_numeric_families() {
    assert_eq!(
        NumericRegexKind::from_algorithm(AlgorithmFlags::DEFAULT),
        NumericRegexKind::UnsignedInteger
    );
    assert_eq!(
        NumericRegexKind::from_algorithm(AlgorithmFlags::SIGNED),
        NumericRegexKind::SignedInteger
    );
    assert_eq!(
        NumericRegexKind::from_algorithm(AlgorithmFlags::FLOAT),
        NumericRegexKind::UnsignedFloat
    );
    assert_eq!(
        NumericRegexKind::from_algorithm(AlgorithmFlags::REAL),
        NumericRegexKind::SignedFloat
    );
    assert_eq!(
        NumericRegexKind::from_algorithm(AlgorithmFlags::FLOAT | AlgorithmFlags::NOEXP),
        NumericRegexKind::UnsignedFloatNoExponent
    );
    assert_eq!(
        NumericRegexKind::from_algorithm(AlgorithmFlags::REAL | AlgorithmFlags::NOEXP),
        NumericRegexKind::SignedFloatNoExponent
    );
}

#[test]
fn ignores_non_numeric_flags_when_selecting_regex() {
    let modifiers = AlgorithmFlags::PATH
        | AlgorithmFlags::LOCALE
        | AlgorithmFlags::IGNORECASE
        | AlgorithmFlags::NUMAFTER
        | AlgorithmFlags::PRESORT;

    assert_eq!(
        numeric_regex_chooser(AlgorithmFlags::FLOAT | modifiers),
        numeric_regex_chooser(AlgorithmFlags::FLOAT)
    );
}

#[test]
fn accepts_arbitrary_raw_integer_flags_like_python() {
    assert_eq!(
        numeric_regex_chooser_from_bits(-1),
        numeric_regex_chooser(
            AlgorithmFlags::FLOAT | AlgorithmFlags::SIGNED | AlgorithmFlags::NOEXP
        )
    );
    assert_eq!(
        numeric_regex_chooser_from_bits(999_999_999),
        numeric_regex_chooser_from_bits(-1)
    );
}

#[test]
fn flags_order_by_their_bits() {
    assert!(AlgorithmFlags::FLOAT < AlgorithmFlags::SIGNED);
    assert!(AlgorithmFlags::PATH > AlgorithmFlags::SIGNED);
    assert!(AlgorithmFlags::DEFAULT <= AlgorithmFlags::INT);
    assert_eq!(
        AlgorithmFlags::from_bits(1).partial_cmp(&AlgorithmFlags::FLOAT),
        Some(std::cmp::Ordering::Equal),
    );
    assert!(AlgorithmFlags::from_bits(3) > AlgorithmFlags::SIGNED);
}
