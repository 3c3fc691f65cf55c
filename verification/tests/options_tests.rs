use natsort::{AlgorithmFlags, LocaleProfile, SortOptions};

#[test]
fn builds_options_from_python_flags() {
    let algorithm = AlgorithmFlags::REAL
        | AlgorithmFlags::PATH
        | AlgorithmFlags::LOCALE
        | AlgorithmFlags::IGNORECASE
        | AlgorithmFlags::LOWERCASEFIRST
        | AlgorithmFlags::GROUPLETTERS
        | AlgorithmFlags::UNGROUPLETTERS
        | AlgorithmFlags::NANLAST
        | AlgorithmFlags::COMPATIBILITYNORMALIZE
        | AlgorithmFlags::NUMAFTER
        | AlgorithmFlags::PRESORT;

    let options = SortOptions::from_algorithm(algorithm);

    assert!(options.float);
    assert!(options.signed);
    assert!(!options.no_exp);
    assert!(options.path);
    assert!(options.locale_alpha);
    assert!(options.locale_numeric);
    assert!(options.ignore_case);
    assert!(options.lowercase_first);
    assert!(options.group_letters);
    assert!(options.capital_first);
    assert!(options.nan_last);
    assert!(options.compatibility_normalize);
    assert!(options.num_after);
    assert!(options.presort);
    assert!(!options.reverse);
}

#[test]
fn round_trips_all_known_algorithm_bits() {
    let algorithm = AlgorithmFlags::from_bits(AlgorithmFlags::KNOWN_MASK);

    assert_eq!(
        SortOptions::from_algorithm(algorithm).algorithm(),
        algorithm
    );
}

#[test]
fn ignores_unknown_algorithm_bits() {
    let algorithm = AlgorithmFlags::from_bits(AlgorithmFlags::KNOWN_MASK | (1_i64 << 40));

    assert_eq!(
        SortOptions::from_algorithm(algorithm).algorithm().bits(),
        AlgorithmFlags::KNOWN_MASK
    );
}

#[test]
fn maps_real_and_locale_aliases() {
    let options = SortOptions::from_algorithm(AlgorithmFlags::REAL | AlgorithmFlags::LOCALE);

    assert!(options.float);
    assert!(options.signed);
    assert!(options.locale_alpha);
    assert!(options.locale_numeric);
    assert_eq!(
        options.algorithm(),
        AlgorithmFlags::REAL | AlgorithmFlags::LOCALE
    );
}

#[test]
fn raw_negative_bits_enable_every_known_option() {
    assert_eq!(
        SortOptions::from_algorithm_bits(-1).algorithm().bits(),
        AlgorithmFlags::KNOWN_MASK
    );
}

#[test]
fn reverse_and_locale_profile_are_not_algorithm_flags() {
    let options = SortOptions::new()
        .reverse(true)
        .locale_profile(LocaleProfile::GermanGermany);

    assert_eq!(options.algorithm(), AlgorithmFlags::DEFAULT);
}
