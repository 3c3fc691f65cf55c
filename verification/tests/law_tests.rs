use std::cmp::Ordering;
use std::path::{Path, PathBuf};

use natsort::number::compare_numeric_strings;
use natsort::{
    LocaleProfile, OsSortOptions, OsSortProfile, SortOptions, decode_latin1_bytes,
    decode_utf8_bytes, index_natsorted, index_natsorted_with_options, natsorted,
    natsorted_with_options, order_by_index, os_sort_key_with_options,
};
use natsort::locale::normalize_localized_numbers;
use natsort::path::path_components;
use natsort::{decode_ascii_bytes, python_decode_bytes};

const SAMPLES: [&str; 10] = [
    "item10", "Item2", "item2", "item-3.5", "", "a1b2", "a01b2", "x1e3", "10", "item2",
];

#[test]
fn sorting_twice_changes_nothing() {
    for options in [
        SortOptions::new(),
        SortOptions::new().float(true).signed(true),
        SortOptions::new().ignore_case(true),
        SortOptions::new().path(true),
    ] {
        let once = natsorted_with_options(&SAMPLES, options);
        let twice = natsorted_with_options(&once, options);
        assert_eq!(once, twice);
    }
}

#[test]
fn reverse_sorting_reverses_distinct_items() {
    let items = ["b3", "a10", "a2", "c1"];
    let forward = natsorted(&items);
    let mut backward = natsorted_with_options(&items, SortOptions::new().reverse(true));
    backward.reverse();
    assert_eq!(forward, backward);
}

#[test]
fn equal_keys_keep_their_order() {
    let items = ["a01", "b", "a1", "a001"];
    assert_eq!(natsorted(&items), vec!["a01", "a1", "a001", "b"]);
    let reversed = natsorted_with_options(&items, SortOptions::new().reverse(true));
    assert_eq!(reversed, vec!["b", "a01", "a1", "a001"]);
}

#[test]
fn ordering_by_sorted_indexes_is_sorting() {
    for options in [SortOptions::new(), SortOptions::new().float(true).signed(true)] {
        let indexes = index_natsorted_with_options(&SAMPLES, options);
        assert_eq!(order_by_index(&SAMPLES, &indexes), natsorted_with_options(&SAMPLES, options));
    }
    let indexes = index_natsorted(&SAMPLES);
    assert_eq!(order_by_index(&SAMPLES, &indexes), natsorted(&SAMPLES));
}

#[test]
fn utf8_decoding_gives_encoded_text_back() {
    for text in ["", "plain", "café", "日本語", "🦀 crab", "\u{0}\u{7f}\u{80}\u{10ffff}"] {
        assert_eq!(decode_utf8_bytes(text.as_bytes()), Ok(text.to_string()));
    }
}

#[test]
fn latin1_decoding_keeps_every_byte() {
    let bytes: Vec<u8> = (0..=255).collect();
    let text = decode_latin1_bytes(&bytes);
    let codes: Vec<u32> = text.chars().map(u32::from).collect();
    let expected: Vec<u32> = bytes.iter().map(|byte| u32::from(*byte)).collect();
    assert_eq!(codes, expected);
}

#[test]
fn profile_identifiers_name_their_profiles() {
    for profile in [
        LocaleProfile::C,
        LocaleProfile::EnglishIndia,
        LocaleProfile::EnglishUnitedStates,
        LocaleProfile::GermanGermany,
        LocaleProfile::FrenchFrance,
    ] {
        assert_eq!(LocaleProfile::from_identifier(&profile.identifier()), profile);
    }
}

#[test]
fn numbers_without_group_separators_are_left_alone() {
    for text in ["a1.5b", "x 42.0 y", "1.2.3", "no digits"] {
        assert_eq!(
            normalize_localized_numbers(text, LocaleProfile::EnglishUnitedStates, true),
            text
        );
        assert_eq!(normalize_localized_numbers(text, LocaleProfile::C, false), text);
    }
}

#[test]
fn number_comparison_is_antisymmetric_and_transitive() {
    let numbers = ["-1e3", "-2.5", "-0", "0", "0.05", "1", "1.0", "10", "2e1", "1e-2"];
    for a in numbers {
        for b in numbers {
            assert_eq!(compare_numeric_strings(a, b), compare_numeric_strings(b, a).reverse());
            for c in numbers {
                if compare_numeric_strings(a, b) != Ordering::Greater
                    && compare_numeric_strings(b, c) != Ordering::Greater
                {
                    assert_ne!(compare_numeric_strings(a, c), Ordering::Greater);
                }
            }
        }
    }
    assert_eq!(compare_numeric_strings("0", "0.05"), Ordering::Less);
    assert_eq!(compare_numeric_strings("-0", "0"), Ordering::Equal);
}

#[test]
fn file_browser_key_comparison_is_antisymmetric() {
    for profile in [OsSortProfile::Unix, OsSortProfile::Windows] {
        let options = OsSortOptions::new().profile(profile);
        let keys: Vec<_> = ["a.txt", "a-b", "a10", "A2", "~x", "a_b", "1"]
            .iter()
            .map(|text| os_sort_key_with_options(*text, options))
            .collect();
        for a in &keys {
            for b in &keys {
                assert_eq!(a.compare(b), -b.compare(a));
            }
        }
    }
}

#[test]
fn path_sorting_sorts_the_paths_texts() {
    let paths = vec![
        PathBuf::from("folder/file10.txt"),
        PathBuf::from("folder/file2.txt"),
        PathBuf::from("a/b1"),
        PathBuf::from("folder/file1.txt"),
    ];
    let texts: Vec<String> = paths.iter().map(|p| p.to_string_lossy().into_owned()).collect();
    for options in [SortOptions::new(), SortOptions::new().reverse(true)] {
        let expected = index_natsorted_with_options(&texts, options.path(true));
        assert_eq!(natsort::index_natsorted_paths_with_options(&paths, options), expected);
        assert_eq!(
            natsort::index_natsorted_paths_with_options(&paths, options.path(true)),
            expected
        );
        let borrowed: Vec<&Path> = paths.iter().map(PathBuf::as_path).collect();
        assert_eq!(natsort::index_natsorted_paths_with_options(&borrowed, options), expected);
        assert_eq!(
            natsort::natsorted_paths_with_options(&paths, options),
            order_by_index(&paths, &expected)
        );
    }
}

#[test]
fn real_sorting_is_natural_sorting_of_signed_floats() {
    let items = ["num5.10", "num-3", "num5.3", "num2"];
    for options in [SortOptions::new(), SortOptions::new().reverse(true)] {
        assert_eq!(
            natsort::realsorted_with_options(&items, options),
            natsorted_with_options(&items, options.float(true).signed(true))
        );
    }
    assert_eq!(
        natsort::realsorted_with_options(&items, SortOptions::new().reverse(true)),
        vec!["num5.3", "num5.10", "num2", "num-3"]
    );
}

#[test]
fn options_survive_a_trip_through_flags() {
    let options = SortOptions::new()
        .capital_first(true)
        .ignore_case(true)
        .nan_last(true)
        .reverse(true)
        .locale_profile(LocaleProfile::GermanGermany);
    let back = SortOptions::from_algorithm(options.algorithm());
    assert_eq!(back, SortOptions::new().ignore_case(true).nan_last(true));
    assert_eq!(options.algorithm().bits() & !natsort::algorithm::KNOWN_MASK, 0);
    let with_locale = options.locale_alpha(true);
    assert_eq!(
        SortOptions::from_algorithm(with_locale.algorithm()),
        SortOptions::new().capital_first(true).ignore_case(true).nan_last(true).locale_alpha(true)
    );
}

#[test]
fn number_tokens_compare_by_their_values() {
    for (a, b) in [
        ("1.5", "1.50"),
        ("1.5", "001.5000"),
        ("1.5", "15e-1"),
        ("1e3", "1000"),
        ("0.001e3", "1"),
        ("-0.0", "+0.000"),
        ("-0.0", "0"),
    ] {
        assert_eq!(compare_numeric_strings(a, b), Ordering::Equal, "{a} {b}");
    }
    assert_eq!(compare_numeric_strings("0", "0.05"), Ordering::Less);
    assert_eq!(compare_numeric_strings("-2.5", "-2.45"), Ordering::Less);
    assert_eq!(compare_numeric_strings("1.2e1", "11.99"), Ordering::Greater);
}

#[test]
fn compared_components_are_never_empty() {
    let inputs = [
        "", ".", "./.", "/", "\\", "a//b", "dir/", "archive.tar.gz", "x.", ".hidden",
        "C:\\Users\\file10.txt", "folder/file2.txt",
    ];
    for input in inputs {
        let parts = path_components(input);
        assert!(!parts.is_empty(), "{input:?}");
        assert!(parts.iter().all(|p| !p.is_empty()), "{input:?}");
        for profile in [OsSortProfile::Windows, OsSortProfile::Unix] {
            let options = OsSortOptions::new()
                .profile(profile)
                .locale_profile(LocaleProfile::C);
            let key = os_sort_key_with_options(input, options);
            assert!(!key.components().is_empty(), "{input:?}");
            assert!(key.components().iter().all(|p| !p.is_empty()), "{input:?}");
        }
    }
    assert_eq!(path_components(""), vec![".".to_string()]);
    assert_eq!(path_components("/"), vec!["/".to_string()]);
}

#[test]
fn sorts_many_items_in_natural_order() {
    let items: Vec<String> = (0..20000).rev().map(|i| format!("item{i}")).collect();
    let sorted = natsorted(&items);
    let expected: Vec<String> = (0..20000).map(|i| format!("item{i}")).collect();
    assert_eq!(sorted, expected);
    let idx = index_natsorted(&items);
    assert_eq!(idx[0], 19999);
    assert_eq!(idx[19999], 0);
}

#[test]
fn decoding_by_name_is_the_selected_decoder() {
    let inputs: [&[u8]; 4] = [b"plain", &[b'a', 0xFF], &[0xE2, 0x82], &[0xC3, 0xA9]];
    for input in inputs {
        for name in ["ascii", " ASCII "] {
            let expected = match decode_ascii_bytes(input) {
                Ok(text) => Ok(text),
                Err(error) => Err(error.message()),
            };
            assert_eq!(python_decode_bytes(input, name), expected);
        }
        for name in ["utf-8", "UTF_8"] {
            let expected = match decode_utf8_bytes(input) {
                Ok(text) => Ok(text),
                Err(error) => Err(error.message()),
            };
            assert_eq!(python_decode_bytes(input, name), expected);
        }
        assert_eq!(python_decode_bytes(input, "latin-1"), Ok(decode_latin1_bytes(input)));
    }
    assert_eq!(
        python_decode_bytes(&[b'a', 0xFF], "ascii"),
        Err("invalid ASCII byte 0xFF at position 1".to_string()),
    );
    assert_eq!(
        python_decode_bytes(b"x", "ebcdic"),
        Err("unsupported decoder encoding: ebcdic".to_string()),
    );
}
