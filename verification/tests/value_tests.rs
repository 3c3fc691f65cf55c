use natsort::{SortOptions, natsort_keygen};

#[test]
fn keygen_uses_default_options() {
    let generator = natsort_keygen();

    assert_eq!(generator.options(), SortOptions::new(),);
}

use natsort::value::{
    bytes_key, compare_key_atoms, compare_natural_keys, compare_numeric_keys, float_key,
    integer_key, none_key, sequence_key, sorted_value_positions, text_key_in,
};
use natsort::{FloatClass, KeyAtom, NaturalKey, NumericKey};

fn finite(text: &str) -> NumericKey {
    NumericKey::Finite(text.to_string())
}

#[test]
fn numeric_keys_order_infinities_around_finite_values() {
    let neg = NumericKey::NegativeInfinity;
    let pos = NumericKey::PositiveInfinity;
    assert_eq!(compare_numeric_keys(&neg, &finite("-1e300")), -1);
    assert_eq!(compare_numeric_keys(&finite("1e300"), &pos), -1);
    assert_eq!(compare_numeric_keys(&pos, &neg), 1);
    assert_eq!(compare_numeric_keys(&neg, &neg), 0);
    assert_eq!(compare_numeric_keys(&finite("1.0"), &finite("1")), 0);
    assert_eq!(compare_numeric_keys(&finite("-0"), &finite("0")), 0);
    assert_eq!(compare_numeric_keys(&finite("10"), &finite("9.5")), 1);
}

#[test]
fn atoms_order_by_kind_then_content() {
    let text = KeyAtom::Text("b".to_string());
    let collated = KeyAtom::LocaleText(vec![1]);
    let number = KeyAtom::Number(finite("5"));
    let bytes = KeyAtom::Bytes(vec![0]);
    assert_eq!(compare_key_atoms(&text, &collated), -1);
    assert_eq!(compare_key_atoms(&collated, &number), -1);
    assert_eq!(compare_key_atoms(&number, &bytes), -1);
    assert_eq!(compare_key_atoms(&bytes, &text), 1);
    assert_eq!(compare_key_atoms(&KeyAtom::Text("a".to_string()), &text), -1);
    assert_eq!(compare_key_atoms(&KeyAtom::Bytes(vec![0, 1]), &bytes), 1);
}

#[test]
fn text_keys_compare_numbers_by_value() {
    let options = SortOptions::new();
    let a2 = text_key_in("a2", options, "en-US");
    let a10 = text_key_in("a10", options, "en-US");
    assert_eq!(compare_natural_keys(&a2, &a10), -1);
    assert_eq!(compare_natural_keys(&a10, &a2), 1);
    assert_eq!(compare_natural_keys(&a2, &text_key_in("a2", options, "en-US")), 0);
    match text_key_in("5x", options, "en-US") {
        NaturalKey::Atomic(atoms) => {
            assert_eq!(atoms.len(), 3);
            assert!(matches!(&atoms[0], KeyAtom::Text(t) if t.is_empty()));
            assert!(matches!(&atoms[1], KeyAtom::Number(NumericKey::Finite(n)) if n == "5"));
        }
        NaturalKey::Sequence(_) => panic!("a plain string has an atomic key"),
    }
    match text_key_in("", options, "en-US") {
        NaturalKey::Atomic(atoms) => {
            assert_eq!(atoms.len(), 1);
            assert!(matches!(&atoms[0], KeyAtom::Text(t) if t.is_empty()));
        }
        NaturalKey::Sequence(_) => panic!("a plain string has an atomic key"),
    }
}

#[test]
fn path_text_keys_have_one_key_per_component() {
    let options = SortOptions::new().path(true);
    match text_key_in("dir/file10.txt", options, "en-US") {
        NaturalKey::Sequence(parts) => assert_eq!(parts.len(), 3),
        NaturalKey::Atomic(_) => panic!("a path has a sequence key"),
    }
    match integer_key("7", options, "en-US") {
        NaturalKey::Sequence(parts) => assert_eq!(parts.len(), 1),
        NaturalKey::Atomic(_) => panic!("numbers are wrapped in path mode"),
    }
}

#[test]
fn byte_keys_fold_ascii_case_only_when_asked() {
    let folded = SortOptions::new().ignore_case(true);
    let upper = bytes_key(b"ABC\xC4", folded);
    let lower = bytes_key(b"abc\xC4", folded);
    assert_eq!(compare_natural_keys(&upper, &lower), 0);
    let plain = SortOptions::new();
    assert_eq!(compare_natural_keys(&bytes_key(b"ABC", plain), &bytes_key(b"abc", plain)), -1);
}

#[test]
fn special_floats_and_none_sort_first_by_default() {
    let options = SortOptions::new();
    let nan = float_key(&FloatClass::NotANumber, options, "en-US");
    let none = none_key(options, "en-US");
    let neg = float_key(&FloatClass::NegativeInfinity, options, "en-US");
    let low = float_key(&FloatClass::Finite("-1e308".to_string()), options, "en-US");
    let pos = float_key(&FloatClass::PositiveInfinity, options, "en-US");
    assert_eq!(compare_natural_keys(&nan, &none), -1);
    assert_eq!(compare_natural_keys(&none, &neg), -1);
    assert_eq!(compare_natural_keys(&neg, &low), -1);
    assert_eq!(compare_natural_keys(&low, &pos), -1);
}

#[test]
fn special_floats_and_none_sort_last_with_nan_last() {
    let options = SortOptions::new().nan_last(true);
    let nan = float_key(&FloatClass::NotANumber, options, "en-US");
    let none = none_key(options, "en-US");
    let pos = float_key(&FloatClass::PositiveInfinity, options, "en-US");
    let high = integer_key("99999999999999999999999", options, "en-US");
    let neg = float_key(&FloatClass::NegativeInfinity, options, "en-US");
    assert_eq!(compare_natural_keys(&neg, &high), -1);
    assert_eq!(compare_natural_keys(&high, &pos), -1);
    assert_eq!(compare_natural_keys(&pos, &none), -1);
    assert_eq!(compare_natural_keys(&none, &nan), -1);
}

#[test]
fn atomic_keys_sort_before_sequence_keys() {
    let options = SortOptions::new();
    let atom = text_key_in("z", options, "en-US");
    let seq = sequence_key(vec![text_key_in("a", options, "en-US")]);
    assert_eq!(compare_natural_keys(&atom, &seq), -1);
    let longer = sequence_key(vec![
        text_key_in("a", options, "en-US"),
        text_key_in("b", options, "en-US"),
    ]);
    assert_eq!(compare_natural_keys(&seq, &longer), -1);
    assert_eq!(compare_natural_keys(&longer, &seq), 1);
}

#[test]
fn natural_key_comparison_is_antisymmetric_and_transitive() {
    let options = SortOptions::new().float(true).signed(true);
    let keys = vec![
        text_key_in("x-2.5", options, "en-US"),
        text_key_in("x1", options, "en-US"),
        integer_key("3", options, "en-US"),
        none_key(options, "en-US"),
        bytes_key(b"x", options),
        sequence_key(vec![integer_key("1", options, "en-US")]),
    ];
    for a in &keys {
        for b in &keys {
            assert_eq!(compare_natural_keys(a, b), -compare_natural_keys(b, a));
            for c in &keys {
                if compare_natural_keys(a, b) <= 0 && compare_natural_keys(b, c) <= 0 {
                    assert!(compare_natural_keys(a, c) <= 0);
                }
            }
        }
    }
}

#[test]
fn value_positions_are_stable_and_reversible() {
    let options = SortOptions::new();
    let words = ["b2", "a10", "b2", "a9"];
    let keys: Vec<NaturalKey> = words.iter().map(|w| text_key_in(w, options, "en-US")).collect();
    let texts: Vec<String> = words.iter().map(|w| w.to_string()).collect();
    assert_eq!(sorted_value_positions(keys, &texts, options), vec![3, 1, 0, 2]);
    let reversed = options.reverse(true);
    let keys: Vec<NaturalKey> = words.iter().map(|w| text_key_in(w, reversed, "en-US")).collect();
    assert_eq!(sorted_value_positions(keys, &texts, reversed), vec![0, 2, 1, 3]);
}

#[test]
fn presorting_breaks_ties_by_text() {
    let options = SortOptions::new().presort(true);
    let words = ["a01", "a1", "a001"];
    let keys: Vec<NaturalKey> = words.iter().map(|w| text_key_in(w, options, "en-US")).collect();
    let texts: Vec<String> = words.iter().map(|w| w.to_string()).collect();
    assert_eq!(sorted_value_positions(keys, &texts, options), vec![2, 0, 1]);
}
