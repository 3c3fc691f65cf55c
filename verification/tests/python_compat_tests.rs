use natsort::python_compat::{
    PlanValue, normalize_decimal_digits, python_fast_int, python_number_plan,
};
use natsort::{FloatClass, python_unicode_tables};
use num_bigint::BigInt;

fn fast_int(input: &str) -> Option<BigInt> {
    python_fast_int(input).map(|text| text.parse::<BigInt>().expect("decimal text"))
}

#[test]
fn parses_python_style_integer_inputs() {
    assert_eq!(fast_int("-۱۲"), Some(BigInt::from(-12)));
    assert_eq!(fast_int("²"), Some(BigInt::from(2)));
    assert_eq!(fast_int("45.8"), None);
}

#[test]
fn fast_int_reads_big_signed_and_underscored_integers() {
    assert_eq!(python_fast_int("  +0042 "), Some("42".to_string()));
    assert_eq!(python_fast_int("-0"), Some("0".to_string()));
    assert_eq!(python_fast_int("1_000"), Some("1000".to_string()));
    assert_eq!(
        python_fast_int("123456789012345678901234567890"),
        Some("123456789012345678901234567890".to_string())
    );
    assert_eq!(python_fast_int("_1"), None);
    assert_eq!(python_fast_int("-+1"), None);
    assert_eq!(python_fast_int("   "), None);
    assert_eq!(python_fast_int("①"), Some("1".to_string()));
    assert_eq!(python_fast_int("½"), None);
}

#[test]
fn normalizes_decimal_digits_of_any_script() {
    assert_eq!(normalize_decimal_digits("۱۲.۳x"), "12.3x");
    assert_eq!(normalize_decimal_digits("²①"), "²①");
}

#[test]
fn number_plans_mark_special_values() {
    assert_eq!(python_number_plan(&PlanValue::Integer, 0), Ok((0, 0, false, 0)));
    assert_eq!(python_number_plan(&PlanValue::Missing, 8), Ok((1, 1, false, 2)));
    assert_eq!(
        python_number_plan(&PlanValue::Float(FloatClass::NotANumber), 1024),
        Ok((0, 1, true, 3))
    );
    assert_eq!(
        python_number_plan(&PlanValue::Float(FloatClass::NegativeInfinity), 512 | 16),
        Ok((2, 1, false, 3))
    );
    assert_eq!(
        python_number_plan(&PlanValue::Float(FloatClass::PositiveInfinity), 1024 | 8 | 512 | 16),
        Ok((3, 1, true, 1))
    );
    assert_eq!(
        python_number_plan(&PlanValue::Float(FloatClass::PositiveInfinity), 0),
        Ok((0, 0, false, 0))
    );
    assert_eq!(
        python_number_plan(&PlanValue::Other, 0),
        Err("parse-number-plan requires an integer, float, or None value".to_string())
    );
}

#[test]
fn exposes_non_ascii_unicode_collections() {
    let tables = python_unicode_tables();

    assert!(tables.numeric.contains(&u32::from('⅓')));
    assert!(tables.digits.contains(&u32::from('①')));
    assert!(tables.decimals.contains(&u32::from('۱')));
    assert!(!tables.numeric.contains(&u32::from('1')));
}

#[test]
fn unicode_tables_are_nested_and_ordered() {
    let tables = python_unicode_tables();

    for code in &tables.decimals {
        assert!(tables.digits.contains(code));
        assert!(tables.numeric.contains(code));
    }
    for list in [&tables.numeric, &tables.digits, &tables.decimals] {
        assert!(list.windows(2).all(|pair| pair[0] < pair[1]));
        assert!(list.iter().all(|code| !(48..=57).contains(code)));
    }
    assert!(tables.decimals.contains(&0x0660));
    assert!(!tables.decimals.contains(&u32::from('²')));
    assert!(tables.digits.contains(&u32::from('²')));
    assert!(!tables.digits.contains(&u32::from('½')));
    assert!(tables.numeric.contains(&u32::from('½')));
}
