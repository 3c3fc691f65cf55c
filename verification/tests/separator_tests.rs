use natsort::SortOptions;
use natsort::key::numeric_prefix;

#[test]
fn default_numeric_prefix_is_empty() {
    assert_eq!(numeric_prefix(SortOptions::new()), "",);
}

#[test]
fn num_after_prefix_has_twenty_characters() {
    let prefix = numeric_prefix(SortOptions::new().num_after(true));

    assert_eq!(prefix.chars().count(), 20);
}

#[test]
fn num_after_prefix_uses_maximum_unicode_character() {
    let prefix = numeric_prefix(SortOptions::new().num_after(true));

    assert!(prefix.chars().all(|character| character == '\u{10FFFF}'));
}
