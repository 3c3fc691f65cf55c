use natsort::os_sort::host_os_profile;
use natsort::os_sort_key;
use natsort::{
    LocaleProfile, OsSortOptions, OsSortProfile, os_sort_key_with_options,
    os_sort_keygen_with_options, os_sorted_by_key_with_options, os_sorted_with_options,
};

fn windows_options() -> OsSortOptions {
    OsSortOptions::new()
        .profile(OsSortProfile::Windows)
        .locale_profile(LocaleProfile::EnglishIndia)
}

#[test]
fn windows_sorts_basic_names_like_explorer() {
    let input = ["file10", "file2", "File3", "file1", "file_0"];

    assert_eq!(
        os_sorted_with_options(&input, windows_options()),
        vec!["file_0", "file1", "file2", "File3", "file10"]
    );
}

#[test]
fn windows_reverse_sort_matches_python() {
    let input = ["file10", "file2", "File3", "file1", "file_0"];

    assert_eq!(
        os_sorted_with_options(&input, windows_options().reverse(true)),
        vec!["file10", "File3", "file2", "file1", "file_0"]
    );
}

#[test]
fn windows_uses_more_leading_zeroes_as_tiebreaker() {
    let input = ["a1", "a01", "a001"];

    assert_eq!(
        os_sorted_with_options(&input, windows_options()),
        vec!["a001", "a01", "a1"]
    );
}

#[test]
fn windows_presort_keeps_python_order() {
    let input = ["a1", "a01"];

    assert_eq!(
        os_sorted_with_options(&input, windows_options().presort(true)),
        vec!["a01", "a1"]
    );
}

#[test]
fn windows_supports_key_functions() {
    let input = ["foo0", "foo2", "goo1"];

    assert_eq!(
        os_sorted_by_key_with_options(
            &input,
            |value| value.replace('g', "f"),
            windows_options(),
        ),
        vec!["foo0", "goo1", "foo2"]
    );
}

#[test]
fn windows_sorts_path_components() {
    let input = [
        "Folder10/file2.txt",
        "Folder2/file10.txt",
        "Folder2/file2.txt",
        "folder1/file20.txt",
    ];

    assert_eq!(
        os_sorted_with_options(&input, windows_options()),
        vec![
            "folder1/file20.txt",
            "Folder2/file2.txt",
            "Folder2/file10.txt",
            "Folder10/file2.txt",
        ]
    );
}

#[test]
fn windows_sorts_unicode_names() {
    let input = ["Äpfel10", "apple2", "Apple10", "äpfel2", "Öl5", "Oase4"];

    assert_eq!(
        os_sorted_with_options(&input, windows_options()),
        vec!["äpfel2", "Äpfel10", "apple2", "Apple10", "Oase4", "Öl5"]
    );
}

    

#[test]
fn windows_matches_punctuation_corpus() {
    let input = [
        "11111", "aaaaa", "foo0", "foo_0", "foo1", "foo2", "foo4", "foo10", "Foo3", "!", "#",
        "$", "%", "&", "'", "(", ")", "+", "+11111", "+aaaaa", ",", "-", ";", "=", "@", "[",
        "]", "^", "_", "`", "{", "}", "~", "§", "°", "´", "µ", "€",
    ];

    assert_eq!(
        os_sorted_with_options(&input, windows_options()),
        vec![
            "'", "-", "!", "#", "$", "%", "&", "(", ")", ",", ";", "@", "[", "]", "^", "_",
            "`", "{", "}", "~", "´", "€", "+", "+11111", "+aaaaa", "=", "§", "°", "µ", "11111",
            "aaaaa", "foo_0", "foo0", "foo1", "foo2", "Foo3", "foo4", "foo10",
        ]
    );
}

#[test]
fn windows_matches_compound_path_order() {
    let input = [
        "/p/Folder (10)/file.tar.gz",
        "/p/Folder (1)/file (1).tar.gz",
        "/p/Folder/file.x1.9.tar.gz",
        "/p/Folder (2)/file.tar.gz",
        "/p/Folder (1)/file.tar.gz",
        "/p/Folder/file.x1.10.tar.gz",
    ];

    assert_eq!(
        os_sorted_with_options(&input, windows_options()),
        vec![
            "/p/Folder/file.x1.9.tar.gz",
            "/p/Folder/file.x1.10.tar.gz",
            "/p/Folder (1)/file (1).tar.gz",
            "/p/Folder (1)/file.tar.gz",
            "/p/Folder (2)/file.tar.gz",
            "/p/Folder (10)/file.tar.gz",
        ]
    );
}

#[test]
fn key_generator_uses_configured_profile() {
    let generator = os_sort_keygen_with_options(windows_options());

    assert!(generator.key("file2") < generator.key("file10"));
}

#[test]
fn windows_comparison_is_case_insensitive() {
    let left = os_sort_key_with_options("file2", windows_options());
    let right = os_sort_key_with_options("File2", windows_options());

    assert_eq!(left, right);
}

#[test]
fn unix_profile_uses_locale_aware_natural_sorting() {
    let options = OsSortOptions::new()
        .profile(OsSortProfile::Unix)
        .locale_profile(LocaleProfile::EnglishUnitedStates);
    let input = ["file10", "File2", "file1"];

    assert_eq!(
        os_sorted_with_options(&input, options),
        vec!["file1", "File2", "file10"]
    );
}

#[test]
fn the_system_profile_follows_the_host() {
    let host = host_os_profile();
    assert_ne!(host, OsSortProfile::System);
    let expected = if std::path::is_separator('\\') {
        OsSortProfile::Windows
    } else {
        OsSortProfile::Unix
    };
    assert_eq!(host, expected);
    let key = os_sort_key("folder/file10.txt");
    assert_eq!(key.profile(), host);
    assert_eq!(key.locale_profile(), LocaleProfile::System);
    let explicit = os_sort_key_with_options(
        "folder/file10.txt",
        OsSortOptions::new().profile(OsSortProfile::Windows),
    );
    assert_eq!(explicit.profile(), OsSortProfile::Windows);
}

#[test]
fn generator_keys_are_the_keys_of_its_options() {
    let options = windows_options();
    let generator = os_sort_keygen_with_options(options);
    assert_eq!(generator.options(), options);
    for value in ["file2", "file10", "C:\\dir\\x.txt", ""] {
        let a = generator.key(value);
        let b = os_sort_key_with_options(value, options);
        assert_eq!(a.components(), b.components());
        assert_eq!(a.profile(), b.profile());
        assert_eq!(a.locale_profile(), b.locale_profile());
        assert_eq!(a.compare(&b), 0);
    }
    assert_eq!(generator.key("file2").compare(&generator.key("file10")), -1);
}
