use std::path::{Path, PathBuf};

use natsort::{
    LocaleProfile, OrderByIndexError, SortOptions, humansorted, humansorted_by_key,
    humansorted_by_key_with_options, humansorted_with_options, index_humansorted,
    index_humansorted_with_options, index_natsorted, index_natsorted_paths,
    index_natsorted_paths_with_options, index_natsorted_with_options, index_realsorted,
    index_realsorted_with_options, natsorted_by_key, natsorted_by_key_with_options,
    natsorted_paths, natsorted_paths_with_options, natsorted_with_options, order_by_index, order_by_index_iter,
    realsorted, realsorted_by_key, realsorted_by_key_with_options, realsorted_with_options,
    try_order_by_index, try_order_by_index_iter,
};

#[derive(Debug, Clone, PartialEq, Eq)]
struct Record {
    name: &'static str,
    id: &'static str,
}

fn records() -> Vec<Record> {
    vec![
        Record {
            name: "file10",
            id: "10",
        },
        Record {
            name: "file2",
            id: "2",
        },
        Record {
            name: "file1",
            id: "1",
        },
    ]
}

fn names(records: &[Record]) -> Vec<&str> {
    records.iter().map(|record| record.name).collect()
}

#[test]
fn real_sorts_signed_floats() {
    let input = vec!["num5.10", "num-3", "num5.3", "num2"];

    assert_eq!(
        realsorted(&input),
        vec!["num-3", "num2", "num5.10", "num5.3"]
    );
}

#[test]
fn real_sort_supports_reverse() {
    let input = vec!["num5.10", "num-3", "num5.3", "num2"];

    let options = SortOptions::new().reverse(true);

    assert_eq!(
        realsorted_with_options(&input, options),
        vec!["num5.3", "num5.10", "num2", "num-3"]
    );
}

#[test]
fn real_sort_preserves_ignore_case_option() {
    let input = vec!["A2", "a-3", "a1"];

    let options = SortOptions::new().ignore_case(true);

    assert_eq!(
        realsorted_with_options(&input, options),
        vec!["a-3", "a1", "A2"]
    );
}

#[test]
fn real_sort_preserves_path_option() {
    let input = vec!["folder/file-2.txt", "folder/file10.txt", "folder/file1.txt"];

    let options = SortOptions::new().path(true);

    assert_eq!(
        realsorted_with_options(&input, options),
        vec!["folder/file-2.txt", "folder/file1.txt", "folder/file10.txt",]
    );
}

#[test]
fn returns_natural_sort_indexes() {
    let input = vec!["num3", "num5", "num2"];

    assert_eq!(index_natsorted(&input), vec![2, 0, 1]);
}

#[test]
fn returns_reverse_natural_sort_indexes() {
    let input = vec!["num3", "num5", "num2"];

    let options = SortOptions::new().reverse(true);

    assert_eq!(index_natsorted_with_options(&input, options), vec![1, 0, 2]);
}

#[test]
fn returns_real_sort_indexes() {
    let input = vec!["num5.10", "num-3", "num5.3", "num2"];

    assert_eq!(index_realsorted(&input), vec![1, 3, 0, 2]);
}

#[test]
fn index_sort_is_stable_for_equivalent_values() {
    let input = vec!["file01", "file1", "file001"];

    assert_eq!(index_natsorted(&input), vec![0, 1, 2]);
}

#[test]
fn index_sort_supports_presort() {
    let input = vec!["a1", "a1.45", "a01", "a1.4500"];

    let options = SortOptions::new().float(true).presort(true);

    assert_eq!(
        index_natsorted_with_options(&input, options),
        vec![2, 0, 1, 3]
    );
}

#[test]
fn index_sort_supports_reverse_presort() {
    let input = vec!["a1", "a1.45", "a01", "a1.4500"];

    let options = SortOptions::new().float(true).presort(true).reverse(true);

    assert_eq!(
        index_natsorted_with_options(&input, options),
        vec![3, 1, 0, 2]
    );
}

#[test]
fn index_sort_handles_empty_input() {
    let input: Vec<&str> = Vec::new();

    assert!(index_natsorted(&input).is_empty());
}

#[test]
fn index_sort_handles_single_input() {
    assert_eq!(index_natsorted(&["file1"]), vec![0]);
}

#[test]
fn index_sort_supports_paths() {
    let input = vec!["folder10/file", "folder2/file", "folder1/file"];

    let options = SortOptions::new().path(true);

    assert_eq!(index_natsorted_with_options(&input, options), vec![2, 1, 0]);
}

#[test]
fn index_sort_supports_ignore_case() {
    let input = vec!["FILE10", "file2", "File1"];

    let options = SortOptions::new().ignore_case(true);

    assert_eq!(index_natsorted_with_options(&input, options), vec![2, 1, 0]);
}

#[test]
fn orders_primary_values_by_indexes() {
    let values = vec!["num3", "num5", "num2"];

    assert_eq!(
        order_by_index(&values, &[2, 0, 1]),
        vec!["num2", "num3", "num5"]
    );
}

#[test]
fn orders_secondary_values_by_indexes() {
    let values = vec!["foo", "bar", "baz"];

    assert_eq!(
        order_by_index(&values, &[2, 0, 1]),
        vec!["baz", "foo", "bar"]
    );
}

#[test]
fn order_by_index_supports_duplicates() {
    let values = vec!["a", "b", "c"];

    assert_eq!(order_by_index(&values, &[1, 1, 2]), vec!["b", "b", "c"]);
}

#[test]
fn order_by_index_supports_empty_indexes() {
    let values = vec!["a", "b"];

    assert!(order_by_index(&values, &[]).is_empty());
}

#[test]
fn safe_order_reports_invalid_index() {
    let values = vec!["a", "b"];

    assert_eq!(
        try_order_by_index(&values, &[0, 3]),
        Err(OrderByIndexError {
            position: 1,
            index: 3,
            input_length: 2,
        })
    );
}

#[test]
fn safe_order_returns_values() {
    let values = vec!["a", "b", "c"];

    assert_eq!(try_order_by_index(&values, &[2, 0]), Ok(vec!["c", "a"]));
}

    

#[test]
fn sorts_records_by_key() {
    let sorted = natsorted_by_key(&records(), |record| record.name);

    assert_eq!(names(&sorted), vec!["file1", "file2", "file10"]);
}

#[test]
fn sorts_records_by_key_in_reverse() {
    let input = records();

    let options = SortOptions::new().reverse(true);

    let sorted = natsorted_by_key_with_options(&input, |record| record.name, options);

    assert_eq!(names(&sorted), vec!["file10", "file2", "file1"]);
}

#[test]
fn key_sort_is_stable() {
    let input = vec![
        Record {
            name: "file01",
            id: "first",
        },
        Record {
            name: "file1",
            id: "second",
        },
        Record {
            name: "file001",
            id: "third",
        },
    ];

    let sorted = natsorted_by_key(&input, |record| record.name);

    let ids: Vec<&str> = sorted.iter().map(|record| record.id).collect();

    assert_eq!(ids, vec!["first", "second", "third"]);
}

#[test]
fn key_sort_supports_ignore_case() {
    let input = vec![
        Record {
            name: "FILE10",
            id: "10",
        },
        Record {
            name: "file2",
            id: "2",
        },
        Record {
            name: "File1",
            id: "1",
        },
    ];

    let options = SortOptions::new().ignore_case(true);

    let sorted = natsorted_by_key_with_options(&input, |record| record.name, options);

    assert_eq!(names(&sorted), vec!["File1", "file2", "FILE10"]);
}

#[test]
fn key_sort_supports_paths() {
    let input = vec![
        Record {
            name: "folder10/file",
            id: "10",
        },
        Record {
            name: "folder2/file",
            id: "2",
        },
        Record {
            name: "folder1/file",
            id: "1",
        },
    ];

    let options = SortOptions::new().path(true);

    let sorted = natsorted_by_key_with_options(&input, |record| record.name, options);

    assert_eq!(
        names(&sorted),
        vec!["folder1/file", "folder2/file", "folder10/file",]
    );
}

#[test]
fn key_sort_supports_presort() {
    let input = vec![
        Record {
            name: "a1",
            id: "0",
        },
        Record {
            name: "a1.45",
            id: "1",
        },
        Record {
            name: "a01",
            id: "2",
        },
        Record {
            name: "a1.4500",
            id: "3",
        },
    ];

    let options = SortOptions::new().float(true).presort(true);

    let sorted = natsorted_by_key_with_options(&input, |record| record.name, options);

    let ids: Vec<&str> = sorted.iter().map(|record| record.id).collect();

    assert_eq!(ids, vec!["2", "0", "1", "3"]);
}

#[test]
fn key_sort_supports_reverse_presort() {
    let input = vec![
        Record {
            name: "a1",
            id: "0",
        },
        Record {
            name: "a1.45",
            id: "1",
        },
        Record {
            name: "a01",
            id: "2",
        },
        Record {
            name: "a1.4500",
            id: "3",
        },
    ];

    let options = SortOptions::new().float(true).presort(true).reverse(true);

    let sorted = natsorted_by_key_with_options(&input, |record| record.name, options);

    let ids: Vec<&str> = sorted.iter().map(|record| record.id).collect();

    assert_eq!(ids, vec!["3", "1", "0", "2"]);
}

#[test]
fn real_sorts_records_by_key() {
    let input = vec![
        Record {
            name: "num5.10",
            id: "0",
        },
        Record {
            name: "num-3",
            id: "1",
        },
        Record {
            name: "num5.3",
            id: "2",
        },
        Record {
            name: "num2",
            id: "3",
        },
    ];

    let sorted = realsorted_by_key(&input, |record| record.name);

    let ids: Vec<&str> = sorted.iter().map(|record| record.id).collect();

    assert_eq!(ids, vec!["1", "3", "0", "2"]);
}

#[test]
fn real_key_sort_supports_reverse() {
    let input = records();

    let options = SortOptions::new().reverse(true);

    let sorted = realsorted_by_key_with_options(&input, |record| record.name, options);

    assert_eq!(names(&sorted), vec!["file10", "file2", "file1"]);
}

#[test]
fn real_key_sort_is_stable() {
    let input = vec![
        Record {
            name: "num1",
            id: "first",
        },
        Record {
            name: "num1.0",
            id: "second",
        },
        Record {
            name: "num1e0",
            id: "third",
        },
    ];

    let sorted = realsorted_by_key(&input, |record| record.name);

    let ids: Vec<&str> = sorted.iter().map(|record| record.id).collect();

    assert_eq!(ids, vec!["first", "second", "third"]);
}

#[test]
fn key_sort_handles_empty_input() {
    let input: Vec<Record> = Vec::new();

    let sorted = natsorted_by_key(&input, |record| record.name);

    assert!(sorted.is_empty());
}

#[test]
fn key_sort_handles_single_item() {
    let input = vec![Record {
        name: "file1",
        id: "1",
    }];

    assert_eq!(natsorted_by_key(&input, |record| record.name,), input);
}

#[test]
fn key_function_can_borrow_owned_string() {
    #[derive(Clone, Debug, PartialEq, Eq)]
    struct OwnedRecord {
        name: String,
    }

    let input = vec![
        OwnedRecord {
            name: "file10".to_string(),
        },
        OwnedRecord {
            name: "file2".to_string(),
        },
    ];

    let sorted = natsorted_by_key(&input, |record| record.name.as_str());

    assert_eq!(sorted[0].name, "file2");
    assert_eq!(sorted[1].name, "file10");
}

#[test]
fn human_sort_matches_locale_sort_options() {
    

    let input = vec!["Apple", "apple", "Äpfel", "banana"];
    let options = SortOptions::new().locale_profile(LocaleProfile::EnglishUnitedStates);

    assert_eq!(
        humansorted_with_options(&input, options),
        natsorted_with_options(&input, options.locale(true)),
    );
}

#[test]
fn human_indexes_match_locale_indexes() {
    

    let input = vec![
        "file10", "File2", "file1", "Äpfel20", "Äpfel3", "apple11", "apple2", "Öl5", "Oase4",
    ];
    let options = SortOptions::new().locale_profile(LocaleProfile::EnglishUnitedStates);

    assert_eq!(
        index_humansorted_with_options(&input, options),
        vec![4, 3, 6, 5, 2, 0, 1, 8, 7],
    );
}

#[test]
fn human_sort_supports_localized_numbers() {
    

    let input = vec!["1,234.50", "12.50", "2.75", "1,000.25", "10.25"];
    let options = SortOptions::new()
        .float(true)
        .locale_profile(LocaleProfile::EnglishUnitedStates);

    assert_eq!(
        humansorted_with_options(&input, options),
        vec!["2.75", "10.25", "12.50", "1,000.25", "1,234.50"],
    );
}

#[test]
fn human_sort_supports_key_functions() {
    

    let records = vec![
        Record {
            name: "Äpfel20",
            id: "3",
        },
        Record {
            name: "apple2",
            id: "1",
        },
        Record {
            name: "Apple10",
            id: "2",
        },
    ];
    let options = SortOptions::new().locale_profile(LocaleProfile::EnglishUnitedStates);

    assert_eq!(
        names(&humansorted_by_key_with_options(
            &records,
            |record| record.name,
            options,
        )),
        vec!["Äpfel20", "apple2", "Apple10"],
    );
}

#[test]
fn sorts_path_buf_values_directly() {

    let input = vec![
        PathBuf::from("folder/file10.txt"),
        PathBuf::from("folder/file2.txt"),
        PathBuf::from("folder/file1.txt"),
    ];

    assert_eq!(
        natsorted_paths(&input),
        vec![
            PathBuf::from("folder/file1.txt"),
            PathBuf::from("folder/file2.txt"),
            PathBuf::from("folder/file10.txt"),
        ],
    );
}

#[test]
fn sorts_borrowed_path_values_directly() {

    let input = [
        Path::new("folder10/file.txt"),
        Path::new("folder2/file.txt"),
        Path::new("folder1/file.txt"),
    ];

    assert_eq!(
        natsorted_paths(&input),
        vec![
            Path::new("folder1/file.txt"),
            Path::new("folder2/file.txt"),
            Path::new("folder10/file.txt"),
        ],
    );
}

#[test]
fn direct_path_sort_forces_path_mode_and_supports_reverse() {

    let input = vec![
        PathBuf::from("folder/file10.txt"),
        PathBuf::from("folder/file2.txt"),
        PathBuf::from("folder/file1.txt"),
    ];
    let options = SortOptions::new().reverse(true);

    assert_eq!(
        natsorted_paths_with_options(&input, options),
        vec![
            PathBuf::from("folder/file10.txt"),
            PathBuf::from("folder/file2.txt"),
            PathBuf::from("folder/file1.txt"),
        ],
    );
}

#[test]
fn returns_direct_path_sort_indexes() {

    let input = vec![
        PathBuf::from("folder10/file.txt"),
        PathBuf::from("folder2/file.txt"),
        PathBuf::from("folder1/file.txt"),
    ];

    assert_eq!(index_natsorted_paths(&input), vec![2, 1, 0]);
}

#[test]
fn order_by_index_iterator_yields_values_lazily() {
    let values = vec!["a", "b", "c"];
    let indexes = vec![2, 0, 1];
    let mut ordered = order_by_index_iter(&values, &indexes);

    assert_eq!(ordered.next(), Some("c"));
    assert_eq!(ordered.next(), Some("a"));
    assert_eq!(ordered.next(), Some("b"));
    assert_eq!(ordered.next(), None);
}

#[test]
fn safe_order_by_index_iterator_defers_invalid_index_error() {
    let values = vec!["a", "b"];
    let indexes = vec![1, 4];
    let mut ordered = try_order_by_index_iter(&values, &indexes);

    assert_eq!(ordered.next(), Some(Ok("b")));
    assert_eq!(
        ordered.next(),
        Some(Err(OrderByIndexError {
            position: 1,
            index: 4,
            input_length: 2,
        })),
    );
    assert_eq!(ordered.next(), None);
}

#[test]
fn out_of_bounds_index_message_names_index_position_and_length() {
    let error = natsort::try_order_by_index(&["num3", "num5", "num2"], &[2, 4]).unwrap_err();
    assert_eq!(error, OrderByIndexError { position: 1, index: 4, input_length: 3 });
    assert_eq!(error.message(), "index 4 at position 1 is out of bounds for input length 3");
}

#[test]
fn order_by_index_iterator_stops_at_the_first_invalid_index() {
    let values = vec!["num3", "num5", "num2"];
    let indexes = vec![2, 0, 7, 1];
    let mut ordered = order_by_index_iter(&values, &indexes);

    assert_eq!(ordered.next(), Some("num2"));
    assert_eq!(ordered.next(), Some("num3"));
    assert_eq!(ordered.next(), None);
    let all: Vec<&str> = order_by_index_iter(&values, &[2, 0, 1]).collect();
    assert_eq!(all, vec!["num2", "num3", "num5"]);
}
