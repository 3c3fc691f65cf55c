use natsort::SortOptions;
use natsort::benchmark::{json_escape, options_for_mode, parse_benchmark_arguments};

fn strings(values: &[&str]) -> Vec<String> {
    values.iter().map(|value| value.to_string()).collect()
}

#[test]
fn modes_select_sort_options() {
    assert_eq!(options_for_mode("default"), Ok(SortOptions::new()));
    assert_eq!(options_for_mode("float"), Ok(SortOptions::new().float(true)));
    assert_eq!(options_for_mode("real"), Ok(SortOptions::new().float(true).signed(true)));
    assert_eq!(options_for_mode("path"), Ok(SortOptions::new().path(true)));
    assert_eq!(options_for_mode("locale"), Ok(SortOptions::new().locale(true)));
    assert_eq!(options_for_mode("fast"), Err("unsupported mode: fast".to_string()));
}

#[test]
fn escapes_text_for_json() {
    assert_eq!(json_escape("plain é"), "plain é");
    assert_eq!(json_escape("a\"b\\c"), "a\\\"b\\\\c");
    assert_eq!(json_escape("\n\r\t"), "\\n\\r\\t");
    assert_eq!(json_escape("\u{1}\u{7f}\u{9f}"), "\\u0001\\u007f\\u009f");
}

#[test]
fn reads_benchmark_arguments_with_defaults() {
    let parsed = parse_benchmark_arguments(&strings(&["bench", "--dataset", "d.txt", "--mode", "real"]))
        .expect("valid arguments");
    assert_eq!(parsed.dataset, "d.txt");
    assert_eq!(parsed.mode, "real");
    assert_eq!(parsed.warmups, 2);
    assert_eq!(parsed.runs, 7);
    let parsed = parse_benchmark_arguments(&strings(&[
        "bench", "--warmups", "0", "--runs", "+3", "--mode", "path", "--dataset", "x",
    ]))
    .expect("valid arguments");
    assert_eq!(parsed.warmups, 0);
    assert_eq!(parsed.runs, 3);
}

#[test]
fn reports_benchmark_argument_errors() {
    let usage = "usage: bench --dataset PATH --mode MODE [--warmups N] [--runs N]\nmodes: default, float, real, path, locale";
    assert_eq!(parse_benchmark_arguments(&strings(&["bench", "-h"])), Err(usage.to_string()));
    assert_eq!(
        parse_benchmark_arguments(&strings(&["bench", "--mode", "real"])),
        Err(format!("missing --dataset\n{usage}"))
    );
    assert_eq!(
        parse_benchmark_arguments(&strings(&["bench", "--dataset", "d"])),
        Err(format!("missing --mode\n{usage}"))
    );
    assert_eq!(
        parse_benchmark_arguments(&strings(&["bench", "--dataset", "d", "--mode", "m", "--runs", "0"])),
        Err("--runs must be greater than zero".to_string())
    );
    assert_eq!(
        parse_benchmark_arguments(&strings(&["bench", "--runs", "-1"])),
        Err("--runs expects a non-negative integer".to_string())
    );
    assert_eq!(
        parse_benchmark_arguments(&strings(&["bench", "--warmups"])),
        Err("--warmups requires a value".to_string())
    );
    assert_eq!(
        parse_benchmark_arguments(&strings(&["bench", "--dataset"])),
        Err("--dataset requires a path".to_string())
    );
    assert_eq!(
        parse_benchmark_arguments(&strings(&["bench", "--fast"])),
        Err(format!("unknown argument: --fast\n{usage}"))
    );
    assert_eq!(
        parse_benchmark_arguments(&strings(&[])),
        Err("missing --dataset\nusage: benchmark --dataset PATH --mode MODE [--warmups N] [--runs N]\nmodes: default, float, real, path, locale".to_string())
    );
}

#[test]
fn counts_follow_the_unsigned_integer_grammar() {
    let parsed = parse_benchmark_arguments(&strings(&[
        "bench", "--dataset", "d", "--mode", "m", "--runs", "0012", "--warmups", "18446744073709551615",
    ]))
    .unwrap();
    assert_eq!(parsed.runs, 12);
    assert_eq!(parsed.warmups, usize::MAX);
    for bad in ["", "+", "1_000", "18446744073709551616", "99999999999999999999999", "1a", " 1"] {
        assert_eq!(
            parse_benchmark_arguments(&strings(&["bench", "--warmups", bad])),
            Err("--warmups expects a non-negative integer".to_string()),
            "{bad:?}",
        );
    }
}
