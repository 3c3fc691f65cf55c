use natsort::cli::{
    CliArguments, CliCommand, cli_sort_options, is_float_text, parse_cli_arguments, split_entries,
};
use natsort::{CliNumberType, SortOptions, natsorted_with_options};

fn strings(values: &[&str]) -> Vec<String> {
    values.iter().map(|value| value.to_string()).collect()
}

fn parsed(values: &[&str]) -> CliArguments {
    match parse_cli_arguments(&strings(values)) {
        Ok(CliCommand::Run(arguments)) => arguments,
        other => panic!("expected run outcome, got {other:?}"),
    }
}

fn parse_error(values: &[&str]) -> String {
    match parse_cli_arguments(&strings(values)) {
        Err(message) => message,
        other => panic!("expected an error, got {other:?}"),
    }
}

fn sorted_by_cli(arguments: &CliArguments, entries: &[String]) -> Vec<String> {
    let options = cli_sort_options(
        arguments.paths,
        arguments.reverse,
        arguments.number_type,
        arguments.signed,
        arguments.exponent,
        arguments.locale,
    );
    natsorted_with_options(entries, options)
}

#[test]
fn parses_default_options() {
    let arguments = parsed(&["num-2", "num-1"]);

    assert!(!arguments.paths);
    assert!(!arguments.reverse);
    assert_eq!(arguments.number_type, CliNumberType::Integer);
    assert!(!arguments.signed);
    assert!(arguments.exponent);
    assert!(!arguments.locale);
    assert!(!arguments.zero_terminated);
    assert!(arguments.filters.is_empty());
    assert!(arguments.reverse_filters.is_empty());
    assert!(arguments.exclude.is_empty());
    assert_eq!(arguments.entries, vec!["num-2", "num-1"]);
}

#[test]
fn parses_all_repeatable_options() {
    let arguments = parsed(&[
        "--paths",
        "--reverse",
        "--locale",
        "--filter",
        "4",
        "10",
        "--reverse-filter",
        "100",
        "110",
        "--number-type",
        "float",
        "--noexp",
        "--sign",
        "--exclude",
        "34",
        "--exclude",
        "35",
        "num-2",
    ]);

    assert!(arguments.paths);
    assert!(arguments.reverse);
    assert!(arguments.locale);
    assert_eq!(arguments.filters, vec![("4".to_string(), "10".to_string())]);
    assert_eq!(arguments.reverse_filters, vec![("100".to_string(), "110".to_string())]);
    assert_eq!(arguments.exclude, vec!["34", "35"]);
    assert_eq!(arguments.number_type, CliNumberType::Float);
    assert!(arguments.signed);
    assert!(!arguments.exponent);
}

#[test]
fn real_mode_forces_signed_float_even_after_nosign() {
    let sort_options = cli_sort_options(false, false, CliNumberType::Real, false, true, false);

    assert!(sort_options.float);
    assert!(sort_options.signed);
}

#[test]
fn help_and_version_stop_reading() {
    assert!(matches!(parse_cli_arguments(&strings(&["-h", "--bogus"])), Ok(CliCommand::Help)));
    assert!(matches!(parse_cli_arguments(&strings(&["a", "--help"])), Ok(CliCommand::Help)));
    assert!(matches!(parse_cli_arguments(&strings(&["--version"])), Ok(CliCommand::Version)));
}

#[test]
fn double_dash_makes_the_rest_entries() {
    let arguments = parsed(&["-t", "real", "--", "value-2.5", "-x", "--help"]);
    assert_eq!(arguments.number_type, CliNumberType::Real);
    assert_eq!(arguments.entries, vec!["value-2.5", "-x", "--help"]);
}

#[test]
fn negative_numbers_are_entries_and_nosign_overrides_sign() {
    let arguments = parsed(&["-5", "-2.5e3", "--sign", "--nosign", "-z", "--number_type=r"]);
    assert_eq!(arguments.entries, vec!["-5", "-2.5e3"]);
    assert!(!arguments.signed);
    assert!(arguments.zero_terminated);
    assert_eq!(arguments.number_type, CliNumberType::Real);
}

#[test]
fn reports_invalid_number_type() {
    assert_eq!(
        parse_error(&["--number-type", "decimal", "value1"]),
        "argument -t/--number-type/--number_type: invalid choice: 'decimal' (choose from int, float, real, f, i, r)"
    );
    assert_eq!(
        parse_error(&["--number-type=x"]),
        "argument -t/--number-type/--number_type: invalid choice: 'x' (choose from int, float, real, f, i, r)"
    );
}

#[test]
fn reports_unknown_options() {
    assert_eq!(
        parse_error(&["--unknown-option", "value1"]),
        "unrecognized arguments: --unknown-option"
    );
    assert_eq!(parse_error(&["-"]), "unrecognized arguments: -");
}

#[test]
fn reports_missing_and_invalid_values() {
    assert_eq!(parse_error(&["-t"]), "argument -t: expected one argument");
    assert_eq!(parse_error(&["--exclude"]), "argument --exclude: expected one argument");
    assert_eq!(parse_error(&["-f", "1"]), "argument -f/--filter: expected 2 arguments");
    assert_eq!(
        parse_error(&["-F", "1", "x"]),
        "argument -F/--reverse-filter: invalid float value: 'x'"
    );
    assert_eq!(
        parse_error(&["-e", "1e"]),
        "argument -e/--exclude: invalid float value: '1e'"
    );
}

#[test]
fn recognizes_float_texts() {
    for text in ["1", "-1.5", "+.5", "5.", "1e10", "2.5E-3", "inf", "-Infinity", "NaN", "+nan"] {
        assert!(is_float_text(text), "{text}");
        assert!(text.parse::<f64>().is_ok(), "{text}");
    }
    for text in ["", ".", "e5", "1e", "1.2.3", " 1", "0x10", "infin", "--1", "1_000"] {
        assert!(!is_float_text(text), "{text}");
        assert!(text.parse::<f64>().is_err(), "{text}");
    }
}

#[test]
fn command_line_sorting_reads_signs_and_exponents() {
    let real = parsed(&["-t", "real", "--", "value-2.5", "value1", "value-10"]);
    assert_eq!(sorted_by_cli(&real, &real.entries), vec!["value-10", "value-2.5", "value1"]);
    let noexp = parsed(&["-t", "float", "--noexp", "value1e3", "value20", "value3e1"]);
    assert_eq!(sorted_by_cli(&noexp, &noexp.entries), vec!["value1e3", "value3e1", "value20"]);
    let reverse = parsed(&["--reverse", "file10", "file2", "file1"]);
    assert_eq!(sorted_by_cli(&reverse, &reverse.entries), vec!["file10", "file2", "file1"]);
}

#[test]
fn command_line_sorting_of_standard_input() {
    let zero = parsed(&["-z"]);
    let entries = split_entries("file10\0file2\0file1\0", zero.zero_terminated);
    assert_eq!(sorted_by_cli(&zero, &entries), vec!["file1", "file2", "file10"]);
    let lines = parsed(&[]);
    let entries = split_entries("file10\nfile2\nfile1\n", lines.zero_terminated);
    assert_eq!(sorted_by_cli(&lines, &entries), vec!["file1", "file2", "file10"]);
}

#[test]
fn parses_number_type_names() {
    assert_eq!(CliNumberType::parse("int"), Some(CliNumberType::Integer));
    assert_eq!(CliNumberType::parse("i"), Some(CliNumberType::Integer));
    assert_eq!(CliNumberType::parse("float"), Some(CliNumberType::Float));
    assert_eq!(CliNumberType::parse("f"), Some(CliNumberType::Float));
    assert_eq!(CliNumberType::parse("real"), Some(CliNumberType::Real));
    assert_eq!(CliNumberType::parse("r"), Some(CliNumberType::Real));
    assert_eq!(CliNumberType::parse("integer"), None);
    assert_eq!(CliNumberType::parse(""), None);
    assert_eq!(CliNumberType::default(), CliNumberType::Integer);
}

#[test]
fn number_types_select_float_and_sign() {
    assert!(!CliNumberType::Integer.uses_float());
    assert!(CliNumberType::Float.uses_float());
    assert!(CliNumberType::Real.uses_float());
    assert!(CliNumberType::Real.forces_sign());
    assert!(!CliNumberType::Float.forces_sign());
}

#[test]
fn command_line_flags_select_sort_options() {
    let real = cli_sort_options(true, true, CliNumberType::Real, false, false, true);
    assert_eq!(
        real,
        SortOptions::new()
            .path(true)
            .reverse(true)
            .float(true)
            .signed(true)
            .no_exp(true)
            .locale(true)
    );
    let plain = cli_sort_options(false, false, CliNumberType::Integer, false, true, false);
    assert_eq!(plain, SortOptions::new());
}

#[test]
fn splits_lines_and_drops_the_final_newline() {
    assert_eq!(split_entries("b\r\na\n", false), vec!["b", "a"]);
    assert_eq!(split_entries("a\n\nb", false), vec!["a", "", "b"]);
    assert_eq!(split_entries("a\r", false), vec!["a\r"]);
    assert_eq!(split_entries("\n", false), vec![""]);
}

#[test]
fn splits_zero_terminated_entries() {
    assert_eq!(split_entries("a\0\0b\0", true), vec!["a", "", "b"]);
    assert_eq!(split_entries("a\nb\0c", true), vec!["a\nb", "c"]);
    assert_eq!(split_entries("x\r\0", true), vec!["x\r"]);
}

#[test]
fn empty_input_is_one_empty_entry() {
    assert_eq!(split_entries("", false), vec![""]);
    assert_eq!(split_entries("", true), vec![""]);
}

#[test]
fn usage_and_help_texts_name_the_program() {
    let usage = "usage: natsort [-h] [--version] [-p] [-f LOW HIGH] [-F LOW HIGH]\n               [-e EXCLUDE] [-r] [-t {int,float,real,f,i,r}]\n               [--nosign] [-s] [--noexp] [-l] [-z]\n               [entries ...]\n";
    assert_eq!(natsort::cli::cli_usage("natsort"), usage);
    let help = natsort::cli::cli_help("natsort");
    assert!(help.starts_with(usage.trim_end()));
    assert!(help[usage.trim_end().len()..].starts_with("\nPerform a natural sort on entries given on the command-line.\n\n"));
    assert!(help.ends_with("  -z, --zero-terminated Split stdin entries on nulls instead of newlines.\n"));
    assert!(help.contains("\n  -t, --number-type, --number_type {int,float,real,f,i,r}\n"));
}
