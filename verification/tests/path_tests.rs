use natsort::path::path_components;

#[test]
fn splits_regular_path_components() {
    assert_eq!(
        path_components("this/is/a/path"),
        vec!["this", "is", "a", "path"]
    );
}

#[test]
fn splits_windows_path_components() {
    assert_eq!(
        path_components(r"this\is\a\path"),
        vec!["this", "is", "a", "path"]
    );
}

#[test]
fn preserves_root_component() {
    assert_eq!(
        path_components("/this/is/a/path"),
        vec!["/", "this", "is", "a", "path"]
    );
}

#[test]
fn normalizes_empty_path_to_dot() {
    assert_eq!(path_components(""), vec!["."]);
}

#[test]
fn normalizes_dot_paths() {
    for input in [".", "./", "./././", ".\\"] {
        assert_eq!(path_components(input), vec!["."]);
    }
}

#[test]
fn preserves_parent_components() {
    assert_eq!(
        path_components("../folder/file.txt"),
        vec!["..", "folder", "file", ".txt"]
    );
}

#[test]
fn separates_single_extension() {
    assert_eq!(
        path_components("folder/file.x1.10.tar"),
        vec!["folder", "file.x1.10", ".tar"]
    );
}

#[test]
fn separates_two_extensions() {
    assert_eq!(
        path_components("/this/is/a/path/file.x1.10.tar.gz"),
        vec!["/", "this", "is", "a", "path", "file.x1.10", ".tar", ".gz",]
    );
}

#[test]
fn stops_before_numeric_suffix() {
    assert_eq!(path_components("file.123.txt"), vec!["file.123", ".txt"]);
}

#[test]
fn leaves_long_extension_attached() {
    assert_eq!(
        path_components("file.longextension"),
        vec!["file.longextension"]
    );
}

#[test]
fn separates_at_most_two_extensions() {
    assert_eq!(path_components("file.a.b.c"), vec!["file.a", ".b", ".c"]);
}

#[test]
fn handles_hidden_file_extension() {
    assert_eq!(path_components(".hidden.txt"), vec![".hidden", ".txt"]);
}

#[test]
fn does_not_treat_hidden_file_name_as_extension() {
    assert_eq!(path_components(".bashrc"), vec![".bashrc"]);
}

#[test]
fn applies_extension_length_heuristic() {
    assert_eq!(
        path_components("Try.Me.Bug - 09 - One.Two.Three.[text].mkv"),
        vec!["Try.Me.Bug - 09 - One.Two.Three.[text]", ".mkv",]
    );
}
