use cargo_quill::path::{absolute_path, file_name, join};

#[test]
fn file_name_of_relative_path() {
    assert_eq!(file_name("./my-plugin"), Some("my-plugin".to_string()));
    assert_eq!(file_name("a/b"), Some("b".to_string()));
}

#[test]
fn file_name_skips_trailing_separators_and_dots() {
    assert_eq!(file_name("a/b/"), Some("b".to_string()));
    assert_eq!(file_name("a/b//."), Some("b".to_string()));
    assert_eq!(file_name("/x/./"), Some("x".to_string()));
}

#[test]
fn file_name_absent() {
    assert_eq!(file_name(""), None);
    assert_eq!(file_name("/"), None);
    assert_eq!(file_name("."), None);
    assert_eq!(file_name("./"), None);
    assert_eq!(file_name("a/.."), None);
    assert_eq!(file_name(".."), None);
}

#[test]
fn file_name_keeps_dotted_names() {
    assert_eq!(file_name("a/.hidden"), Some(".hidden".to_string()));
    assert_eq!(file_name("a/..b"), Some("..b".to_string()));
}

#[test]
fn join_adds_one_separator() {
    assert_eq!(join("/home/u", "x"), "/home/u/x");
    assert_eq!(join("/home/u/", "x"), "/home/u/x");
    assert_eq!(join("", "x"), "x");
}

#[test]
fn join_absolute_replaces() {
    assert_eq!(join("/home/u", "/etc/y"), "/etc/y");
}

#[test]
fn absolute_path_of_relative_input() {
    assert_eq!(absolute_path("./my-plugin", "/home/u/proj"), "/home/u/proj/my-plugin");
    assert_eq!(absolute_path("../other", "/home/u/proj"), "/home/u/other");
    assert_eq!(absolute_path("a//b/./c/..", "/w"), "/w/a/b");
}

#[test]
fn absolute_path_of_absolute_input() {
    assert_eq!(absolute_path("/a/../b/./c", "/ignored"), "/b/c");
    assert_eq!(absolute_path("/../..", "/ignored"), "/");
    let r = absolute_path("/x/./y/../../z/.", "/w");
    assert_eq!(r, "/z");
    assert!(r.split('/').all(|c| c != "." && c != ".."));
}
