use mash::path::{is_absolute, is_relative, join, prompt_for, target_of_change};
use std::path::{Path, PathBuf};

fn strings(items: &[&str]) -> Vec<String> {
    items.iter().map(|s| s.to_string()).collect()
}

#[test]
fn absolute_paths_begin_at_the_root() {
    assert!(is_absolute("/"));
    assert!(is_absolute("/tmp"));
    assert!(is_absolute("//x"));
    assert!(!is_absolute(""));
    assert!(!is_absolute("tmp"));
    assert!(!is_absolute("./tmp"));
    assert!(!is_absolute("../tmp"));
    assert!(!is_absolute(" /tmp"));
    assert!(!is_absolute("~"));
}

#[test]
fn relative_is_not_absolute() {
    for p in ["", "/", "a", "/a", "a/b", "..", "é/"] {
        assert_eq!(is_relative(p), !is_absolute(p));
        assert_eq!(is_relative(p), Path::new(p).is_relative());
    }
}

#[test]
fn join_appends_a_relative_path() {
    assert_eq!(join("/a/b", "relative_dir"), "/a/b/relative_dir");
    assert_eq!(join("/a/b", ".."), "/a/b/..");
    assert_eq!(join("/a/b/", "c"), "/a/b/c");
    assert_eq!(join("/", "tmp"), "/tmp");
    assert_eq!(join("/a", ""), "/a/");
    assert_eq!(join("", "x"), "x");
}

#[test]
fn join_keeps_an_absolute_path() {
    assert_eq!(join("/a/b", "/tmp"), "/tmp");
    assert_eq!(join("/a/b", "/"), "/");
    assert_eq!(join("", "/x/y"), "/x/y");
}

#[test]
fn join_agrees_with_std() {
    let bases = ["/", "/a", "/a/", "/a/b", "/a//", "rel", ""];
    let paths = ["", "x", "x/y", "..", ".", "/", "/abs", "/abs/", "é"];
    for base in bases {
        for p in paths {
            let mut expected = PathBuf::from(base);
            expected.push(p);
            assert_eq!(join(base, p), expected.to_str().unwrap(), "{:?} {:?}", base, p);
        }
    }
}

#[test]
fn change_without_arguments_aims_at_home() {
    assert_eq!(target_of_change("/a/b", "/home/u", &Vec::new()), "/home/u");
    assert_eq!(target_of_change("/", "/home/u", &Vec::new()), "/home/u");
}

#[test]
fn change_takes_the_first_argument_only() {
    assert_eq!(target_of_change("/a/b", "/home/u", &strings(&["c"])), "/a/b/c");
    assert_eq!(target_of_change("/a/b", "/home/u", &strings(&["c", "d", "/e"])), "/a/b/c");
    assert_eq!(target_of_change("/a/b", "/home/u", &strings(&["/tmp", "d"])), "/tmp");
}

#[test]
fn prompt_shows_the_directory() {
    assert_eq!(prompt_for("/home/u"), "/home/u % ");
    assert_eq!(prompt_for("/"), "/ % ");
    assert_eq!(prompt_for(""), " % ");
}
