use eng_session::path::{binary_file_name, file_name, join_path};
use std::path::Path;

#[test]
fn join_puts_one_separator_between() {
    assert_eq!(join_path("/tmp", "x"), "/tmp/x");
    assert_eq!(join_path("/tmp/", "x"), "/tmp/x");
    assert_eq!(join_path("", "x"), "x");
    assert_eq!(join_path("/", "x"), "/x");
    assert_eq!(join_path("a/b", "c.d"), "a/b/c.d");
}

#[test]
fn join_agrees_with_the_standard_join_for_plain_names() {
    for base in ["", "/", "/tmp", "/tmp/", "a", "a/b", "a/b/", "./", ".."] {
        for name in ["x", "eng-core", "agent.port", "é"] {
            let expected = Path::new(base).join(name);
            assert_eq!(join_path(base, name), expected.to_string_lossy(), "{:?} {:?}", base, name);
        }
    }
}

#[test]
fn binary_file_name_adds_the_suffix_on_windows_only() {
    assert_eq!(binary_file_name("eng-core", false), "eng-core");
    assert_eq!(binary_file_name("eng-core", true), "eng-core.exe");
}

#[test]
fn file_name_is_the_last_component() {
    assert_eq!(file_name("/tmp/test.rs").as_deref(), Some("test.rs"));
    assert_eq!(file_name("a/b/").as_deref(), Some("b"));
    assert_eq!(file_name("a/b/.").as_deref(), Some("b"));
    assert_eq!(file_name("plain").as_deref(), Some("plain"));
    assert_eq!(file_name("a/..."), Some("...".to_string()));
}

#[test]
fn file_name_is_absent_without_a_component() {
    for path in ["", "/", "//", ".", "./", "..", "a/..", "/.."] {
        assert_eq!(file_name(path), None, "path {:?}", path);
    }
}

#[test]
fn file_name_agrees_with_the_standard_file_name() {
    let parts = ["", "/", ".", "..", "a", "b.c", "//", "./", "../", "...", ".x"];
    for first in parts {
        for second in parts {
            for third in parts {
                let path = format!("{}{}{}", first, second, third);
                let expected = Path::new(&path).file_name().map(|n| n.to_string_lossy().into_owned());
                assert_eq!(file_name(&path), expected, "path {:?}", path);
            }
        }
    }
}
