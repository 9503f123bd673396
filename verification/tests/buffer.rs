use eng_session::buffer::{Buffer, BufferError, EditorState, Encoding, LineEnding};
use eng_session::style::Style;
use std::path::Path;

#[test]
fn test_buffer_styles_sync() {
    let mut buf = Buffer::new("test".into(), "Hello");
    buf.styles.add_span(0..5, Style { color: 0, bold: true, italic: false });

    buf.insert(0, ">").unwrap();
    assert_eq!(buf.styles.get_spans()[0].range, 1..6);
}

#[test]
fn test_buffer_properties() {
    let mut buf = Buffer::new("scratch".into(), "Hello");
    assert_eq!(buf.name, "scratch");
    assert_eq!(buf.modified, false);
    assert_eq!(buf.read_only, false);

    buf.insert(5, "!").unwrap();
    assert_eq!(buf.modified, true);
}

#[test]
fn test_buffer_read_only() {
    let mut buf = Buffer::new("readonly".into(), "Hello");
    buf.read_only = true;
    let result = buf.insert(0, "X");
    assert!(result.is_err());
    assert_eq!(buf.to_string(), "Hello");
}

#[test]
fn test_buffer_set_path() {
    let mut buf = Buffer::new("old".into(), "");
    buf.set_path(String::from("/tmp/test.rs"));
    assert_eq!(buf.name, "test.rs");
    assert_eq!(buf.path, Some(String::from("/tmp/test.rs")));
}

#[test]
fn test_buffer_insert_delete() {
    let mut buf = Buffer::new("test".into(), "Hello");
    buf.insert(5, " World").unwrap();
    assert_eq!(buf.to_string(), "Hello World");

    buf.delete(0..6).unwrap();
    assert_eq!(buf.to_string(), "World");
}

#[test]
fn test_lines() {
    let buf = Buffer::new("lines".into(), "One\nTwo\nThree");
    assert_eq!(buf.len_lines(), 3);
    assert_eq!(buf.char_to_line(4), 1);
}

#[test]
fn test_editor_state() {
    let mut state = EditorState::new();
    let id = state.create_buffer("test.txt".into(), "Content");

    let buf = state.get_buffer(&id).expect("Buffer should exist");
    assert_eq!(buf.name, "test.txt");
    assert_eq!(buf.to_string(), "Content");
}

#[test]
fn new_buffer_is_clean() {
    let buf = Buffer::new("n".into(), "héllo\n");
    assert_eq!(buf.len_chars(), 6);
    assert_eq!(buf.to_string(), "héllo\n");
    assert!(buf.path.is_none());
    assert_eq!(buf.encoding, Encoding::Utf8);
    assert_eq!(buf.line_ending, LineEnding::Lf);
    assert!(buf.styles.get_spans().is_empty());
}

#[test]
fn insert_works_on_character_positions() {
    let mut buf = Buffer::new("n".into(), "äöü");
    buf.insert(1, "→").unwrap();
    assert_eq!(buf.to_string(), "ä→öü");
    buf.insert(4, "!").unwrap();
    assert_eq!(buf.to_string(), "ä→öü!");
    buf.insert(0, "").unwrap();
    assert_eq!(buf.to_string(), "ä→öü!");
    assert_eq!(buf.len_chars(), 5);
}

#[test]
fn insert_behind_the_end_is_refused() {
    let mut buf = Buffer::new("n".into(), "abc");
    assert_eq!(buf.insert(4, "x"), Err(BufferError::IndexOutOfBounds { index: 4, len: 3 }));
    assert_eq!(buf.to_string(), "abc");
    assert!(!buf.modified);
    assert_eq!(
        BufferError::IndexOutOfBounds { index: 4, len: 3 }.message(),
        "Index out of bounds: 4 > 3"
    );
}

#[test]
fn delete_of_a_bad_range_is_refused() {
    let mut buf = Buffer::new("n".into(), "abc");
    assert_eq!(buf.delete(2..4), Err(BufferError::InvalidRange { start: 2, end: 4, len: 3 }));
    #[allow(clippy::reversed_empty_ranges)]
    let reversed = 2..1;
    assert_eq!(buf.delete(reversed), Err(BufferError::InvalidRange { start: 2, end: 1, len: 3 }));
    assert_eq!(buf.to_string(), "abc");
    assert!(!buf.modified);
    assert_eq!(
        BufferError::InvalidRange { start: 2, end: 4, len: 3 }.message(),
        "Invalid range: 2..4 (len: 3)"
    );
}

#[test]
fn read_only_buffer_refuses_every_edit() {
    let mut buf = Buffer::new("n".into(), "abc");
    buf.read_only = true;
    assert_eq!(buf.insert(9, "x"), Err(BufferError::ReadOnly));
    assert_eq!(buf.delete(0..1), Err(BufferError::ReadOnly));
    assert_eq!(buf.delete(5..9), Err(BufferError::ReadOnly));
    assert_eq!(buf.to_string(), "abc");
    assert_eq!(BufferError::ReadOnly.message(), "Buffer is read-only");
}

#[test]
fn delete_takes_styles_along() {
    let mut buf = Buffer::new("n".into(), "0123456789");
    let style = Style { color: 1, bold: false, italic: false };
    buf.styles.add_span(0..3, style);
    buf.styles.add_span(4..6, style);
    buf.styles.add_span(5..9, style);
    buf.delete(4..6).unwrap();
    assert_eq!(buf.to_string(), "01236789");
    let ranges: Vec<_> = buf.styles.get_spans().iter().map(|s| s.range.clone()).collect();
    assert_eq!(ranges, vec![0..3, 4..7]);
    assert!(buf.modified);
}

#[test]
fn empty_delete_is_an_edit() {
    let mut buf = Buffer::new("n".into(), "abc");
    buf.delete(1..1).unwrap();
    assert_eq!(buf.to_string(), "abc");
    assert!(buf.modified);
}

#[test]
fn lines_and_positions() {
    let buf = Buffer::new("lines".into(), "One\nTwo\nThree");
    assert_eq!(buf.char_to_line(0), 0);
    assert_eq!(buf.char_to_line(3), 0);
    assert_eq!(buf.char_to_line(13), 2);
    assert_eq!(buf.line_to_char(0), 0);
    assert_eq!(buf.line_to_char(1), 4);
    assert_eq!(buf.line_to_char(2), 8);
    assert_eq!(buf.line_to_char(3), 13);
    assert_eq!(buf.line_of(13), Some(2));
    assert_eq!(buf.line_of(14), None);
    assert_eq!(buf.line_start(3), Some(13));
    assert_eq!(buf.line_start(4), None);
    assert_eq!(Buffer::new("e".into(), "").len_lines(), 1);
}

#[test]
fn set_path_without_file_name_keeps_the_name() {
    let mut buf = Buffer::new("old".into(), "");
    buf.set_path(String::from("/"));
    assert_eq!(buf.name, "old");
    assert_eq!(buf.path, Some(String::from("/")));
    buf.set_path(String::from("dir/.."));
    assert_eq!(buf.name, "old");
    assert_eq!(buf.path, Some(String::from("dir/..")));
}

#[test]
fn set_path_changes_path_and_name_only() {
    let mut buf = Buffer::new("old".into(), "text");
    buf.set_path(String::from("/a/b/"));
    assert_eq!(buf.name, "b");
    assert_eq!(buf.path(), Some("/a/b/"));
    assert_eq!(buf.to_string(), "text");
    assert!(!buf.is_modified());
    assert_eq!(buf.version(), 0);
}

#[test]
fn set_path_names_the_buffer_as_the_standard_library_names_the_file() {
    let samples = [
        "", "/", "//", ".", "..", "./", "../", "a", "a/", "a//", "a/.", "a/./", "a/..",
        "/tmp/test.rs", "/tmp/dir/", "tmp/foo.txt/.", "tmp/foo.txt/.//", "./x", "../y", "...",
        "a/...", ".hidden", "/usr/bin/..", "a/b/../c", "x/.y", "x/y.", "back\\slash", "é/ü.txt",
    ];
    for sample in samples {
        let mut buf = Buffer::new("kept".into(), "");
        buf.set_path(sample.to_string());
        let expected = match Path::new(sample).file_name() {
            Some(name) => name.to_string_lossy().into_owned(),
            None => "kept".to_string(),
        };
        assert_eq!(buf.name, expected, "path {:?}", sample);
        assert_eq!(buf.path.as_deref(), Some(sample));
    }
}

#[test]
fn accessors_show_what_the_buffer_holds() {
    let mut buf = Buffer::new("n".into(), "abc");
    assert_eq!(buf.name(), "n");
    assert_eq!(buf.path(), None);
    assert!(!buf.is_read_only());
    buf.set_read_only(true);
    assert!(buf.is_read_only());
    assert_eq!(buf.insert(0, "x"), Err(BufferError::ReadOnly));
    buf.set_read_only(false);
    buf.add_style(0..2, Style { color: 7, bold: false, italic: true });
    assert_eq!(buf.styles().get_spans().len(), 1);
    buf.insert(0, "x").unwrap();
    assert_eq!(buf.styles().get_spans()[0].range, 1..3);
    assert_eq!(buf.version(), 1);
    assert!(buf.is_modified());
}

#[test]
fn clone_is_a_buffer_of_its_own() {
    let mut buf = Buffer::new("n".into(), "abc");
    buf.set_path(String::from("/x/n"));
    buf.add_style(0..1, Style { color: 1, bold: true, italic: false });
    let mut copy = buf.clone();
    assert_eq!(copy.to_string(), "abc");
    assert_eq!(copy.name, "n");
    assert_eq!(copy.path, buf.path);
    assert_eq!(copy.styles.get_spans().len(), 1);
    copy.insert(3, "d").unwrap();
    assert_eq!(copy.to_string(), "abcd");
    assert_eq!(buf.to_string(), "abc");
    assert!(!buf.modified);
}

#[test]
fn editor_state_files_buffers_under_fresh_identifiers() {
    let mut state = EditorState::default();
    let a = state.create_buffer("a".into(), "first");
    let b = state.create_buffer("b".into(), "second");
    assert_ne!(a, b);
    assert_eq!(a.len(), 36);
    assert_eq!(state.get_buffer(&a).unwrap().to_string(), "first");
    assert_eq!(state.get_buffer(&b).unwrap().name, "b");
    assert!(state.get_buffer("no-such-id").is_none());
}

#[test]
fn insert_buffer_replaces_what_was_filed() {
    let mut state = EditorState::new();
    state.insert_buffer("id".to_string(), Buffer::new("one".into(), "1"));
    state.insert_buffer("id".to_string(), Buffer::new("two".into(), "2"));
    assert_eq!(state.get_buffer("id").unwrap().name, "two");
}
