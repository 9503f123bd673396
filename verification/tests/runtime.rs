use eng_session::runtime::{
    cleanup_runtime_info, get_port_file_path, get_runtime_dir, load_runtime_info,
    save_runtime_info, RuntimeFile,
};

fn file_with(content: &str) -> RuntimeFile {
    RuntimeFile { content: Some(content.to_string()) }
}

#[test]
fn save_then_load_gives_the_pair_back() {
    let pairs = [
        (1u16, "a"),
        (8080, "secret-token"),
        (65535, "9f1c2b7e-5d3a-4c1e-8b2f-0a1b2c3d4e5f"),
        (0, "zero port is stored like any other"),
        (443, "ends in carriage return\r"),
        (50051, "tab\tand space"),
    ];
    for (port, token) in pairs {
        let mut file = RuntimeFile { content: None };
        save_runtime_info(&mut file, port, token);
        let info = load_runtime_info(&file).expect("a saved record loads");
        assert_eq!(info.port, port);
        assert_eq!(info.token, token);
    }
}

#[test]
fn save_writes_port_line_feed_token() {
    let mut file = RuntimeFile { content: None };
    save_runtime_info(&mut file, 50051, "tok");
    assert_eq!(file.content.as_deref(), Some("50051\ntok"));
}

#[test]
fn save_overwrites_what_was_there() {
    let mut file = file_with("1\nold\nmore lines\n");
    save_runtime_info(&mut file, 2, "new");
    assert_eq!(file.content.as_deref(), Some("2\nnew"));
    let info = load_runtime_info(&file).unwrap();
    assert_eq!((info.port, info.token.as_str()), (2, "new"));
}

#[test]
fn clear_then_load_gives_absence() {
    let mut file = RuntimeFile { content: None };
    save_runtime_info(&mut file, 8080, "tok");
    cleanup_runtime_info(&mut file);
    assert!(file.content.is_none());
    assert!(load_runtime_info(&file).is_none());
}

#[test]
fn clear_of_a_missing_file_is_no_error() {
    let mut file = RuntimeFile { content: None };
    cleanup_runtime_info(&mut file);
    assert!(file.content.is_none());
}

#[test]
fn load_of_a_missing_file_gives_absence() {
    assert!(load_runtime_info(&RuntimeFile { content: None }).is_none());
}

#[test]
fn load_of_fewer_than_two_lines_gives_absence() {
    for content in ["", "8080", "8080\n", "\n", "8080\r\n"] {
        assert!(load_runtime_info(&file_with(content)).is_none(), "content {:?}", content);
    }
}

#[test]
fn load_of_a_first_line_that_is_no_port_gives_absence() {
    for content in ["abc\ntoken", "\ntoken", "65536\ntoken", "-1\ntoken", " 80\ntoken", "80 \ntoken", "8o\ntoken"] {
        assert!(load_runtime_info(&file_with(content)).is_none(), "content {:?}", content);
    }
}

#[test]
fn load_reads_the_first_two_lines_and_ignores_the_rest() {
    let info = load_runtime_info(&file_with("8080\r\ntoken\r\nthird\n")).unwrap();
    assert_eq!(info.port, 8080);
    assert_eq!(info.token, "token");
}

#[test]
fn a_token_with_a_line_feed_does_not_survive() {
    let mut file = RuntimeFile { content: None };
    save_runtime_info(&mut file, 1, "a\nb");
    assert_eq!(load_runtime_info(&file).unwrap().token, "a");
    let mut file = RuntimeFile { content: None };
    save_runtime_info(&mut file, 1, "");
    assert!(load_runtime_info(&file).is_none());
}

#[test]
fn runtime_dir_is_scoped_to_the_user() {
    assert_eq!(get_runtime_dir("/tmp", Some("alice")), "/tmp/eng-agent-alice");
    assert_eq!(get_runtime_dir("/tmp/", Some("bob")), "/tmp/eng-agent-bob");
    assert_eq!(get_runtime_dir("/tmp", None), "/tmp/eng-agent-unknown");
    assert_eq!(get_runtime_dir("", Some("x")), "eng-agent-x");
}

#[test]
fn port_file_has_a_fixed_name() {
    assert_eq!(get_port_file_path("/tmp", Some("alice")), "/tmp/eng-agent-alice/agent.port");
    assert_eq!(get_port_file_path("/var/tmp/", None), "/var/tmp/eng-agent-unknown/agent.port");
}
