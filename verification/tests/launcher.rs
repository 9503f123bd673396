use eng_session::launcher::{
    announced_port, Candidate, CoreProcess, Launch, LaunchAction, LaunchError, LaunchEvent,
    LaunchShape, LaunchStage, LaunchStep, Launcher, LocalLauncher, ProcessHandle, SearchContext,
    StdioMode,
};

fn candidates(list: &[(&str, bool)]) -> Vec<Candidate> {
    list.iter().map(|(path, exists)| Candidate { path: path.to_string(), exists: *exists }).collect()
}

fn context(over: Option<&str>, dir: Option<&str>, parent: Option<&str>, windows: bool) -> SearchContext {
    SearchContext {
        override_path: over.map(|s| s.to_string()),
        exe_dir: dir.map(|s| s.to_string()),
        exe_dir_parent: parent.map(|s| s.to_string()),
        windows,
    }
}

fn next(step: LaunchStep) -> (Launch, LaunchAction) {
    match step {
        LaunchStep::Next(launch, action) => (launch, action),
        LaunchStep::Done(result) => panic!("launch ended early: {:?}", result),
    }
}

fn done(step: LaunchStep) -> Result<ProcessHandle, LaunchError> {
    match step {
        LaunchStep::Done(result) => result,
        LaunchStep::Next(_, action) => panic!("launch goes on with {:?}", action),
    }
}

fn receiving(pid: u32) -> Launch {
    let found = candidates(&[("/bin/eng-core", true)]);
    let (launch, _) = next(Launcher::launch_core("tok", &found));
    let (launch, _) = next(launch.step(LaunchEvent::Spawned(pid)));
    let (launch, action) = next(launch.step(LaunchEvent::Sent));
    assert!(matches!(action, LaunchAction::Receive));
    launch
}

#[test]
fn search_order_is_override_then_sibling_then_parent() {
    let ctx = context(Some("/opt/custom/core"), Some("/app/target/debug/deps"), Some("/app/target/debug"), false);
    assert_eq!(
        Launcher::search_paths("eng-core", &ctx),
        vec!["/opt/custom/core", "/app/target/debug/deps/eng-core", "/app/target/debug/eng-core"]
    );
}

#[test]
fn search_leaves_out_what_is_not_known() {
    assert_eq!(
        Launcher::search_paths("ui", &context(None, Some("/app"), None, false)),
        vec!["/app/ui"]
    );
    assert_eq!(
        Launcher::search_paths("ui", &context(Some("/x/ui"), None, Some("/never/used"), false)),
        vec!["/x/ui"]
    );
    assert!(Launcher::search_paths("ui", &context(None, None, None, false)).is_empty());
}

#[test]
fn search_adds_the_windows_suffix() {
    assert_eq!(
        Launcher::search_paths("eng-core", &context(None, Some("C:/app"), Some("C:/"), true)),
        vec!["C:/app/eng-core.exe", "C:/eng-core.exe"]
    );
}

#[test]
fn front_end_searches_override_sibling_and_parent() {
    let ctx = context(Some("/opt/core"), Some("/app/bin"), Some("/app"), false);
    assert_eq!(
        LocalLauncher::search_paths(&ctx),
        vec!["/opt/core", "/app/bin/eng-core", "/app/eng-core"]
    );
}

#[test]
fn front_end_finds_the_content_server_one_directory_up() {
    let ctx = context(None, Some("/app/target/debug/deps"), Some("/app/target/debug"), false);
    let paths = LocalLauncher::search_paths(&ctx);
    assert_eq!(paths, vec!["/app/target/debug/deps/eng-core", "/app/target/debug/eng-core"]);
    let found: Vec<Candidate> = paths
        .into_iter()
        .map(|path| {
            let exists = path == "/app/target/debug/eng-core";
            Candidate { path, exists }
        })
        .collect();
    assert_eq!(LocalLauncher::resolve_binary_path(&found).unwrap(), "/app/target/debug/eng-core");
}

#[test]
fn broker_finds_an_executable_one_directory_up() {
    let ctx = context(None, Some("/app/bin"), Some("/app"), false);
    let found: Vec<Candidate> = Launcher::search_paths("ui", &ctx)
        .into_iter()
        .map(|path| {
            let exists = path == "/app/ui";
            Candidate { path, exists }
        })
        .collect();
    assert_eq!(Launcher::resolve_binary_path("ui", "ENG_UI_PATH", &found).unwrap(), "/app/ui");
}

#[test]
fn resolve_takes_the_first_candidate_that_exists() {
    let found = candidates(&[("/a", false), ("/b", true), ("/c", true)]);
    assert_eq!(Launcher::resolve_binary_path("eng-core", "ENG_CORE_PATH", &found).unwrap(), "/b");
    let found = candidates(&[("/a", true), ("/b", true)]);
    assert_eq!(Launcher::resolve_binary_path("eng-core", "ENG_CORE_PATH", &found).unwrap(), "/a");
    let found = candidates(&[("/a", false), ("/b", false), ("/c", true)]);
    assert_eq!(LocalLauncher::resolve_binary_path(&found).unwrap(), "/c");
}

#[test]
fn resolve_fails_with_name_and_variable() {
    for found in [candidates(&[]), candidates(&[("/a", false), ("/b", false)])] {
        match Launcher::resolve_binary_path("eng-core", "ENG_CORE_PATH", &found) {
            Err(LaunchError::BinaryNotFound { name, env_var }) => {
                assert_eq!(name, "eng-core");
                assert_eq!(env_var, "ENG_CORE_PATH");
            }
            other => panic!("unexpected {:?}", other),
        }
    }
    match LocalLauncher::resolve_binary_path(&candidates(&[])) {
        Err(LaunchError::BinaryNotFound { name, env_var }) => {
            assert_eq!(name, "eng-core");
            assert_eq!(env_var, "ENG_CORE_PATH");
        }
        other => panic!("unexpected {:?}", other),
    }
}

#[test]
fn error_messages_name_what_to_fix() {
    let e = LaunchError::BinaryNotFound { name: "ui".to_string(), env_var: "ENG_UI_PATH".to_string() };
    assert_eq!(
        e.message(),
        "Binary 'ui' not found. Please set ENG_UI_PATH or place it in the same directory."
    );
    assert_eq!(LaunchError::HandshakeFailed.message(), "Failed to retrieve port from core");
    assert_eq!(LaunchError::LaunchFailed.message(), "Failed to start the process");
    assert_eq!(e.duplicate().message(), e.message());
}

#[test]
fn announced_port_reads_one_trimmed_line() {
    assert_eq!(announced_port("50051\n"), Some(50051));
    assert_eq!(announced_port("  8080 \r\n"), Some(8080));
    assert_eq!(announced_port("1"), Some(1));
    assert_eq!(announced_port("65535\n"), Some(65535));
}

#[test]
fn announced_port_rejects_zero_and_garbage() {
    for line in ["0\n", "0", "00\n", "", "\n", "port 80\n", "65536\n", "-1\n", "80 81\n", "listening on 80\n"] {
        assert_eq!(announced_port(line), None, "line {:?}", line);
    }
}

#[test]
fn core_launch_spawns_with_pipes() {
    let found = candidates(&[("/missing", false), ("/usr/bin/eng-core", true)]);
    let (launch, action) = next(Launcher::launch_core("tok", &found));
    assert_eq!(launch.shape, LaunchShape::Handshake);
    assert_eq!(launch.stage, LaunchStage::Spawning);
    match action {
        LaunchAction::Spawn(request) => {
            assert_eq!(request.program, "/usr/bin/eng-core");
            assert!(request.args.is_empty());
            assert_eq!(request.stdin, StdioMode::Piped);
            assert_eq!(request.stdout, StdioMode::Piped);
            assert_eq!(request.stderr, StdioMode::Inherit);
            assert!(request.kill_on_drop);
        }
        other => panic!("unexpected {:?}", other),
    }
}

#[test]
fn core_launch_without_binary_spawns_nothing() {
    let result = done(Launcher::launch_core("tok", &candidates(&[("/a", false)])));
    assert!(matches!(result, Err(LaunchError::BinaryNotFound { .. })));
}

#[test]
fn handshake_sends_token_then_trusts_the_announced_port() {
    let found = candidates(&[("/bin/eng-core", true)]);
    let (launch, _) = next(Launcher::launch_core("my-token", &found));
    let (launch, action) = next(launch.step(LaunchEvent::Spawned(4242)));
    match action {
        LaunchAction::Send(text) => assert_eq!(text, "my-token\n"),
        other => panic!("unexpected {:?}", other),
    }
    let (launch, action) = next(launch.step(LaunchEvent::Sent));
    assert!(matches!(action, LaunchAction::Receive));
    let handle = done(launch.step(LaunchEvent::Received(Some("50051\n".to_string())))).unwrap();
    assert_eq!(handle.pid, 4242);
    assert_eq!(handle.port, Some(50051));
}

#[test]
fn silent_child_is_killed_before_the_launch_fails() {
    let launch = receiving(77);
    let (launch, action) = next(launch.step(LaunchEvent::Received(None)));
    assert!(matches!(action, LaunchAction::Kill(77)));
    assert_eq!(launch.stage, LaunchStage::Killing);
    let result = done(launch.step(LaunchEvent::Killed));
    assert!(matches!(result, Err(LaunchError::HandshakeFailed)));
}

#[test]
fn zero_port_is_treated_like_no_port() {
    let launch = receiving(78);
    let (launch, action) = next(launch.step(LaunchEvent::Received(Some("0\n".to_string()))));
    assert!(matches!(action, LaunchAction::Kill(78)));
    let result = done(launch.step(LaunchEvent::Killed));
    assert!(matches!(result, Err(LaunchError::HandshakeFailed)));
}

#[test]
fn unparsable_answer_is_treated_like_no_port() {
    for line in ["hello\n", "\n", "65536\n", "12 34\n"] {
        let launch = receiving(79);
        let (launch, action) = next(launch.step(LaunchEvent::Received(Some(line.to_string()))));
        assert!(matches!(action, LaunchAction::Kill(79)), "line {:?}", line);
        assert!(matches!(done(launch.step(LaunchEvent::Killed)), Err(LaunchError::HandshakeFailed)));
    }
}

#[test]
fn broken_pipes_kill_the_child() {
    let found = candidates(&[("/bin/eng-core", true)]);
    let (launch, _) = next(Launcher::launch_core("tok", &found));
    let (launch, _) = next(launch.step(LaunchEvent::Spawned(5)));
    let (launch, action) = next(launch.step(LaunchEvent::SendFailed));
    assert!(matches!(action, LaunchAction::Kill(5)));
    assert!(matches!(done(launch.step(LaunchEvent::Killed)), Err(LaunchError::HandshakeFailed)));

    let launch = receiving(6);
    let (launch, action) = next(launch.step(LaunchEvent::ReceiveFailed));
    assert!(matches!(action, LaunchAction::Kill(6)));
    assert!(matches!(done(launch.step(LaunchEvent::Killed)), Err(LaunchError::HandshakeFailed)));
}

#[test]
fn killing_goes_on_until_the_child_is_gone() {
    let launch = receiving(9);
    let (launch, _) = next(launch.step(LaunchEvent::Received(None)));
    let (launch, action) = next(launch.step(LaunchEvent::Sent));
    assert!(matches!(action, LaunchAction::Kill(9)));
    let (launch, action) = next(launch.step(LaunchEvent::Received(Some("80\n".to_string()))));
    assert!(matches!(action, LaunchAction::Kill(9)));
    assert!(matches!(done(launch.step(LaunchEvent::Killed)), Err(LaunchError::HandshakeFailed)));
}

#[test]
fn refused_spawn_fails_the_launch() {
    let found = candidates(&[("/bin/eng-core", true)]);
    let (launch, _) = next(Launcher::launch_core("tok", &found));
    assert!(matches!(done(launch.step(LaunchEvent::SpawnFailed)), Err(LaunchError::LaunchFailed)));
}

#[test]
fn front_end_launch_passes_port_and_token_as_arguments() {
    let found = candidates(&[("/bin/ui", true)]);
    let (launch, action) = next(Launcher::launch_ui(50051, "tok", false, &found));
    assert_eq!(launch.shape, LaunchShape::Arguments);
    match action {
        LaunchAction::Spawn(request) => {
            assert_eq!(request.program, "/bin/ui");
            assert_eq!(request.args, vec!["--agent-port", "50051", "--agent-token", "tok"]);
            assert_eq!(request.stdin, StdioMode::Inherit);
            assert_eq!(request.stdout, StdioMode::Inherit);
            assert_eq!(request.stderr, StdioMode::Inherit);
            assert!(request.kill_on_drop);
        }
        other => panic!("unexpected {:?}", other),
    }
    let handle = done(launch.step(LaunchEvent::Spawned(31))).unwrap();
    assert_eq!(handle.pid, 31);
    assert_eq!(handle.port, None);
}

#[test]
fn front_end_launch_passes_the_test_flag() {
    let found = candidates(&[("/bin/ui", true)]);
    let (_, action) = next(Launcher::launch_ui(1, "t", true, &found));
    match action {
        LaunchAction::Spawn(request) => {
            assert_eq!(request.args, vec!["--agent-port", "1", "--agent-token", "t", "--test-mode"]);
        }
        other => panic!("unexpected {:?}", other),
    }
}

#[test]
fn front_end_launch_fails_without_binary_or_spawn() {
    let missing = done(Launcher::launch_ui(1, "t", false, &candidates(&[])));
    match missing {
        Err(LaunchError::BinaryNotFound { name, env_var }) => {
            assert_eq!(name, "ui");
            assert_eq!(env_var, "ENG_UI_PATH");
        }
        other => panic!("unexpected {:?}", other),
    }
    let (launch, _) = next(Launcher::launch_ui(1, "t", false, &candidates(&[("/bin/ui", true)])));
    assert!(matches!(done(launch.step(LaunchEvent::SpawnFailed)), Err(LaunchError::LaunchFailed)));
}

#[test]
fn local_launcher_hands_out_its_token() {
    let launcher = LocalLauncher::new("front-token".to_string());
    let (launch, action) = next(launcher.launch(&candidates(&[("/bin/eng-core", true)])));
    assert!(matches!(action, LaunchAction::Spawn(_)));
    let (launch, action) = next(launch.step(LaunchEvent::Spawned(3)));
    match action {
        LaunchAction::Send(text) => assert_eq!(text, "front-token\n"),
        other => panic!("unexpected {:?}", other),
    }
    let (launch, _) = next(launch.step(LaunchEvent::Sent));
    let handle = done(launch.step(LaunchEvent::Received(Some("7000\n".to_string())))).unwrap();
    let core = CoreProcess::new(handle).unwrap();
    assert_eq!((core.pid, core.port), (3, 7000));
}

#[test]
fn core_process_needs_a_usable_port() {
    assert!(matches!(
        CoreProcess::new(ProcessHandle { pid: 1, port: None }),
        Err(LaunchError::HandshakeFailed)
    ));
    assert!(matches!(
        CoreProcess::new(ProcessHandle { pid: 1, port: Some(0) }),
        Err(LaunchError::HandshakeFailed)
    ));
    let core = CoreProcess::new(ProcessHandle { pid: 1, port: Some(9) }).unwrap();
    assert_eq!((core.pid, core.port), (1, 9));
}
