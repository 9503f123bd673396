use eng_session::frontend::{handshake_logs, handshake_requests, EditorApp, Message, UiCommand};
use eng_session::launcher::CoreProcess;

#[test]
fn new_app_shows_three_lines_and_starts_the_core() {
    let (app, command) = EditorApp::new(false);
    assert_eq!(command, UiCommand::StartCore);
    assert_eq!(app.logs, vec!["Initializing UI...", "Test Mode: false", "Launching Core process..."]);
    assert!(app.core_process.is_none());
    let (app, _) = EditorApp::new(true);
    assert_eq!(app.logs[1], "Test Mode: true");
    assert_eq!(app.title(), "Eng Editor");
}

#[test]
fn finished_handshake_is_shown() {
    let (mut app, _) = EditorApp::new(false);
    let command = app.update(Message::CoreHandshakeFinished(
        CoreProcess { pid: 1, port: 7000 },
        vec!["Connected to Core on port 7000".to_string(), "Server: Echo: hi".to_string()],
    ));
    assert_eq!(command, UiCommand::Idle);
    assert_eq!(
        app.logs[3..],
        ["Core process started successfully.", "Connected to Core on port 7000", "Server: Echo: hi"]
    );
    assert_eq!(app.core_process.map(|c| c.port), Some(7000));
}

#[test]
fn test_mode_closes_one_second_after_the_handshake() {
    let (mut app, _) = EditorApp::new(true);
    let command = app.update(Message::CoreHandshakeFinished(CoreProcess { pid: 1, port: 7000 }, vec![]));
    assert_eq!(command, UiCommand::CloseAfter { seconds: 1 });
    assert_eq!(
        app.logs[3..],
        ["Core process started successfully.", "Test mode enabled. Closing window in 1 second..."]
    );
}

#[test]
fn errors_are_shown_and_close_the_window_in_test_mode_only() {
    let (mut app, _) = EditorApp::new(false);
    assert_eq!(app.update(Message::Error("boom".to_string())), UiCommand::Idle);
    assert_eq!(app.logs.last().unwrap(), "Error: boom");
    let (mut app, _) = EditorApp::new(true);
    assert_eq!(app.update(Message::Error("boom".to_string())), UiCommand::CloseWindow);
    assert_eq!(app.logs.last().unwrap(), "Error: boom");
}

#[test]
fn close_request_closes_and_logs_nothing() {
    let (mut app, _) = EditorApp::new(false);
    assert_eq!(app.update(Message::CloseRequested), UiCommand::CloseWindow);
    assert_eq!(app.logs.len(), 3);
}

#[test]
fn handshake_sends_two_greetings() {
    assert_eq!(handshake_requests(), vec!["Hello from GUI!", "GUI is running in test mode!"]);
}

#[test]
fn handshake_log_names_the_port_and_every_answer() {
    let responses = vec![
        Ok("Echo: Hello from GUI!".to_string()),
        Err("status: Unavailable".to_string()),
        Ok("Echo: x".to_string()),
    ];
    assert_eq!(
        handshake_logs(50051, &responses),
        vec![
            "Connected to Core on port 50051",
            "Server: Echo: Hello from GUI!",
            "RPC Error: status: Unavailable",
            "Server: Echo: x",
        ]
    );
    assert_eq!(handshake_logs(1, &Vec::new()), vec!["Connected to Core on port 1"]);
}
