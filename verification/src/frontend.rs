//! The front end's own logic: what it logs, and what it does when the
//! content server answers or fails.

use crate::launcher::CoreProcess;
use crate::text::{decimal_text, format_u16, string_views};
use vstd::prelude::*;
use vstd::string::*;

verus! {

/// What the front end is told.
#[derive(Debug)]
pub enum Message {
    /// The content server runs and the handshake is through; these are the
    /// lines that it logged.
    CoreHandshakeFinished(CoreProcess, Vec<String>),
    /// Starting the content server, or the handshake, failed.
    Error(String),
    /// The window is to close.
    CloseRequested,
}

/// What the front end asks its shell to do.
#[derive(Debug, Clone, Copy, PartialEq, Eq, Structural)]
pub enum UiCommand {
    /// Nothing.
    Idle,
    /// Start the content server and shake hands with it.
    StartCore,
    /// Ask for the window to close once this many seconds have passed.
    CloseAfter { seconds: u64 },
    /// Close the window now.
    CloseWindow,
}

/// The state of the front end.
#[derive(Debug)]
pub struct EditorApp {
    /// What the window shows, oldest line first.
    pub logs: Vec<String>,
    pub test_mode: bool,
    /// The content server, once it runs.
    pub core_process: Option<CoreProcess>,
}

/// An `EditorApp` as mathematical values.
pub struct EditorAppView {
    pub logs: Seq<Seq<char>>,
    pub test_mode: bool,
    pub core_process: Option<CoreProcess>,
}

impl View for EditorApp {
    type V = EditorAppView;

    open spec fn view(&self) -> EditorAppView {
        EditorAppView {
            logs: string_views(self.logs@),
            test_mode: self.test_mode,
            core_process: self.core_process,
        }
    }
}

/// A `Message` as mathematical values.
pub enum MessageView {
    CoreHandshakeFinished(CoreProcess, Seq<Seq<char>>),
    Error(Seq<char>),
    CloseRequested,
}

impl View for Message {
    type V = MessageView;

    open spec fn view(&self) -> MessageView {
        match self {
            Message::CoreHandshakeFinished(process, logs) => MessageView::CoreHandshakeFinished(
                *process,
                string_views(logs@),
            ),
            Message::Error(e) => MessageView::Error(e@),
            Message::CloseRequested => MessageView::CloseRequested,
        }
    }
}

/// How a truth value is written.
pub open spec fn bool_text(b: bool) -> Seq<char> {
    if b {
        "true"@
    } else {
        "false"@
    }
}

/// The lines that a new window shows.
pub open spec fn opening_logs(test_mode: bool) -> Seq<Seq<char>> {
    seq![
        "Initializing UI..."@,
        "Test Mode: "@ + bool_text(test_mode),
        "Launching Core process..."@,
    ]
}

/// The state of a new front end.
pub open spec fn initial_app(test_mode: bool) -> EditorAppView {
    EditorAppView { logs: opening_logs(test_mode), test_mode, core_process: None }
}

/// What a message makes of the front end, and what is to be done about it.
///
/// Once the content server has answered, its lines are shown behind a line
/// that says so. In test mode one more line announces that the window will
/// close, and the window is asked to close after one second. A failure is
/// shown as a line of its own; in test mode it closes the window at once.
pub open spec fn app_update(app: EditorAppView, message: MessageView) -> (EditorAppView, UiCommand) {
    match message {
        MessageView::CoreHandshakeFinished(process, logs) => {
            let shown = app.logs.push("Core process started successfully."@) + logs;
            if app.test_mode {
                (
                    EditorAppView {
                        logs: shown.push("Test mode enabled. Closing window in 1 second..."@),
                        core_process: Some(process),
                        ..app
                    },
                    UiCommand::CloseAfter { seconds: 1 },
                )
            } else {
                (EditorAppView { logs: shown, core_process: Some(process), ..app }, UiCommand::Idle)
            }
        },
        MessageView::Error(e) => (
            EditorAppView { logs: app.logs.push("Error: "@ + e), ..app },
            if app.test_mode {
                UiCommand::CloseWindow
            } else {
                UiCommand::Idle
            },
        ),
        MessageView::CloseRequested => (app, UiCommand::CloseWindow),
    }
}

/// The messages that the front end sends to shake hands.
pub open spec fn greeting_messages() -> Seq<Seq<char>> {
    seq!["Hello from GUI!"@, "GUI is running in test mode!"@]
}

/// The line that one answer of the content server leaves in the log.
pub open spec fn response_line(response: Result<String, String>) -> Seq<char> {
    match response {
        Ok(message) => "Server: "@ + message@,
        Err(e) => "RPC Error: "@ + e@,
    }
}

/// The lines that a handshake with the content server on `port` leaves in the
/// log: one that names the port, then one for each answer, in order.
pub open spec fn handshake_log(port: u16, responses: Seq<Result<String, String>>) -> Seq<
    Seq<char>,
> {
    seq!["Connected to Core on port "@ + decimal_text(port as nat)] + Seq::new(
        responses.len(),
        |i: int| response_line(responses[i]),
    )
}

fn prefixed(prefix: &str, rest: &str) -> (s: String)
    ensures
        s@ == prefix@ + rest@,
{
    let mut s = String::from_str(prefix);
    s.append(rest);
    s
}

/// The messages that the front end sends to shake hands.
pub fn handshake_requests() -> (messages: Vec<String>)
    ensures
        string_views(messages@) == greeting_messages(),
{
    let mut messages: Vec<String> = Vec::new();
    messages.push(String::from_str("Hello from GUI!"));
    messages.push(String::from_str("GUI is running in test mode!"));
    assert(string_views(messages@) =~= greeting_messages());
    messages
}

/// The lines that a handshake leaves in the log.
pub fn handshake_logs(port: u16, responses: &Vec<Result<String, String>>) -> (logs: Vec<String>)
    ensures
        string_views(logs@) == handshake_log(port, responses@),
{
    let mut logs: Vec<String> = Vec::new();
    let number = format_u16(port);
    logs.push(prefixed("Connected to Core on port ", number.as_str()));
    let n = responses.len();
    let mut i: usize = 0;
    while i < n
        invariant
            i <= n,
            n == responses@.len(),
            logs@.len() == i + 1,
            logs@[0]@ == "Connected to Core on port "@ + decimal_text(port as nat),
            forall|k: int| 0 <= k < i ==> (#[trigger] logs@[k + 1])@ == response_line(responses@[k]),
        decreases n - i,
    {
        let line = match &responses[i] {
            Ok(message) => prefixed("Server: ", message.as_str()),
            Err(e) => prefixed("RPC Error: ", e.as_str()),
        };
        logs.push(line);
        i = i + 1;
    }
    assert(string_views(logs@) =~= handshake_log(port, responses@)) by {
        let want = handshake_log(port, responses@);
        assert(want.len() == n + 1);
        assert forall|k: int| 0 <= k < n + 1 implies string_views(logs@)[k] == want[k] by {
            if k > 0 {
                assert(logs@[(k - 1) + 1]@ == response_line(responses@[k - 1]));
            }
        }
    }
    logs
}

impl EditorApp {
    /// A front end that has just opened its window. The first thing to do is
    /// to start the content server.
    pub fn new(test_mode: bool) -> (r: (Self, UiCommand))
        ensures
            r.0@ == initial_app(test_mode),
            r.1 == UiCommand::StartCore,
    {
        let mut logs: Vec<String> = Vec::new();
        logs.push(String::from_str("Initializing UI..."));
        logs.push(
            prefixed(
                "Test Mode: ",
                if test_mode {
                    "true"
                } else {
                    "false"
                },
            ),
        );
        logs.push(String::from_str("Launching Core process..."));
        assert(string_views(logs@) =~= opening_logs(test_mode));
        (EditorApp { logs, test_mode, core_process: None }, UiCommand::StartCore)
    }

    /// The title of the window.
    pub fn title(&self) -> (title: String)
        ensures
            title@ == "Eng Editor"@,
    {
        String::from_str("Eng Editor")
    }

    /// Takes one message and says what is to be done about it.
    pub fn update(&mut self, message: Message) -> (command: UiCommand)
        ensures
            final(self)@ == app_update(old(self)@, message@).0,
            command == app_update(old(self)@, message@).1,
    {
        match message {
            Message::CoreHandshakeFinished(process, mut logs) => {
                let ghost before = string_views(self.logs@);
                let ghost added = string_views(logs@);
                self.logs.push(String::from_str("Core process started successfully."));
                self.logs.append(&mut logs);
                assert(string_views(self.logs@) =~= before.push(
                    "Core process started successfully."@,
                ) + added);
                self.core_process = Some(process);
                if self.test_mode {
                    let ghost shown = string_views(self.logs@);
                    self.logs.push(
                        String::from_str("Test mode enabled. Closing window in 1 second..."),
                    );
                    assert(string_views(self.logs@) =~= shown.push(
                        "Test mode enabled. Closing window in 1 second..."@,
                    ));
                    UiCommand::CloseAfter { seconds: 1 }
                } else {
                    UiCommand::Idle
                }
            },
            Message::Error(e) => {
                let ghost before = string_views(self.logs@);
                self.logs.push(prefixed("Error: ", e.as_str()));
                assert(string_views(self.logs@) =~= before.push("Error: "@ + e@));
                if self.test_mode {
                    UiCommand::CloseWindow
                } else {
                    UiCommand::Idle
                }
            },
            Message::CloseRequested => UiCommand::CloseWindow,
        }
    }
}

// ---------------------------------------------------------------------------
// What holds of every front end
// ---------------------------------------------------------------------------

/// No message ever takes a line out of the log: what was shown stays shown,
/// in its place.
pub proof fn lemma_log_only_grows(app: EditorAppView, message: MessageView)
    ensures
        app.logs.len() <= app_update(app, message).0.logs.len(),
        app_update(app, message).0.logs.take(app.logs.len() as int) == app.logs,
{
    let after = app_update(app, message).0.logs;
    assert(after.take(app.logs.len() as int) =~= app.logs);
}

/// Outside test mode the front end never closes its window of its own
/// accord: only a request to close does.
pub proof fn lemma_only_request_closes(app: EditorAppView, message: MessageView)
    requires
        !app.test_mode,
        !(message is CloseRequested),
    ensures
        app_update(app, message).1 == UiCommand::Idle,
{
}

} // verus!
