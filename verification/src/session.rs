//! The session coordinator: the broker's top-level state machine.
//!
//! The coordinator owns every decision of a session and performs none of its
//! effects. Each step takes one observation and answers with the actions to
//! carry out, in order. At most the last action of a step is one that reports
//! back; `ClearRecord`, `Terminate` and `Exit` report nothing.

use crate::auth::{generate_auth_token, is_uuid_text, is_valid_token, valid_token};
use crate::launcher::{LaunchError, LaunchErrorView, ProcessHandle};
use crate::runtime::{record_of, RuntimeInfo, RuntimeRecord};
use crate::session_laws::{lemma_step_keeps_well_formed, well_formed};
use vstd::prelude::*;
use vstd::string::*;

verus! {

// ---------------------------------------------------------------------------
// Vocabulary
// ---------------------------------------------------------------------------

/// How the broker was asked to run.
#[derive(Debug, Clone, Copy)]
pub struct SessionConfig {
    /// Front ends are told to run in test mode.
    pub test_mode: bool,
    /// The session outlives its first front end.
    pub daemon: bool,
}

/// The four states of a session.
#[derive(Debug, Clone, Copy, PartialEq, Eq, Structural)]
pub enum SessionPhase {
    /// Looking for a broker that already runs, to hand the request over.
    Delegating,
    /// Building a session of its own.
    Originating,
    /// Serving calls and waiting for a reason to stop.
    Serving,
    /// Over. Nothing is owned any more.
    ShuttingDown,
}

/// What the coordinator is waiting for.
#[derive(Debug, Clone, Copy, PartialEq, Eq, Structural)]
pub enum Stage {
    AwaitingRecord,
    AwaitingDelegation,
    AwaitingCore,
    AwaitingBind,
    AwaitingSave,
    AwaitingFrontEnd,
    Serving,
    Closed,
}

/// The step of origination that failed.
#[derive(Debug)]
pub enum StartupError {
    /// The content server could not be launched.
    Core(LaunchError),
    /// No listening endpoint could be had.
    Bind,
    /// The runtime record could not be written.
    Persist,
    /// The first front end could not be launched.
    FrontEnd(LaunchError),
    /// A token that was to be handed out is not a valid token.
    InvalidToken,
}

/// A `StartupError` as mathematical values.
pub enum StartupErrorView {
    Core(LaunchErrorView),
    Bind,
    Persist,
    FrontEnd(LaunchErrorView),
    InvalidToken,
}

impl View for StartupError {
    type V = StartupErrorView;

    open spec fn view(&self) -> StartupErrorView {
        match self {
            StartupError::Core(e) => StartupErrorView::Core(e@),
            StartupError::Bind => StartupErrorView::Bind,
            StartupError::Persist => StartupErrorView::Persist,
            StartupError::FrontEnd(e) => StartupErrorView::FrontEnd(e@),
            StartupError::InvalidToken => StartupErrorView::InvalidToken,
        }
    }
}

impl StartupErrorView {
    /// The text reported to the user: which step failed, and why.
    pub open spec fn message_text(self) -> Seq<char> {
        match self {
            StartupErrorView::Core(e) => "Failed to launch core: "@ + e.message_text(),
            StartupErrorView::Bind => "Failed to bind a listening endpoint"@,
            StartupErrorView::Persist => "Failed to write the runtime record"@,
            StartupErrorView::FrontEnd(e) => "Failed to launch UI: "@ + e.message_text(),
            StartupErrorView::InvalidToken => "Invalid auth token format"@,
        }
    }
}

impl StartupError {
    /// The text reported to the user: which step failed, and why.
    pub fn message(&self) -> (s: String)
        ensures
            s@ == self@.message_text(),
    {
        match self {
            StartupError::Core(e) => {
                let mut s = String::from_str("Failed to launch core: ");
                let detail = e.message();
                s.append(detail.as_str());
                s
            },
            StartupError::Bind => String::from_str("Failed to bind a listening endpoint"),
            StartupError::Persist => String::from_str("Failed to write the runtime record"),
            StartupError::FrontEnd(e) => {
                let mut s = String::from_str("Failed to launch UI: ");
                let detail = e.message();
                s.append(detail.as_str());
                s
            },
            StartupError::InvalidToken => String::from_str("Invalid auth token format"),
        }
    }
}

/// How the process ends.
#[derive(Debug)]
pub enum ExitStatus {
    /// Clean delegation or clean shutdown.
    Success,
    /// Startup failed for good.
    Failure(StartupError),
}

/// An `ExitStatus` as mathematical values.
pub enum ExitStatusView {
    Success,
    Failure(StartupErrorView),
}

impl View for ExitStatus {
    type V = ExitStatusView;

    open spec fn view(&self) -> ExitStatusView {
        match self {
            ExitStatus::Success => ExitStatusView::Success,
            ExitStatus::Failure(e) => ExitStatusView::Failure(e@),
        }
    }
}

impl ExitStatus {
    /// The exit code of the process: zero for success, one for failure.
    pub fn code(&self) -> (c: i32)
        ensures
            c == if self@ is Success {
                0i32
            } else {
                1i32
            },
    {
        match self {
            ExitStatus::Success => 0,
            ExitStatus::Failure(_) => 1,
        }
    }
}

/// What the caller observed.
#[derive(Debug)]
pub enum SessionEvent {
    /// The registry was read: the record it holds, if any.
    RecordLoaded(Option<RuntimeInfo>),
    /// The recorded broker took the delegation call.
    Delegated,
    /// The recorded broker could not be reached, refused, or failed.
    DelegationFailed,
    /// The content server runs and has announced its port.
    CoreLaunched(ProcessHandle),
    /// The content server could not be launched.
    CoreLaunchFailed(LaunchError),
    /// The broker's own endpoint listens on this port.
    Bound(u16),
    /// No endpoint could be had.
    BindFailed,
    /// The runtime record is written.
    RecordSaved,
    /// The runtime record could not be written.
    RecordSaveFailed,
    /// A front end runs.
    FrontEndLaunched(ProcessHandle),
    /// A front end could not be launched.
    FrontEndLaunchFailed(LaunchError),
    /// An authenticated delegation call asks for one more front end.
    SpawnRequested,
    /// The front end with this process id has exited.
    FrontEndExited(u32),
    /// The RPC server has stopped.
    ServerStopped,
    /// The user interrupted the broker.
    Interrupted,
}

/// A `SessionEvent` as mathematical values.
pub enum SessionEventView {
    RecordLoaded(Option<RuntimeRecord>),
    Delegated,
    DelegationFailed,
    CoreLaunched(ProcessHandle),
    CoreLaunchFailed(LaunchErrorView),
    Bound(u16),
    BindFailed,
    RecordSaved,
    RecordSaveFailed,
    FrontEndLaunched(ProcessHandle),
    FrontEndLaunchFailed(LaunchErrorView),
    SpawnRequested,
    FrontEndExited(u32),
    ServerStopped,
    Interrupted,
}

impl View for SessionEvent {
    type V = SessionEventView;

    open spec fn view(&self) -> SessionEventView {
        match self {
            SessionEvent::RecordLoaded(r) => SessionEventView::RecordLoaded(record_of(*r)),
            SessionEvent::Delegated => SessionEventView::Delegated,
            SessionEvent::DelegationFailed => SessionEventView::DelegationFailed,
            SessionEvent::CoreLaunched(h) => SessionEventView::CoreLaunched(*h),
            SessionEvent::CoreLaunchFailed(e) => SessionEventView::CoreLaunchFailed(e@),
            SessionEvent::Bound(p) => SessionEventView::Bound(*p),
            SessionEvent::BindFailed => SessionEventView::BindFailed,
            SessionEvent::RecordSaved => SessionEventView::RecordSaved,
            SessionEvent::RecordSaveFailed => SessionEventView::RecordSaveFailed,
            SessionEvent::FrontEndLaunched(h) => SessionEventView::FrontEndLaunched(*h),
            SessionEvent::FrontEndLaunchFailed(e) => SessionEventView::FrontEndLaunchFailed(e@),
            SessionEvent::SpawnRequested => SessionEventView::SpawnRequested,
            SessionEvent::FrontEndExited(pid) => SessionEventView::FrontEndExited(*pid),
            SessionEvent::ServerStopped => SessionEventView::ServerStopped,
            SessionEvent::Interrupted => SessionEventView::Interrupted,
        }
    }
}

/// What the coordinator asks for.
#[derive(Debug)]
pub enum SessionAction {
    /// Read the registry. Answer with `RecordLoaded`.
    LoadRecord,
    /// Ask the broker at `port` to open one more front end, presenting
    /// `token`. Answer with `Delegated` or `DelegationFailed`.
    Delegate { port: u16, token: String },
    /// Remove the registry entry. No answer.
    ClearRecord,
    /// Launch the content server and hand it `token`. Answer with
    /// `CoreLaunched` or `CoreLaunchFailed`.
    LaunchCore { token: String },
    /// Bind an ephemeral listening endpoint. Answer with `Bound` or
    /// `BindFailed`.
    Bind,
    /// Write the runtime record. Answer with `RecordSaved` or
    /// `RecordSaveFailed`.
    SaveRecord { port: u16, token: String },
    /// Launch a front end that attaches to `port` with `token`. Answer with
    /// `FrontEndLaunched` or `FrontEndLaunchFailed`.
    LaunchFrontEnd { port: u16, token: String, test_mode: bool },
    /// Serve calls on `port` behind an interceptor for `token`. Answer with
    /// `ServerStopped` once the server ends.
    Serve { port: u16, token: String },
    /// Terminate this child by force. No answer.
    Terminate(ProcessHandle),
    /// End the process. No answer.
    Exit(ExitStatus),
}

/// A `SessionAction` as mathematical values.
pub enum SessionActionView {
    LoadRecord,
    Delegate { port: u16, token: Seq<char> },
    ClearRecord,
    LaunchCore { token: Seq<char> },
    Bind,
    SaveRecord { port: u16, token: Seq<char> },
    LaunchFrontEnd { port: u16, token: Seq<char>, test_mode: bool },
    Serve { port: u16, token: Seq<char> },
    Terminate(ProcessHandle),
    Exit(ExitStatusView),
}

impl View for SessionAction {
    type V = SessionActionView;

    open spec fn view(&self) -> SessionActionView {
        match self {
            SessionAction::LoadRecord => SessionActionView::LoadRecord,
            SessionAction::Delegate { port, token } => SessionActionView::Delegate {
                port: *port,
                token: token@,
            },
            SessionAction::ClearRecord => SessionActionView::ClearRecord,
            SessionAction::LaunchCore { token } => SessionActionView::LaunchCore { token: token@ },
            SessionAction::Bind => SessionActionView::Bind,
            SessionAction::SaveRecord { port, token } => SessionActionView::SaveRecord {
                port: *port,
                token: token@,
            },
            SessionAction::LaunchFrontEnd { port, token, test_mode } => {
                SessionActionView::LaunchFrontEnd {
                    port: *port,
                    token: token@,
                    test_mode: *test_mode,
                }
            },
            SessionAction::Serve { port, token } => SessionActionView::Serve {
                port: *port,
                token: token@,
            },
            SessionAction::Terminate(h) => SessionActionView::Terminate(*h),
            SessionAction::Exit(status) => SessionActionView::Exit(status@),
        }
    }
}

/// The views of a sequence of actions.
pub open spec fn action_views(actions: Seq<SessionAction>) -> Seq<SessionActionView> {
    actions.map_values(|a: SessionAction| a@)
}

// ---------------------------------------------------------------------------
// State
// ---------------------------------------------------------------------------

/// The state of one session. It is changed by the coordinator's own steps and
/// by nothing else.
#[derive(Debug)]
pub struct SessionCoordinator {
    pub config: SessionConfig,
    pub stage: Stage,
    /// The content server, once launched.
    pub core: Option<ProcessHandle>,
    /// The port of the broker's own endpoint, once bound.
    pub listen_port: u16,
    /// The token of the broker's own endpoint, once bound.
    pub token: String,
    /// The first front end, whose exit ends a session that is no daemon.
    pub primary: Option<u32>,
    /// The front ends that run, no process id twice.
    pub front_ends: Vec<ProcessHandle>,
}

/// A `SessionCoordinator` as mathematical values.
pub struct SessionView {
    pub config: SessionConfig,
    pub stage: Stage,
    pub core: Option<ProcessHandle>,
    pub listen_port: u16,
    pub token: Seq<char>,
    pub primary: Option<u32>,
    pub front_ends: Seq<ProcessHandle>,
}

impl View for SessionCoordinator {
    type V = SessionView;

    open spec fn view(&self) -> SessionView {
        SessionView {
            config: self.config,
            stage: self.stage,
            core: self.core,
            listen_port: self.listen_port,
            token: self.token@,
            primary: self.primary,
            front_ends: self.front_ends@,
        }
    }
}

// ---------------------------------------------------------------------------
// The transition function
// ---------------------------------------------------------------------------

/// The phase that a stage belongs to.
pub open spec fn phase_of(stage: Stage) -> SessionPhase {
    match stage {
        Stage::AwaitingRecord | Stage::AwaitingDelegation => SessionPhase::Delegating,
        Stage::AwaitingCore | Stage::AwaitingBind | Stage::AwaitingSave | Stage::AwaitingFrontEnd =>
            SessionPhase::Originating,
        Stage::Serving => SessionPhase::Serving,
        Stage::Closed => SessionPhase::ShuttingDown,
    }
}

/// The state in which a session begins.
pub open spec fn initial_session(config: SessionConfig) -> SessionView {
    SessionView {
        config,
        stage: Stage::AwaitingRecord,
        core: None,
        listen_port: 0,
        token: Seq::empty(),
        primary: None,
        front_ends: Seq::empty(),
    }
}

/// `handles` without the child `pid`.
pub open spec fn without_pid(handles: Seq<ProcessHandle>, pid: u32) -> Seq<ProcessHandle>
    decreases handles.len(),
{
    if handles.len() == 0 {
        handles
    } else {
        let rest = without_pid(handles.drop_last(), pid);
        if handles.last().pid == pid {
            rest
        } else {
            rest.push(handles.last())
        }
    }
}

/// The order to terminate everything that `s` owns: the content server first,
/// then each front end.
pub open spec fn terminations(s: SessionView) -> Seq<SessionActionView> {
    let core = match s.core {
        Some(h) => seq![SessionActionView::Terminate(h)],
        None => Seq::empty(),
    };
    core + Seq::new(s.front_ends.len(), |i: int| SessionActionView::Terminate(s.front_ends[i]))
}

/// `s`, over and owning nothing.
pub open spec fn closed(s: SessionView) -> SessionView {
    SessionView { stage: Stage::Closed, core: None, primary: None, front_ends: Seq::empty(), ..s }
}

/// Origination fails: everything spawned so far is torn down, then the
/// process ends in failure.
pub open spec fn abort(s: SessionView, error: StartupErrorView) -> (SessionView, Seq<
    SessionActionView,
>) {
    (closed(s), terminations(s).push(SessionActionView::Exit(ExitStatusView::Failure(error))))
}

/// The session ends: the registry entry is cleared, every child is
/// terminated, and the process ends in success.
pub open spec fn shutdown(s: SessionView) -> (SessionView, Seq<SessionActionView>) {
    (
        closed(s),
        (seq![SessionActionView::ClearRecord] + terminations(s)).push(
            SessionActionView::Exit(ExitStatusView::Success),
        ),
    )
}

/// Origination begins: the content server is launched with the fresh token.
pub open spec fn originate(s: SessionView, fresh: Seq<char>) -> (SessionView, Seq<
    SessionActionView,
>) {
    if valid_token(fresh) {
        (
            SessionView { stage: Stage::AwaitingCore, ..s },
            seq![SessionActionView::LaunchCore { token: fresh }],
        )
    } else {
        abort(s, StartupErrorView::InvalidToken)
    }
}

/// The action that launches a front end for the session `s`.
pub open spec fn launch_front_end(s: SessionView) -> SessionActionView {
    SessionActionView::LaunchFrontEnd {
        port: s.listen_port,
        token: s.token,
        test_mode: s.config.test_mode,
    }
}

/// Whether the step of `s` on `e` hands out a fresh token.
pub open spec fn needs_token(s: SessionView, e: SessionEventView) -> bool {
    match (s.stage, e) {
        (Stage::AwaitingRecord, SessionEventView::RecordLoaded(None)) => true,
        (Stage::AwaitingDelegation, SessionEventView::DelegationFailed) => true,
        (Stage::AwaitingBind, SessionEventView::Bound(port)) => port != 0,
        _ => false,
    }
}

/// One step of a session: the state after the observation `e`, and the
/// actions to carry out. `fresh` is a token that no one has seen yet; it is
/// used only where `needs_token` holds.
///
/// An observation that the current stage does not wait for changes nothing
/// and asks for nothing.
pub open spec fn session_step(s: SessionView, e: SessionEventView, fresh: Seq<char>) -> (
    SessionView,
    Seq<SessionActionView>,
) {
    match s.stage {
        Stage::AwaitingRecord => match e {
            SessionEventView::RecordLoaded(None) => originate(s, fresh),
            SessionEventView::RecordLoaded(Some(record)) => (
                SessionView { stage: Stage::AwaitingDelegation, ..s },
                seq![SessionActionView::Delegate { port: record.port, token: record.token }],
            ),
            _ => (s, Seq::empty()),
        },
        Stage::AwaitingDelegation => match e {
            SessionEventView::Delegated => (
                closed(s),
                seq![SessionActionView::Exit(ExitStatusView::Success)],
            ),
            SessionEventView::DelegationFailed => {
                let (next, actions) = originate(s, fresh);
                (next, seq![SessionActionView::ClearRecord] + actions)
            },
            _ => (s, Seq::empty()),
        },
        Stage::AwaitingCore => match e {
            SessionEventView::CoreLaunched(handle) => if handle.serving_port() is Some {
                (
                    SessionView { stage: Stage::AwaitingBind, core: Some(handle), ..s },
                    seq![SessionActionView::Bind],
                )
            } else {
                abort(
                    SessionView { core: Some(handle), ..s },
                    StartupErrorView::Core(LaunchErrorView::HandshakeFailed),
                )
            },
            SessionEventView::CoreLaunchFailed(error) => abort(s, StartupErrorView::Core(error)),
            _ => (s, Seq::empty()),
        },
        Stage::AwaitingBind => match e {
            SessionEventView::Bound(port) => if port == 0 {
                abort(s, StartupErrorView::Bind)
            } else if valid_token(fresh) {
                (
                    SessionView { stage: Stage::AwaitingSave, listen_port: port, token: fresh, ..s },
                    seq![SessionActionView::SaveRecord { port, token: fresh }],
                )
            } else {
                abort(s, StartupErrorView::InvalidToken)
            },
            SessionEventView::BindFailed => abort(s, StartupErrorView::Bind),
            _ => (s, Seq::empty()),
        },
        Stage::AwaitingSave => match e {
            SessionEventView::RecordSaved => (
                SessionView { stage: Stage::AwaitingFrontEnd, ..s },
                seq![launch_front_end(s)],
            ),
            SessionEventView::RecordSaveFailed => abort(s, StartupErrorView::Persist),
            _ => (s, Seq::empty()),
        },
        Stage::AwaitingFrontEnd => match e {
            SessionEventView::FrontEndLaunched(handle) => (
                SessionView {
                    stage: Stage::Serving,
                    primary: Some(handle.pid),
                    front_ends: seq![handle],
                    ..s
                },
                seq![SessionActionView::Serve { port: s.listen_port, token: s.token }],
            ),
            SessionEventView::FrontEndLaunchFailed(error) => abort(
                s,
                StartupErrorView::FrontEnd(error),
            ),
            _ => (s, Seq::empty()),
        },
        Stage::Serving => match e {
            SessionEventView::SpawnRequested => (s, seq![launch_front_end(s)]),
            SessionEventView::FrontEndLaunched(handle) => (
                SessionView {
                    front_ends: without_pid(s.front_ends, handle.pid).push(handle),
                    ..s
                },
                Seq::empty(),
            ),
            SessionEventView::FrontEndExited(pid) => {
                let left = SessionView { front_ends: without_pid(s.front_ends, pid), ..s };
                if s.primary == Some(pid) {
                    if s.config.daemon {
                        (SessionView { primary: None, ..left }, Seq::empty())
                    } else {
                        shutdown(left)
                    }
                } else {
                    (left, Seq::empty())
                }
            },
            SessionEventView::ServerStopped => shutdown(s),
            SessionEventView::Interrupted => shutdown(s),
            _ => (s, Seq::empty()),
        },
        Stage::Closed => (s, Seq::empty()),
    }
}

// ---------------------------------------------------------------------------
// The coordinator
// ---------------------------------------------------------------------------

impl SessionCoordinator {
    /// Begins a session. The first thing to do is to read the registry.
    pub fn new(config: SessionConfig) -> (r: (Self, Vec<SessionAction>))
        ensures
            r.0@ == initial_session(config),
            well_formed(r.0@),
            action_views(r.1@) == seq![SessionActionView::LoadRecord],
    {
        let coordinator = SessionCoordinator {
            config,
            stage: Stage::AwaitingRecord,
            core: None,
            listen_port: 0,
            token: String::new(),
            primary: None,
            front_ends: Vec::new(),
        };
        let mut actions: Vec<SessionAction> = Vec::new();
        actions.push(SessionAction::LoadRecord);
        assert(action_views(actions@) =~= seq![SessionActionView::LoadRecord]);
        (coordinator, actions)
    }

    /// The state the session is in.
    pub fn phase(&self) -> (phase: SessionPhase)
        ensures
            phase == phase_of(self.stage),
    {
        match self.stage {
            Stage::AwaitingRecord | Stage::AwaitingDelegation => SessionPhase::Delegating,
            Stage::AwaitingCore
            | Stage::AwaitingBind
            | Stage::AwaitingSave
            | Stage::AwaitingFrontEnd => SessionPhase::Originating,
            Stage::Serving => SessionPhase::Serving,
            Stage::Closed => SessionPhase::ShuttingDown,
        }
    }

    fn terminate_all(&self) -> (actions: Vec<SessionAction>)
        ensures
            action_views(actions@) == terminations(self@),
    {
        let mut actions: Vec<SessionAction> = Vec::new();
        match self.core {
            Some(handle) => {
                actions.push(SessionAction::Terminate(handle));
            },
            None => {},
        }
        let ghost core_part = action_views(actions@);
        let n = self.front_ends.len();
        let mut i: usize = 0;
        assert(action_views(actions@) =~= core_part + Seq::new(
            0,
            |k: int| SessionActionView::Terminate(self.front_ends@[k]),
        ));
        while i < n
            invariant
                i <= n,
                n == self.front_ends@.len(),
                action_views(actions@) == core_part + Seq::new(
                    i as nat,
                    |k: int| SessionActionView::Terminate(self.front_ends@[k]),
                ),
            decreases n - i,
        {
            let ghost before = action_views(actions@);
            actions.push(SessionAction::Terminate(self.front_ends[i]));
            assert(action_views(actions@) =~= before.push(
                SessionActionView::Terminate(self.front_ends@[i as int]),
            ));
            i = i + 1;
            assert(action_views(actions@) =~= core_part + Seq::new(
                i as nat,
                |k: int| SessionActionView::Terminate(self.front_ends@[k]),
            ));
        }
        assert(core_part =~= match self.core {
            Some(h) => seq![SessionActionView::Terminate(h)],
            None => Seq::empty(),
        });
        actions
    }

    fn close(&mut self)
        ensures
            final(self)@ == closed(old(self)@),
    {
        self.stage = Stage::Closed;
        self.core = None;
        self.primary = None;
        self.front_ends = Vec::new();
    }

    fn abort(&mut self, error: StartupError) -> (actions: Vec<SessionAction>)
        ensures
            final(self)@ == abort(old(self)@, error@).0,
            action_views(actions@) == abort(old(self)@, error@).1,
    {
        let mut actions = self.terminate_all();
        let ghost before = action_views(actions@);
        actions.push(SessionAction::Exit(ExitStatus::Failure(error)));
        assert(action_views(actions@) =~= before.push(
            SessionActionView::Exit(ExitStatusView::Failure(error@)),
        ));
        self.close();
        actions
    }

    fn shutdown(&mut self) -> (actions: Vec<SessionAction>)
        ensures
            final(self)@ == shutdown(old(self)@).0,
            action_views(actions@) == shutdown(old(self)@).1,
    {
        let mut actions: Vec<SessionAction> = Vec::new();
        actions.push(SessionAction::ClearRecord);
        let mut rest = self.terminate_all();
        let ghost rest_views = action_views(rest@);
        actions.append(&mut rest);
        assert(action_views(actions@) =~= seq![SessionActionView::ClearRecord] + rest_views);
        let ghost before = action_views(actions@);
        actions.push(SessionAction::Exit(ExitStatus::Success));
        assert(action_views(actions@) =~= before.push(
            SessionActionView::Exit(ExitStatusView::Success),
        ));
        self.close();
        actions
    }

    fn originate(&mut self, fresh: String) -> (actions: Vec<SessionAction>)
        ensures
            final(self)@ == originate(old(self)@, fresh@).0,
            action_views(actions@) == originate(old(self)@, fresh@).1,
    {
        if is_valid_token(fresh.as_str()) {
            self.stage = Stage::AwaitingCore;
            let mut actions: Vec<SessionAction> = Vec::new();
            actions.push(SessionAction::LaunchCore { token: fresh });
            assert(action_views(actions@) =~= seq![
                SessionActionView::LaunchCore { token: fresh@ },
            ]);
            actions
        } else {
            self.abort(StartupError::InvalidToken)
        }
    }

    fn front_end_action(&self) -> (action: SessionAction)
        ensures
            action@ == launch_front_end(self@),
    {
        SessionAction::LaunchFrontEnd {
            port: self.listen_port,
            token: self.token.clone(),
            test_mode: self.config.test_mode,
        }
    }

    fn forget(&mut self, pid: u32)
        ensures
            final(self)@ == (SessionView {
                front_ends: without_pid(old(self)@.front_ends, pid),
                ..old(self)@
            }),
    {
        let mut kept: Vec<ProcessHandle> = Vec::new();
        let n = self.front_ends.len();
        let mut i: usize = 0;
        assert(self.front_ends@.take(0) =~= Seq::<ProcessHandle>::empty());
        while i < n
            invariant
                i <= n,
                n == self.front_ends@.len(),
                kept@ == without_pid(self.front_ends@.take(i as int), pid),
            decreases n - i,
        {
            let handle = self.front_ends[i];
            proof {
                let next = self.front_ends@.take(i + 1);
                assert(next.drop_last() =~= self.front_ends@.take(i as int));
                assert(next.last() == handle);
            }
            if handle.pid != pid {
                kept.push(handle);
            }
            i = i + 1;
        }
        assert(self.front_ends@.take(n as int) =~= self.front_ends@);
        self.front_ends = kept;
    }

    /// Tells whether the step on `event` hands out a fresh token.
    pub fn needs_fresh_token(&self, event: &SessionEvent) -> (needed: bool)
        ensures
            needed == needs_token(self@, event@),
    {
        match self.stage {
            Stage::AwaitingRecord => match event {
                SessionEvent::RecordLoaded(None) => true,
                _ => false,
            },
            Stage::AwaitingDelegation => match event {
                SessionEvent::DelegationFailed => true,
                _ => false,
            },
            Stage::AwaitingBind => match event {
                SessionEvent::Bound(port) => *port != 0,
                _ => false,
            },
            _ => false,
        }
    }

    fn nothing() -> (actions: Vec<SessionAction>)
        ensures
            action_views(actions@) == Seq::<SessionActionView>::empty(),
    {
        let actions: Vec<SessionAction> = Vec::new();
        assert(action_views(actions@) =~= Seq::<SessionActionView>::empty());
        actions
    }

    fn only(action: SessionAction) -> (actions: Vec<SessionAction>)
        ensures
            action_views(actions@) == seq![action@],
    {
        let mut actions: Vec<SessionAction> = Vec::new();
        actions.push(action);
        assert(action_views(actions@) =~= seq![action@]);
        actions
    }

    /// Takes one observation, with the fresh token to hand out should the
    /// step need one, and answers with the actions to carry out in order. A
    /// well-formed session stays well-formed.
    pub fn advance(&mut self, event: SessionEvent, fresh_token: String) -> (actions: Vec<
        SessionAction,
    >)
        ensures
            final(self)@ == session_step(old(self)@, event@, fresh_token@).0,
            action_views(actions@) == session_step(old(self)@, event@, fresh_token@).1,
            well_formed(old(self)@) ==> well_formed(final(self)@),
    {
        proof {
            if well_formed(self@) {
                lemma_step_keeps_well_formed(self@, event@, fresh_token@);
            }
        }
        match self.stage {
            Stage::AwaitingRecord => match event {
                SessionEvent::RecordLoaded(None) => self.originate(fresh_token),
                SessionEvent::RecordLoaded(Some(record)) => {
                    self.stage = Stage::AwaitingDelegation;
                    Self::only(SessionAction::Delegate { port: record.port, token: record.token })
                },
                _ => Self::nothing(),
            },
            Stage::AwaitingDelegation => match event {
                SessionEvent::Delegated => {
                    self.close();
                    Self::only(SessionAction::Exit(ExitStatus::Success))
                },
                SessionEvent::DelegationFailed => {
                    let mut actions: Vec<SessionAction> = Vec::new();
                    actions.push(SessionAction::ClearRecord);
                    let mut rest = self.originate(fresh_token);
                    let ghost rest_views = action_views(rest@);
                    actions.append(&mut rest);
                    assert(action_views(actions@) =~= seq![SessionActionView::ClearRecord]
                        + rest_views);
                    actions
                },
                _ => Self::nothing(),
            },
            Stage::AwaitingCore => match event {
                SessionEvent::CoreLaunched(handle) => {
                    self.core = Some(handle);
                    let usable = match handle.port {
                        Some(port) => port != 0,
                        None => false,
                    };
                    if usable {
                        self.stage = Stage::AwaitingBind;
                        Self::only(SessionAction::Bind)
                    } else {
                        self.abort(StartupError::Core(LaunchError::HandshakeFailed))
                    }
                },
                SessionEvent::CoreLaunchFailed(error) => self.abort(StartupError::Core(error)),
                _ => Self::nothing(),
            },
            Stage::AwaitingBind => match event {
                SessionEvent::Bound(port) => {
                    if port == 0 {
                        self.abort(StartupError::Bind)
                    } else if is_valid_token(fresh_token.as_str()) {
                        self.stage = Stage::AwaitingSave;
                        self.listen_port = port;
                        self.token = fresh_token.clone();
                        Self::only(SessionAction::SaveRecord { port, token: fresh_token })
                    } else {
                        self.abort(StartupError::InvalidToken)
                    }
                },
                SessionEvent::BindFailed => self.abort(StartupError::Bind),
                _ => Self::nothing(),
            },
            Stage::AwaitingSave => match event {
                SessionEvent::RecordSaved => {
                    let action = self.front_end_action();
                    self.stage = Stage::AwaitingFrontEnd;
                    Self::only(action)
                },
                SessionEvent::RecordSaveFailed => self.abort(StartupError::Persist),
                _ => Self::nothing(),
            },
            Stage::AwaitingFrontEnd => match event {
                SessionEvent::FrontEndLaunched(handle) => {
                    self.stage = Stage::Serving;
                    self.primary = Some(handle.pid);
                    let mut front_ends: Vec<ProcessHandle> = Vec::new();
                    front_ends.push(handle);
                    assert(front_ends@ =~= seq![handle]);
                    self.front_ends = front_ends;
                    Self::only(
                        SessionAction::Serve { port: self.listen_port, token: self.token.clone() },
                    )
                },
                SessionEvent::FrontEndLaunchFailed(error) => self.abort(
                    StartupError::FrontEnd(error),
                ),
                _ => Self::nothing(),
            },
            Stage::Serving => match event {
                SessionEvent::SpawnRequested => {
                    let action = self.front_end_action();
                    Self::only(action)
                },
                SessionEvent::FrontEndLaunched(handle) => {
                    self.forget(handle.pid);
                    self.front_ends.push(handle);
                    Self::nothing()
                },
                SessionEvent::FrontEndExited(pid) => {
                    let was_primary = match self.primary {
                        Some(p) => p == pid,
                        None => false,
                    };
                    self.forget(pid);
                    if was_primary {
                        if self.config.daemon {
                            self.primary = None;
                            Self::nothing()
                        } else {
                            self.shutdown()
                        }
                    } else {
                        Self::nothing()
                    }
                },
                SessionEvent::ServerStopped => self.shutdown(),
                SessionEvent::Interrupted => self.shutdown(),
                _ => Self::nothing(),
            },
            Stage::Closed => Self::nothing(),
        }
    }

    /// Takes one observation and answers with the actions to carry out in
    /// order. Where the step hands out a token, the token is drawn here; it
    /// is a fresh identifier, and the step is the one that `advance` takes
    /// with it. A well-formed session stays well-formed.
    pub fn step(&mut self, event: SessionEvent) -> (actions: Vec<SessionAction>)
        ensures
            exists|fresh: Seq<char>|
                {
                    &&& needs_token(old(self)@, event@) ==> is_uuid_text(fresh)
                    &&& final(self)@ == (#[trigger] session_step(old(self)@, event@, fresh)).0
                    &&& action_views(actions@) == session_step(old(self)@, event@, fresh).1
                },
            well_formed(old(self)@) ==> well_formed(final(self)@),
    {
        let fresh = if self.needs_fresh_token(&event) {
            generate_auth_token()
        } else {
            String::new()
        };
        let ghost token = fresh@;
        let actions = self.advance(event, fresh);
        assert(final(self)@ == session_step(old(self)@, event@, token).0);
        actions
    }
}

} // verus!
