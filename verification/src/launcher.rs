//! Locating and launching child processes.
//!
//! Nothing here touches the operating system. The resolver decides among
//! candidates that the caller has probed, and a launch is a small state
//! machine: it names the next thing to do to the child, the caller does it and
//! reports what happened.

use crate::path::{binary_file_name, binary_file_text, join_path, join_text};
use crate::text::{parse_u16, parse_u16_text, string_views, trim, trim_text};
use vstd::prelude::*;
use vstd::string::*;

verus! {

// ---------------------------------------------------------------------------
// Errors and handles
// ---------------------------------------------------------------------------

/// Why a child process could not be had.
#[derive(Debug)]
pub enum LaunchError {
    /// No candidate location holds the executable. Carries the name that was
    /// searched for and the environment variable that overrides the search.
    BinaryNotFound { name: String, env_var: String },
    /// The operating system refused to start the process.
    LaunchFailed,
    /// The child did not announce a usable port: it closed its output, wrote
    /// something that is no port number, wrote zero, or a pipe broke.
    HandshakeFailed,
}

/// A `LaunchError` as mathematical values.
pub enum LaunchErrorView {
    BinaryNotFound { name: Seq<char>, env_var: Seq<char> },
    LaunchFailed,
    HandshakeFailed,
}

impl View for LaunchError {
    type V = LaunchErrorView;

    open spec fn view(&self) -> LaunchErrorView {
        match self {
            LaunchError::BinaryNotFound { name, env_var } => LaunchErrorView::BinaryNotFound {
                name: name@,
                env_var: env_var@,
            },
            LaunchError::LaunchFailed => LaunchErrorView::LaunchFailed,
            LaunchError::HandshakeFailed => LaunchErrorView::HandshakeFailed,
        }
    }
}

impl LaunchErrorView {
    /// The text shown to the user.
    pub open spec fn message_text(self) -> Seq<char> {
        match self {
            LaunchErrorView::BinaryNotFound { name, env_var } => "Binary '"@ + name
                + "' not found. Please set "@ + env_var + " or place it in the same directory."@,
            LaunchErrorView::LaunchFailed => "Failed to start the process"@,
            LaunchErrorView::HandshakeFailed => "Failed to retrieve port from core"@,
        }
    }
}

impl LaunchError {
    /// The text shown to the user. For a missing executable it names both the
    /// executable and the variable that can point to it.
    pub fn message(&self) -> (s: String)
        ensures
            s@ == self@.message_text(),
    {
        match self {
            LaunchError::BinaryNotFound { name, env_var } => {
                let mut s = String::from_str("Binary '");
                s.append(name.as_str());
                s.append("' not found. Please set ");
                s.append(env_var.as_str());
                s.append(" or place it in the same directory.");
                s
            },
            LaunchError::LaunchFailed => String::from_str("Failed to start the process"),
            LaunchError::HandshakeFailed => String::from_str("Failed to retrieve port from core"),
        }
    }

    /// A copy of this error.
    pub fn duplicate(&self) -> (e: LaunchError)
        ensures
            e@ == self@,
    {
        match self {
            LaunchError::BinaryNotFound { name, env_var } => LaunchError::BinaryNotFound {
                name: name.clone(),
                env_var: env_var.clone(),
            },
            LaunchError::LaunchFailed => LaunchError::LaunchFailed,
            LaunchError::HandshakeFailed => LaunchError::HandshakeFailed,
        }
    }
}

/// A running child: its process id and, for a child launched with a
/// handshake, the port it announced.
#[derive(Debug, Clone, Copy)]
pub struct ProcessHandle {
    pub pid: u32,
    pub port: Option<u16>,
}

impl ProcessHandle {
    /// The port this child serves on, if it announced a usable one. Zero is
    /// never a port.
    pub open spec fn serving_port(self) -> Option<u16> {
        match self.port {
            Some(p) if p != 0 => Some(p),
            _ => None,
        }
    }
}

/// The content server as a front end holds it: a child that is known to serve
/// on `port`.
#[derive(Debug, Clone, Copy)]
pub struct CoreProcess {
    pub pid: u32,
    pub port: u16,
}

impl CoreProcess {
    /// Accepts a launched child as the content server. A child without a
    /// usable port is refused with `HandshakeFailed`.
    pub fn new(handle: ProcessHandle) -> (r: Result<CoreProcess, LaunchError>)
        ensures
            match handle.serving_port() {
                Some(port) => r is Ok && r->Ok_0.pid == handle.pid && r->Ok_0.port == port,
                None => r is Err && r->Err_0@ == LaunchErrorView::HandshakeFailed,
            },
    {
        match handle.port {
            Some(port) => {
                if port != 0 {
                    Ok(CoreProcess { pid: handle.pid, port })
                } else {
                    Err(LaunchError::HandshakeFailed)
                }
            },
            None => Err(LaunchError::HandshakeFailed),
        }
    }
}

// ---------------------------------------------------------------------------
// Resolving an executable
// ---------------------------------------------------------------------------

/// What the resolver is told about the surroundings of the running program.
#[derive(Debug)]
pub struct SearchContext {
    /// The value of the override variable, where it is set.
    pub override_path: Option<String>,
    /// The directory that holds the running executable, where it is known.
    pub exe_dir: Option<String>,
    /// The parent of that directory, where there is one.
    pub exe_dir_parent: Option<String>,
    /// Whether executables carry the Windows suffix.
    pub windows: bool,
}

/// A `SearchContext` as mathematical values.
pub struct SearchContextView {
    pub override_path: Option<Seq<char>>,
    pub exe_dir: Option<Seq<char>>,
    pub exe_dir_parent: Option<Seq<char>>,
    pub windows: bool,
}

/// The view of an optional string.
pub open spec fn optional_text(s: Option<String>) -> Option<Seq<char>> {
    match s {
        Some(t) => Some(t@),
        None => None,
    }
}

impl View for SearchContext {
    type V = SearchContextView;

    open spec fn view(&self) -> SearchContextView {
        SearchContextView {
            override_path: optional_text(self.override_path),
            exe_dir: optional_text(self.exe_dir),
            exe_dir_parent: optional_text(self.exe_dir_parent),
            windows: self.windows,
        }
    }
}

/// One location where the executable may be, and whether a file is there.
#[derive(Debug)]
pub struct Candidate {
    pub path: String,
    pub exists: bool,
}

/// The locations to try for the executable `name`, best first: the override,
/// then the file beside the running executable, then the file one directory
/// further up. A location whose directory is not known is left out, and the
/// parent is only tried where the directory itself is known.
pub open spec fn search_order(name: Seq<char>, ctx: SearchContextView) -> Seq<Seq<char>> {
    let file = binary_file_text(name, ctx.windows);
    let first = match ctx.override_path {
        Some(p) => seq![p],
        None => Seq::empty(),
    };
    let rest = match ctx.exe_dir {
        Some(dir) => seq![join_text(dir, file)] + match ctx.exe_dir_parent {
            Some(parent) => seq![join_text(parent, file)],
            None => Seq::empty(),
        },
        None => Seq::empty(),
    };
    first + rest
}

/// The position of the first candidate at or after `from` that exists, or the
/// number of candidates where none does.
pub open spec fn first_existing(candidates: Seq<Candidate>, from: int) -> int
    decreases candidates.len() - from,
{
    if 0 <= from < candidates.len() && !candidates[from].exists {
        first_existing(candidates, from + 1)
    } else {
        from
    }
}

/// The outcome of a search: the path of the first candidate that exists, or
/// `BinaryNotFound` with the name and the variable where none exists.
pub open spec fn resolve_text(name: Seq<char>, env_var: Seq<char>, candidates: Seq<Candidate>)
    -> Result<Seq<char>, LaunchErrorView> {
    let at = first_existing(candidates, 0);
    if at < candidates.len() {
        Ok(candidates[at].path@)
    } else {
        Err(LaunchErrorView::BinaryNotFound { name, env_var })
    }
}

/// The view of a resolver's result.
pub open spec fn resolved_view(r: Result<String, LaunchError>) -> Result<
    Seq<char>,
    LaunchErrorView,
> {
    match r {
        Ok(p) => Ok(p@),
        Err(e) => Err(e@),
    }
}

/// `first_existing` lands on a candidate that exists, or past the end, and
/// every candidate before it is missing: the first match wins.
pub proof fn lemma_first_existing(candidates: Seq<Candidate>, from: int)
    requires
        0 <= from <= candidates.len(),
    ensures
        from <= first_existing(candidates, from) <= candidates.len(),
        first_existing(candidates, from) < candidates.len() ==> candidates[first_existing(
            candidates,
            from,
        )].exists,
        forall|k: int| from <= k < first_existing(candidates, from) ==> !candidates[k].exists,
    decreases candidates.len() - from,
{
    if from < candidates.len() && !candidates[from].exists {
        lemma_first_existing(candidates, from + 1);
    }
}

/// With no override set, and nothing beside the running executable, an
/// executable one directory up is found: the search gives its path.
pub proof fn lemma_parent_directory_is_searched(
    name: Seq<char>,
    env_var: Seq<char>,
    ctx: SearchContextView,
    candidates: Seq<Candidate>,
)
    requires
        ctx.override_path is None,
        ctx.exe_dir is Some,
        ctx.exe_dir_parent is Some,
        candidates.len() == search_order(name, ctx).len(),
        forall|i: int|
            0 <= i < candidates.len() ==> (#[trigger] candidates[i]).path@ == search_order(
                name,
                ctx,
            )[i],
        !candidates[0].exists,
        candidates[1].exists,
    ensures
        resolve_text(name, env_var, candidates) == Ok::<Seq<char>, LaunchErrorView>(
            join_text(ctx.exe_dir_parent->0, binary_file_text(name, ctx.windows)),
        ),
{
    assert(search_order(name, ctx).len() == 2);
    lemma_first_existing(candidates, 0);
    assert(first_existing(candidates, 1) == 1);
    assert(first_existing(candidates, 0) == 1);
}

/// The search fails exactly when no candidate exists.
pub proof fn lemma_not_found_iff_none_exists(
    name: Seq<char>,
    env_var: Seq<char>,
    candidates: Seq<Candidate>,
)
    ensures
        resolve_text(name, env_var, candidates) is Err <==> forall|k: int|
            0 <= k < candidates.len() ==> !candidates[k].exists,
{
    lemma_first_existing(candidates, 0);
}

fn search_paths(name: &str, ctx: &SearchContext) -> (paths: Vec<String>)
    ensures
        string_views(paths@) == search_order(name@, ctx@),
{
    let file = binary_file_name(name, ctx.windows);
    let mut paths: Vec<String> = Vec::new();
    match &ctx.override_path {
        Some(p) => {
            paths.push(p.clone());
        },
        None => {},
    }
    match &ctx.exe_dir {
        Some(dir) => {
            paths.push(join_path(dir.as_str(), file.as_str()));
            match &ctx.exe_dir_parent {
                Some(parent) => {
                    paths.push(join_path(parent.as_str(), file.as_str()));
                },
                None => {},
            }
        },
        None => {},
    }
    assert(string_views(paths@) =~= search_order(name@, ctx@));
    paths
}

fn resolve(name: &str, env_var: &str, candidates: &Vec<Candidate>) -> (r: Result<
    String,
    LaunchError,
>)
    ensures
        resolved_view(r) == resolve_text(name@, env_var@, candidates@),
{
    let n = candidates.len();
    let mut i: usize = 0;
    while i < n && !candidates[i].exists
        invariant
            i <= n,
            n == candidates@.len(),
            first_existing(candidates@, 0) == first_existing(candidates@, i as int),
        decreases n - i,
    {
        i = i + 1;
    }
    if i < n {
        Ok(candidates[i].path.clone())
    } else {
        Err(LaunchError::BinaryNotFound { name: String::from_str(name), env_var: String::from_str(env_var) })
    }
}

// ---------------------------------------------------------------------------
// Launching
// ---------------------------------------------------------------------------

/// How one standard stream of a child is connected.
#[derive(Debug, Clone, Copy, PartialEq, Eq, Structural)]
pub enum StdioMode {
    /// The child shares the parent's stream.
    Inherit,
    /// The parent holds the other end of a pipe.
    Piped,
}

/// Everything needed to start a child.
#[derive(Debug)]
pub struct SpawnRequest {
    pub program: String,
    pub args: Vec<String>,
    pub stdin: StdioMode,
    pub stdout: StdioMode,
    pub stderr: StdioMode,
    /// The child must die with its owner, also where the owner ends uncleanly.
    pub kill_on_drop: bool,
}

/// A `SpawnRequest` as mathematical values.
pub struct SpawnRequestView {
    pub program: Seq<char>,
    pub args: Seq<Seq<char>>,
    pub stdin: StdioMode,
    pub stdout: StdioMode,
    pub stderr: StdioMode,
    pub kill_on_drop: bool,
}

impl View for SpawnRequest {
    type V = SpawnRequestView;

    open spec fn view(&self) -> SpawnRequestView {
        SpawnRequestView {
            program: self.program@,
            args: string_views(self.args@),
            stdin: self.stdin,
            stdout: self.stdout,
            stderr: self.stderr,
            kill_on_drop: self.kill_on_drop,
        }
    }
}

/// The two ways to launch a child.
#[derive(Debug, Clone, Copy, PartialEq, Eq, Structural)]
pub enum LaunchShape {
    /// The child is handed a token on its input and must answer with its port.
    Handshake,
    /// The child gets everything as arguments; being started is success.
    Arguments,
}

/// How far a launch has come.
#[derive(Debug, Clone, Copy, PartialEq, Eq, Structural)]
pub enum LaunchStage {
    /// The spawn was asked for.
    Spawning,
    /// The greeting is on its way to the child.
    Sending,
    /// The child's answer is awaited.
    Receiving,
    /// The child is being terminated after a failed handshake.
    Killing,
}

/// A launch in progress.
#[derive(Debug)]
pub struct Launch {
    pub shape: LaunchShape,
    pub stage: LaunchStage,
    /// The line that a handshake writes to the child.
    pub greeting: String,
    /// The child, from the moment it was spawned.
    pub pid: u32,
}

/// A `Launch` as mathematical values.
pub struct LaunchView {
    pub shape: LaunchShape,
    pub stage: LaunchStage,
    pub greeting: Seq<char>,
    pub pid: u32,
}

impl View for Launch {
    type V = LaunchView;

    open spec fn view(&self) -> LaunchView {
        LaunchView { shape: self.shape, stage: self.stage, greeting: self.greeting@, pid: self.pid }
    }
}

/// What the caller observed after doing what a launch asked for.
#[derive(Debug)]
pub enum LaunchEvent {
    /// The child runs, under this process id.
    Spawned(u32),
    /// The operating system refused the spawn.
    SpawnFailed,
    /// The greeting was written and flushed.
    Sent,
    /// Writing the greeting failed.
    SendFailed,
    /// One line was read from the child, or `None`: the child closed its
    /// output without writing one.
    Received(Option<String>),
    /// Reading from the child failed.
    ReceiveFailed,
    /// The child was terminated, or had gone already.
    Killed,
}

/// A `LaunchEvent` as mathematical values.
pub enum LaunchEventView {
    Spawned(u32),
    SpawnFailed,
    Sent,
    SendFailed,
    Received(Option<Seq<char>>),
    ReceiveFailed,
    Killed,
}

impl View for LaunchEvent {
    type V = LaunchEventView;

    open spec fn view(&self) -> LaunchEventView {
        match self {
            LaunchEvent::Spawned(pid) => LaunchEventView::Spawned(*pid),
            LaunchEvent::SpawnFailed => LaunchEventView::SpawnFailed,
            LaunchEvent::Sent => LaunchEventView::Sent,
            LaunchEvent::SendFailed => LaunchEventView::SendFailed,
            LaunchEvent::Received(line) => LaunchEventView::Received(optional_text(*line)),
            LaunchEvent::ReceiveFailed => LaunchEventView::ReceiveFailed,
            LaunchEvent::Killed => LaunchEventView::Killed,
        }
    }
}

/// What a launch asks the caller to do next.
#[derive(Debug)]
pub enum LaunchAction {
    /// Start the child. Answer with `Spawned` or `SpawnFailed`.
    Spawn(SpawnRequest),
    /// Write this text to the child's input and flush. Answer with `Sent` or
    /// `SendFailed`.
    Send(String),
    /// Read one line from the child's output. Answer with `Received` or
    /// `ReceiveFailed`.
    Receive,
    /// Terminate this child by force. Answer with `Killed`.
    Kill(u32),
}

/// A `LaunchAction` as mathematical values.
pub enum LaunchActionView {
    Spawn(SpawnRequestView),
    Send(Seq<char>),
    Receive,
    Kill(u32),
}

impl View for LaunchAction {
    type V = LaunchActionView;

    open spec fn view(&self) -> LaunchActionView {
        match self {
            LaunchAction::Spawn(request) => LaunchActionView::Spawn(request@),
            LaunchAction::Send(text) => LaunchActionView::Send(text@),
            LaunchAction::Receive => LaunchActionView::Receive,
            LaunchAction::Kill(pid) => LaunchActionView::Kill(*pid),
        }
    }
}

/// Where a launch stands after a step: it goes on with one more action, or it
/// is over.
#[derive(Debug)]
pub enum LaunchStep {
    Next(Launch, LaunchAction),
    Done(Result<ProcessHandle, LaunchError>),
}

/// A `LaunchStep` as mathematical values.
pub enum LaunchStepView {
    Next(LaunchView, LaunchActionView),
    Done(Result<ProcessHandle, LaunchErrorView>),
}

impl View for LaunchStep {
    type V = LaunchStepView;

    open spec fn view(&self) -> LaunchStepView {
        match self {
            LaunchStep::Next(launch, action) => LaunchStepView::Next(launch@, action@),
            LaunchStep::Done(Ok(handle)) => LaunchStepView::Done(Ok(*handle)),
            LaunchStep::Done(Err(e)) => LaunchStepView::Done(Err(e@)),
        }
    }
}

/// The port that a child's answer announces: the line without surrounding
/// whitespace must be a 16-bit decimal number other than zero.
pub open spec fn announced_port_text(line: Seq<char>) -> Option<u16> {
    match parse_u16_text(trim_text(line)) {
        Some(port) if port != 0 => Some(port),
        _ => None,
    }
}

/// The line that carries `token` to a child.
pub open spec fn greeting_text(token: Seq<char>) -> Seq<char> {
    token + seq!['\n']
}

/// How the content server is started: both of its standard streams to the
/// parent are pipes, its diagnostics go where the parent's go.
pub open spec fn core_request(program: Seq<char>) -> SpawnRequestView {
    SpawnRequestView {
        program,
        args: Seq::empty(),
        stdin: StdioMode::Piped,
        stdout: StdioMode::Piped,
        stderr: StdioMode::Inherit,
        kill_on_drop: true,
    }
}

/// The arguments that tell a front end where its broker is.
pub open spec fn front_end_arguments(port: u16, token: Seq<char>, test_mode: bool) -> Seq<
    Seq<char>,
> {
    let base = seq![
        "--agent-port"@,
        crate::text::decimal_text(port as nat),
        "--agent-token"@,
        token,
    ];
    if test_mode {
        base.push("--test-mode"@)
    } else {
        base
    }
}

/// How a front end is started: with the parent's streams, and the connection
/// parameters as arguments.
pub open spec fn front_end_request(program: Seq<char>, port: u16, token: Seq<char>, test_mode: bool)
    -> SpawnRequestView {
    SpawnRequestView {
        program,
        args: front_end_arguments(port, token, test_mode),
        stdin: StdioMode::Inherit,
        stdout: StdioMode::Inherit,
        stderr: StdioMode::Inherit,
        kill_on_drop: true,
    }
}

/// The start of a handshake launch: the search decides whether there is
/// anything to spawn.
pub open spec fn begin_core_launch(
    name: Seq<char>,
    env_var: Seq<char>,
    token: Seq<char>,
    candidates: Seq<Candidate>,
) -> LaunchStepView {
    match resolve_text(name, env_var, candidates) {
        Ok(program) => LaunchStepView::Next(
            LaunchView {
                shape: LaunchShape::Handshake,
                stage: LaunchStage::Spawning,
                greeting: greeting_text(token),
                pid: 0,
            },
            LaunchActionView::Spawn(core_request(program)),
        ),
        Err(e) => LaunchStepView::Done(Err(e)),
    }
}

/// The start of an argument launch.
pub open spec fn begin_front_end_launch(
    name: Seq<char>,
    env_var: Seq<char>,
    port: u16,
    token: Seq<char>,
    test_mode: bool,
    candidates: Seq<Candidate>,
) -> LaunchStepView {
    match resolve_text(name, env_var, candidates) {
        Ok(program) => LaunchStepView::Next(
            LaunchView {
                shape: LaunchShape::Arguments,
                stage: LaunchStage::Spawning,
                greeting: Seq::empty(),
                pid: 0,
            },
            LaunchActionView::Spawn(front_end_request(program, port, token, test_mode)),
        ),
        Err(e) => LaunchStepView::Done(Err(e)),
    }
}

/// One step of a launch.
///
/// A spawned child of an argument launch is done at once. A spawned child of
/// a handshake launch is sent the greeting and then read from; it is trusted
/// only once it has announced a port. Whenever the handshake goes wrong after
/// the spawn (a pipe breaks, the output closes, the answer is no port or is
/// zero, or the caller reports something that cannot happen at this point)
/// the child is first terminated and only then is the launch over, with
/// `HandshakeFailed`.
pub open spec fn launch_step(m: LaunchView, e: LaunchEventView) -> LaunchStepView {
    match m.stage {
        LaunchStage::Spawning => match e {
            LaunchEventView::Spawned(pid) => match m.shape {
                LaunchShape::Handshake => LaunchStepView::Next(
                    LaunchView { stage: LaunchStage::Sending, pid, ..m },
                    LaunchActionView::Send(m.greeting),
                ),
                LaunchShape::Arguments => LaunchStepView::Done(
                    Ok(ProcessHandle { pid, port: None }),
                ),
            },
            _ => LaunchStepView::Done(Err(LaunchErrorView::LaunchFailed)),
        },
        LaunchStage::Sending => match e {
            LaunchEventView::Sent => LaunchStepView::Next(
                LaunchView { stage: LaunchStage::Receiving, ..m },
                LaunchActionView::Receive,
            ),
            _ => LaunchStepView::Next(
                LaunchView { stage: LaunchStage::Killing, ..m },
                LaunchActionView::Kill(m.pid),
            ),
        },
        LaunchStage::Receiving => match e {
            LaunchEventView::Received(Some(line)) => match announced_port_text(line) {
                Some(port) => LaunchStepView::Done(
                    Ok(ProcessHandle { pid: m.pid, port: Some(port) }),
                ),
                None => LaunchStepView::Next(
                    LaunchView { stage: LaunchStage::Killing, ..m },
                    LaunchActionView::Kill(m.pid),
                ),
            },
            _ => LaunchStepView::Next(
                LaunchView { stage: LaunchStage::Killing, ..m },
                LaunchActionView::Kill(m.pid),
            ),
        },
        LaunchStage::Killing => match e {
            LaunchEventView::Killed => LaunchStepView::Done(
                Err(LaunchErrorView::HandshakeFailed),
            ),
            _ => LaunchStepView::Next(m, LaunchActionView::Kill(m.pid)),
        },
    }
}

/// Reads the port out of a child's answer.
pub fn announced_port(line: &str) -> (port: Option<u16>)
    ensures
        port == announced_port_text(line@),
        port is Some ==> port->0 != 0,
{
    match parse_u16(trim(line)) {
        Some(port) => {
            if port != 0 {
                Some(port)
            } else {
                None
            }
        },
        None => None,
    }
}

impl Launch {
    fn kill(self) -> (step: LaunchStep)
        ensures
            step@ == LaunchStepView::Next(
                LaunchView { stage: LaunchStage::Killing, ..self@ },
                LaunchActionView::Kill(self.pid),
            ),
    {
        let pid = self.pid;
        LaunchStep::Next(
            Launch { shape: self.shape, stage: LaunchStage::Killing, greeting: self.greeting, pid },
            LaunchAction::Kill(pid),
        )
    }

    /// Takes what the caller observed and says how the launch goes on.
    pub fn step(self, event: LaunchEvent) -> (step: LaunchStep)
        ensures
            step@ == launch_step(self@, event@),
    {
        match self.stage {
            LaunchStage::Spawning => match event {
                LaunchEvent::Spawned(pid) => match self.shape {
                    LaunchShape::Handshake => {
                        let text = self.greeting.clone();
                        LaunchStep::Next(
                            Launch {
                                shape: self.shape,
                                stage: LaunchStage::Sending,
                                greeting: self.greeting,
                                pid,
                            },
                            LaunchAction::Send(text),
                        )
                    },
                    LaunchShape::Arguments => LaunchStep::Done(
                        Ok(ProcessHandle { pid, port: None }),
                    ),
                },
                _ => LaunchStep::Done(Err(LaunchError::LaunchFailed)),
            },
            LaunchStage::Sending => match event {
                LaunchEvent::Sent => LaunchStep::Next(
                    Launch {
                        shape: self.shape,
                        stage: LaunchStage::Receiving,
                        greeting: self.greeting,
                        pid: self.pid,
                    },
                    LaunchAction::Receive,
                ),
                _ => self.kill(),
            },
            LaunchStage::Receiving => match event {
                LaunchEvent::Received(Some(line)) => match announced_port(line.as_str()) {
                    Some(port) => LaunchStep::Done(
                        Ok(ProcessHandle { pid: self.pid, port: Some(port) }),
                    ),
                    None => self.kill(),
                },
                _ => self.kill(),
            },
            LaunchStage::Killing => match event {
                LaunchEvent::Killed => LaunchStep::Done(Err(LaunchError::HandshakeFailed)),
                _ => self.kill(),
            },
        }
    }
}

fn front_end_args(port: u16, token: &str, test_mode: bool) -> (args: Vec<String>)
    ensures
        string_views(args@) == front_end_arguments(port, token@, test_mode),
{
    let mut args: Vec<String> = Vec::new();
    args.push(String::from_str("--agent-port"));
    args.push(crate::text::format_u16(port));
    args.push(String::from_str("--agent-token"));
    args.push(String::from_str(token));
    if test_mode {
        args.push(String::from_str("--test-mode"));
    }
    assert(string_views(args@) =~= front_end_arguments(port, token@, test_mode));
    args
}

fn begin_handshake(name: &str, env_var: &str, token: &str, candidates: &Vec<Candidate>) -> (step:
    LaunchStep)
    ensures
        step@ == begin_core_launch(name@, env_var@, token@, candidates@),
{
    match resolve(name, env_var, candidates) {
        Ok(program) => {
            let mut greeting = String::from_str(token);
            proof {
                reveal_strlit("\n");
            }
            greeting.append("\n");
            assert("\n"@ =~= seq!['\n']);
            let args: Vec<String> = Vec::new();
            assert(string_views(args@) =~= Seq::<Seq<char>>::empty());
            LaunchStep::Next(
                Launch {
                    shape: LaunchShape::Handshake,
                    stage: LaunchStage::Spawning,
                    greeting,
                    pid: 0,
                },
                LaunchAction::Spawn(
                    SpawnRequest {
                        program,
                        args,
                        stdin: StdioMode::Piped,
                        stdout: StdioMode::Piped,
                        stderr: StdioMode::Inherit,
                        kill_on_drop: true,
                    },
                ),
            )
        },
        Err(e) => LaunchStep::Done(Err(e)),
    }
}

/// The name of the content server's executable.
pub open spec fn core_binary() -> Seq<char> {
    "eng-core"@
}

/// The variable that overrides the search for the content server.
pub open spec fn core_override() -> Seq<char> {
    "ENG_CORE_PATH"@
}

/// The name of the front end's executable.
pub open spec fn front_end_binary() -> Seq<char> {
    "ui"@
}

/// The variable that overrides the search for the front end.
pub open spec fn front_end_override() -> Seq<char> {
    "ENG_UI_PATH"@
}

/// The broker's launcher.
#[derive(Debug)]
pub struct Launcher;

impl Launcher {
    /// The locations where the broker looks for the executable `name`: the
    /// override, beside the running executable, and one directory up.
    pub fn search_paths(name: &str, ctx: &SearchContext) -> (paths: Vec<String>)
        ensures
            string_views(paths@) == search_order(name@, ctx@),
    {
        search_paths(name, ctx)
    }

    /// Picks the executable among probed candidates: the first that exists
    /// wins. Without any, the error names `name` and `env_var`.
    pub fn resolve_binary_path(name: &str, env_var: &str, candidates: &Vec<Candidate>) -> (r:
        Result<String, LaunchError>)
        ensures
            resolved_view(r) == resolve_text(name@, env_var@, candidates@),
    {
        resolve(name, env_var, candidates)
    }

    /// Begins the launch of the content server, which is to be handed `token`.
    /// `candidates` are the probed locations of its executable.
    pub fn launch_core(token: &str, candidates: &Vec<Candidate>) -> (step: LaunchStep)
        ensures
            step@ == begin_core_launch(core_binary(), core_override(), token@, candidates@),
    {
        begin_handshake("eng-core", "ENG_CORE_PATH", token, candidates)
    }

    /// Begins the launch of a front end that is to attach to the broker at
    /// `agent_port` with `agent_token`. `candidates` are the probed locations
    /// of its executable.
    pub fn launch_ui(
        agent_port: u16,
        agent_token: &str,
        test_mode: bool,
        candidates: &Vec<Candidate>,
    ) -> (step: LaunchStep)
        ensures
            step@ == begin_front_end_launch(
                front_end_binary(),
                front_end_override(),
                agent_port,
                agent_token@,
                test_mode,
                candidates@,
            ),
    {
        match resolve("ui", "ENG_UI_PATH", candidates) {
            Ok(program) => {
                let args = front_end_args(agent_port, agent_token, test_mode);
                LaunchStep::Next(
                    Launch {
                        shape: LaunchShape::Arguments,
                        stage: LaunchStage::Spawning,
                        greeting: String::new(),
                        pid: 0,
                    },
                    LaunchAction::Spawn(
                        SpawnRequest {
                            program,
                            args,
                            stdin: StdioMode::Inherit,
                            stdout: StdioMode::Inherit,
                            stderr: StdioMode::Inherit,
                            kill_on_drop: true,
                        },
                    ),
                )
            },
            Err(e) => LaunchStep::Done(Err(e)),
        }
    }
}

/// A front end's own launcher for the content server, used where no broker
/// stands between the two.
#[derive(Debug)]
pub struct LocalLauncher {
    token: String,
}

impl LocalLauncher {
    /// The token that launches of this launcher hand to the content server.
    pub closed spec fn token(&self) -> Seq<char> {
        self.token@
    }

    /// A launcher that hands out `token`.
    pub fn new(token: String) -> (launcher: Self)
        ensures
            launcher.token() == token@,
    {
        Self { token }
    }

    /// The locations where a front end looks for the content server: the
    /// override, beside the running executable, and one directory up.
    pub fn search_paths(ctx: &SearchContext) -> (paths: Vec<String>)
        ensures
            string_views(paths@) == search_order(core_binary(), ctx@),
    {
        search_paths("eng-core", ctx)
    }

    /// Picks the content server's executable among probed candidates.
    pub fn resolve_binary_path(candidates: &Vec<Candidate>) -> (r: Result<String, LaunchError>)
        ensures
            resolved_view(r) == resolve_text(core_binary(), core_override(), candidates@),
    {
        resolve("eng-core", "ENG_CORE_PATH", candidates)
    }

    /// Begins the launch of the content server.
    pub fn launch(&self, candidates: &Vec<Candidate>) -> (step: LaunchStep)
        ensures
            step@ == begin_core_launch(
                core_binary(),
                core_override(),
                self.token(),
                candidates@,
            ),
    {
        begin_handshake("eng-core", "ENG_CORE_PATH", self.token.as_str(), candidates)
    }
}

// ---------------------------------------------------------------------------
// What holds of every launch
// ---------------------------------------------------------------------------

/// A child that closes its output without a line is terminated, and only then
/// does the launch fail, with `HandshakeFailed`.
pub proof fn lemma_silent_child_is_killed(m: LaunchView)
    requires
        m.stage == LaunchStage::Receiving,
    ensures
        launch_step(m, LaunchEventView::Received(None)) == LaunchStepView::Next(
            LaunchView { stage: LaunchStage::Killing, ..m },
            LaunchActionView::Kill(m.pid),
        ),
        launch_step(LaunchView { stage: LaunchStage::Killing, ..m }, LaunchEventView::Killed)
            == LaunchStepView::Done(Err(LaunchErrorView::HandshakeFailed)),
{
}

/// An answer that announces no port, the number zero included, is treated as
/// no answer at all: the child is terminated and the launch fails.
pub proof fn lemma_unusable_answer_is_killed(m: LaunchView, line: Seq<char>)
    requires
        m.stage == LaunchStage::Receiving,
        parse_u16_text(trim_text(line)) is None || parse_u16_text(trim_text(line)) == Some(0u16),
    ensures
        launch_step(m, LaunchEventView::Received(Some(line))) == launch_step(
            m,
            LaunchEventView::Received(None),
        ),
{
}

/// No launch ever hands out a child with port zero, and a handshake launch
/// never hands out a child without a port.
pub proof fn lemma_launched_port_is_usable(m: LaunchView, e: LaunchEventView)
    ensures
        match launch_step(m, e) {
            LaunchStepView::Done(Ok(handle)) => handle.port != Some(0u16) && (m.shape
                == LaunchShape::Handshake && m.stage != LaunchStage::Spawning
                ==> handle.serving_port() is Some),
            _ => true,
        },
{
}

/// Once a child exists, a launch cannot fail without the child having been
/// terminated first: failure is only ever reported from the killing stage,
/// in answer to the report that the child is gone.
pub proof fn lemma_failure_only_after_kill(m: LaunchView, e: LaunchEventView)
    requires
        m.stage != LaunchStage::Spawning,
        launch_step(m, e) matches LaunchStepView::Done(Err(_)),
    ensures
        m.stage == LaunchStage::Killing,
        e == LaunchEventView::Killed,
{
}

} // verus!
