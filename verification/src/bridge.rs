//! The process bridge: how the assistant's command-line tool is to be
//! invoked, and what the outcome of an invocation means.
//!
//! Nothing here starts a process.  An [`Invocation`] says what to run; a
//! [`ProcessOutcome`] says what came of running it.

use crate::bindings::{decode_utf8_lossy, utf8_lossy_text};
use crate::text::{clone_texts, texts};
use vstd::prelude::*;
use vstd::string::StringExecFns;

verus! {

/// Whether the host can run the tool itself.
#[derive(Debug, Clone, Copy, PartialEq, Eq, Structural)]
pub enum BridgeProfile {
    /// The tool runs directly on the host.
    Native,
    /// The tool runs inside the host's Linux compatibility layer.
    CompatibilityShell,
}

/// How the bridge is set up; chosen once, when the program starts.
#[derive(Debug, Clone)]
pub struct BridgeConfig {
    pub profile: BridgeProfile,
    /// The name under which the assistant's tool is started.
    pub tool: String,
    /// What messages to the user call the tool.
    pub tool_title: String,
    /// Directories to look in for the tool, after those already on the
    /// search path, in this order.
    pub additional_search_paths: Vec<String>,
}

/// Mathematical value of a [`BridgeConfig`].
pub ghost struct BridgeConfigView {
    pub profile: BridgeProfile,
    pub tool: Seq<char>,
    pub tool_title: Seq<char>,
    pub additional_search_paths: Seq<Seq<char>>,
}

impl View for BridgeConfig {
    type V = BridgeConfigView;

    open spec fn view(&self) -> BridgeConfigView {
        BridgeConfigView {
            profile: self.profile,
            tool: self.tool@,
            tool_title: self.tool_title@,
            additional_search_paths: texts(self.additional_search_paths@),
        }
    }
}

impl BridgeConfig {
    /// An independent copy of this configuration.
    pub fn duplicate(&self) -> (r: BridgeConfig)
        ensures
            r@ == self@,
    {
        BridgeConfig {
            profile: self.profile,
            tool: self.tool.clone(),
            tool_title: self.tool_title.clone(),
            additional_search_paths: clone_texts(&self.additional_search_paths),
        }
    }
}

/// One command to run: the program, its arguments in order, the search path
/// to run it under if that differs from the inherited one, and the directory
/// to run it in if that differs from the current one.
#[derive(Debug, Clone)]
pub struct Invocation {
    pub program: String,
    pub args: Vec<String>,
    pub search_path: Option<String>,
    pub working_dir: Option<String>,
}

/// Mathematical value of an [`Invocation`].
pub ghost struct InvocationView {
    pub program: Seq<char>,
    pub args: Seq<Seq<char>>,
    pub search_path: Option<Seq<char>>,
    pub working_dir: Option<Seq<char>>,
}

/// The view of an optional string.
pub open spec fn optional_text(s: Option<String>) -> Option<Seq<char>> {
    match s {
        Some(t) => Some(t@),
        None => None,
    }
}

impl View for Invocation {
    type V = InvocationView;

    open spec fn view(&self) -> InvocationView {
        InvocationView {
            program: self.program@,
            args: texts(self.args@),
            search_path: optional_text(self.search_path),
            working_dir: optional_text(self.working_dir),
        }
    }
}

/// The search path `current` with each of `extra` appended, colon-separated.
pub open spec fn augmented_search_path(current: Seq<char>, extra: Seq<Seq<char>>) -> Seq<char>
    decreases extra.len(),
{
    if extra.len() == 0 {
        current
    } else {
        augmented_search_path(current, extra.drop_last()) + ":"@ + extra.last()
    }
}

/// One `--attach <path>` pair per path, in order.
pub open spec fn attach_args(paths: Seq<Seq<char>>) -> Seq<Seq<char>>
    decreases paths.len(),
{
    if paths.len() == 0 {
        Seq::empty()
    } else {
        attach_args(paths.drop_last()).push("--attach"@).push(paths.last())
    }
}

/// The program to start: the tool itself where the host can run it, the
/// compatibility layer's launcher where it cannot.
pub open spec fn program_for(config: BridgeConfigView) -> Seq<char> {
    match config.profile {
        BridgeProfile::Native => config.tool,
        BridgeProfile::CompatibilityShell => "wsl"@,
    }
}

/// The arguments that come before the tool's own: none where the tool is
/// started itself, its name where the launcher starts it.
pub open spec fn leading_args(config: BridgeConfigView) -> Seq<Seq<char>> {
    match config.profile {
        BridgeProfile::Native => Seq::empty(),
        BridgeProfile::CompatibilityShell => seq![config.tool],
    }
}

/// The search path to run under: the augmented one where the tool runs on
/// the host, the inherited one where the compatibility layer finds it.
pub open spec fn search_path_for(config: BridgeConfigView, current: Seq<char>) -> Option<Seq<char>> {
    match config.profile {
        BridgeProfile::Native => Some(
            augmented_search_path(current, config.additional_search_paths),
        ),
        BridgeProfile::CompatibilityShell => None,
    }
}

/// The invocation that sends `message` with `attachments` to the assistant.
pub open spec fn chat_invocation(
    config: BridgeConfigView,
    current_search_path: Seq<char>,
    message: Seq<char>,
    attachments: Seq<Seq<char>>,
    project_path: Option<Seq<char>>,
) -> InvocationView {
    InvocationView {
        program: program_for(config),
        args: leading_args(config) + seq!["chat"@, message] + attach_args(attachments),
        search_path: search_path_for(config, current_search_path),
        working_dir: project_path,
    }
}

/// The invocation that asks the tool for its version, to see whether it can
/// be reached at all.
pub open spec fn probe_invocation(config: BridgeConfigView, current_search_path: Seq<char>) -> InvocationView {
    InvocationView {
        program: program_for(config),
        args: leading_args(config) + seq!["--version"@],
        search_path: search_path_for(config, current_search_path),
        working_dir: None,
    }
}

fn augment_search_path(current: &str, extra: &Vec<String>) -> (r: String)
    ensures
        r@ == augmented_search_path(current@, texts(extra@)),
{
    let mut path = String::from_str(current);
    let mut i: usize = 0;
    while i < extra.len()
        invariant
            i <= extra.len(),
            path@ == augmented_search_path(current@, texts(extra@).take(i as int)),
        decreases extra.len() - i,
    {
        assert(texts(extra@).take(i + 1).drop_last() =~= texts(extra@).take(i as int));
        path.append(":");
        path.append(extra[i].as_str());
        i = i + 1;
    }
    assert(texts(extra@).take(i as int) =~= texts(extra@));
    path
}

fn start_of(config: &BridgeConfig, current_search_path: &str) -> (r: (String, Vec<String>, Option<String>))
    ensures
        r.0@ == program_for(config@),
        texts(r.1@) == leading_args(config@),
        optional_text(r.2) == search_path_for(config@, current_search_path@),
{
    let mut args: Vec<String> = Vec::new();
    match config.profile {
        BridgeProfile::Native => {
            let path = augment_search_path(current_search_path, &config.additional_search_paths);
            assert(texts(args@) =~= leading_args(config@));
            (config.tool.clone(), args, Some(path))
        },
        BridgeProfile::CompatibilityShell => {
            args.push(config.tool.clone());
            assert(texts(args@) =~= leading_args(config@));
            (String::from_str("wsl"), args, None)
        },
    }
}

/// Builds the invocation that sends `message`, with one attachment per path
/// in `attachments`, run in `project_path` where one is given.
pub fn build_chat_invocation(
    config: &BridgeConfig,
    current_search_path: &str,
    message: &str,
    attachments: &Vec<String>,
    project_path: Option<String>,
) -> (r: Invocation)
    ensures
        r@ == chat_invocation(
            config@,
            current_search_path@,
            message@,
            texts(attachments@),
            optional_text(project_path),
        ),
{
    let (program, mut args, search_path) = start_of(config, current_search_path);
    let ghost lead = texts(args@);
    args.push(String::from_str("chat"));
    args.push(String::from_str(message));
    assert(texts(args@) =~= lead + seq!["chat"@, message@]);
    let ghost head = texts(args@);
    let mut i: usize = 0;
    while i < attachments.len()
        invariant
            i <= attachments.len(),
            texts(args@) == head + attach_args(texts(attachments@).take(i as int)),
        decreases attachments.len() - i,
    {
        let ghost before = texts(args@);
        assert(texts(attachments@).take(i + 1).drop_last() =~= texts(attachments@).take(i as int));
        args.push(String::from_str("--attach"));
        args.push(attachments[i].clone());
        assert(texts(args@) =~= before.push("--attach"@).push(attachments@[i as int]@));
        assert(texts(args@) =~= head + attach_args(texts(attachments@).take(i + 1)));
        i = i + 1;
    }
    assert(texts(attachments@).take(i as int) =~= texts(attachments@));
    Invocation { program, args, search_path, working_dir: project_path }
}

/// Builds the invocation that probes for the tool.
pub fn build_probe_invocation(config: &BridgeConfig, current_search_path: &str) -> (r: Invocation)
    ensures
        r@ == probe_invocation(config@, current_search_path@),
{
    let (program, mut args, search_path) = start_of(config, current_search_path);
    let ghost lead = texts(args@);
    args.push(String::from_str("--version"));
    assert(texts(args@) =~= lead + seq!["--version"@]);
    Invocation { program, args, search_path, working_dir: None }
}

/// What came of running an invocation.
#[derive(Debug, Clone)]
pub enum ProcessOutcome {
    /// The program could not be started; carries the system's reason.
    NotSpawned { detail: String },
    /// The program ran to its end.
    Exited { success: bool, stdout: Vec<u8>, stderr: Vec<u8> },
}

/// Mathematical value of a [`ProcessOutcome`].
pub ghost enum ProcessOutcomeView {
    NotSpawned { detail: Seq<char> },
    Exited { success: bool, stdout: Seq<u8>, stderr: Seq<u8> },
}

impl View for ProcessOutcome {
    type V = ProcessOutcomeView;

    open spec fn view(&self) -> ProcessOutcomeView {
        match self {
            ProcessOutcome::NotSpawned { detail } => ProcessOutcomeView::NotSpawned { detail: detail@ },
            ProcessOutcome::Exited { success, stdout, stderr } => ProcessOutcomeView::Exited {
                success: *success,
                stdout: stdout@,
                stderr: stderr@,
            },
        }
    }
}

/// Why a request to the assistant failed.
#[derive(Debug, Clone)]
pub enum RequestError {
    /// The scratch directory could not be created; carries the system's reason.
    ScratchDir(String),
    /// The tool could not be started; carries the system's reason.
    ProcessSpawn(String),
    /// The tool ran and reported failure; carries what it wrote to its
    /// error stream, as is.
    ProcessExit(String),
    /// The request was driven out of step and given up.
    Interrupted,
}

/// Mathematical value of a [`RequestError`].
pub ghost enum RequestErrorView {
    ScratchDir(Seq<char>),
    ProcessSpawn(Seq<char>),
    ProcessExit(Seq<char>),
    Interrupted,
}

impl View for RequestError {
    type V = RequestErrorView;

    open spec fn view(&self) -> RequestErrorView {
        match self {
            RequestError::ScratchDir(d) => RequestErrorView::ScratchDir(d@),
            RequestError::ProcessSpawn(d) => RequestErrorView::ProcessSpawn(d@),
            RequestError::ProcessExit(d) => RequestErrorView::ProcessExit(d@),
            RequestError::Interrupted => RequestErrorView::Interrupted,
        }
    }
}

impl RequestErrorView {
    /// The text shown to the user for this failure, where messages call the
    /// tool `tool_title`.
    pub open spec fn message_text(self, tool_title: Seq<char>) -> Seq<char> {
        match self {
            RequestErrorView::ScratchDir(d) => "Failed to create temp directory: "@ + d,
            RequestErrorView::ProcessSpawn(d) => "Failed to execute "@ + tool_title + ": "@ + d
                + ". Make sure "@ + tool_title + " is installed and in PATH."@,
            RequestErrorView::ProcessExit(d) => tool_title + " error: "@ + d,
            RequestErrorView::Interrupted => "The request was interrupted before it completed."@,
        }
    }
}

impl RequestError {
    /// An independent copy of this failure.
    pub fn duplicate(&self) -> (r: RequestError)
        ensures
            r@ == self@,
    {
        match self {
            RequestError::ScratchDir(d) => RequestError::ScratchDir(d.clone()),
            RequestError::ProcessSpawn(d) => RequestError::ProcessSpawn(d.clone()),
            RequestError::ProcessExit(d) => RequestError::ProcessExit(d.clone()),
            RequestError::Interrupted => RequestError::Interrupted,
        }
    }

    /// Renders the failure for display, calling the tool `tool_title`.
    pub fn message(&self, tool_title: &str) -> (r: String)
        ensures
            r@ == self@.message_text(tool_title@),
    {
        match self {
            RequestError::ScratchDir(d) => String::from_str("Failed to create temp directory: ").concat(
                d.as_str(),
            ),
            RequestError::ProcessSpawn(d) => String::from_str("Failed to execute ").concat(
                tool_title,
            ).concat(": ").concat(d.as_str()).concat(". Make sure ").concat(tool_title).concat(
                " is installed and in PATH.",
            ),
            RequestError::ProcessExit(d) => String::from_str(tool_title).concat(" error: ").concat(
                d.as_str(),
            ),
            RequestError::Interrupted => String::from_str(
                "The request was interrupted before it completed.",
            ),
        }
    }
}

/// The view of a request's result.
pub open spec fn reply_view(r: Result<String, RequestError>) -> Result<Seq<char>, RequestErrorView> {
    match r {
        Ok(text) => Ok(text@),
        Err(e) => Err(e@),
    }
}

/// What an outcome means for the request: the tool's output on success, its
/// error stream on failure, the system's reason where it never ran.
pub open spec fn reply_of(outcome: ProcessOutcomeView) -> Result<Seq<char>, RequestErrorView> {
    match outcome {
        ProcessOutcomeView::NotSpawned { detail } => Err(RequestErrorView::ProcessSpawn(detail)),
        ProcessOutcomeView::Exited { success, stdout, stderr } => if success {
            Ok(utf8_lossy_text(stdout))
        } else {
            Err(RequestErrorView::ProcessExit(utf8_lossy_text(stderr)))
        },
    }
}

/// What a finished run means, given the text of its two streams: the output
/// where the run succeeded, the error stream where it failed.
pub fn reply_from(success: bool, stdout_text: String, stderr_text: String) -> (r: Result<
    String,
    RequestError,
>)
    ensures
        reply_view(r) == if success {
            Ok::<Seq<char>, RequestErrorView>(stdout_text@)
        } else {
            Err::<Seq<char>, RequestErrorView>(RequestErrorView::ProcessExit(stderr_text@))
        },
{
    if success {
        Ok(stdout_text)
    } else {
        Err(RequestError::ProcessExit(stderr_text))
    }
}

/// Reads the reply, or the failure, out of an invocation's outcome.  Output
/// that is not valid UTF-8 is kept, with the offending bytes replaced.
pub fn interpret_outcome(outcome: &ProcessOutcome) -> (r: Result<String, RequestError>)
    ensures
        reply_view(r) == reply_of(outcome@),
{
    match outcome {
        ProcessOutcome::NotSpawned { detail } => Err(RequestError::ProcessSpawn(detail.clone())),
        ProcessOutcome::Exited { success, stdout, stderr } => reply_from(
            *success,
            decode_utf8_lossy(stdout.as_slice()),
            decode_utf8_lossy(stderr.as_slice()),
        ),
    }
}

/// Whether the probe found the tool: it did if the probe ran and reported
/// success.  A probe that could not even be started counts as "not found".
pub fn check_claude_cli_installed(outcome: &ProcessOutcome) -> (r: bool)
    ensures
        r == (outcome@ matches ProcessOutcomeView::Exited { success: true, .. }),
{
    match outcome {
        ProcessOutcome::NotSpawned { .. } => false,
        ProcessOutcome::Exited { success, .. } => *success,
    }
}

} // verus!
