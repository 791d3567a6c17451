//! The request orchestrator: one request to the assistant, from the staging
//! of its screenshots to the removal of its scratch directory.
//!
//! A request is a small machine.  It hands out one [`RequestAction`] at a
//! time, is told what came of it with a [`RequestEvent`], and answers with the
//! next action, until the last action carries the request's result.  Whoever
//! drives it does the file and process work; the machine only decides.

use crate::bindings::{join_path, joined_path, random_uuid_text};
use crate::bridge::{
    build_chat_invocation, chat_invocation, interpret_outcome, optional_text, reply_of, reply_view,
    BridgeConfig, BridgeConfigView, Invocation, InvocationView, ProcessOutcome, ProcessOutcomeView,
    RequestError, RequestErrorView,
};
use crate::stager::{
    frame_numbers, frame_views, rejected_frames, stage_frames, staging_plan, DecodedFrame,
    DecodedFrameView, FrameDecodeError,
};
use crate::text::{decimal_string, decimal_text, texts};
use vstd::prelude::*;
use vstd::slice::slice_to_vec;
use vstd::string::StringExecFns;

verus! {

/// The text sent to the assistant: the caller's message, the transcript in
/// quotes where there is one, and the number of screenshots attached.
pub open spec fn composed_message(message: Seq<char>, transcript: Seq<char>, screenshots: nat) -> Seq<
    char,
> {
    if transcript.len() > 0 {
        message + "\n\nAudio transcript: \""@ + transcript + "\"\n\nI'm attaching "@ + decimal_text(
            screenshots,
        ) + " screenshots that show what I was working on."@
    } else {
        message + "\n\nI'm attaching "@ + decimal_text(screenshots)
            + " screenshots that show what I was working on."@
    }
}

/// Composes the text sent to the assistant.
pub fn compose_message(message: &str, transcript: &str, screenshots: usize) -> (r: String)
    ensures
        r@ == composed_message(message@, transcript@, screenshots as nat),
{
    let count = decimal_string(screenshots);
    let mut full = String::from_str(message);
    if !transcript.is_empty() {
        full.append("\n\nAudio transcript: \"");
        full.append(transcript);
        full.append("\"\n\nI'm attaching ");
    } else {
        full.append("\n\nI'm attaching ");
    }
    full.append(count.as_str());
    full.append(" screenshots that show what I was working on.");
    full
}

/// The prefix of every scratch directory's name.
pub open spec fn scratch_dir_prefix() -> Seq<char> {
    "clauveo_"@
}

/// How far a request has come.
#[derive(Debug, Clone, Copy, PartialEq, Eq, Structural)]
pub enum RequestPhase {
    /// Waiting to hear whether the scratch directory could be created.
    CreatingDir,
    /// Waiting to hear whether the frame at `next` could be written.
    Writing,
    /// Waiting for the assistant's tool to finish.
    Running,
    /// Waiting to hear that removal of the scratch directory was attempted.
    Removing,
    /// Finished; the result has been handed out.
    Done,
}

/// One request to the assistant and everything it still has to remember.
#[derive(Debug)]
pub struct AssistantRequest {
    pub phase: RequestPhase,
    pub config: BridgeConfig,
    /// The search path the program runs under.
    pub search_path: String,
    /// The directory that belongs to this request alone.
    pub scratch_dir: String,
    pub message: String,
    pub transcript: String,
    pub project_path: Option<String>,
    /// The frames that decoded, in order.
    pub pending: Vec<DecodedFrame>,
    /// The frames that did not decode and were left out, in order.
    pub rejected: Vec<FrameDecodeError>,
    /// Position in `pending` of the frame being written.
    pub next: usize,
    /// The paths of the frames written so far, in order.
    pub staged: Vec<String>,
    /// What the request answers when it finishes.
    pub result: Result<String, RequestError>,
}

/// Mathematical value of an [`AssistantRequest`].
pub ghost struct RequestView {
    pub phase: RequestPhase,
    pub config: BridgeConfigView,
    pub search_path: Seq<char>,
    pub scratch_dir: Seq<char>,
    pub message: Seq<char>,
    pub transcript: Seq<char>,
    pub project_path: Option<Seq<char>>,
    pub pending: Seq<DecodedFrameView>,
    pub rejected: Seq<nat>,
    pub next: nat,
    pub staged: Seq<Seq<char>>,
    pub result: Result<Seq<char>, RequestErrorView>,
}

impl View for AssistantRequest {
    type V = RequestView;

    open spec fn view(&self) -> RequestView {
        RequestView {
            phase: self.phase,
            config: self.config@,
            search_path: self.search_path@,
            scratch_dir: self.scratch_dir@,
            message: self.message@,
            transcript: self.transcript@,
            project_path: optional_text(self.project_path),
            pending: frame_views(self.pending@),
            rejected: frame_numbers(self.rejected@),
            next: self.next as nat,
            staged: texts(self.staged@),
            result: reply_view(self.result),
        }
    }
}

impl RequestView {
    /// The bookkeeping is consistent: the write position lies within the
    /// decoded frames, on a frame while one is being written, and no more
    /// frames count as written than were attempted.
    pub open spec fn wf(self) -> bool {
        &&& self.next <= self.pending.len()
        &&& self.staged.len() <= self.next
        &&& (self.phase == RequestPhase::Writing ==> self.next < self.pending.len())
    }

    /// The scratch directory has been created and its removal has not been
    /// answered yet.
    pub open spec fn scratch_dir_live(self) -> bool {
        self.phase == RequestPhase::Writing || self.phase == RequestPhase::Running || self.phase
            == RequestPhase::Removing
    }
}

/// What came of the last action.
#[derive(Debug, Clone)]
pub enum RequestEvent {
    DirCreated,
    DirNotCreated { detail: String },
    FrameWritten,
    FrameNotWritten,
    ProcessFinished { outcome: ProcessOutcome },
    DirRemoved,
    DirNotRemoved,
}

/// Mathematical value of a [`RequestEvent`].
pub ghost enum RequestEventView {
    DirCreated,
    DirNotCreated { detail: Seq<char> },
    FrameWritten,
    FrameNotWritten,
    ProcessFinished { outcome: ProcessOutcomeView },
    DirRemoved,
    DirNotRemoved,
}

impl View for RequestEvent {
    type V = RequestEventView;

    open spec fn view(&self) -> RequestEventView {
        match self {
            RequestEvent::DirCreated => RequestEventView::DirCreated,
            RequestEvent::DirNotCreated { detail } => RequestEventView::DirNotCreated { detail: detail@ },
            RequestEvent::FrameWritten => RequestEventView::FrameWritten,
            RequestEvent::FrameNotWritten => RequestEventView::FrameNotWritten,
            RequestEvent::ProcessFinished { outcome } => RequestEventView::ProcessFinished {
                outcome: outcome@,
            },
            RequestEvent::DirRemoved => RequestEventView::DirRemoved,
            RequestEvent::DirNotRemoved => RequestEventView::DirNotRemoved,
        }
    }
}

/// What the driver is to do next.
#[derive(Debug)]
pub enum RequestAction {
    /// Create this directory and all its parents.
    CreateDir { path: String },
    /// Write these bytes to this file.
    WriteFrame { path: String, bytes: Vec<u8> },
    /// Run this command and wait for it.
    Run { invocation: Invocation },
    /// Remove this directory and all it holds.
    RemoveDir { path: String },
    /// Hand this result to the caller; the request is over.
    Finish { result: Result<String, RequestError> },
}

/// Mathematical value of a [`RequestAction`].
pub ghost enum RequestActionView {
    CreateDir { path: Seq<char> },
    WriteFrame { path: Seq<char>, bytes: Seq<u8> },
    Run { invocation: InvocationView },
    RemoveDir { path: Seq<char> },
    Finish { result: Result<Seq<char>, RequestErrorView> },
}

impl View for RequestAction {
    type V = RequestActionView;

    open spec fn view(&self) -> RequestActionView {
        match self {
            RequestAction::CreateDir { path } => RequestActionView::CreateDir { path: path@ },
            RequestAction::WriteFrame { path, bytes } => RequestActionView::WriteFrame {
                path: path@,
                bytes: bytes@,
            },
            RequestAction::Run { invocation } => RequestActionView::Run { invocation: invocation@ },
            RequestAction::RemoveDir { path } => RequestActionView::RemoveDir { path: path@ },
            RequestAction::Finish { result } => RequestActionView::Finish { result: reply_view(*result) },
        }
    }
}

/// A request that has just been opened in `scratch_dir`.
pub open spec fn opened(
    config: BridgeConfigView,
    search_path: Seq<char>,
    scratch_dir: Seq<char>,
    message: Seq<char>,
    frames: Seq<Seq<char>>,
    transcript: Seq<char>,
    project_path: Option<Seq<char>>,
) -> RequestView {
    RequestView {
        phase: RequestPhase::CreatingDir,
        config,
        search_path,
        scratch_dir,
        message,
        transcript,
        project_path,
        pending: staging_plan(frames, scratch_dir),
        rejected: rejected_frames(frames),
        next: 0,
        staged: Seq::empty(),
        result: Err(RequestErrorView::Interrupted),
    }
}

/// With the write position settled: write the frame it stands on, or, past
/// the last frame, run the tool with what was written.
pub open spec fn stage_or_run(s: RequestView) -> (RequestView, RequestActionView) {
    if s.next < s.pending.len() {
        (
            RequestView { phase: RequestPhase::Writing, ..s },
            RequestActionView::WriteFrame {
                path: s.pending[s.next as int].path,
                bytes: s.pending[s.next as int].bytes,
            },
        )
    } else {
        (
            RequestView { phase: RequestPhase::Running, ..s },
            RequestActionView::Run {
                invocation: chat_invocation(
                    s.config,
                    s.search_path,
                    composed_message(s.message, s.transcript, s.staged.len()),
                    s.staged,
                    s.project_path,
                ),
            },
        )
    }
}

/// Ask for the scratch directory to be removed.
pub open spec fn clean_up(s: RequestView) -> (RequestView, RequestActionView) {
    (
        RequestView { phase: RequestPhase::Removing, ..s },
        RequestActionView::RemoveDir { path: s.scratch_dir },
    )
}

/// Hand out the result.
pub open spec fn finish(s: RequestView) -> (RequestView, RequestActionView) {
    (RequestView { phase: RequestPhase::Done, ..s }, RequestActionView::Finish { result: s.result })
}

/// The request after `event`, and the action it answers with.
///
/// An event that does not answer the action last handed out ends the
/// request: once the scratch directory exists it is removed first, and the
/// result is `Interrupted` unless the tool has already answered.
pub open spec fn step(s: RequestView, event: RequestEventView) -> (RequestView, RequestActionView) {
    match s.phase {
        RequestPhase::CreatingDir => match event {
            RequestEventView::DirCreated => stage_or_run(s),
            RequestEventView::DirNotCreated { detail } => finish(
                RequestView { result: Err(RequestErrorView::ScratchDir(detail)), ..s },
            ),
            _ => finish(RequestView { result: Err(RequestErrorView::Interrupted), ..s }),
        },
        RequestPhase::Writing => match event {
            RequestEventView::FrameWritten => stage_or_run(
                RequestView {
                    staged: s.staged.push(s.pending[s.next as int].path),
                    next: s.next + 1,
                    ..s
                },
            ),
            RequestEventView::FrameNotWritten => stage_or_run(RequestView { next: s.next + 1, ..s }),
            _ => clean_up(RequestView { result: Err(RequestErrorView::Interrupted), ..s }),
        },
        RequestPhase::Running => match event {
            RequestEventView::ProcessFinished { outcome } => clean_up(
                RequestView { result: reply_of(outcome), ..s },
            ),
            _ => clean_up(RequestView { result: Err(RequestErrorView::Interrupted), ..s }),
        },
        RequestPhase::Removing => match event {
            RequestEventView::DirRemoved => finish(s),
            RequestEventView::DirNotRemoved => finish(s),
            _ => clean_up(s),
        },
        RequestPhase::Done => finish(s),
    }
}

fn duplicate_reply(r: &Result<String, RequestError>) -> (copy: Result<String, RequestError>)
    ensures
        reply_view(copy) == reply_view(*r),
{
    match r {
        Ok(text) => Ok(text.clone()),
        Err(e) => Err(e.duplicate()),
    }
}

fn duplicate_optional(s: &Option<String>) -> (copy: Option<String>)
    ensures
        optional_text(copy) == optional_text(*s),
{
    match s {
        Some(t) => Some(t.clone()),
        None => None,
    }
}

impl AssistantRequest {
    /// Opens a request whose scratch directory is `scratch_dir`, and asks
    /// for that directory to be created.
    pub fn open_in(
        config: BridgeConfig,
        search_path: String,
        scratch_dir: String,
        message: String,
        frames: &Vec<String>,
        transcript: String,
        project_path: Option<String>,
    ) -> (r: (AssistantRequest, RequestAction))
        ensures
            r.0@ == opened(
                config@,
                search_path@,
                scratch_dir@,
                message@,
                texts(frames@),
                transcript@,
                optional_text(project_path),
            ),
            r.0@.wf(),
            r.1@ == (RequestActionView::CreateDir { path: scratch_dir@ }),
    {
        let (pending, rejected) = stage_frames(frames, scratch_dir.as_str());
        let action = RequestAction::CreateDir { path: scratch_dir.clone() };
        let staged: Vec<String> = Vec::new();
        assert(texts(staged@) =~= Seq::<Seq<char>>::empty());
        let request = AssistantRequest {
            phase: RequestPhase::CreatingDir,
            config,
            search_path,
            scratch_dir,
            message,
            transcript,
            project_path,
            pending,
            rejected,
            next: 0,
            staged,
            result: Err(RequestError::Interrupted),
        };
        (request, action)
    }

    /// Whether the bookkeeping is consistent, as [`AssistantRequest::advance`]
    /// needs it to be.
    pub fn is_consistent(&self) -> (r: bool)
        ensures
            r == self@.wf(),
    {
        self.next <= self.pending.len() && self.staged.len() <= self.next && (self.phase
            != RequestPhase::Writing || self.next < self.pending.len())
    }

    fn stage_or_run(&mut self) -> (action: RequestAction)
        requires
            old(self).next <= old(self).pending.len(),
        ensures
            (final(self)@, action@) == stage_or_run(old(self)@),
    {
        if self.next < self.pending.len() {
            self.phase = RequestPhase::Writing;
            let frame = &self.pending[self.next];
            RequestAction::WriteFrame {
                path: frame.path.clone(),
                bytes: slice_to_vec(frame.bytes.as_slice()),
            }
        } else {
            self.phase = RequestPhase::Running;
            let full = compose_message(
                self.message.as_str(),
                self.transcript.as_str(),
                self.staged.len(),
            );
            let invocation = build_chat_invocation(
                &self.config,
                self.search_path.as_str(),
                full.as_str(),
                &self.staged,
                duplicate_optional(&self.project_path),
            );
            RequestAction::Run { invocation }
        }
    }

    fn clean_up(&mut self) -> (action: RequestAction)
        ensures
            (final(self)@, action@) == clean_up(old(self)@),
    {
        self.phase = RequestPhase::Removing;
        RequestAction::RemoveDir { path: self.scratch_dir.clone() }
    }

    fn finish(&mut self) -> (action: RequestAction)
        ensures
            (final(self)@, action@) == finish(old(self)@),
    {
        self.phase = RequestPhase::Done;
        RequestAction::Finish { result: duplicate_reply(&self.result) }
    }

    /// Takes what came of the last action and answers with the next one.
    ///
    /// The result is handed out only by `Finish`, and `Finish` is answered
    /// only when the scratch directory was never created or its removal has
    /// been attempted.
    pub fn advance(&mut self, event: RequestEvent) -> (action: RequestAction)
        requires
            old(self)@.wf(),
        ensures
            (final(self)@, action@) == step(old(self)@, event@),
            final(self)@.wf(),
            action@ is Finish <==> final(self)@.phase == RequestPhase::Done,
            action@ is Finish ==> !final(self)@.scratch_dir_live(),
    {
        assert(self@.phase == RequestPhase::Writing ==> self@.next < self@.pending.len());
        assert(self.phase == RequestPhase::Writing ==> self.next < self.pending.len());
        match self.phase {
            RequestPhase::CreatingDir => match event {
                RequestEvent::DirCreated => self.stage_or_run(),
                RequestEvent::DirNotCreated { detail } => {
                    self.result = Err(RequestError::ScratchDir(detail));
                    self.finish()
                },
                _ => {
                    self.result = Err(RequestError::Interrupted);
                    self.finish()
                },
            },
            RequestPhase::Writing => match event {
                RequestEvent::FrameWritten => {
                    let ghost before = texts(self.staged@);
                    let path = self.pending[self.next].path.clone();
                    self.staged.push(path);
                    assert(texts(self.staged@) =~= before.push(path@));
                    self.next = self.next + 1;
                    self.stage_or_run()
                },
                RequestEvent::FrameNotWritten => {
                    self.next = self.next + 1;
                    self.stage_or_run()
                },
                _ => {
                    self.result = Err(RequestError::Interrupted);
                    self.clean_up()
                },
            },
            RequestPhase::Running => match event {
                RequestEvent::ProcessFinished { outcome } => {
                    self.result = interpret_outcome(&outcome);
                    self.clean_up()
                },
                _ => {
                    self.result = Err(RequestError::Interrupted);
                    self.clean_up()
                },
            },
            RequestPhase::Removing => match event {
                RequestEvent::DirRemoved => self.finish(),
                RequestEvent::DirNotRemoved => self.finish(),
                _ => self.clean_up(),
            },
            RequestPhase::Done => self.finish(),
        }
    }
}

/// Opens a request to the assistant in a scratch directory of its own,
/// freshly named under `temp_root`, and asks for that directory to be
/// created.  [`AssistantRequest::advance`] takes it from there.
pub fn send_to_claude_cli(
    config: BridgeConfig,
    search_path: String,
    temp_root: &str,
    message: String,
    frames: &Vec<String>,
    transcript: String,
    project_path: Option<String>,
) -> (r: (AssistantRequest, RequestAction))
    ensures
        exists|suffix: Seq<char>|
            suffix.len() == 36 && r.0@.scratch_dir == joined_path(
                temp_root@,
                scratch_dir_prefix() + suffix,
            ),
        r.0@ == opened(
            config@,
            search_path@,
            r.0@.scratch_dir,
            message@,
            texts(frames@),
            transcript@,
            optional_text(project_path),
        ),
        r.0@.wf(),
        r.1@ == (RequestActionView::CreateDir { path: r.0@.scratch_dir }),
{
    let suffix = random_uuid_text();
    let name = String::from_str("clauveo_").concat(suffix.as_str());
    let scratch_dir = join_path(temp_root, name.as_str());
    AssistantRequest::open_in(
        config,
        search_path,
        scratch_dir,
        message,
        frames,
        transcript,
        project_path,
    )
}

/// The request after a whole sequence of events, taken one after the other.
pub open spec fn replay(s: RequestView, events: Seq<RequestEventView>) -> RequestView
    decreases events.len(),
{
    if events.len() == 0 {
        s
    } else {
        step(replay(s, events.drop_last()), events.last()).0
    }
}

/// Event `i` of a run told the request that its scratch directory exists.
pub open spec fn creation_answered_at(s: RequestView, events: Seq<RequestEventView>, i: int) -> bool {
    &&& 0 <= i < events.len()
    &&& replay(s, events.take(i)).phase == RequestPhase::CreatingDir
    &&& events[i] is DirCreated
}

/// Event `i` of a run told the request that removal of its scratch directory
/// was attempted.
pub open spec fn removal_answered_at(s: RequestView, events: Seq<RequestEventView>, i: int) -> bool {
    &&& 0 <= i < events.len()
    &&& replay(s, events.take(i)).phase == RequestPhase::Removing
    &&& (events[i] is DirRemoved || events[i] is DirNotRemoved)
}

/// Somewhere in the run the scratch directory came into being.
pub open spec fn dir_created_during(s: RequestView, events: Seq<RequestEventView>) -> bool {
    exists|i: int| creation_answered_at(s, events, i)
}

/// Somewhere in the run removal of the scratch directory was attempted.
pub open spec fn dir_removed_during(s: RequestView, events: Seq<RequestEventView>) -> bool {
    exists|i: int| removal_answered_at(s, events, i)
}

/// A step keeps the bookkeeping consistent.
pub proof fn lemma_step_keeps_wf(s: RequestView, event: RequestEventView)
    requires
        s.wf(),
    ensures
        step(s, event).0.wf(),
        step(s, event).1 is Finish <==> step(s, event).0.phase == RequestPhase::Done,
{
}

proof fn lemma_take_of_longer(events: Seq<RequestEventView>, i: int)
    requires
        0 <= i < events.len(),
    ensures
        events.take(i) == events.drop_last().take(i),
        events.take(events.len() - 1) == events.drop_last(),
{
    assert(events.take(i) =~= events.drop_last().take(i));
    assert(events.take(events.len() - 1) =~= events.drop_last());
}

/// How the phase of a request tells what has happened to its scratch
/// directory, whatever events arrive and in whatever order: before the
/// directory exists the request waits for it; while it exists the request is
/// writing, running or removing; and a finished request either never had a
/// directory or has had its removal attempted.
pub proof fn lemma_phase_tracks_scratch_dir(s: RequestView, events: Seq<RequestEventView>)
    requires
        s.phase == RequestPhase::CreatingDir,
    ensures
        replay(s, events).phase == RequestPhase::CreatingDir ==> !dir_created_during(s, events)
            && !dir_removed_during(s, events),
        replay(s, events).scratch_dir_live() <==> dir_created_during(s, events)
            && !dir_removed_during(s, events),
        replay(s, events).phase == RequestPhase::Done ==> (dir_created_during(s, events)
            <==> dir_removed_during(s, events)),
    decreases events.len(),
{
    if events.len() == 0 {
        assert(!dir_created_during(s, events));
        assert(!dir_removed_during(s, events));
    } else {
        let earlier = events.drop_last();
        let last = events.len() - 1;
        let before = replay(s, earlier);
        lemma_phase_tracks_scratch_dir(s, earlier);
        lemma_take_of_longer(events, last);
        assert forall|i: int| 0 <= i < last implies (creation_answered_at(s, events, i)
            <==> creation_answered_at(s, earlier, i)) && (removal_answered_at(s, events, i)
            <==> removal_answered_at(s, earlier, i)) by {
            lemma_take_of_longer(events, i);
        }
        if dir_created_during(s, earlier) {
            let i = choose|i: int| creation_answered_at(s, earlier, i);
            assert(creation_answered_at(s, events, i));
        }
        if dir_removed_during(s, earlier) {
            let i = choose|i: int| removal_answered_at(s, earlier, i);
            assert(removal_answered_at(s, events, i));
        }
        if dir_created_during(s, events) && !dir_created_during(s, earlier) {
            let i = choose|i: int| creation_answered_at(s, events, i);
            assert(i == last);
        }
        if dir_removed_during(s, events) && !dir_removed_during(s, earlier) {
            let i = choose|i: int| removal_answered_at(s, events, i);
            assert(i == last);
        }
        if before.phase == RequestPhase::CreatingDir && events[last] is DirCreated {
            assert(creation_answered_at(s, events, last));
        }
        if before.phase == RequestPhase::Removing && (events[last] is DirRemoved
            || events[last] is DirNotRemoved) {
            assert(removal_answered_at(s, events, last));
        }
    }
}

/// A run keeps the bookkeeping consistent.
pub proof fn lemma_replay_keeps_wf(s: RequestView, events: Seq<RequestEventView>)
    requires
        s.wf(),
    ensures
        replay(s, events).wf(),
    decreases events.len(),
{
    if events.len() > 0 {
        lemma_replay_keeps_wf(s, events.drop_last());
        lemma_step_keeps_wf(replay(s, events.drop_last()), events.last());
    }
}

/// The result of a request is handed out only once its scratch directory is
/// out of the way: if a run ends with `Finish`, the directory does not count
/// as existing any more, and if it was created at some point of the run then
/// its removal was attempted in the same run.
pub proof fn lemma_finish_follows_removal(s: RequestView, events: Seq<RequestEventView>)
    requires
        s.phase == RequestPhase::CreatingDir,
        s.wf(),
        events.len() > 0,
        step(replay(s, events.drop_last()), events.last()).1 is Finish,
    ensures
        !replay(s, events).scratch_dir_live(),
        dir_created_during(s, events) ==> dir_removed_during(s, events),
{
    lemma_replay_keeps_wf(s, events.drop_last());
    lemma_step_keeps_wf(replay(s, events.drop_last()), events.last());
    lemma_phase_tracks_scratch_dir(s, events);
}

} // verus!
