//! The session state manager: the operations that move the one tracked
//! session through its life cycle.
//!
//! Every operation takes the session by exclusive reference, so two of them
//! can never overlap; whoever shares the session between threads wraps it in
//! a lock and reports a lost lock as [`SessionError::LockUnavailable`].

use crate::bindings::utc_now_rfc3339;
use crate::types::{
    idle_session, MetadataView, RecordingMetadata, RecordingSession, RecordingStatus, SessionView,
    StatusView,
};
use vstd::prelude::*;
use vstd::string::StringExecFns;

verus! {

/// Why a session operation did not go through.
#[derive(Debug, Clone)]
pub enum SessionError {
    /// Exclusive access to the session could not be had; carries the reason.
    LockUnavailable(String),
    /// The submitted analysis was malformed; carries what was wrong with it.
    MetadataParse(String),
}

/// What [`SessionError::message`] puts in front of a parse failure's detail.
pub open spec fn parse_failure_prefix() -> Seq<char> {
    "Failed to parse metadata: "@
}

impl SessionError {
    /// The text shown to the user for this failure.
    pub open spec fn message_text(&self) -> Seq<char> {
        match self {
            SessionError::LockUnavailable(reason) => reason@,
            SessionError::MetadataParse(detail) => parse_failure_prefix() + detail@,
        }
    }

    /// Renders the failure for display.
    pub fn message(&self) -> (r: String)
        ensures
            r@ == self.message_text(),
    {
        match self {
            SessionError::LockUnavailable(reason) => reason.clone(),
            SessionError::MetadataParse(detail) => {
                String::from_str("Failed to parse metadata: ").concat(detail.as_str())
            },
        }
    }
}

/// One call made on the session, with what the call was given.
pub ghost enum SessionCall {
    /// Recording starts at the instant `now`.
    Start { now: Seq<char> },
    /// Recording stops and processing begins.
    Stop,
    /// Analysis is handed in; `None` stands for a payload that did not parse.
    Submit { parsed: Option<MetadataView> },
    /// A failure elsewhere is recorded against the session.
    MarkError { message: Seq<char> },
    /// The session is only looked at.
    Status,
}

/// The session after `call`, given the session before it.
pub open spec fn apply(s: SessionView, call: SessionCall) -> SessionView {
    match call {
        SessionCall::Start { now } => SessionView {
            status: StatusView::Recording,
            start_time: Some(now),
            metadata: None,
            ..s
        },
        SessionCall::Stop => SessionView { status: StatusView::Processing, metadata: None, ..s },
        SessionCall::Submit { parsed: Some(m) } => SessionView {
            status: StatusView::Completed,
            metadata: Some(m),
            ..s
        },
        SessionCall::Submit { parsed: None } => s,
        SessionCall::MarkError { message } => SessionView {
            status: StatusView::Error(message),
            metadata: None,
            ..s
        },
        SessionCall::Status => s,
    }
}

/// Enters `Recording` at the instant `now`, whatever the state before, and
/// returns the session as it then stands.
pub fn begin_recording(session: &mut RecordingSession, now: String) -> (snapshot: RecordingSession)
    ensures
        final(session)@ == apply(old(session)@, (SessionCall::Start { now: now@ })),
        snapshot@ == final(session)@,
{
    session.status = RecordingStatus::Recording;
    session.start_time = Some(now);
    session.metadata = None;
    session.snapshot()
}

/// Enters `Recording`, stamped with the current time.  Starting twice simply
/// stamps again.
pub fn start_recording_session(session: &mut RecordingSession) -> (snapshot: RecordingSession)
    ensures
        final(session)@.start_time.is_some(),
        final(session)@ == apply(
            old(session)@,
            (SessionCall::Start { now: final(session)@.start_time.unwrap() }),
        ),
        snapshot@ == final(session)@,
{
    let now = utc_now_rfc3339();
    begin_recording(session, now)
}

/// Enters `Processing`, whatever the state before.
pub fn stop_recording_session(session: &mut RecordingSession) -> (snapshot: RecordingSession)
    ensures
        final(session)@ == apply(old(session)@, SessionCall::Stop),
        snapshot@ == final(session)@,
{
    session.status = RecordingStatus::Processing;
    session.metadata = None;
    session.snapshot()
}

/// Returns the session as it stands and changes nothing.
pub fn get_recording_status(session: &RecordingSession) -> (snapshot: RecordingSession)
    ensures
        snapshot@ == session@,
        snapshot@ == apply(session@, SessionCall::Status),
{
    session.snapshot()
}

/// The ghost counterpart of a parse outcome.
pub open spec fn parsed_view(parsed: Result<RecordingMetadata, String>) -> Option<MetadataView> {
    match parsed {
        Ok(m) => Some(m@),
        Err(_) => None,
    }
}

/// Takes the outcome of parsing a submitted analysis.  A parsed analysis is
/// attached and completes the session; a parse failure is reported with its
/// detail and leaves the session exactly as it was.
pub fn process_recording_metadata(
    session: &mut RecordingSession,
    parsed: Result<RecordingMetadata, String>,
) -> (r: Result<RecordingSession, SessionError>)
    ensures
        final(session)@ == apply(old(session)@, (SessionCall::Submit { parsed: parsed_view(parsed) })),
        match parsed {
            Ok(m) => r.is_ok() && r.unwrap()@ == final(session)@
                && final(session)@.status == StatusView::Completed
                && final(session)@.metadata == Some(m@),
            Err(detail) => final(session)@ == old(session)@ && (r matches Err(
                SessionError::MetadataParse(d),
            ) && d@ == detail@),
        },
{
    match parsed {
        Ok(m) => {
            session.metadata = Some(m);
            session.status = RecordingStatus::Completed;
            Ok(session.snapshot())
        },
        Err(detail) => Err(SessionError::MetadataParse(detail)),
    }
}

/// Records a failure against the session: enters `Error` with `message`.
pub fn mark_error(session: &mut RecordingSession, message: String) -> (snapshot: RecordingSession)
    ensures
        final(session)@ == apply(old(session)@, (SessionCall::MarkError { message: message@ })),
        snapshot@ == final(session)@,
{
    session.status = RecordingStatus::Error(message);
    session.metadata = None;
    session.snapshot()
}

/// The session after a whole sequence of calls, made one after the other.
pub open spec fn replay(s: SessionView, calls: Seq<SessionCall>) -> SessionView
    decreases calls.len(),
{
    if calls.len() == 0 {
        s
    } else {
        apply(replay(s, calls.drop_last()), calls.last())
    }
}

/// Some call among `calls` started a recording.
pub open spec fn ever_started(calls: Seq<SessionCall>) -> bool {
    exists|i: int| 0 <= i < calls.len() && #[trigger] calls[i] is Start
}

/// The status that the last call leaves behind, where that call sets one.
pub open spec fn status_left_by(call: SessionCall) -> Option<StatusView> {
    match call {
        SessionCall::Start { .. } => Some(StatusView::Recording),
        SessionCall::Stop => Some(StatusView::Processing),
        SessionCall::Submit { parsed: Some(_) } => Some(StatusView::Completed),
        SessionCall::Submit { parsed: None } => None,
        SessionCall::MarkError { message } => Some(StatusView::Error(message)),
        SessionCall::Status => None,
    }
}

/// Whatever calls are made on a new session, in whatever order, the session
/// follows its life cycle: it keeps its identifier; it carries an analysis
/// exactly while it is completed; it carries a start time exactly if some
/// call has started a recording; and its status is the one the last call
/// sets, or, where that call sets none, the one it had before.
pub proof fn lemma_session_follows_life_cycle(id: Seq<char>, calls: Seq<SessionCall>)
    ensures
        replay(idle_session(id), calls).id == id,
        replay(idle_session(id), calls).wf(),
        replay(idle_session(id), calls).start_time.is_some() <==> ever_started(calls),
        calls.len() > 0 ==> replay(idle_session(id), calls).status == match status_left_by(
            calls.last(),
        ) {
            Some(status) => status,
            None => replay(idle_session(id), calls.drop_last()).status,
        },
    decreases calls.len(),
{
    if calls.len() > 0 {
        let earlier = calls.drop_last();
        lemma_session_follows_life_cycle(id, earlier);
        if ever_started(earlier) {
            let i = choose|i: int| 0 <= i < earlier.len() && #[trigger] earlier[i] is Start;
            assert(calls[i] is Start);
        }
        if calls.last() is Start {
            assert(calls[calls.len() - 1] is Start);
        }
        if ever_started(calls) && !(calls.last() is Start) {
            let i = choose|i: int| 0 <= i < calls.len() && #[trigger] calls[i] is Start;
            assert(earlier[i] is Start);
        }
    }
}

} // verus!
