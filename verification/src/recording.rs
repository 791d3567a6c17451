//! Where recordings live on disk, and the stand-in for their analysis.

use crate::bindings::{join_path, joined_path, utc_now_rfc3339};
use crate::text::texts;
use crate::types::{
    idle_session, MetadataView, RecordingMetadata, RecordingSession, TechnicalContext,
    TechnicalContextView, UserContext, UserContextView, VisualContext, VisualContextView,
};
use vstd::prelude::*;
use vstd::string::StringExecFns;

verus! {

/// Knows the directory under which every session keeps its files.
#[derive(Debug, Clone)]
pub struct RecordingManager {
    pub temp_dir: String,
}

/// The name of the manager's directory under the system's temporary directory.
pub open spec fn manager_dir_name() -> Seq<char> {
    "clauveo"@
}

/// The analysis that stands in until a real one exists: fixed findings,
/// filed under the given session and instant.
pub open spec fn placeholder_metadata(session_id: Seq<char>, timestamp: Seq<char>) -> MetadataView {
    MetadataView {
        session_id,
        timestamp,
        duration_seconds: 60,
        user_context: UserContextView {
            transcript: "User is showing a bug in their application"@,
            intent_keywords: seq!["bug"@, "fix"@],
            user_emotion: "frustrated"@,
            request_type: "bug_fix"@,
        },
        visual_context: VisualContextView {
            frames_analyzed: 60,
            ui_elements_detected: Seq::empty(),
            color_palette: seq!["#ffffff"@, "#000000"@],
            layout_analysis: "web_application"@,
            text_content: seq!["Login"@, "Password"@],
        },
        technical_context: TechnicalContextView {
            detected_framework: "react"@,
            error_patterns: seq!["missing_validation"@],
            suggested_focus: seq!["form_validation"@],
        },
    }
}

fn one_text(a: &str) -> (r: Vec<String>)
    ensures
        texts(r@) == seq![a@],
{
    let mut v: Vec<String> = Vec::new();
    v.push(String::from_str(a));
    assert(texts(v@) =~= seq![a@]);
    v
}

fn two_texts(a: &str, b: &str) -> (r: Vec<String>)
    ensures
        texts(r@) == seq![a@, b@],
{
    let mut v: Vec<String> = Vec::new();
    v.push(String::from_str(a));
    v.push(String::from_str(b));
    assert(texts(v@) =~= seq![a@, b@]);
    v
}

/// Builds the stand-in analysis for a session, stamped with `timestamp`.
pub fn build_placeholder_metadata(session_id: &str, timestamp: String) -> (r: RecordingMetadata)
    ensures
        r@ == placeholder_metadata(session_id@, timestamp@),
{
    let elements = Vec::new();
    let r = RecordingMetadata {
        session_id: String::from_str(session_id),
        timestamp,
        duration_seconds: 60,
        user_context: UserContext {
            transcript: String::from_str("User is showing a bug in their application"),
            intent_keywords: two_texts("bug", "fix"),
            user_emotion: String::from_str("frustrated"),
            request_type: String::from_str("bug_fix"),
        },
        visual_context: VisualContext {
            frames_analyzed: 60,
            ui_elements_detected: elements,
            color_palette: two_texts("#ffffff", "#000000"),
            layout_analysis: String::from_str("web_application"),
            text_content: two_texts("Login", "Password"),
        },
        technical_context: TechnicalContext {
            detected_framework: String::from_str("react"),
            error_patterns: one_text("missing_validation"),
            suggested_focus: one_text("form_validation"),
        },
    };
    assert(r@.visual_context.ui_elements_detected =~= Seq::empty());
    r
}

impl RecordingManager {
    /// A manager whose directory lies under `system_temp_dir`.
    pub fn new(system_temp_dir: &str) -> (r: RecordingManager)
        ensures
            r.temp_dir@ == joined_path(system_temp_dir@, manager_dir_name()),
    {
        RecordingManager { temp_dir: join_path(system_temp_dir, "clauveo") }
    }

    /// A session that has not started, under a freshly drawn identifier.
    pub fn create_session(&self) -> (r: RecordingSession)
        ensures
            r@ == idle_session(r@.id),
            r@.id.len() == 36,
    {
        RecordingSession::default()
    }

    /// The directory that holds the files of the session `session_id`.
    pub fn get_session_path(&self, session_id: &str) -> (r: String)
        ensures
            r@ == joined_path(self.temp_dir@, session_id@),
    {
        join_path(self.temp_dir.as_str(), session_id)
    }

    /// The stand-in analysis for a session, stamped with the current time.
    pub fn generate_metadata(&self, session_id: &str) -> (r: RecordingMetadata)
        ensures
            r@ == placeholder_metadata(session_id@, r@.timestamp),
    {
        build_placeholder_metadata(session_id, utc_now_rfc3339())
    }
}

/// What [`cleanup_recording_files`] puts in front of the session's identifier.
pub open spec fn cleanup_notice_prefix() -> Seq<char> {
    "Cleaned up files for session: "@
}

/// Acknowledges a request to clean up after a session.  No files are kept
/// per session, so there is nothing to remove and the request always
/// succeeds.
pub fn cleanup_recording_files(session_id: String) -> (r: Result<String, String>)
    ensures
        r matches Ok(notice) && notice@ == cleanup_notice_prefix() + session_id@,
{
    Ok(String::from_str("Cleaned up files for session: ").concat(session_id.as_str()))
}

} // verus!
