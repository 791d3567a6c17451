//! The records that describe one recording session.

use crate::bindings::random_uuid_text;
use crate::text::{clone_texts, texts};
use vstd::prelude::*;

verus! {

/// Where a session stands in its life cycle.
#[derive(Debug, Clone)]
pub enum RecordingStatus {
    Idle,
    Recording,
    Processing,
    Completed,
    Error(String),
}

/// Mathematical value of a [`RecordingStatus`].
pub ghost enum StatusView {
    Idle,
    Recording,
    Processing,
    Completed,
    Error(Seq<char>),
}

impl View for RecordingStatus {
    type V = StatusView;

    open spec fn view(&self) -> StatusView {
        match self {
            RecordingStatus::Idle => StatusView::Idle,
            RecordingStatus::Recording => StatusView::Recording,
            RecordingStatus::Processing => StatusView::Processing,
            RecordingStatus::Completed => StatusView::Completed,
            RecordingStatus::Error(m) => StatusView::Error(m@),
        }
    }
}

impl RecordingStatus {
    /// An independent copy of this status.
    pub fn duplicate(&self) -> (r: RecordingStatus)
        ensures
            r@ == self@,
    {
        match self {
            RecordingStatus::Idle => RecordingStatus::Idle,
            RecordingStatus::Recording => RecordingStatus::Recording,
            RecordingStatus::Processing => RecordingStatus::Processing,
            RecordingStatus::Completed => RecordingStatus::Completed,
            RecordingStatus::Error(m) => RecordingStatus::Error(m.clone()),
        }
    }
}

/// What the user said and appears to want.
#[derive(Debug, Clone)]
pub struct UserContext {
    pub transcript: String,
    pub intent_keywords: Vec<String>,
    pub user_emotion: String,
    pub request_type: String,
}

/// Mathematical value of a [`UserContext`].
pub ghost struct UserContextView {
    pub transcript: Seq<char>,
    pub intent_keywords: Seq<Seq<char>>,
    pub user_emotion: Seq<char>,
    pub request_type: Seq<char>,
}

impl View for UserContext {
    type V = UserContextView;

    open spec fn view(&self) -> UserContextView {
        UserContextView {
            transcript: self.transcript@,
            intent_keywords: texts(self.intent_keywords@),
            user_emotion: self.user_emotion@,
            request_type: self.request_type@,
        }
    }
}

impl UserContext {
    /// An independent copy of this record.
    pub fn duplicate(&self) -> (r: UserContext)
        ensures
            r@ == self@,
    {
        UserContext {
            transcript: self.transcript.clone(),
            intent_keywords: clone_texts(&self.intent_keywords),
            user_emotion: self.user_emotion.clone(),
            request_type: self.request_type.clone(),
        }
    }
}

/// One interactive element seen in a frame.
#[derive(Debug, Clone)]
pub struct UiElement {
    pub element_type: String,
    pub text: String,
    pub state: String,
    /// Offset into the recording in seconds, held as the bit pattern of an
    /// IEEE 754 binary64 number so that the record stays exactly comparable.
    pub timestamp_bits: u64,
}

/// Mathematical value of a [`UiElement`].
pub ghost struct UiElementView {
    pub element_type: Seq<char>,
    pub text: Seq<char>,
    pub state: Seq<char>,
    pub timestamp_bits: u64,
}

impl View for UiElement {
    type V = UiElementView;

    open spec fn view(&self) -> UiElementView {
        UiElementView {
            element_type: self.element_type@,
            text: self.text@,
            state: self.state@,
            timestamp_bits: self.timestamp_bits,
        }
    }
}

impl UiElement {
    /// An independent copy of this record.
    pub fn duplicate(&self) -> (r: UiElement)
        ensures
            r@ == self@,
    {
        UiElement {
            element_type: self.element_type.clone(),
            text: self.text.clone(),
            state: self.state.clone(),
            timestamp_bits: self.timestamp_bits,
        }
    }
}

/// The views of a sequence of elements, in the order in which they were detected.
pub open spec fn element_views(v: Seq<UiElement>) -> Seq<UiElementView> {
    Seq::new(v.len(), |i: int| v[i]@)
}

/// Copies a list of elements, keeping their order.
pub fn clone_elements(v: &Vec<UiElement>) -> (r: Vec<UiElement>)
    ensures
        element_views(r@) == element_views(v@),
{
    let mut r: Vec<UiElement> = Vec::new();
    let mut i: usize = 0;
    while i < v.len()
        invariant
            i <= v.len(),
            r.len() == i,
            forall|k: int| 0 <= k < i ==> r@[k]@ == v@[k]@,
        decreases v.len() - i,
    {
        r.push(v[i].duplicate());
        i = i + 1;
    }
    assert(element_views(r@) =~= element_views(v@));
    r
}

/// What the frames show.
#[derive(Debug, Clone)]
pub struct VisualContext {
    pub frames_analyzed: u32,
    pub ui_elements_detected: Vec<UiElement>,
    pub color_palette: Vec<String>,
    pub layout_analysis: String,
    pub text_content: Vec<String>,
}

/// Mathematical value of a [`VisualContext`].
pub ghost struct VisualContextView {
    pub frames_analyzed: u32,
    pub ui_elements_detected: Seq<UiElementView>,
    pub color_palette: Seq<Seq<char>>,
    pub layout_analysis: Seq<char>,
    pub text_content: Seq<Seq<char>>,
}

impl View for VisualContext {
    type V = VisualContextView;

    open spec fn view(&self) -> VisualContextView {
        VisualContextView {
            frames_analyzed: self.frames_analyzed,
            ui_elements_detected: element_views(self.ui_elements_detected@),
            color_palette: texts(self.color_palette@),
            layout_analysis: self.layout_analysis@,
            text_content: texts(self.text_content@),
        }
    }
}

impl VisualContext {
    /// An independent copy of this record.
    pub fn duplicate(&self) -> (r: VisualContext)
        ensures
            r@ == self@,
    {
        VisualContext {
            frames_analyzed: self.frames_analyzed,
            ui_elements_detected: clone_elements(&self.ui_elements_detected),
            color_palette: clone_texts(&self.color_palette),
            layout_analysis: self.layout_analysis.clone(),
            text_content: clone_texts(&self.text_content),
        }
    }
}

/// What the analysis concluded about the code under discussion.
#[derive(Debug, Clone)]
pub struct TechnicalContext {
    pub detected_framework: String,
    pub error_patterns: Vec<String>,
    pub suggested_focus: Vec<String>,
}

/// Mathematical value of a [`TechnicalContext`].
pub ghost struct TechnicalContextView {
    pub detected_framework: Seq<char>,
    pub error_patterns: Seq<Seq<char>>,
    pub suggested_focus: Seq<Seq<char>>,
}

impl View for TechnicalContext {
    type V = TechnicalContextView;

    open spec fn view(&self) -> TechnicalContextView {
        TechnicalContextView {
            detected_framework: self.detected_framework@,
            error_patterns: texts(self.error_patterns@),
            suggested_focus: texts(self.suggested_focus@),
        }
    }
}

impl TechnicalContext {
    /// An independent copy of this record.
    pub fn duplicate(&self) -> (r: TechnicalContext)
        ensures
            r@ == self@,
    {
        TechnicalContext {
            detected_framework: self.detected_framework.clone(),
            error_patterns: clone_texts(&self.error_patterns),
            suggested_focus: clone_texts(&self.suggested_focus),
        }
    }
}

/// The analysis attached to a completed session.
#[derive(Debug, Clone)]
pub struct RecordingMetadata {
    pub session_id: String,
    pub timestamp: String,
    pub duration_seconds: u64,
    pub user_context: UserContext,
    pub visual_context: VisualContext,
    pub technical_context: TechnicalContext,
}

/// Mathematical value of a [`RecordingMetadata`].
pub ghost struct MetadataView {
    pub session_id: Seq<char>,
    pub timestamp: Seq<char>,
    pub duration_seconds: u64,
    pub user_context: UserContextView,
    pub visual_context: VisualContextView,
    pub technical_context: TechnicalContextView,
}

impl View for RecordingMetadata {
    type V = MetadataView;

    open spec fn view(&self) -> MetadataView {
        MetadataView {
            session_id: self.session_id@,
            timestamp: self.timestamp@,
            duration_seconds: self.duration_seconds,
            user_context: self.user_context@,
            visual_context: self.visual_context@,
            technical_context: self.technical_context@,
        }
    }
}

impl RecordingMetadata {
    /// An independent copy of this record.
    pub fn duplicate(&self) -> (r: RecordingMetadata)
        ensures
            r@ == self@,
    {
        RecordingMetadata {
            session_id: self.session_id.clone(),
            timestamp: self.timestamp.clone(),
            duration_seconds: self.duration_seconds,
            user_context: self.user_context.duplicate(),
            visual_context: self.visual_context.duplicate(),
            technical_context: self.technical_context.duplicate(),
        }
    }
}

/// The single session that the application tracks.
#[derive(Debug, Clone)]
pub struct RecordingSession {
    pub id: String,
    pub status: RecordingStatus,
    pub start_time: Option<String>,
    pub duration: Option<u64>,
    pub metadata: Option<RecordingMetadata>,
}

/// Mathematical value of a [`RecordingSession`].
pub ghost struct SessionView {
    pub id: Seq<char>,
    pub status: StatusView,
    pub start_time: Option<Seq<char>>,
    pub duration: Option<u64>,
    pub metadata: Option<MetadataView>,
}

impl View for RecordingSession {
    type V = SessionView;

    open spec fn view(&self) -> SessionView {
        SessionView {
            id: self.id@,
            status: self.status@,
            start_time: match self.start_time {
                Some(t) => Some(t@),
                None => None,
            },
            duration: self.duration,
            metadata: match self.metadata {
                Some(m) => Some(m@),
                None => None,
            },
        }
    }
}

impl SessionView {
    /// Analysis is attached exactly while the session is completed.
    pub open spec fn wf(self) -> bool {
        self.metadata.is_some() <==> self.status == StatusView::Completed
    }
}

/// A session that has not started, under the identifier `id`.
pub open spec fn idle_session(id: Seq<char>) -> SessionView {
    SessionView { id, status: StatusView::Idle, start_time: None, duration: None, metadata: None }
}

impl Default for RecordingSession {
    /// A session that has not started, under a freshly drawn identifier.
    fn default() -> (r: RecordingSession)
        ensures
            r@ == idle_session(r@.id),
            r@.id.len() == 36,
    {
        RecordingSession::with_id(random_uuid_text())
    }
}

impl RecordingSession {
    /// A session that has not started, under the given identifier.
    pub fn with_id(id: String) -> (r: RecordingSession)
        ensures
            r@ == idle_session(id@),
    {
        RecordingSession {
            id,
            status: RecordingStatus::Idle,
            start_time: None,
            duration: None,
            metadata: None,
        }
    }

    /// A copy of the session as it stands, for handing to a caller.
    pub fn snapshot(&self) -> (r: RecordingSession)
        ensures
            r@ == self@,
    {
        RecordingSession {
            id: self.id.clone(),
            status: self.status.duplicate(),
            start_time: match &self.start_time {
                Some(t) => Some(t.clone()),
                None => None,
            },
            duration: self.duration,
            metadata: match &self.metadata {
                Some(m) => Some(m.duplicate()),
                None => None,
            },
        }
    }
}

} // verus!
