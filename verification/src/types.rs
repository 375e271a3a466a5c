//! The records that make up the store and the requests that change it.
//!
//! Each record that the store keeps has a view: the same record with every
//! string read as its sequence of characters.

use vstd::prelude::*;

verus! {

/// A JSON document of `serde_json`. The crate carries such documents and
/// never reads them.
#[verifier::external_type_specification]
#[verifier::external_body]
pub struct ExJsonValue(serde_json::Value);

/// Copies a JSON document that the crate carries without reading it.
///
/// Trusted: calls `Clone::clone` of `serde_json::Value`, which builds a
/// value equal to the one it was given.
#[verifier::external_body]
pub(crate) fn clone_json(v: &serde_json::Value) -> (r: serde_json::Value)
    ensures
        r == *v,
{
    v.clone()
}

/// The characters of an optional string.
pub open spec fn opt_view<T: View>(o: Option<T>) -> Option<T::V> {
    match o {
        Some(x) => Some(x@),
        None => None,
    }
}

/// The views of the items of a sequence, in order.
pub open spec fn seq_view<T: View>(s: Seq<T>) -> Seq<T::V> {
    Seq::new(s.len(), |i: int| s[i]@)
}

/// Copies an optional string.
pub fn clone_opt_string(o: &Option<String>) -> (r: Option<String>)
    ensures
        opt_view(r) == opt_view(*o),
{
    match o {
        Some(s) => Some(s.clone()),
        None => None,
    }
}

/// Copies a list of strings.
pub fn clone_strings(v: &Vec<String>) -> (r: Vec<String>)
    ensures
        seq_view(r@) == seq_view(v@),
{
    let mut out: Vec<String> = Vec::new();
    let mut i: usize = 0;
    while i < v.len()
        invariant
            0 <= i <= v@.len(),
            out@.len() == i,
            forall|k: int| 0 <= k < i ==> out@[k]@ == v@[k]@,
        decreases v@.len() - i,
    {
        out.push(v[i].clone());
        i += 1;
    }
    assert(seq_view(out@) =~= seq_view(v@));
    out
}

/// A confidence score, held as the bit pattern of the IEEE-754 double that
/// a detector reported.
///
/// Among the doubles that are not negative the numeric order is the order
/// of the bit patterns read as unsigned integers. The greatest of them is
/// positive infinity; the patterns above it either are not numbers or carry
/// the sign of a negative number.
#[derive(Clone, Copy, Debug, PartialEq, Eq, Structural)]
pub struct Confidence {
    pub bits: u64,
}

/// Project fields as an external reporter sends them.
#[derive(Clone, Debug)]
pub struct ProjectIn {
    pub name: String,
    pub repo_path: String,
    pub preferred_ide: Option<String>,
    pub github_url: Option<String>,
}

/// Task fields as an external reporter sends them.
#[derive(Clone, Debug)]
pub struct TaskIn {
    pub id: String,
    pub agent: String,
    pub title: String,
    pub state: String,
    pub details: Option<String>,
    pub source: Option<String>,
}

/// A repository-backed workspace.
#[derive(Debug)]
pub struct Project {
    pub id: String,
    pub name: String,
    pub repo_path: String,
    pub preferred_ide: String,
    pub github_url: Option<String>,
    pub created_at: i64,
    pub updated_at: i64,
}

/// A project with its strings read as sequences of characters.
pub struct ProjectView {
    pub id: Seq<char>,
    pub name: Seq<char>,
    pub repo_path: Seq<char>,
    pub preferred_ide: Seq<char>,
    pub github_url: Option<Seq<char>>,
    pub created_at: i64,
    pub updated_at: i64,
}

impl View for Project {
    type V = ProjectView;

    open spec fn view(&self) -> ProjectView {
        ProjectView {
            id: self.id@,
            name: self.name@,
            repo_path: self.repo_path@,
            preferred_ide: self.preferred_ide@,
            github_url: opt_view(self.github_url),
            created_at: self.created_at,
            updated_at: self.updated_at,
        }
    }
}

impl Clone for Project {
    fn clone(&self) -> (r: Self)
        ensures
            r@ == self@,
    {
        Project {
            id: self.id.clone(),
            name: self.name.clone(),
            repo_path: self.repo_path.clone(),
            preferred_ide: self.preferred_ide.clone(),
            github_url: clone_opt_string(&self.github_url),
            created_at: self.created_at,
            updated_at: self.updated_at,
        }
    }
}

/// Request counters that a network-based detector attaches to a report.
#[derive(Debug)]
pub struct NetworkContext {
    pub active_requests: u32,
    pub average_response_time: u32,
    pub thinking_duration: Option<u64>,
    pub last_activity: Option<i64>,
    pub request_types: Option<Vec<String>>,
}

/// A network context with its strings read as sequences of characters.
pub struct NetworkContextView {
    pub active_requests: u32,
    pub average_response_time: u32,
    pub thinking_duration: Option<u64>,
    pub last_activity: Option<i64>,
    pub request_types: Option<Seq<Seq<char>>>,
}

impl View for NetworkContext {
    type V = NetworkContextView;

    open spec fn view(&self) -> NetworkContextView {
        NetworkContextView {
            active_requests: self.active_requests,
            average_response_time: self.average_response_time,
            thinking_duration: self.thinking_duration,
            last_activity: self.last_activity,
            request_types: match self.request_types {
                Some(v) => Some(seq_view(v@)),
                None => None,
            },
        }
    }
}

impl Clone for NetworkContext {
    fn clone(&self) -> (r: Self)
        ensures
            r@ == self@,
    {
        NetworkContext {
            active_requests: self.active_requests,
            average_response_time: self.average_response_time,
            thinking_duration: self.thinking_duration,
            last_activity: self.last_activity,
            request_types: match &self.request_types {
                Some(v) => Some(clone_strings(v)),
                None => None,
            },
        }
    }
}

/// The last message of a session, as a session-file detector saw it.
#[derive(Debug)]
pub struct SessionMessage {
    pub message_type: String,
    pub timestamp: String,
    pub preview: String,
}

/// A session message with its strings read as sequences of characters.
pub struct SessionMessageView {
    pub message_type: Seq<char>,
    pub timestamp: Seq<char>,
    pub preview: Seq<char>,
}

impl View for SessionMessage {
    type V = SessionMessageView;

    open spec fn view(&self) -> SessionMessageView {
        SessionMessageView {
            message_type: self.message_type@,
            timestamp: self.timestamp@,
            preview: self.preview@,
        }
    }
}

impl Clone for SessionMessage {
    fn clone(&self) -> (r: Self)
        ensures
            r@ == self@,
    {
        SessionMessage {
            message_type: self.message_type.clone(),
            timestamp: self.timestamp.clone(),
            preview: self.preview.clone(),
        }
    }
}

/// What a session-file detector attaches to a report.
#[derive(Debug)]
pub struct SessionContext {
    pub session_id: Option<String>,
    pub message_count: Option<u32>,
    pub last_message: Option<SessionMessage>,
    pub waiting_time: Option<u64>,
    pub conversation_length: Option<u32>,
}

/// A session context with its strings read as sequences of characters.
pub struct SessionContextView {
    pub session_id: Option<Seq<char>>,
    pub message_count: Option<u32>,
    pub last_message: Option<SessionMessageView>,
    pub waiting_time: Option<u64>,
    pub conversation_length: Option<u32>,
}

impl View for SessionContext {
    type V = SessionContextView;

    open spec fn view(&self) -> SessionContextView {
        SessionContextView {
            session_id: opt_view(self.session_id),
            message_count: self.message_count,
            last_message: opt_view(self.last_message),
            waiting_time: self.waiting_time,
            conversation_length: self.conversation_length,
        }
    }
}

impl Clone for SessionContext {
    fn clone(&self) -> (r: Self)
        ensures
            r@ == self@,
    {
        SessionContext {
            session_id: clone_opt_string(&self.session_id),
            message_count: self.message_count,
            last_message: match &self.last_message {
                Some(m) => Some(m.clone()),
                None => None,
            },
            waiting_time: self.waiting_time,
            conversation_length: self.conversation_length,
        }
    }
}

/// Copies an optional network context.
pub fn clone_opt_network(o: &Option<NetworkContext>) -> (r: Option<NetworkContext>)
    ensures
        opt_view(r) == opt_view(*o),
{
    match o {
        Some(n) => Some(n.clone()),
        None => None,
    }
}

/// Copies an optional session context.
pub fn clone_opt_session(o: &Option<SessionContext>) -> (r: Option<SessionContext>)
    ensures
        opt_view(r) == opt_view(*o),
{
    match o {
        Some(n) => Some(n.clone()),
        None => None,
    }
}

/// One tracked agent session within a project.
#[derive(Debug)]
pub struct Task {
    pub id: String,
    pub project_id: String,
    pub agent: String,
    pub title: String,
    pub state: String,
    pub details: Option<String>,
    pub created_at: i64,
    pub updated_at: i64,
    pub pinned: bool,
    pub detection_method: Option<String>,
    pub confidence: Option<Confidence>,
    pub network_context: Option<NetworkContext>,
    pub session_context: Option<SessionContext>,
}

/// A task with its strings read as sequences of characters.
pub struct TaskView {
    pub id: Seq<char>,
    pub project_id: Seq<char>,
    pub agent: Seq<char>,
    pub title: Seq<char>,
    pub state: Seq<char>,
    pub details: Option<Seq<char>>,
    pub created_at: i64,
    pub updated_at: i64,
    pub pinned: bool,
    pub detection_method: Option<Seq<char>>,
    pub confidence: Option<Confidence>,
    pub network_context: Option<NetworkContextView>,
    pub session_context: Option<SessionContextView>,
}

impl View for Task {
    type V = TaskView;

    open spec fn view(&self) -> TaskView {
        TaskView {
            id: self.id@,
            project_id: self.project_id@,
            agent: self.agent@,
            title: self.title@,
            state: self.state@,
            details: opt_view(self.details),
            created_at: self.created_at,
            updated_at: self.updated_at,
            pinned: self.pinned,
            detection_method: opt_view(self.detection_method),
            confidence: self.confidence,
            network_context: opt_view(self.network_context),
            session_context: opt_view(self.session_context),
        }
    }
}

impl Clone for Task {
    fn clone(&self) -> (r: Self)
        ensures
            r@ == self@,
    {
        Task {
            id: self.id.clone(),
            project_id: self.project_id.clone(),
            agent: self.agent.clone(),
            title: self.title.clone(),
            state: self.state.clone(),
            details: clone_opt_string(&self.details),
            created_at: self.created_at,
            updated_at: self.updated_at,
            pinned: self.pinned,
            detection_method: clone_opt_string(&self.detection_method),
            confidence: self.confidence,
            network_context: clone_opt_network(&self.network_context),
            session_context: clone_opt_session(&self.session_context),
        }
    }
}

/// One recorded state transition of a detector.
#[derive(Debug)]
pub struct DetectionHistoryEntry {
    pub timestamp: i64,
    pub from: String,
    pub to: String,
    pub details: String,
    pub confidence: String,
}

/// A recorded transition with its strings read as sequences of characters.
pub struct DetectionHistoryEntryView {
    pub timestamp: i64,
    pub from: Seq<char>,
    pub to: Seq<char>,
    pub details: Seq<char>,
    pub confidence: Seq<char>,
}

impl View for DetectionHistoryEntry {
    type V = DetectionHistoryEntryView;

    open spec fn view(&self) -> DetectionHistoryEntryView {
        DetectionHistoryEntryView {
            timestamp: self.timestamp,
            from: self.from@,
            to: self.to@,
            details: self.details@,
            confidence: self.confidence@,
        }
    }
}

impl Clone for DetectionHistoryEntry {
    fn clone(&self) -> (r: Self)
        ensures
            r@ == self@,
    {
        DetectionHistoryEntry {
            timestamp: self.timestamp,
            from: self.from.clone(),
            to: self.to.clone(),
            details: self.details.clone(),
            confidence: self.confidence.clone(),
        }
    }
}

/// Copies a detection history.
pub fn clone_history(v: &Vec<DetectionHistoryEntry>) -> (r: Vec<DetectionHistoryEntry>)
    ensures
        seq_view(r@) == seq_view(v@),
{
    let mut out: Vec<DetectionHistoryEntry> = Vec::new();
    let mut i: usize = 0;
    while i < v.len()
        invariant
            0 <= i <= v@.len(),
            out@.len() == i,
            forall|k: int| 0 <= k < i ==> out@[k]@ == v@[k]@,
        decreases v@.len() - i,
    {
        out.push(v[i].clone());
        i += 1;
    }
    assert(seq_view(out@) =~= seq_view(v@));
    out
}

/// The diagnostic trace kept for one task.
#[derive(Debug)]
pub struct DebugData {
    pub cleaned_buffer: String,
    pub current_state: String,
    pub detection_history: Vec<DetectionHistoryEntry>,
    pub task_id: String,
    pub pattern_tests: Option<serde_json::Value>,
    pub confidence: Option<String>,
    pub is_active: Option<bool>,
}

/// A diagnostic trace with its strings read as sequences of characters.
pub struct DebugDataView {
    pub cleaned_buffer: Seq<char>,
    pub current_state: Seq<char>,
    pub detection_history: Seq<DetectionHistoryEntryView>,
    pub task_id: Seq<char>,
    pub pattern_tests: Option<serde_json::Value>,
    pub confidence: Option<Seq<char>>,
    pub is_active: Option<bool>,
}

impl View for DebugData {
    type V = DebugDataView;

    open spec fn view(&self) -> DebugDataView {
        DebugDataView {
            cleaned_buffer: self.cleaned_buffer@,
            current_state: self.current_state@,
            detection_history: seq_view(self.detection_history@),
            task_id: self.task_id@,
            pattern_tests: self.pattern_tests,
            confidence: opt_view(self.confidence),
            is_active: self.is_active,
        }
    }
}

impl Clone for DebugData {
    fn clone(&self) -> (r: Self)
        ensures
            r@ == self@,
    {
        DebugData {
            cleaned_buffer: self.cleaned_buffer.clone(),
            current_state: self.current_state.clone(),
            detection_history: clone_history(&self.detection_history),
            task_id: self.task_id.clone(),
            pattern_tests: match &self.pattern_tests {
                Some(v) => Some(clone_json(v)),
                None => None,
            },
            confidence: clone_opt_string(&self.confidence),
            is_active: self.is_active,
        }
    }
}

/// Body of a request that creates or refreshes a project and one of its
/// tasks.
#[derive(Clone, Debug)]
pub struct UpsertRequest {
    pub project: ProjectIn,
    pub task: TaskIn,
}

/// Body of a request that reports a new state for a task.
#[derive(Clone, Debug)]
pub struct StateUpdateRequest {
    pub task_id: String,
    pub state: String,
    pub details: Option<String>,
    pub detection_method: Option<String>,
    pub source: Option<String>,
}

/// What a detector knows about the transition it reports.
#[derive(Clone, Debug)]
pub struct EnhancedStateContext {
    pub network: Option<NetworkContext>,
    pub session: Option<SessionContext>,
    pub detection_method: String,
    pub confidence: Confidence,
    /// The score as a percentage with one decimal place, as shown in the
    /// details of a task.
    pub confidence_percent: String,
    /// The score as a percentage rounded to a whole number, as shown in the
    /// title of an alert when diagnostics are on.
    pub confidence_percent_rounded: String,
    pub timestamp: i64,
    pub raw_data: Option<serde_json::Value>,
}

/// Body of a request that reports a new state together with its context.
#[derive(Clone, Debug)]
pub struct EnhancedStateUpdateRequest {
    pub task_id: String,
    pub state: String,
    pub context: EnhancedStateContext,
    pub source: Option<String>,
}

/// Body of a request that replaces the details of a task.
#[derive(Clone, Debug)]
pub struct DetailsUpdateRequest {
    pub task_id: String,
    pub details: String,
}

/// Body of a request that marks a task as done.
#[derive(Clone, Debug)]
pub struct TaskDoneRequest {
    pub task_id: String,
    pub details: Option<String>,
    pub source: Option<String>,
}

/// Body of a request that removes a task.
#[derive(Clone, Debug)]
pub struct TaskDeleteRequest {
    pub task_id: String,
}

/// Body of a request that pins or unpins a task.
#[derive(Clone, Debug)]
pub struct TaskPinRequest {
    pub task_id: String,
    pub pinned: bool,
}

/// First-launch and installation flags.
#[derive(Clone, Copy, Debug, PartialEq, Eq, Structural)]
pub struct SetupStatus {
    pub is_first_launch: bool,
    pub cli_installed: bool,
    pub setup_completed: bool,
}

/// Body of a request that stores the diagnostic trace of a task.
#[derive(Clone, Debug)]
pub struct DebugUpdateRequest {
    pub debug_data: DebugData,
}

/// Where the window was last placed.
#[derive(Clone, Copy, Debug, PartialEq, Eq, Structural)]
pub struct WindowPosition {
    pub x: i32,
    pub y: i32,
}

/// The user's preferences.
#[derive(Clone, Debug)]
pub struct AppSettings {
    pub always_on_top: bool,
    pub visible_on_all_workspaces: bool,
    pub window_position: Option<WindowPosition>,
    pub preferred_ide: String,
    pub theme: String,
    pub notifications_enabled: bool,
}

impl Default for AppSettings {
    fn default() -> (r: Self)
        ensures
            r.always_on_top,
            r.visible_on_all_workspaces,
            r.window_position.is_none(),
            r.preferred_ide@ == "cursor"@,
            r.theme@ == "light"@,
            r.notifications_enabled,
    {
        AppSettings {
            always_on_top: true,
            visible_on_all_workspaces: true,
            window_position: None,
            preferred_ide: "cursor".to_string(),
            theme: "light".to_string(),
            notifications_enabled: true,
        }
    }
}

} // verus!
