//! The gateway's requests, as decisions: each one checks the credential,
//! changes the store, and says what the caller has to do next. The caller
//! performs those effects after it has released the store.

use crate::auth::{authorized, validate_auth_header, RequestHeaders};
use crate::notify::{
    basic_notification, create_enhanced_notification, enhanced_body, enhanced_title,
    generate_enhanced_details, detail_parts, is_alert_state, join_parts, notify_spec,
    should_notify, should_send_enhanced_notification, title_of, Notification,
};
use crate::keyed::{as_map, index_of, lemma_as_map_index, Keyed};
use crate::state::{AppState, AppStateView};
use crate::store::{has_path, unique_paths, upsert_post, StoreError};
use crate::text::str_eq;
use crate::types::{
    opt_view, seq_view, DebugData, DebugDataView, DebugUpdateRequest, DetailsUpdateRequest,
    DetectionHistoryEntry, DetectionHistoryEntryView, EnhancedStateUpdateRequest, SetupStatus,
    StateUpdateRequest, TaskDeleteRequest, TaskDoneRequest, TaskPinRequest, TaskView,
    UpsertRequest,
};
use vstd::prelude::*;

verus! {

/// Why the gateway refused a request.
#[derive(Clone, Copy, Debug, PartialEq, Eq, Structural)]
pub enum GatewayError {
    /// The credential is missing or wrong. The store was not touched.
    Unauthorized,
    /// The request names a task that the store does not have.
    NotFound,
}

impl GatewayError {
    /// The status code of the response.
    pub fn status_code(&self) -> (r: u16)
        ensures
            r == match *self {
                GatewayError::Unauthorized => 401u16,
                GatewayError::NotFound => 404u16,
            },
    {
        match self {
            GatewayError::Unauthorized => 401,
            GatewayError::NotFound => 404,
        }
    }
}

/// What the caller has to do after a request has changed the store.
#[derive(Debug)]
pub struct Effects {
    /// Push the new snapshot to the user interface.
    pub emit_tasks_updated: bool,
    /// Show this alert.
    pub notification: Option<Notification>,
    /// Rebuild the tray menu and icon.
    pub refresh_tray: bool,
    /// Write the snapshot to disk.
    pub persist: bool,
}

/// A fresh id for a project.
///
/// Trusted: calls `uuid::Uuid::new_v4` and writes the result as text.
/// Nothing is claimed of the id.
#[verifier::external_body]
fn new_project_id() -> String {
    uuid::Uuid::new_v4().to_string()
}

/// The snapshot, for an authorised reader.
pub fn get_state(state: &AppState, headers: &RequestHeaders, expected: &Result<String, String>) -> (r:
    Result<AppState, GatewayError>)
    ensures
        match r {
            Ok(copy) => authorized(*headers, *expected) && copy@ == state@ && (state.wf()
                ==> copy.wf()),
            Err(e) => !authorized(*headers, *expected) && e == GatewayError::Unauthorized,
        },
{
    if !validate_auth_header(headers, expected) {
        return Err(GatewayError::Unauthorized);
    }
    Ok(state.snapshot())
}

/// Whether the alert is the one for a report without context.
pub open spec fn is_basic_alert(
    alert: Option<Notification>,
    state: Seq<char>,
    project_name: Seq<char>,
    agent_name: Seq<char>,
) -> bool {
    if is_alert_state(state) {
        alert matches Some(n) && n.title@ == title_of(project_name, agent_name) && n.body@
            == state && n.confidence.is_none() && n.detection_method.is_none()
    } else {
        alert.is_none()
    }
}

/// Creates or refreshes a project and one of its tasks.
///
/// An authorised upsert always succeeds. It adds one project where none
/// lies at the repository path and none where one does, and it never
/// removes a project. The snapshot is pushed to the user interface, the tray
/// is rebuilt and the snapshot is written to disk; an alert is shown where
/// the task is reported as `PENDING` or `ERROR`.
pub fn upsert_task(
    state: &mut AppState,
    headers: &RequestHeaders,
    expected: &Result<String, String>,
    req: UpsertRequest,
    now: i64,
) -> (r: Result<Effects, GatewayError>)
    requires
        old(state).wf(),
    ensures
        final(state).wf(),
        match r {
            Ok(effects) => {
                &&& authorized(*headers, *expected)
                &&& exists|fresh: Seq<char>, pid: Seq<char>| #[trigger]
                    upsert_post(old(state)@, req.project, req.task, now, fresh, pid, final(state)@)
                &&& final(state)@.projects.dom().len() == old(state)@.projects.dom().len()
                    + if has_path(old(state)@.projects, req.project.repo_path@) {
                    0int
                } else {
                    1int
                }
                &&& forall|k: Seq<char>| #[trigger]
                    old(state)@.projects.dom().contains(k) ==> final(state)@.projects.dom().contains(
                        k,
                    )
                &&& unique_paths(old(state)@.projects) ==> unique_paths(final(state)@.projects)
                &&& effects.emit_tasks_updated && effects.refresh_tray && effects.persist
                &&& is_basic_alert(
                    effects.notification,
                    req.task.state@,
                    req.project.name@,
                    req.task.agent@,
                )
            },
            Err(e) => !authorized(*headers, *expected) && e == GatewayError::Unauthorized
                && *final(state) == *old(state),
        },
{
    if !validate_auth_header(headers, expected) {
        return Err(GatewayError::Unauthorized);
    }
    let notification = if should_notify(req.task.state.as_str(), "unknown", None) {
        Some(
            basic_notification(
                req.project.name.as_str(),
                req.task.agent.as_str(),
                req.task.state.as_str(),
            ),
        )
    } else {
        None
    };
    let fresh = new_project_id();
    let ghost fresh_view = fresh@;
    let done = state.upsert(req.project, req.task, now, fresh);
    assert(upsert_post(
        old(state)@,
        req.project,
        req.task,
        now,
        fresh_view,
        done.project_id@,
        state@,
    ));
    Ok(Effects { emit_tasks_updated: true, notification, refresh_tray: true, persist: true })
}

/// The detection method that is recorded for a report: reports from a hook
/// and from the wrapper are labelled by their source, any other report by
/// the method it names, and `unknown` where it names none.
pub open spec fn detection_method_of(source: Option<String>, given: Option<String>) -> Seq<char> {
    if source matches Some(s) && s@ == "hook"@ {
        "hooks"@
    } else if source matches Some(s) && s@ == "wrapper"@ {
        "patterns"@
    } else {
        match given {
            Some(m) => m@,
            None => "unknown"@,
        }
    }
}

/// The detection method that is recorded for a report.
pub fn detection_method_for(source: &Option<String>, given: &Option<String>) -> (r: String)
    ensures
        r@ == detection_method_of(*source, *given),
{
    let by_source: Option<&'static str> = match source {
        Some(s) => {
            if str_eq(s.as_str(), "hook") {
                Some("hooks")
            } else if str_eq(s.as_str(), "wrapper") {
                Some("patterns")
            } else {
                None
            }
        },
        None => None,
    };
    match by_source {
        Some(label) => label.to_string(),
        None => match given {
            Some(m) => m.clone(),
            None => "unknown".to_string(),
        },
    }
}

/// The names under which an alert for the task is shown: the project's name
/// and the agent's, or `Unknown` twice where the task's project is missing.
pub open spec fn alert_names(s: AppStateView, task_id: Seq<char>) -> (Seq<char>, Seq<char>) {
    let task = s.tasks[task_id];
    if s.projects.dom().contains(task.project_id) {
        (s.projects[task.project_id].name, task.agent)
    } else {
        ("Unknown"@, "Unknown"@)
    }
}

/// The names under which an alert for the task is shown, if the store has
/// the task.
pub fn names_for_alert(state: &AppState, task_id: &str) -> (r: Option<(String, String)>)
    requires
        state.wf(),
    ensures
        match r {
            Some(names) => state@.tasks.dom().contains(task_id@) && (names.0@, names.1@)
                == alert_names(state@, task_id@),
            None => !state@.tasks.dom().contains(task_id@),
        },
{
    match state.get_task(task_id) {
        Some(task) => match state.get_project(task.project_id.as_str()) {
            Some(project) => Some((project.name, task.agent)),
            None => Some(("Unknown".to_string(), "Unknown".to_string())),
        },
        None => None,
    }
}

/// Reports a new state for a task.
///
/// The snapshot is pushed to the user interface, the tray is rebuilt and the
/// snapshot is written to disk; an alert is shown where the new state is
/// `PENDING` or `ERROR`.
pub fn update_task_state(
    state: &mut AppState,
    headers: &RequestHeaders,
    expected: &Result<String, String>,
    req: StateUpdateRequest,
    now: i64,
) -> (r: Result<Effects, GatewayError>)
    requires
        old(state).wf(),
    ensures
        final(state).wf(),
        match r {
            Ok(effects) => {
                &&& authorized(*headers, *expected)
                &&& old(state)@.tasks.dom().contains(req.task_id@)
                &&& final(state)@ == (AppStateView {
                    tasks: old(state)@.tasks.insert(
                        req.task_id@,
                        TaskView {
                            state: req.state@,
                            details: opt_view(req.details),
                            detection_method: Some(
                                detection_method_of(req.source, req.detection_method),
                            ),
                            updated_at: now,
                            ..old(state)@.tasks[req.task_id@]
                        },
                    ),
                    updated_at: now,
                    ..old(state)@
                })
                &&& effects.emit_tasks_updated && effects.refresh_tray && effects.persist
                &&& is_basic_alert(
                    effects.notification,
                    req.state@,
                    alert_names(old(state)@, req.task_id@).0,
                    alert_names(old(state)@, req.task_id@).1,
                )
            },
            Err(e) => {
                &&& *final(state) == *old(state)
                &&& e == if !authorized(*headers, *expected) {
                    GatewayError::Unauthorized
                } else {
                    GatewayError::NotFound
                }
                &&& authorized(*headers, *expected) ==> !old(state)@.tasks.dom().contains(
                    req.task_id@,
                )
            },
        },
{
    if !validate_auth_header(headers, expected) {
        return Err(GatewayError::Unauthorized);
    }
    let names = match names_for_alert(state, req.task_id.as_str()) {
        Some(names) => names,
        None => {
            return Err(GatewayError::NotFound);
        },
    };
    let method = detection_method_for(&req.source, &req.detection_method);
    let notification = if should_notify(req.state.as_str(), method.as_str(), None) {
        Some(basic_notification(names.0.as_str(), names.1.as_str(), req.state.as_str()))
    } else {
        None
    };
    let _ = state.update_state(req.task_id.as_str(), req.state, req.details, method, now);
    Ok(Effects { emit_tasks_updated: true, notification, refresh_tray: true, persist: true })
}

/// Whether the alert is the one for a report that carries its context.
pub open spec fn is_enhanced_alert(
    alert: Option<Notification>,
    req: EnhancedStateUpdateRequest,
    project_name: Seq<char>,
    agent_name: Seq<char>,
    debug: bool,
) -> bool {
    if notify_spec(req.state@, req.context.detection_method@, Some(req.context.confidence)) {
        &&& alert matches Some(n)
        &&& n.title@ == enhanced_title(
            project_name,
            agent_name,
            debug,
            req.context.confidence_percent_rounded@,
        )
        &&& n.body@ == enhanced_body(
            req.state@,
            opt_view(req.context.network),
            opt_view(req.context.session),
        )
        &&& n.confidence == Some(req.context.confidence)
        &&& opt_view(n.detection_method) == Some(req.context.detection_method@)
    } else {
        alert.is_none()
    }
}

/// Reports a new state for a task together with the context of the
/// detection. `debug` says whether diagnostics are on.
///
/// The task takes the state, the detection method, the score and the
/// contexts of the report, and its details are written from them. The
/// snapshot is pushed to the user interface, the tray is rebuilt and the
/// snapshot is written to disk; an alert is shown where the policy asks for
/// one.
pub fn update_task_state_enhanced(
    state: &mut AppState,
    headers: &RequestHeaders,
    expected: &Result<String, String>,
    req: EnhancedStateUpdateRequest,
    now: i64,
    debug: bool,
) -> (r: Result<Effects, GatewayError>)
    requires
        old(state).wf(),
    ensures
        final(state).wf(),
        match r {
            Ok(effects) => {
                &&& authorized(*headers, *expected)
                &&& old(state)@.tasks.dom().contains(req.task_id@)
                &&& final(state)@ == (AppStateView {
                    tasks: old(state)@.tasks.insert(
                        req.task_id@,
                        TaskView {
                            state: req.state@,
                            details: Some(
                                join_parts(
                                    detail_parts(
                                        req.context.detection_method@,
                                        req.context.confidence_percent@,
                                        opt_view(req.context.network),
                                        opt_view(req.context.session),
                                    ),
                                    " | "@,
                                ),
                            ),
                            detection_method: Some(req.context.detection_method@),
                            confidence: Some(req.context.confidence),
                            network_context: opt_view(req.context.network),
                            session_context: opt_view(req.context.session),
                            updated_at: now,
                            ..old(state)@.tasks[req.task_id@]
                        },
                    ),
                    updated_at: now,
                    ..old(state)@
                })
                &&& effects.emit_tasks_updated && effects.refresh_tray && effects.persist
                &&& is_enhanced_alert(
                    effects.notification,
                    req,
                    alert_names(old(state)@, req.task_id@).0,
                    alert_names(old(state)@, req.task_id@).1,
                    debug,
                )
            },
            Err(e) => {
                &&& *final(state) == *old(state)
                &&& e == if !authorized(*headers, *expected) {
                    GatewayError::Unauthorized
                } else {
                    GatewayError::NotFound
                }
                &&& authorized(*headers, *expected) ==> !old(state)@.tasks.dom().contains(
                    req.task_id@,
                )
            },
        },
{
    if !validate_auth_header(headers, expected) {
        return Err(GatewayError::Unauthorized);
    }
    let names = match names_for_alert(state, req.task_id.as_str()) {
        Some(names) => names,
        None => {
            return Err(GatewayError::NotFound);
        },
    };
    let details = generate_enhanced_details(&req.context);
    let notification = if should_send_enhanced_notification(
        req.state.as_str(),
        &req.context,
        req.state.as_str(),
    ) {
        Some(
            create_enhanced_notification(
                names.0.as_str(),
                names.1.as_str(),
                req.state.as_str(),
                &req.context,
                debug,
            ),
        )
    } else {
        None
    };
    let _ = state.update_state_with_context(
        req.task_id.as_str(),
        req.state.clone(),
        &req.context,
        details,
        now,
    );
    Ok(Effects { emit_tasks_updated: true, notification, refresh_tray: true, persist: true })
}

/// Replaces the details of a task. The snapshot is pushed to the user
/// interface and written to disk.
pub fn update_task_details(
    state: &mut AppState,
    headers: &RequestHeaders,
    expected: &Result<String, String>,
    req: DetailsUpdateRequest,
    now: i64,
) -> (r: Result<Effects, GatewayError>)
    requires
        old(state).wf(),
    ensures
        final(state).wf(),
        match r {
            Ok(effects) => {
                &&& authorized(*headers, *expected)
                &&& old(state)@.tasks.dom().contains(req.task_id@)
                &&& final(state)@ == (AppStateView {
                    tasks: old(state)@.tasks.insert(
                        req.task_id@,
                        TaskView {
                            details: Some(req.details@),
                            updated_at: now,
                            ..old(state)@.tasks[req.task_id@]
                        },
                    ),
                    updated_at: now,
                    ..old(state)@
                })
                &&& effects.emit_tasks_updated && effects.persist
                &&& effects.refresh_tray == false
                &&& effects.notification.is_none()
            },
            Err(e) => {
                &&& *final(state) == *old(state)
                &&& e == if !authorized(*headers, *expected) {
                    GatewayError::Unauthorized
                } else {
                    GatewayError::NotFound
                }
                &&& authorized(*headers, *expected) ==> !old(state)@.tasks.dom().contains(
                    req.task_id@,
                )
            },
        },
{
    if !validate_auth_header(headers, expected) {
        return Err(GatewayError::Unauthorized);
    }
    match state.update_details(req.task_id.as_str(), req.details, now) {
        Ok(()) => Ok(
            Effects {
                emit_tasks_updated: true,
                notification: None,
                refresh_tray: false,
                persist: true,
            },
        ),
        Err(StoreError::NotFound) => Err(GatewayError::NotFound),
    }
}

/// Puts a task into the state `DONE`. The snapshot is pushed to the user
/// interface, the tray is rebuilt and the snapshot is written to disk.
pub fn mark_task_done(
    state: &mut AppState,
    headers: &RequestHeaders,
    expected: &Result<String, String>,
    req: TaskDoneRequest,
    now: i64,
) -> (r: Result<Effects, GatewayError>)
    requires
        old(state).wf(),
    ensures
        final(state).wf(),
        match r {
            Ok(effects) => {
                &&& authorized(*headers, *expected)
                &&& old(state)@.tasks.dom().contains(req.task_id@)
                &&& final(state)@ == (AppStateView {
                    tasks: old(state)@.tasks.insert(
                        req.task_id@,
                        TaskView {
                            state: "DONE"@,
                            details: opt_view(req.details),
                            updated_at: now,
                            ..old(state)@.tasks[req.task_id@]
                        },
                    ),
                    updated_at: now,
                    ..old(state)@
                })
                &&& effects.emit_tasks_updated && effects.persist
                &&& effects.refresh_tray == true
                &&& effects.notification.is_none()
            },
            Err(e) => {
                &&& *final(state) == *old(state)
                &&& e == if !authorized(*headers, *expected) {
                    GatewayError::Unauthorized
                } else {
                    GatewayError::NotFound
                }
                &&& authorized(*headers, *expected) ==> !old(state)@.tasks.dom().contains(
                    req.task_id@,
                )
            },
        },
{
    if !validate_auth_header(headers, expected) {
        return Err(GatewayError::Unauthorized);
    }
    match state.mark_done(req.task_id.as_str(), req.details, now) {
        Ok(()) => Ok(
            Effects {
                emit_tasks_updated: true,
                notification: None,
                refresh_tray: true,
                persist: true,
            },
        ),
        Err(StoreError::NotFound) => Err(GatewayError::NotFound),
    }
}

/// Removes a task. The snapshot is pushed to the user interface, the tray is
/// rebuilt and the snapshot is written to disk.
pub fn delete_task(
    state: &mut AppState,
    headers: &RequestHeaders,
    expected: &Result<String, String>,
    req: TaskDeleteRequest,
    now: i64,
) -> (r: Result<Effects, GatewayError>)
    requires
        old(state).wf(),
    ensures
        final(state).wf(),
        match r {
            Ok(effects) => {
                &&& authorized(*headers, *expected)
                &&& old(state)@.tasks.dom().contains(req.task_id@)
                &&& final(state)@ == (AppStateView {
                    tasks: old(state)@.tasks.remove(req.task_id@),
                    updated_at: now,
                    ..old(state)@
                })
                &&& effects.emit_tasks_updated && effects.persist
                &&& effects.refresh_tray == true
                &&& effects.notification.is_none()
            },
            Err(e) => {
                &&& *final(state) == *old(state)
                &&& e == if !authorized(*headers, *expected) {
                    GatewayError::Unauthorized
                } else {
                    GatewayError::NotFound
                }
                &&& authorized(*headers, *expected) ==> !old(state)@.tasks.dom().contains(
                    req.task_id@,
                )
            },
        },
{
    if !validate_auth_header(headers, expected) {
        return Err(GatewayError::Unauthorized);
    }
    match state.delete(req.task_id.as_str(), now) {
        Ok(()) => Ok(
            Effects {
                emit_tasks_updated: true,
                notification: None,
                refresh_tray: true,
                persist: true,
            },
        ),
        Err(StoreError::NotFound) => Err(GatewayError::NotFound),
    }
}

/// Pins or unpins a task. The snapshot is pushed to the user interface and
/// written to disk.
pub fn pin_task(
    state: &mut AppState,
    headers: &RequestHeaders,
    expected: &Result<String, String>,
    req: TaskPinRequest,
    now: i64,
) -> (r: Result<Effects, GatewayError>)
    requires
        old(state).wf(),
    ensures
        final(state).wf(),
        match r {
            Ok(effects) => {
                &&& authorized(*headers, *expected)
                &&& old(state)@.tasks.dom().contains(req.task_id@)
                &&& final(state)@ == (AppStateView {
                    tasks: old(state)@.tasks.insert(
                        req.task_id@,
                        TaskView {
                            pinned: req.pinned,
                            updated_at: now,
                            ..old(state)@.tasks[req.task_id@]
                        },
                    ),
                    updated_at: now,
                    ..old(state)@
                })
                &&& effects.emit_tasks_updated && effects.persist
                &&& effects.refresh_tray == false
                &&& effects.notification.is_none()
            },
            Err(e) => {
                &&& *final(state) == *old(state)
                &&& e == if !authorized(*headers, *expected) {
                    GatewayError::Unauthorized
                } else {
                    GatewayError::NotFound
                }
                &&& authorized(*headers, *expected) ==> !old(state)@.tasks.dom().contains(
                    req.task_id@,
                )
            },
        },
{
    if !validate_auth_header(headers, expected) {
        return Err(GatewayError::Unauthorized);
    }
    match state.set_pinned(req.task_id.as_str(), req.pinned, now) {
        Ok(()) => Ok(
            Effects {
                emit_tasks_updated: true,
                notification: None,
                refresh_tray: false,
                persist: true,
            },
        ),
        Err(StoreError::NotFound) => Err(GatewayError::NotFound),
    }
}

/// The first-launch and installation flags. This request needs no
/// credential.
pub fn get_setup_status(setup_completed: bool, cli_installed: bool) -> (r: SetupStatus)
    ensures
        r == (SetupStatus { is_first_launch: !setup_completed, cli_installed, setup_completed }),
{
    SetupStatus { is_first_launch: !setup_completed, cli_installed, setup_completed }
}

/// What the liveness probe answers.
#[derive(Clone, Copy, Debug, PartialEq, Eq, Structural)]
pub struct HealthReport {
    /// The time of the probe.
    pub timestamp: i64,
    /// The number of tasks in the store.
    pub tasks: usize,
    /// The number of projects in the store.
    pub projects: usize,
}

/// Answers the liveness probe and records the time of the probe as the last
/// sign of life of the external reporter. The snapshot is then written to
/// disk.
pub fn health_check(
    state: &mut AppState,
    headers: &RequestHeaders,
    expected: &Result<String, String>,
    now: i64,
) -> (r: Result<HealthReport, GatewayError>)
    requires
        old(state).wf(),
    ensures
        final(state).wf(),
        match r {
            Ok(report) => {
                &&& authorized(*headers, *expected)
                &&& final(state)@ == (AppStateView { last_cli_ping: Some(now), ..old(state)@ })
                &&& report.timestamp == now
                &&& report.tasks == old(state)@.tasks.dom().len()
                &&& report.projects == old(state)@.projects.dom().len()
            },
            Err(e) => !authorized(*headers, *expected) && e == GatewayError::Unauthorized
                && *final(state) == *old(state),
        },
{
    if !validate_auth_header(headers, expected) {
        return Err(GatewayError::Unauthorized);
    }
    state.record_ping(now);
    proof {
        crate::keyed::lemma_as_map_len(crate::types::seq_view(state.tasks@));
        crate::keyed::lemma_as_map_len(crate::types::seq_view(state.projects@));
    }
    Ok(HealthReport { timestamp: now, tasks: state.tasks.len(), projects: state.projects.len() })
}

/// The trace of a task of which nothing was recorded.
pub open spec fn empty_trace(task_id: Seq<char>) -> DebugDataView {
    DebugDataView {
        cleaned_buffer: Seq::empty(),
        current_state: "IDLE"@,
        detection_history: Seq::empty(),
        task_id,
        pattern_tests: None,
        confidence: None,
        is_active: None,
    }
}

/// The trace of a task of which nothing was recorded.
pub fn empty_debug_data(task_id: String) -> (r: DebugData)
    ensures
        r@ == empty_trace(task_id@),
{
    let r = DebugData {
        cleaned_buffer: String::new(),
        current_state: "IDLE".to_string(),
        detection_history: Vec::new(),
        task_id,
        pattern_tests: None,
        confidence: None,
        is_active: None,
    };
    assert(seq_view(r.detection_history@) =~= Seq::<DetectionHistoryEntryView>::empty());
    r
}

/// The diagnostic trace of a task, or the empty trace where none was
/// recorded.
pub fn get_debug_patterns_for_task(
    state: &AppState,
    headers: &RequestHeaders,
    expected: &Result<String, String>,
    task_id: &str,
) -> (r: Result<DebugData, GatewayError>)
    requires
        state.wf(),
    ensures
        match r {
            Ok(trace) => authorized(*headers, *expected) && trace@ == if state@.debug_data.dom().contains(
                task_id@,
            ) {
                state@.debug_data[task_id@]
            } else {
                empty_trace(task_id@)
            },
            Err(e) => !authorized(*headers, *expected) && e == GatewayError::Unauthorized,
        },
{
    if !validate_auth_header(headers, expected) {
        return Err(GatewayError::Unauthorized);
    }
    match state.find_debug_data(task_id) {
        Some(i) => {
            proof {
                lemma_as_map_index(seq_view(state.debug_data@), i as int);
                assert(seq_view(state.debug_data@)[i as int] == state.debug_data@[i as int]@);
            }
            Ok(state.debug_data[i].clone())
        },
        None => Ok(empty_debug_data(task_id.to_string())),
    }
}

/// The time of the latest recorded transition, and 0 where none was
/// recorded.
pub open spec fn latest_detection(history: Seq<DetectionHistoryEntryView>) -> int
    decreases history.len(),
{
    if history.len() == 0 {
        0
    } else if history.len() == 1 {
        history[0].timestamp as int
    } else {
        let before = latest_detection(history.drop_last());
        if history.last().timestamp >= before {
            history.last().timestamp as int
        } else {
            before
        }
    }
}

/// The latest time of a history that is not empty is the time of one of its
/// transitions, and none of them is later.
pub proof fn lemma_latest_detection(history: Seq<DetectionHistoryEntryView>)
    requires
        history.len() > 0,
    ensures
        exists|i: int|
            0 <= i < history.len() && (#[trigger] history[i]).timestamp == latest_detection(
                history,
            ),
        forall|i: int|
            0 <= i < history.len() ==> (#[trigger] history[i]).timestamp <= latest_detection(
                history,
            ),
    decreases history.len(),
{
    if history.len() == 1 {
        assert(history[0].timestamp == latest_detection(history));
    } else {
        let front = history.drop_last();
        lemma_latest_detection(front);
        let at = choose|i: int|
            0 <= i < front.len() && (#[trigger] front[i]).timestamp == latest_detection(front);
        assert(front[at] == history[at]);
        let last = history.len() - 1;
        if history.last().timestamp >= latest_detection(front) {
            assert(history[last].timestamp == latest_detection(history));
        } else {
            assert(history[at].timestamp == latest_detection(history));
        }
        assert forall|i: int| 0 <= i < history.len() implies (#[trigger] history[i]).timestamp
            <= latest_detection(history) by {
            if i < last {
                assert(front[i] == history[i]);
            }
        }
    }
}

/// The time of the latest recorded transition, and 0 where none was
/// recorded.
pub fn latest_timestamp(history: &Vec<DetectionHistoryEntry>) -> (r: i64)
    ensures
        r == latest_detection(seq_view(history@)),
        history@.len() == 0 ==> r == 0,
        history@.len() > 0 ==> exists|i: int|
            0 <= i < history@.len() && (#[trigger] history@[i]).timestamp == r,
        forall|i: int| 0 <= i < history@.len() ==> (#[trigger] history@[i]).timestamp <= r,
{
    let ghost s = seq_view(history@);
    proof {
        if s.len() > 0 {
            lemma_latest_detection(s);
            let at = choose|i: int|
                0 <= i < s.len() && (#[trigger] s[i]).timestamp == latest_detection(s);
            assert(history@[at].timestamp == s[at].timestamp);
            assert forall|i: int| 0 <= i < history@.len() implies (#[trigger] history@[
                i
            ]).timestamp <= latest_detection(s) by {
                assert(s[i].timestamp == history@[i].timestamp);
            }
        }
    }
    if history.len() == 0 {
        return 0;
    }
    let mut best: i64 = history[0].timestamp;
    let mut i: usize = 1;
    assert(s.subrange(0, 1).len() == 1 && s.subrange(0, 1)[0] == s[0]);
    while i < history.len()
        invariant
            s == seq_view(history@),
            1 <= i <= history@.len(),
            best == latest_detection(s.subrange(0, i as int)),
        decreases history@.len() - i,
    {
        let t = history[i].timestamp;
        proof {
            let next = s.subrange(0, i as int + 1);
            assert(next.drop_last() =~= s.subrange(0, i as int));
            assert(next.last() == s[i as int]);
        }
        if t >= best {
            best = t;
        }
        i += 1;
    }
    assert(s.subrange(0, i as int) =~= s);
    best
}

/// Whether `r` is the most recent trace of the snapshot: a trace of the
/// snapshot such that no other has a later transition, or the empty trace
/// of the task `none` where the snapshot has no trace.
pub open spec fn is_most_recent(s: AppStateView, r: DebugDataView) -> bool {
    if s.debug_data.dom() =~= Set::empty() {
        r == empty_trace("none"@)
    } else {
        &&& s.debug_data.dom().contains(r.task_id)
        &&& r == s.debug_data[r.task_id]
        &&& forall|k: Seq<char>| #[trigger]
            s.debug_data.dom().contains(k) ==> latest_detection(s.debug_data[k].detection_history)
                <= latest_detection(r.detection_history)
    }
}

/// The trace with the latest recorded transition, for an authorised
/// reader. Where several traces are the latest, one of them is returned.
pub fn get_debug_patterns(
    state: &AppState,
    headers: &RequestHeaders,
    expected: &Result<String, String>,
) -> (r: Result<DebugData, GatewayError>)
    requires
        state.wf(),
    ensures
        match r {
            Ok(trace) => authorized(*headers, *expected) && is_most_recent(state@, trace@),
            Err(e) => !authorized(*headers, *expected) && e == GatewayError::Unauthorized,
        },
{
    if !validate_auth_header(headers, expected) {
        return Err(GatewayError::Unauthorized);
    }
    Ok(most_recent_trace(state))
}

/// The trace with the latest recorded transition, or the empty trace of the
/// task `none` where the store has no trace. Where several traces are the
/// latest, one of them is returned.
pub fn most_recent_trace(state: &AppState) -> (r: DebugData)
    requires
        state.wf(),
    ensures
        is_most_recent(state@, r@),
{
    let ghost s = seq_view(state.debug_data@);
    if state.debug_data.len() == 0 {
        assert(as_map(s).dom() =~= Set::empty());
        return empty_debug_data("none".to_string());
    }
    let mut best: usize = 0;
    let mut best_time: i64 = latest_timestamp(&state.debug_data[0].detection_history);
    let mut i: usize = 1;
    while i < state.debug_data.len()
        invariant
            s == seq_view(state.debug_data@),
            1 <= i <= state.debug_data@.len(),
            best < i,
            best_time == latest_detection(s[best as int].detection_history),
            forall|j: int|
                0 <= j < i ==> latest_detection((#[trigger] s[j]).detection_history) <= best_time,
        decreases state.debug_data@.len() - i,
    {
        let t = latest_timestamp(&state.debug_data[i].detection_history);
        if t >= best_time {
            best = i;
            best_time = t;
        }
        i += 1;
    }
    let r = state.debug_data[best].clone();
    proof {
        lemma_as_map_index(s, best as int);
        assert(as_map(s).dom().contains(s[best as int].key()));
        assert forall|k: Seq<char>| #[trigger] as_map(s).dom().contains(k) implies latest_detection(
            as_map(s)[k].detection_history,
        ) <= latest_detection(r@.detection_history) by {
            let j = index_of(s, k);
            assert(latest_detection(s[j].detection_history) <= best_time);
        }
    }
    r
}

/// Stores the diagnostic trace of a task in place of any earlier one. The
/// snapshot is then written to disk.
pub fn update_debug_data(
    state: &mut AppState,
    headers: &RequestHeaders,
    expected: &Result<String, String>,
    req: DebugUpdateRequest,
) -> (r: Result<Effects, GatewayError>)
    requires
        old(state).wf(),
    ensures
        final(state).wf(),
        match r {
            Ok(effects) => {
                &&& authorized(*headers, *expected)
                &&& final(state)@ == (AppStateView {
                    debug_data: old(state)@.debug_data.insert(
                        req.debug_data.task_id@,
                        req.debug_data@,
                    ),
                    ..old(state)@
                })
                &&& !effects.emit_tasks_updated && !effects.refresh_tray && effects.persist
                &&& effects.notification.is_none()
            },
            Err(e) => !authorized(*headers, *expected) && e == GatewayError::Unauthorized
                && *final(state) == *old(state),
        },
{
    if !validate_auth_header(headers, expected) {
        return Err(GatewayError::Unauthorized);
    }
    state.put_debug_data(req.debug_data);
    Ok(
        Effects {
            emit_tasks_updated: false,
            notification: None,
            refresh_tray: false,
            persist: true,
        },
    )
}

} // verus!
