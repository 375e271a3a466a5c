use tallr::persist::{
    initialize_app_state, load_app_state, settle_load, start_from, Loaded, SessionsFile,
};
use tallr::state::AppState;
use tallr::types::Task;

fn task(id: &str, state: &str, updated_at: i64, pinned: bool) -> Task {
    Task {
        id: id.to_string(),
        project_id: "p".to_string(),
        agent: "assistant".to_string(),
        title: "title".to_string(),
        state: state.to_string(),
        details: None,
        created_at: updated_at,
        updated_at,
        pinned,
        detection_method: None,
        confidence: None,
        network_context: None,
        session_context: None,
    }
}

fn stored() -> AppState {
    let mut s = AppState::default();
    s.updated_at = 900;
    s.last_cli_ping = Some(890);
    s.tasks.push(task("old-done", "DONE", 100, false));
    s.tasks.push(task("pinned-done", "DONE", 100, true));
    s.tasks.push(task("new-done", "DONE", 990, false));
    s.tasks.push(task("working", "WORKING", 100, false));
    s.tasks.push(task("idle", "IDLE", 100, false));
    s
}

fn present(content: &str, parsed: Result<AppState, String>) -> SessionsFile {
    SessionsFile::Present { content: content.to_string(), parsed }
}

fn is_empty(s: &AppState) -> bool {
    s.projects.is_empty()
        && s.tasks.is_empty()
        && s.debug_data.is_empty()
        && s.updated_at == 0
        && s.last_cli_ping.is_none()
}

#[test]
fn a_missing_file_loads_as_the_empty_snapshot() {
    let r = load_app_state(SessionsFile::Absent);
    assert!(is_empty(&r.state.unwrap()));
    assert!(!r.quarantine);
    assert_eq!(r.warning, None);
}

#[test]
fn a_blank_file_loads_as_the_empty_snapshot() {
    for content in ["", " ", "\n\n", " \t\r\n"] {
        let r = load_app_state(present(content, Err("EOF while parsing a value".to_string())));
        assert!(is_empty(&r.state.unwrap()), "{content:?}");
        assert!(!r.quarantine);
        assert_eq!(r.warning, None);
    }
}

#[test]
fn a_file_that_cannot_be_read_is_an_error_and_stays_in_place() {
    let r = load_app_state(SessionsFile::Unreadable("Failed to read sessions file: denied".to_string()));
    assert_eq!(r.state.unwrap_err(), "Failed to read sessions file: denied");
    assert!(!r.quarantine);
    assert_eq!(r.warning, None);
}

#[test]
fn a_file_that_is_no_snapshot_loads_as_the_empty_snapshot_and_is_set_aside() {
    let r = load_app_state(present("{not json", Err("key must be a string".to_string())));
    assert!(is_empty(&r.state.unwrap()));
    assert!(r.quarantine);
    assert_eq!(r.warning.as_deref(), Some("key must be a string"));
}

#[test]
fn loading_fails_only_for_a_file_that_cannot_be_read() {
    assert!(load_app_state(SessionsFile::Absent).state.is_ok());
    assert!(load_app_state(present("", Err("bad".to_string()))).state.is_ok());
    assert!(load_app_state(present("{not json", Err("bad".to_string()))).state.is_ok());
    assert!(load_app_state(present("{...}", Ok(stored()))).state.is_ok());
    assert!(load_app_state(SessionsFile::Unreadable("denied".to_string())).state.is_err());
}

#[test]
fn a_file_that_is_a_snapshot_loads_as_it_is() {
    let r = load_app_state(present("{...}", Ok(stored())));
    let s = r.state.unwrap();
    assert_eq!(s.tasks.len(), 5);
    assert_eq!(s.updated_at, 900);
    assert_eq!(s.last_cli_ping, Some(890));
    assert!(!r.quarantine);
    assert_eq!(r.warning, None);
}

#[test]
fn settling_goes_by_the_blank_flag_first() {
    let r = settle_load(true, Ok(stored()));
    assert!(is_empty(&r.state.unwrap()));
    assert!(!r.quarantine);
    let r = settle_load(true, Err("bad".to_string()));
    assert!(is_empty(&r.state.unwrap()));
    assert!(!r.quarantine);
    let r = settle_load(false, Ok(stored()));
    assert_eq!(r.state.unwrap().tasks.len(), 5);
    assert!(!r.quarantine);
    let r = settle_load(false, Err("bad".to_string()));
    assert!(is_empty(&r.state.unwrap()));
    assert!(r.quarantine);
    assert_eq!(r.warning.as_deref(), Some("bad"));
}

#[test]
fn invalid_json_leaves_the_store_empty_and_asks_for_a_backup() {
    let r = initialize_app_state(present("{not json", Err("key must be a string".to_string())), 1000);
    assert!(is_empty(&r.state));
    assert!(r.quarantine);
    assert!(!r.persist);
    assert_eq!(r.removed, 0);
    assert_eq!(r.warning.as_deref(), Some("key must be a string"));
}

#[test]
fn starting_without_a_file_is_quiet() {
    let r = initialize_app_state(SessionsFile::Absent, 1000);
    assert!(is_empty(&r.state));
    assert!(!r.quarantine);
    assert!(!r.persist);
    assert_eq!(r.removed, 0);
    assert_eq!(r.warning, None);
}

#[test]
fn starting_from_an_unreadable_file_is_empty_with_a_warning() {
    let r = initialize_app_state(SessionsFile::Unreadable("denied".to_string()), 1000);
    assert!(is_empty(&r.state));
    assert!(!r.quarantine);
    assert!(!r.persist);
    assert_eq!(r.warning.as_deref(), Some("denied"));
}

#[test]
fn starting_sweeps_old_done_tasks_and_writes_back() {
    let r = initialize_app_state(present("{...}", Ok(stored())), 1000);
    let mut ids: Vec<&str> = r.state.tasks.iter().map(|t| t.id.as_str()).collect();
    ids.sort();
    assert_eq!(ids, vec!["idle", "new-done", "pinned-done", "working"]);
    assert_eq!(r.removed, 1);
    assert!(r.persist);
    assert!(!r.quarantine);
    assert_eq!(r.warning, None);
    assert_eq!(r.state.updated_at, 1000);
    assert_eq!(r.state.last_cli_ping, Some(890));
}

#[test]
fn starting_with_nothing_to_sweep_writes_nothing() {
    let r = initialize_app_state(present("{...}", Ok(stored())), 120);
    assert_eq!(r.state.tasks.len(), 5);
    assert_eq!(r.removed, 0);
    assert!(!r.persist);
    assert_eq!(r.state.updated_at, 900);
}

#[test]
fn start_from_passes_the_quarantine_on() {
    let set_aside = Loaded {
        state: Ok(AppState::default()),
        quarantine: true,
        warning: Some("bad".to_string()),
    };
    let r = start_from(set_aside, 5);
    assert!(r.quarantine);
    assert!(is_empty(&r.state));
    assert!(!r.persist);
    assert_eq!(r.warning.as_deref(), Some("bad"));
    let r = start_from(Loaded { state: Ok(stored()), quarantine: false, warning: None }, 5);
    assert!(!r.quarantine);
    assert_eq!(r.state.tasks.len(), 5);
    assert_eq!(r.warning, None);
    let unreadable = Loaded { state: Err("denied".to_string()), quarantine: false, warning: None };
    let r = start_from(unreadable, 5);
    assert!(is_empty(&r.state));
    assert!(!r.quarantine);
    assert_eq!(r.warning.as_deref(), Some("denied"));
}
