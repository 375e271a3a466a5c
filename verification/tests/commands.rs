use tallr::commands::{
    chain_failure, directory_failure, frontend_delete_task, frontend_get_debug_data,
    frontend_mark_task_done, frontend_toggle_task_pin, frontend_update_task_state,
    get_cli_connectivity, get_ide_command_and_args, get_setup_status_cmd, get_tasks,
    open_ide_and_terminal, DebugSelection, PING_WINDOW_SECONDS,
};
use tallr::state::AppState;
use tallr::toolbar::{toolbar_action, ToolbarAction};
use tallr::types::{AppSettings, DebugData, ProjectIn, TaskIn};

const IDE_PATH: &str = "/usr/local/bin:/opt/homebrew/bin:/usr/bin:/bin:/Applications/Visual Studio Code.app/Contents/Resources/app/bin:/Applications/Cursor.app/Contents/Resources/app/bin";
const SYSTEM_PATH: &str = "/usr/local/bin:/opt/homebrew/bin:/usr/bin:/bin";

fn seeded() -> AppState {
    let mut s = AppState::default();
    s.upsert(
        ProjectIn {
            name: "Alpha".to_string(),
            repo_path: "/repos/alpha".to_string(),
            preferred_ide: None,
            github_url: None,
        },
        TaskIn {
            id: "t1".to_string(),
            agent: "assistant".to_string(),
            title: "t".to_string(),
            state: "WORKING".to_string(),
            details: None,
            source: None,
        },
        100,
        "p1".to_string(),
    );
    s
}

fn trace(task: &str) -> DebugData {
    DebugData {
        cleaned_buffer: String::new(),
        current_state: "IDLE".to_string(),
        detection_history: Vec::new(),
        task_id: task.to_string(),
        pattern_tests: None,
        confidence: None,
        is_active: None,
    }
}

#[test]
fn an_editor_is_started_with_the_project_path() {
    for ide in ["code", "cursor", "zed", "webstorm", "idea", "pycharm", "phpstorm", "rubymine", "clion", "goland", "rider", "windsurf", "my-editor"] {
        let (program, args) = get_ide_command_and_args(ide, "/repos/alpha");
        assert_eq!(program, ide);
        assert_eq!(args, vec!["/repos/alpha".to_string()]);
    }
}

#[test]
fn with_an_editor_three_attempts_are_planned() {
    let plan = open_ide_and_terminal("/repos/alpha", &Some("zed".to_string()));
    assert_eq!(plan.len(), 3);
    assert_eq!(plan[0].program, "zed");
    assert_eq!(plan[0].args, vec!["/repos/alpha"]);
    assert_eq!(plan[0].search_path, IDE_PATH);
    assert_eq!(plan[1].program, "open");
    assert_eq!(plan[1].args, vec!["-a", "zed", "/repos/alpha"]);
    assert_eq!(plan[1].search_path, SYSTEM_PATH);
    assert_eq!(plan[2].program, "open");
    assert_eq!(plan[2].args, vec!["/repos/alpha"]);
    assert_eq!(plan[2].search_path, SYSTEM_PATH);
}

#[test]
fn without_an_editor_the_directory_is_opened() {
    for ide in [None, Some(String::new())] {
        let plan = open_ide_and_terminal("/repos/alpha", &ide);
        assert_eq!(plan.len(), 1);
        assert_eq!(plan[0].program, "open");
        assert_eq!(plan[0].args, vec!["/repos/alpha"]);
        assert_eq!(plan[0].search_path, SYSTEM_PATH);
    }
}

#[test]
fn the_failure_messages_name_every_attempt() {
    assert_eq!(directory_failure("no such file"), "Failed to open project directory: no such file");
    assert_eq!(
        chain_failure("zed", "e1", "e2", "e3"),
        "All methods failed to open project:\n1. IDE command 'zed': e1\n2. 'open -a' fallback: e2\n3. Directory fallback: e3"
    );
}

#[test]
fn the_user_can_set_state_and_details() {
    let mut s = seeded();
    let e = frontend_update_task_state(
        &mut s,
        "t1".to_string(),
        "IDLE".to_string(),
        Some("paused".to_string()),
        150,
    )
    .unwrap();
    assert!(e.emit_tasks_updated && e.persist && !e.refresh_tray && e.notification.is_none());
    assert_eq!(s.tasks[0].state, "IDLE");
    assert_eq!(s.tasks[0].details.as_deref(), Some("paused"));
    assert_eq!(s.tasks[0].detection_method, None);
    assert_eq!((s.tasks[0].updated_at, s.updated_at), (150, 150));
}

#[test]
fn the_user_can_mark_done_delete_and_pin() {
    let mut s = seeded();
    let e = frontend_toggle_task_pin(&mut s, "t1".to_string(), true, 110).unwrap();
    assert!(e.emit_tasks_updated && e.persist && !e.refresh_tray);
    assert!(s.tasks[0].pinned);
    let e = frontend_mark_task_done(&mut s, "t1".to_string(), Some("ok".to_string()), 120).unwrap();
    assert!(e.emit_tasks_updated && e.persist && e.refresh_tray);
    assert_eq!(s.tasks[0].state, "DONE");
    assert_eq!(s.tasks[0].details.as_deref(), Some("ok"));
    assert_eq!(s.updated_at, 120);
    let e = frontend_delete_task(&mut s, "t1".to_string(), 130).unwrap();
    assert!(e.emit_tasks_updated && e.persist && e.refresh_tray);
    assert!(s.tasks.is_empty());
    assert_eq!(s.updated_at, 130);
}

#[test]
fn a_request_of_the_user_for_an_unknown_task_says_so() {
    let mut s = seeded();
    let m = "Task not found";
    assert_eq!(
        frontend_update_task_state(&mut s, "x".to_string(), "IDLE".to_string(), None, 9).unwrap_err(),
        m
    );
    assert_eq!(frontend_mark_task_done(&mut s, "x".to_string(), None, 9).unwrap_err(), m);
    assert_eq!(frontend_delete_task(&mut s, "x".to_string(), 9).unwrap_err(), m);
    assert_eq!(frontend_toggle_task_pin(&mut s, "x".to_string(), true, 9).unwrap_err(), m);
    assert_eq!(s.updated_at, 100);
    assert_eq!(s.tasks[0].state, "WORKING");
}

#[test]
fn the_tasks_are_returned_as_a_copy() {
    let s = seeded();
    let copy = get_tasks(&s);
    assert_eq!(copy.tasks.len(), 1);
    assert_eq!(copy.projects[0].repo_path, "/repos/alpha");
    assert_eq!(copy.updated_at, 100);
}

#[test]
fn the_setup_status_tells_the_first_launch() {
    let r = get_setup_status_cmd(false, false);
    assert!(r.is_first_launch && !r.cli_installed && !r.setup_completed);
    let r = get_setup_status_cmd(true, true);
    assert!(!r.is_first_launch && r.cli_installed && r.setup_completed);
}

#[test]
fn the_reporter_is_connected_for_thirty_seconds_after_a_ping() {
    assert_eq!(PING_WINDOW_SECONDS, 30);
    let mut s = seeded();
    let r = get_cli_connectivity(&s, 1000);
    assert_eq!((r.connected, r.last_ping, r.current_time), (false, None, 1000));
    s.record_ping(1000);
    assert!(get_cli_connectivity(&s, 1000).connected);
    assert!(get_cli_connectivity(&s, 1030).connected);
    assert!(!get_cli_connectivity(&s, 1031).connected);
    assert!(get_cli_connectivity(&s, 900).connected);
    let r = get_cli_connectivity(&s, 1031);
    assert_eq!((r.last_ping, r.current_time), (Some(1000), 1031));
    s.record_ping(i64::MIN);
    assert!(!get_cli_connectivity(&s, i64::MAX).connected);
    s.record_ping(i64::MAX);
    assert!(get_cli_connectivity(&s, i64::MIN).connected);
}

#[test]
fn traces_are_selected_by_task_or_all_together() {
    let mut s = seeded();
    s.put_debug_data(trace("t1"));
    s.put_debug_data(trace("t2"));
    match frontend_get_debug_data(&s, Some("t2".to_string())) {
        DebugSelection::One(Some(d)) => assert_eq!(d.task_id, "t2"),
        other => panic!("{other:?}"),
    }
    assert!(matches!(frontend_get_debug_data(&s, Some("t3".to_string())), DebugSelection::One(None)));
    match frontend_get_debug_data(&s, None) {
        DebugSelection::All(all) => {
            let ids: Vec<&str> = all.iter().map(|d| d.task_id.as_str()).collect();
            assert_eq!(ids, vec!["t1", "t2"]);
        }
        other => panic!("{other:?}"),
    }
}

#[test]
fn the_default_settings() {
    let s = AppSettings::default();
    assert!(s.always_on_top);
    assert!(s.visible_on_all_workspaces);
    assert!(s.window_position.is_none());
    assert_eq!(s.preferred_ide, "cursor");
    assert_eq!(s.theme, "light");
    assert!(s.notifications_enabled);
}

#[test]
fn the_toolbar_knows_two_buttons() {
    assert_eq!(toolbar_action("toggle-pin"), ToolbarAction::TogglePin);
    assert_eq!(toolbar_action("toggle-maximize"), ToolbarAction::ToggleMaximize);
    assert_eq!(toolbar_action("close"), ToolbarAction::Nothing);
    assert_eq!(toolbar_action(""), ToolbarAction::Nothing);
    assert_eq!(toolbar_action("Toggle-Pin"), ToolbarAction::Nothing);
}
