use tallr::state::{get_aggregate_state, AppState};
use tallr::types::Task;

fn task(id: &str, state: &str) -> Task {
    Task {
        id: id.to_string(),
        project_id: "p".to_string(),
        agent: "assistant".to_string(),
        title: "title".to_string(),
        state: state.to_string(),
        details: None,
        created_at: 1,
        updated_at: 1,
        pinned: false,
        detection_method: None,
        confidence: None,
        network_context: None,
        session_context: None,
    }
}

fn store(states: &[&str]) -> AppState {
    let mut s = AppState::default();
    for (i, state) in states.iter().enumerate() {
        s.tasks.push(task(&format!("t{i}"), state));
    }
    s
}

#[test]
fn error_outranks_working() {
    assert_eq!(get_aggregate_state(&store(&["ERROR", "WORKING"])), "ERROR");
    assert_eq!(get_aggregate_state(&store(&["WORKING", "ERROR"])), "ERROR");
}

#[test]
fn pending_outranks_working() {
    assert_eq!(get_aggregate_state(&store(&["PENDING", "WORKING"])), "PENDING");
    assert_eq!(get_aggregate_state(&store(&["WORKING", "PENDING"])), "PENDING");
}

#[test]
fn error_outranks_pending() {
    assert_eq!(get_aggregate_state(&store(&["PENDING", "ERROR", "WORKING", "IDLE"])), "ERROR");
}

#[test]
fn working_alone_is_working() {
    assert_eq!(get_aggregate_state(&store(&["WORKING"])), "WORKING");
    assert_eq!(get_aggregate_state(&store(&["IDLE", "WORKING", "IDLE"])), "WORKING");
}

#[test]
fn an_empty_store_is_idle() {
    assert_eq!(get_aggregate_state(&AppState::default()), "IDLE");
}

#[test]
fn a_store_of_done_tasks_is_idle() {
    assert_eq!(get_aggregate_state(&store(&["DONE", "DONE", "DONE"])), "IDLE");
}

#[test]
fn done_tasks_weigh_nothing() {
    assert_eq!(get_aggregate_state(&store(&["DONE", "WORKING"])), "WORKING");
    assert_eq!(get_aggregate_state(&store(&["DONE", "IDLE"])), "IDLE");
}

#[test]
fn an_unknown_state_weighs_nothing() {
    assert_eq!(get_aggregate_state(&store(&["WAITING_USER"])), "IDLE");
    assert_eq!(get_aggregate_state(&store(&["error", "Working"])), "IDLE");
    assert_eq!(get_aggregate_state(&store(&["WAITING_USER", "PENDING"])), "PENDING");
}

#[test]
fn every_order_of_the_tasks_gives_the_same_status() {
    let states = ["IDLE", "WORKING", "PENDING", "DONE"];
    let mut order = [0usize, 1, 2, 3];
    let mut seen = 0;
    // All 24 orders of four tasks, by Heap's algorithm.
    let mut c = [0usize; 4];
    let check = |order: &[usize; 4]| {
        let mut s = AppState::default();
        for &i in order.iter() {
            s.tasks.push(task(&format!("t{i}"), states[i]));
        }
        assert_eq!(get_aggregate_state(&s), "PENDING");
    };
    check(&order);
    seen += 1;
    let mut i = 0;
    while i < 4 {
        if c[i] < i {
            if i % 2 == 0 {
                order.swap(0, i);
            } else {
                order.swap(c[i], i);
            }
            check(&order);
            seen += 1;
            c[i] += 1;
            i = 0;
        } else {
            c[i] = 0;
            i += 1;
        }
    }
    assert_eq!(seen, 24);
}
