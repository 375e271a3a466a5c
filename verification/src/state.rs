//! The authoritative snapshot of projects, tasks and diagnostic traces, the
//! aggregate status derived from it, and the cleanup sweep.

use crate::keyed::{
    as_map, distinct_keys, has_key, index_of, lemma_as_map_absent, lemma_as_map_empty,
    lemma_as_map_index, lemma_as_map_remove, Keyed,
};
use crate::text::str_eq;
use crate::types::{
    seq_view, DebugData, DebugDataView, Project, ProjectView, Task, TaskView,
};
use vstd::prelude::*;

verus! {

impl Keyed for ProjectView {
    open spec fn key(&self) -> Seq<char> {
        self.id
    }
}

impl Keyed for TaskView {
    open spec fn key(&self) -> Seq<char> {
        self.id
    }
}

impl Keyed for DebugDataView {
    open spec fn key(&self) -> Seq<char> {
        self.task_id
    }
}

/// Everything the application knows: the unit that is persisted and pushed
/// to the user interface.
///
/// Projects and tasks are found by their `id`, diagnostic traces by their
/// `task_id`.
#[derive(Debug)]
pub struct AppState {
    pub projects: Vec<Project>,
    pub tasks: Vec<Task>,
    pub debug_data: Vec<DebugData>,
    pub updated_at: i64,
    pub last_cli_ping: Option<i64>,
}

/// The snapshot as maps from key to record.
pub struct AppStateView {
    pub projects: Map<Seq<char>, ProjectView>,
    pub tasks: Map<Seq<char>, TaskView>,
    pub debug_data: Map<Seq<char>, DebugDataView>,
    pub updated_at: i64,
    pub last_cli_ping: Option<i64>,
}

impl View for AppState {
    type V = AppStateView;

    open spec fn view(&self) -> AppStateView {
        AppStateView {
            projects: as_map(seq_view(self.projects@)),
            tasks: as_map(seq_view(self.tasks@)),
            debug_data: as_map(seq_view(self.debug_data@)),
            updated_at: self.updated_at,
            last_cli_ping: self.last_cli_ping,
        }
    }
}

/// The snapshot that holds nothing.
pub open spec fn empty_snapshot() -> AppStateView {
    AppStateView {
        projects: Map::empty(),
        tasks: Map::empty(),
        debug_data: Map::empty(),
        updated_at: 0,
        last_cli_ping: None,
    }
}

/// Whether every task belongs to a project of the snapshot.
pub open spec fn attached(s: AppStateView) -> bool {
    forall|k: Seq<char>|
        s.tasks.dom().contains(k) ==> s.projects.dom().contains((#[trigger] s.tasks[k]).project_id)
}

/// Whether time runs forward in the snapshot: no task was updated before it
/// was created, or after the snapshot was last updated.
pub open spec fn in_order(s: AppStateView) -> bool {
    forall|k: Seq<char>|
        s.tasks.dom().contains(k) ==> (#[trigger] s.tasks[k]).created_at <= s.tasks[k].updated_at
            <= s.updated_at
}

impl AppState {
    /// No project id, task id or trace key occurs twice.
    pub open spec fn wf(&self) -> bool {
        &&& distinct_keys(seq_view(self.projects@))
        &&& distinct_keys(seq_view(self.tasks@))
        &&& distinct_keys(seq_view(self.debug_data@))
    }

    /// The place of the task with the given id, if the store has it.
    pub fn find_task(&self, id: &str) -> (r: Option<usize>)
        ensures
            match r {
                Some(i) => i < self.tasks@.len() && self.tasks@[i as int].id@ == id@,
                None => !has_key(seq_view(self.tasks@), id@),
            },
    {
        let mut i: usize = 0;
        while i < self.tasks.len()
            invariant
                0 <= i <= self.tasks@.len(),
                forall|k: int| 0 <= k < i ==> self.tasks@[k].id@ != id@,
            decreases self.tasks@.len() - i,
        {
            if str_eq(self.tasks[i].id.as_str(), id) {
                return Some(i);
            }
            i += 1;
        }
        proof {
            let s = seq_view(self.tasks@);
            assert forall|k: int| 0 <= k < s.len() implies (#[trigger] s[k]).key() != id@ by {
                assert(s[k] == self.tasks@[k]@);
            }
            lemma_as_map_absent(s, id@);
        }
        None
    }

    /// The place of the project with the given id, if the store has it.
    pub fn find_project(&self, id: &str) -> (r: Option<usize>)
        ensures
            match r {
                Some(i) => i < self.projects@.len() && self.projects@[i as int].id@ == id@,
                None => !has_key(seq_view(self.projects@), id@),
            },
    {
        let mut i: usize = 0;
        while i < self.projects.len()
            invariant
                0 <= i <= self.projects@.len(),
                forall|k: int| 0 <= k < i ==> self.projects@[k].id@ != id@,
            decreases self.projects@.len() - i,
        {
            if str_eq(self.projects[i].id.as_str(), id) {
                return Some(i);
            }
            i += 1;
        }
        proof {
            let s = seq_view(self.projects@);
            assert forall|k: int| 0 <= k < s.len() implies (#[trigger] s[k]).key() != id@ by {
                assert(s[k] == self.projects@[k]@);
            }
            lemma_as_map_absent(s, id@);
        }
        None
    }

    /// The place of the diagnostic trace of the given task, if the store
    /// has one.
    pub fn find_debug_data(&self, task_id: &str) -> (r: Option<usize>)
        ensures
            match r {
                Some(i) => i < self.debug_data@.len() && self.debug_data@[i as int].task_id@
                    == task_id@,
                None => !has_key(seq_view(self.debug_data@), task_id@),
            },
    {
        let mut i: usize = 0;
        while i < self.debug_data.len()
            invariant
                0 <= i <= self.debug_data@.len(),
                forall|k: int| 0 <= k < i ==> self.debug_data@[k].task_id@ != task_id@,
            decreases self.debug_data@.len() - i,
        {
            if str_eq(self.debug_data[i].task_id.as_str(), task_id) {
                return Some(i);
            }
            i += 1;
        }
        proof {
            let s = seq_view(self.debug_data@);
            assert forall|k: int| 0 <= k < s.len() implies (#[trigger] s[k]).key() != task_id@ by {
                assert(s[k] == self.debug_data@[k]@);
            }
            lemma_as_map_absent(s, task_id@);
        }
        None
    }
}

impl Default for AppState {
    fn default() -> (r: Self)
        ensures
            r.wf(),
            r@ == empty_snapshot(),
    {
        let r = AppState {
            projects: Vec::new(),
            tasks: Vec::new(),
            debug_data: Vec::new(),
            updated_at: 0,
            last_cli_ping: None,
        };
        proof {
            lemma_as_map_empty::<ProjectView>();
            lemma_as_map_empty::<TaskView>();
            lemma_as_map_empty::<DebugDataView>();
            assert(seq_view(r.projects@) =~= Seq::<ProjectView>::empty());
            assert(seq_view(r.tasks@) =~= Seq::<TaskView>::empty());
            assert(seq_view(r.debug_data@) =~= Seq::<DebugDataView>::empty());
        }
        r
    }
}

impl Clone for AppState {
    fn clone(&self) -> (r: Self)
        ensures
            r@ == self@,
            self.wf() ==> r.wf(),
    {
        let mut projects: Vec<Project> = Vec::new();
        let mut i: usize = 0;
        while i < self.projects.len()
            invariant
                0 <= i <= self.projects@.len(),
                projects@.len() == i,
                forall|k: int| 0 <= k < i ==> projects@[k]@ == self.projects@[k]@,
            decreases self.projects@.len() - i,
        {
            projects.push(self.projects[i].clone());
            i += 1;
        }
        let mut tasks: Vec<Task> = Vec::new();
        let mut j: usize = 0;
        while j < self.tasks.len()
            invariant
                0 <= j <= self.tasks@.len(),
                tasks@.len() == j,
                forall|k: int| 0 <= k < j ==> tasks@[k]@ == self.tasks@[k]@,
            decreases self.tasks@.len() - j,
        {
            tasks.push(self.tasks[j].clone());
            j += 1;
        }
        let mut debug_data: Vec<DebugData> = Vec::new();
        let mut n: usize = 0;
        while n < self.debug_data.len()
            invariant
                0 <= n <= self.debug_data@.len(),
                debug_data@.len() == n,
                forall|k: int| 0 <= k < n ==> debug_data@[k]@ == self.debug_data@[k]@,
            decreases self.debug_data@.len() - n,
        {
            debug_data.push(self.debug_data[n].clone());
            n += 1;
        }
        assert(seq_view(projects@) =~= seq_view(self.projects@));
        assert(seq_view(tasks@) =~= seq_view(self.tasks@));
        assert(seq_view(debug_data@) =~= seq_view(self.debug_data@));
        AppState {
            projects,
            tasks,
            debug_data,
            updated_at: self.updated_at,
            last_cli_ping: self.last_cli_ping,
        }
    }
}

/// Whether some task of the map is in the state `st`.
pub open spec fn any_in_state(tasks: Map<Seq<char>, TaskView>, st: Seq<char>) -> bool {
    exists|k: Seq<char>| tasks.dom().contains(k) && (#[trigger] tasks[k]).state == st
}

/// The status of the worst task: `ERROR` before `PENDING` before `WORKING`,
/// and `IDLE` when no task is in one of these states. A task that is `DONE`,
/// or in a state outside the vocabulary, weighs nothing.
pub open spec fn aggregate_of(tasks: Map<Seq<char>, TaskView>) -> Seq<char> {
    if any_in_state(tasks, "ERROR"@) {
        "ERROR"@
    } else if any_in_state(tasks, "PENDING"@) {
        "PENDING"@
    } else if any_in_state(tasks, "WORKING"@) {
        "WORKING"@
    } else {
        "IDLE"@
    }
}

/// Some task of the map is in a state exactly when some record of the
/// collection is.
pub proof fn lemma_any_in_state(s: Seq<TaskView>, st: Seq<char>)
    requires
        distinct_keys(s),
    ensures
        any_in_state(as_map(s), st) <==> exists|i: int|
            0 <= i < s.len() && (#[trigger] s[i]).state == st,
{
    let m = as_map(s);
    if any_in_state(m, st) {
        let k = choose|k: Seq<char>| m.dom().contains(k) && (#[trigger] m[k]).state == st;
        let i = index_of(s, k);
        assert(0 <= i < s.len() && s[i].state == st);
    }
    if exists|i: int| 0 <= i < s.len() && (#[trigger] s[i]).state == st {
        let i = choose|i: int| 0 <= i < s.len() && (#[trigger] s[i]).state == st;
        lemma_as_map_index(s, i);
        assert(m.dom().contains(s[i].key()) && m[s[i].key()].state == st);
    }
}

/// The aggregate status does not depend on the order in which the tasks are
/// kept: two collections of which one is a rearrangement of the other have
/// the same aggregate status.
pub proof fn lemma_aggregate_order_independent(a: Seq<TaskView>, b: Seq<TaskView>)
    requires
        distinct_keys(a),
        distinct_keys(b),
        a.to_multiset() == b.to_multiset(),
    ensures
        as_map(a) == as_map(b),
        aggregate_of(as_map(a)) == aggregate_of(as_map(b)),
{
    broadcast use vstd::seq_lib::group_to_multiset_ensures;

    assert forall|k: Seq<char>| has_key(a, k) implies has_key(b, k) && as_map(a)[k] == as_map(
        b,
    )[k] by {
        let i = index_of(a, k);
        assert(a.contains(a[i]));
        assert(b.to_multiset().count(a[i]) > 0);
        assert(b.contains(a[i]));
        let j = choose|j: int| 0 <= j < b.len() && b[j] == a[i];
        lemma_as_map_index(b, j);
        lemma_as_map_index(a, i);
    }
    assert forall|k: Seq<char>| has_key(b, k) implies has_key(a, k) by {
        let j = index_of(b, k);
        assert(b.contains(b[j]));
        assert(a.to_multiset().count(b[j]) > 0);
        assert(a.contains(b[j]));
        let i = choose|i: int| 0 <= i < a.len() && a[i] == b[j];
        lemma_as_map_index(a, i);
    }
    assert(as_map(a) =~= as_map(b));
}

/// The single status shown for the whole store, derived from its tasks.
pub fn get_aggregate_state(state: &AppState) -> (r: &'static str)
    requires
        state.wf(),
    ensures
        r@ == aggregate_of(state@.tasks),
{
    let mut any_error = false;
    let mut any_pending = false;
    let mut any_working = false;
    let ghost s = seq_view(state.tasks@);
    let mut i: usize = 0;
    while i < state.tasks.len()
        invariant
            0 <= i <= state.tasks@.len(),
            s == seq_view(state.tasks@),
            any_error <==> exists|k: int| 0 <= k < i && (#[trigger] s[k]).state == "ERROR"@,
            any_pending <==> exists|k: int| 0 <= k < i && (#[trigger] s[k]).state == "PENDING"@,
            any_working <==> exists|k: int| 0 <= k < i && (#[trigger] s[k]).state == "WORKING"@,
        decreases state.tasks@.len() - i,
    {
        let st = state.tasks[i].state.as_str();
        assert(s[i as int].state == st@);
        if str_eq(st, "ERROR") {
            any_error = true;
        }
        if str_eq(st, "PENDING") {
            any_pending = true;
        }
        if str_eq(st, "WORKING") {
            any_working = true;
        }
        i += 1;
    }
    proof {
        lemma_any_in_state(s, "ERROR"@);
        lemma_any_in_state(s, "PENDING"@);
        lemma_any_in_state(s, "WORKING"@);
    }
    if any_error {
        "ERROR"
    } else if any_pending {
        "PENDING"
    } else if any_working {
        "WORKING"
    } else {
        "IDLE"
    }
}

/// How long finished and idle tasks are kept before a sweep removes them.
#[derive(Clone, Copy, Debug, PartialEq, Eq, Structural)]
pub struct CleanupPolicy {
    /// A `DONE` task is removed once more than this many seconds have
    /// passed since its last update.
    pub done_grace_seconds: i64,
    /// Where set, an `IDLE` task is removed once more than this many
    /// seconds have passed since its last update.
    pub idle_window_seconds: Option<i64>,
}

/// The grace window of the sweep that runs at start-up.
pub const DONE_GRACE_SECONDS: i64 = 30;

/// The window after which a periodic sweep may remove idle tasks.
pub const IDLE_WINDOW_SECONDS: i64 = 3600;

/// Whether a sweep at the time `now` removes the task: it is not pinned,
/// and it is `DONE` past the grace window or `IDLE` past the idle window.
pub open spec fn expired(t: TaskView, now: i64, policy: CleanupPolicy) -> bool {
    &&& !t.pinned
    &&& {
        ||| t.state == "DONE"@ && now - t.updated_at > policy.done_grace_seconds
        ||| t.state == "IDLE"@ && policy.idle_window_seconds.is_some() && now - t.updated_at
            > policy.idle_window_seconds.unwrap()
    }
}

/// The keys of the tasks that a sweep keeps.
pub open spec fn survivors(
    tasks: Map<Seq<char>, TaskView>,
    now: i64,
    policy: CleanupPolicy,
) -> Set<Seq<char>> {
    Set::new(|k: Seq<char>| !expired(tasks[k], now, policy))
}

/// Whether a sweep at the time `now` removes the task.
pub fn is_expired(task: &Task, now: i64, policy: &CleanupPolicy) -> (r: bool)
    ensures
        r == expired(task@, now, *policy),
{
    proof {
        reveal_strlit("DONE");
        reveal_strlit("IDLE");
        assert("DONE"@[0] != "IDLE"@[0]);
    }
    if task.pinned {
        return false;
    }
    let age: i128 = now as i128 - task.updated_at as i128;
    if str_eq(task.state.as_str(), "DONE") {
        age > policy.done_grace_seconds as i128
    } else if str_eq(task.state.as_str(), "IDLE") {
        match policy.idle_window_seconds {
            Some(w) => age > w as i128,
            None => false,
        }
    } else {
        false
    }
}

/// Removes every task that has expired at the time `now` and returns how
/// many were removed. A pinned task stays whatever its state and age. Where
/// something was removed the snapshot's `updated_at` becomes `now`.
pub fn cleanup_sweep(state: &mut AppState, now: i64, policy: &CleanupPolicy) -> (removed: usize)
    requires
        old(state).wf(),
    ensures
        final(state).wf(),
        final(state)@.tasks == old(state)@.tasks.restrict(
            survivors(old(state)@.tasks, now, *policy),
        ),
        forall|k: Seq<char>|
            old(state)@.tasks.dom().contains(k) && (#[trigger] old(state)@.tasks[k]).pinned
                ==> final(state)@.tasks.dom().contains(k) && final(state)@.tasks[k] == old(
                state,
            )@.tasks[k],
        forall|k: Seq<char>|
            old(state)@.tasks.dom().contains(k) && !(#[trigger] old(state)@.tasks[k]).pinned
                && old(state)@.tasks[k].state == "DONE"@ && now - old(state)@.tasks[k].updated_at
                > policy.done_grace_seconds ==> !final(state)@.tasks.dom().contains(k),
        final(state)@.projects == old(state)@.projects,
        final(state)@.debug_data == old(state)@.debug_data,
        final(state).last_cli_ping == old(state).last_cli_ping,
        removed == old(state).tasks@.len() - final(state).tasks@.len(),
        final(state).updated_at == if removed > 0 {
            now
        } else {
            old(state).updated_at
        },
        attached(old(state)@) ==> attached(final(state)@),
        now >= old(state).updated_at && in_order(old(state)@) ==> in_order(final(state)@),
{
    let ghost before = as_map(seq_view(old(state).tasks@));
    let total: usize = state.tasks.len();
    let mut removed: usize = 0;
    let mut i: usize = 0;
    while i < state.tasks.len()
        invariant
            total == old(state).tasks@.len(),
            state.projects == old(state).projects,
            state.debug_data == old(state).debug_data,
            state.last_cli_ping == old(state).last_cli_ping,
            state.updated_at == old(state).updated_at,
            before == as_map(seq_view(old(state).tasks@)),
            distinct_keys(seq_view(state.tasks@)),
            0 <= i <= state.tasks@.len(),
            removed + state.tasks@.len() == old(state).tasks@.len(),
            forall|j: int| 0 <= j < i ==> !expired(#[trigger] state.tasks@[j]@, now, *policy),
            forall|k: Seq<char>| #[trigger]
                as_map(seq_view(state.tasks@)).dom().contains(k) ==> before.dom().contains(k)
                    && as_map(seq_view(state.tasks@))[k] == before[k],
            forall|k: Seq<char>|
                #[trigger] before.dom().contains(k) && !expired(before[k], now, *policy) ==> as_map(
                    seq_view(state.tasks@),
                ).dom().contains(k),
        decreases state.tasks@.len() - i,
    {
        let ghost cur = seq_view(state.tasks@);
        if is_expired(&state.tasks[i], now, policy) {
            proof {
                lemma_as_map_remove(cur, i as int);
                lemma_as_map_index(cur, i as int);
            }
            let _gone = state.tasks.remove(i);
            removed += 1;
            proof {
                assert(seq_view(state.tasks@) =~= cur.remove(i as int));
                assert forall|j: int| 0 <= j < i implies !expired(
                    #[trigger] state.tasks@[j]@,
                    now,
                    *policy,
                ) by {
                    assert(state.tasks@[j]@ == cur[j]);
                }
            }
        } else {
            i += 1;
        }
    }
    if removed > 0 {
        state.updated_at = now;
    }
    proof {
        let cur = seq_view(state.tasks@);
        let after = as_map(cur);
        let kept = before.restrict(survivors(before, now, *policy));
        assert forall|k: Seq<char>| after.dom().contains(k) implies kept.dom().contains(k) by {
            let j = index_of(cur, k);
            lemma_as_map_index(cur, j);
            assert(cur[j] == state.tasks@[j]@);
        }
        assert(after =~= kept);
    }
    removed
}

} // verus!
