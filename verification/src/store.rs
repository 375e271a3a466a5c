//! The mutations of the store. Each one changes the snapshot in memory and
//! nothing else; each but the upsert fails, and changes nothing, when the
//! task it names is not in the store.

use crate::keyed::{
    as_map, distinct_keys, has_key, index_of, lemma_as_map_index, lemma_as_map_len,
    lemma_as_map_push, lemma_as_map_remove, lemma_as_map_update, Keyed,
};
use crate::state::{attached, in_order, AppState, AppStateView};
use crate::text::str_eq;
use crate::types::{
    clone_opt_network, clone_opt_session, opt_view, seq_view, DebugData,
    EnhancedStateContext, Project, ProjectIn, ProjectView, Task, TaskIn, TaskView,
};
use vstd::prelude::*;
use vstd::string::*;

verus! {

/// Why a mutation of the store was refused.
#[derive(Clone, Copy, Debug, PartialEq, Eq, Structural)]
pub enum StoreError {
    /// The store has no task with the given id.
    NotFound,
}

/// Whether some project of the map lies at the repository path.
pub open spec fn has_path(projects: Map<Seq<char>, ProjectView>, path: Seq<char>) -> bool {
    exists|k: Seq<char>| projects.dom().contains(k) && (#[trigger] projects[k]).repo_path == path
}

/// Whether no two projects of the map lie at the same repository path.
pub open spec fn unique_paths(projects: Map<Seq<char>, ProjectView>) -> bool {
    forall|a: Seq<char>, b: Seq<char>|
        projects.dom().contains(a) && projects.dom().contains(b) && (#[trigger] projects[a]).repo_path
            == (#[trigger] projects[b]).repo_path ==> a == b
}

/// The project that an upsert creates.
pub open spec fn new_project_view(project: ProjectIn, id: Seq<char>, now: i64) -> ProjectView {
    ProjectView {
        id,
        name: project.name@,
        repo_path: project.repo_path@,
        preferred_ide: match project.preferred_ide {
            Some(ide) => ide@,
            None => Seq::empty(),
        },
        github_url: opt_view(project.github_url),
        created_at: now,
        updated_at: now,
    }
}

/// The task that an upsert stores.
pub open spec fn new_task_view(task: TaskIn, project_id: Seq<char>, pinned: bool, now: i64) -> TaskView {
    TaskView {
        id: task.id@,
        project_id,
        agent: task.agent@,
        title: task.title@,
        state: task.state@,
        details: opt_view(task.details),
        created_at: now,
        updated_at: now,
        pinned,
        detection_method: None,
        confidence: None,
        network_context: None,
        session_context: None,
    }
}

/// Whether the map holds the task and the task is pinned.
pub open spec fn pinned_in(tasks: Map<Seq<char>, TaskView>, id: Seq<char>) -> bool {
    tasks.dom().contains(id) && tasks[id].pinned
}

/// What an upsert did.
#[derive(Debug)]
pub struct Upserted {
    /// The id of the task that was stored.
    pub task_id: String,
    /// The id of the project that the task now belongs to.
    pub project_id: String,
    /// Whether the project was created by this upsert.
    pub created_project: bool,
}

/// How an upsert that attaches its task to the project `pid` changes the
/// projects `pre` into `post`.
///
/// Where a project already lies at the repository path, `pid` is one of
/// them; it keeps all it had but `updated_at`, and no project is added.
/// Otherwise a new project is stored under `pid`, an id that no project
/// has: the proposed id `fresh` unless that is taken. No project is ever
/// removed or replaced by another.
pub open spec fn upsert_projects(
    pre: Map<Seq<char>, ProjectView>,
    project: ProjectIn,
    now: i64,
    fresh: Seq<char>,
    pid: Seq<char>,
    post: Map<Seq<char>, ProjectView>,
) -> bool {
    if has_path(pre, project.repo_path@) {
        &&& pre.dom().contains(pid)
        &&& pre[pid].repo_path == project.repo_path@
        &&& post == pre.insert(pid, ProjectView { updated_at: now, ..pre[pid] })
    } else {
        &&& !pre.dom().contains(pid)
        &&& !pre.dom().contains(fresh) ==> pid == fresh
        &&& post == pre.insert(pid, new_project_view(project, pid, now))
    }
}

/// The length of the longest project id, and 0 without any project.
pub open spec fn longest_id(projects: Seq<ProjectView>) -> nat
    decreases projects.len(),
{
    if projects.len() == 0 {
        0
    } else {
        let before = longest_id(projects.drop_last());
        if projects.last().id.len() >= before {
            projects.last().id.len()
        } else {
            before
        }
    }
}

/// A run of `n` dashes.
pub open spec fn dashes(n: nat) -> Seq<char> {
    Seq::new(n, |i: int| '-')
}

/// An id for a new project: the wanted id where no project has it, and
/// else the wanted id lengthened by dashes until it is longer than every
/// id in use.
pub open spec fn free_id(projects: Seq<ProjectView>, wanted: Seq<char>) -> Seq<char> {
    if has_key(projects, wanted) {
        wanted + dashes((longest_id(projects) + 1 - wanted.len()) as nat)
    } else {
        wanted
    }
}

/// No project id is longer than the longest.
pub proof fn lemma_longest_id(projects: Seq<ProjectView>)
    ensures
        forall|i: int| 0 <= i < projects.len() ==> (#[trigger] projects[i]).id.len() <= longest_id(
            projects,
        ),
    decreases projects.len(),
{
    if projects.len() > 0 {
        let front = projects.drop_last();
        lemma_longest_id(front);
        assert forall|i: int| 0 <= i < projects.len() implies (#[trigger] projects[i]).id.len()
            <= longest_id(projects) by {
            if i < front.len() {
                assert(front[i] == projects[i]);
            }
        }
    }
}

/// The id that `free_id` gives is the id of no project.
pub proof fn lemma_free_id_is_free(projects: Seq<ProjectView>, wanted: Seq<char>)
    ensures
        !has_key(projects, free_id(projects, wanted)),
{
    lemma_longest_id(projects);
    if has_key(projects, wanted) {
        let at = index_of(projects, wanted);
        assert(projects[at].id.len() <= longest_id(projects));
        let id = free_id(projects, wanted);
        assert(id.len() == longest_id(projects) + 1);
        assert forall|i: int| 0 <= i < projects.len() implies (#[trigger] projects[i]).key()
            != id by {
            assert(projects[i].id.len() <= longest_id(projects));
        }
    }
}

/// How an upsert that attaches the task to the project `pid` changes the
/// snapshot `pre` into `post`.
///
/// The projects change as `upsert_projects` says. The task is stored under
/// its id in place of any earlier one, whose pinned flag it keeps; a new
/// task is not pinned. The snapshot is updated at the time `now`.
pub open spec fn upsert_post(
    pre: AppStateView,
    project: ProjectIn,
    task: TaskIn,
    now: i64,
    fresh: Seq<char>,
    pid: Seq<char>,
    post: AppStateView,
) -> bool {
    &&& upsert_projects(pre.projects, project, now, fresh, pid, post.projects)
    &&& post.tasks == pre.tasks.insert(
        task.id@,
        new_task_view(task, pid, pinned_in(pre.tasks, task.id@), now),
    )
    &&& post.debug_data == pre.debug_data
    &&& post.last_cli_ping == pre.last_cli_ping
    &&& post.updated_at == now
}

/// Some project of the map lies at a path exactly when some record of the
/// collection does.
pub proof fn lemma_has_path(s: Seq<ProjectView>, path: Seq<char>)
    requires
        distinct_keys(s),
    ensures
        has_path(as_map(s), path) <==> exists|i: int|
            0 <= i < s.len() && (#[trigger] s[i]).repo_path == path,
{
    let m = as_map(s);
    if has_path(m, path) {
        let k = choose|k: Seq<char>| m.dom().contains(k) && (#[trigger] m[k]).repo_path == path;
        let i = index_of(s, k);
        assert(0 <= i < s.len() && s[i].repo_path == path);
    }
    if exists|i: int| 0 <= i < s.len() && (#[trigger] s[i]).repo_path == path {
        let i = choose|i: int| 0 <= i < s.len() && (#[trigger] s[i]).repo_path == path;
        lemma_as_map_index(s, i);
        assert(m.dom().contains(s[i].key()) && m[s[i].key()].repo_path == path);
    }
}

impl AppState {
    /// The place of a project at the repository path, if the store has one.
    pub fn find_project_by_path(&self, repo_path: &str) -> (r: Option<usize>)
        requires
            self.wf(),
        ensures
            match r {
                Some(i) => i < self.projects@.len() && self.projects@[i as int].repo_path@
                    == repo_path@,
                None => !has_path(self@.projects, repo_path@),
            },
            r.is_some() <==> has_path(self@.projects, repo_path@),
    {
        let ghost s = seq_view(self.projects@);
        let mut i: usize = 0;
        while i < self.projects.len()
            invariant
                0 <= i <= self.projects@.len(),
                s == seq_view(self.projects@),
                distinct_keys(s),
                forall|k: int| 0 <= k < i ==> (#[trigger] s[k]).repo_path != repo_path@,
            decreases self.projects@.len() - i,
        {
            if str_eq(self.projects[i].repo_path.as_str(), repo_path) {
                proof {
                    assert(s[i as int].repo_path == repo_path@);
                    lemma_has_path(s, repo_path@);
                }
                return Some(i);
            }
            i += 1;
        }
        proof {
            lemma_has_path(s, repo_path@);
        }
        None
    }

    /// Stores the task under its id, in place of the task that had it.
    fn put_task(&mut self, task: Task)
        requires
            old(self).wf(),
        ensures
            final(self).wf(),
            final(self)@.tasks == old(self)@.tasks.insert(task.id@, task@),
            final(self).projects == old(self).projects,
            final(self).debug_data == old(self).debug_data,
            final(self).updated_at == old(self).updated_at,
            final(self).last_cli_ping == old(self).last_cli_ping,
    {
        let ghost before = seq_view(self.tasks@);
        match self.find_task(task.id.as_str()) {
            Some(i) => {
                proof {
                    lemma_as_map_update(before, i as int, task@);
                }
                self.tasks.set(i, task);
                assert(seq_view(self.tasks@) =~= before.update(i as int, task@));
            },
            None => {
                proof {
                    lemma_as_map_push(before, task@);
                }
                self.tasks.push(task);
                assert(seq_view(self.tasks@) =~= before.push(task@));
            },
        }
    }

    /// Stores the project under its id, in place of the project that had it.
    fn put_project(&mut self, project: Project)
        requires
            old(self).wf(),
        ensures
            final(self).wf(),
            final(self)@.projects == old(self)@.projects.insert(project.id@, project@),
            final(self).tasks == old(self).tasks,
            final(self).debug_data == old(self).debug_data,
            final(self).updated_at == old(self).updated_at,
            final(self).last_cli_ping == old(self).last_cli_ping,
    {
        let ghost before = seq_view(self.projects@);
        match self.find_project(project.id.as_str()) {
            Some(i) => {
                proof {
                    lemma_as_map_update(before, i as int, project@);
                }
                self.projects.set(i, project);
                assert(seq_view(self.projects@) =~= before.update(i as int, project@));
            },
            None => {
                proof {
                    lemma_as_map_push(before, project@);
                }
                self.projects.push(project);
                assert(seq_view(self.projects@) =~= before.push(project@));
            },
        }
    }

    /// The length of the longest project id.
    pub fn longest_project_id(&self) -> (r: usize)
        ensures
            r == longest_id(seq_view(self.projects@)),
    {
        let ghost s = seq_view(self.projects@);
        let mut longest: usize = 0;
        let mut i: usize = 0;
        assert(s.subrange(0, 0) =~= Seq::<ProjectView>::empty());
        while i < self.projects.len()
            invariant
                s == seq_view(self.projects@),
                0 <= i <= self.projects@.len(),
                longest == longest_id(s.subrange(0, i as int)),
            decreases self.projects@.len() - i,
        {
            let n = self.projects[i].id.as_str().unicode_len();
            proof {
                let next = s.subrange(0, i as int + 1);
                assert(next.drop_last() =~= s.subrange(0, i as int));
                assert(next.last() == s[i as int]);
            }
            if n >= longest {
                longest = n;
            }
            i += 1;
        }
        assert(s.subrange(0, i as int) =~= s);
        longest
    }

    /// An id for a new project that no project of the store has: the
    /// wanted id, lengthened by dashes where a project has it already.
    pub fn free_project_id(&self, wanted: String) -> (r: String)
        ensures
            r@ == free_id(seq_view(self.projects@), wanted@),
            !self@.projects.dom().contains(r@),
            !self@.projects.dom().contains(wanted@) ==> r@ == wanted@,
    {
        let ghost s = seq_view(self.projects@);
        proof {
            lemma_free_id_is_free(s, wanted@);
            lemma_longest_id(s);
            reveal_strlit("-");
        }
        match self.find_project(wanted.as_str()) {
            None => wanted,
            Some(at) => {
                assert(s[at as int].key() == wanted@);
                let longest = self.longest_project_id();
                let mut remaining: usize = longest - wanted.as_str().unicode_len();
                let mut id = wanted;
                id.append("-");
                assert(id@ =~= wanted@ + dashes(1));
                while remaining > 0
                    invariant
                        remaining <= longest - wanted@.len(),
                        wanted@.len() <= longest,
                        id@ == wanted@ + dashes((longest - wanted@.len() - remaining + 1) as nat),
                        "-"@ == seq!['-'],
                    decreases remaining,
                {
                    let ghost before = id@;
                    id.append("-");
                    remaining -= 1;
                    assert(id@ =~= wanted@ + dashes(
                        (longest - wanted@.len() - remaining + 1) as nat,
                    ));
                }
                id
            },
        }
    }

    /// Creates or refreshes a project and one of its tasks.
    ///
    /// `fresh_project_id` is the id proposed for a new project. It is not
    /// used where a project already lies at the repository path, and it is
    /// lengthened, as `free_id` says, where another project has it: an
    /// upsert never takes the place of a project that is stored.
    pub fn upsert(&mut self, project: ProjectIn, task: TaskIn, now: i64, fresh_project_id: String) -> (r:
        Upserted)
        requires
            old(self).wf(),
        ensures
            final(self).wf(),
            upsert_post(
                old(self)@,
                project,
                task,
                now,
                fresh_project_id@,
                r.project_id@,
                final(self)@,
            ),
            r.task_id@ == task.id@,
            r.created_project == !has_path(old(self)@.projects, project.repo_path@),
            has_path(old(self)@.projects, project.repo_path@) ==> final(self)@.projects.dom()
                == old(self)@.projects.dom(),
            old(self)@.tasks.dom().contains(task.id@) ==> final(self)@.tasks[task.id@].pinned
                == old(self)@.tasks[task.id@].pinned,
            unique_paths(old(self)@.projects) ==> unique_paths(final(self)@.projects),
            final(self)@.projects.dom().contains(r.project_id@),
            final(self)@.tasks[task.id@].project_id == r.project_id@,
            r.created_project ==> r.project_id@ == free_id(
                seq_view(old(self).projects@),
                fresh_project_id@,
            ),
            final(self)@.projects.dom().len() == old(self)@.projects.dom().len() + if has_path(
                old(self)@.projects,
                project.repo_path@,
            ) {
                0int
            } else {
                1int
            },
            forall|k: Seq<char>| #[trigger]
                old(self)@.projects.dom().contains(k) ==> final(self)@.projects.dom().contains(k)
                    && (k != r.project_id@ ==> final(self)@.projects[k]
                    == old(self)@.projects[k]),
            attached(old(self)@) ==> attached(final(self)@),
            now >= old(self).updated_at && in_order(old(self)@) ==> in_order(final(self)@),
    {
        let ghost pre = self@;
        proof {
            lemma_as_map_len(seq_view(self.projects@));
        }
        let ghost before = seq_view(self.projects@);
        let found = self.find_project_by_path(project.repo_path.as_str());
        let created_project = found.is_none();
        let project_id: String = match found {
            Some(i) => {
                let mut kept = self.projects[i].clone();
                kept.updated_at = now;
                let id = kept.id.clone();
                proof {
                    lemma_as_map_index(before, i as int);
                    assert(before[i as int] == self.projects@[i as int]@);
                }
                self.put_project(kept);
                assert(self@.projects.dom() =~= pre.projects.dom());
                id
            },
            None => {
                let id = self.free_project_id(fresh_project_id);
                let created = Project {
                    id: id.clone(),
                    name: project.name.clone(),
                    repo_path: project.repo_path.clone(),
                    preferred_ide: match &project.preferred_ide {
                        Some(ide) => ide.clone(),
                        None => String::new(),
                    },
                    github_url: crate::types::clone_opt_string(&project.github_url),
                    created_at: now,
                    updated_at: now,
                };
                self.put_project(created);
                id
            },
        };
        proof {
            lemma_upsert_counts_projects(
                pre.projects,
                project,
                now,
                fresh_project_id@,
                project_id@,
                self@.projects,
            );
        }
        proof {
            if unique_paths(pre.projects) {
                lemma_upsert_keeps_paths_unique(
                    pre.projects,
                    project,
                    now,
                    fresh_project_id@,
                    project_id@,
                    self@.projects,
                );
            }
        }
        let pinned = match self.find_task(task.id.as_str()) {
            Some(i) => {
                proof {
                    lemma_as_map_index(seq_view(self.tasks@), i as int);
                    assert(seq_view(self.tasks@)[i as int] == self.tasks@[i as int]@);
                }
                self.tasks[i].pinned
            },
            None => false,
        };
        let task_id = task.id.clone();
        let stored = Task {
            id: task.id.clone(),
            project_id: project_id.clone(),
            agent: task.agent.clone(),
            title: task.title.clone(),
            state: task.state.clone(),
            details: crate::types::clone_opt_string(&task.details),
            created_at: now,
            updated_at: now,
            pinned,
            detection_method: None,
            confidence: None,
            network_context: None,
            session_context: None,
        };
        self.put_task(stored);
        self.updated_at = now;
        Upserted { task_id, project_id, created_project }
    }
}

/// An upsert adds one project where none lies at the repository path, and
/// none where one does. It removes no project, and leaves every project
/// but the one it attaches the task to as it was.
pub proof fn lemma_upsert_counts_projects(
    pre: Map<Seq<char>, ProjectView>,
    project: ProjectIn,
    now: i64,
    fresh: Seq<char>,
    pid: Seq<char>,
    post: Map<Seq<char>, ProjectView>,
)
    requires
        pre.dom().finite(),
        upsert_projects(pre, project, now, fresh, pid, post),
    ensures
        post.dom().finite(),
        post.dom().len() == pre.dom().len() + if has_path(pre, project.repo_path@) {
            0int
        } else {
            1int
        },
        forall|k: Seq<char>| #[trigger]
            pre.dom().contains(k) ==> post.dom().contains(k) && (k != pid ==> post[k] == pre[k]),
{
    if has_path(pre, project.repo_path@) {
        assert(post.dom() =~= pre.dom());
    } else {
        assert(post.dom() =~= pre.dom().insert(pid));
    }
}

/// An upsert never leaves two projects at one repository path: where no two
/// projects shared a path before it, none do after it.
pub proof fn lemma_upsert_keeps_paths_unique(
    pre: Map<Seq<char>, ProjectView>,
    project: ProjectIn,
    now: i64,
    fresh: Seq<char>,
    pid: Seq<char>,
    post: Map<Seq<char>, ProjectView>,
)
    requires
        unique_paths(pre),
        upsert_projects(pre, project, now, fresh, pid, post),
    ensures
        unique_paths(post),
{
    assert forall|a: Seq<char>, b: Seq<char>|
        post.dom().contains(a) && post.dom().contains(b) && (#[trigger] post[a]).repo_path == (
        #[trigger] post[b]).repo_path implies a == b by {
        if has_path(pre, project.repo_path@) {
            assert(post[a].repo_path == pre[a].repo_path);
            assert(post[b].repo_path == pre[b].repo_path);
        } else {
            if a != pid && b != pid {
                assert(post[a] == pre[a] && post[b] == pre[b]);
            } else if a == pid && b != pid {
                assert(pre.dom().contains(b) && pre[b].repo_path == project.repo_path@);
            } else if b == pid && a != pid {
                assert(pre.dom().contains(a) && pre[a].repo_path == project.repo_path@);
            }
        }
    }
}

impl AppState {
    /// A copy of the task with the given id, if the store has it.
    pub fn get_task(&self, task_id: &str) -> (r: Option<Task>)
        requires
            self.wf(),
        ensures
            match r {
                Some(t) => self@.tasks.dom().contains(task_id@) && t@ == self@.tasks[task_id@],
                None => !self@.tasks.dom().contains(task_id@),
            },
    {
        match self.find_task(task_id) {
            Some(i) => {
                proof {
                    lemma_as_map_index(seq_view(self.tasks@), i as int);
                    assert(seq_view(self.tasks@)[i as int] == self.tasks@[i as int]@);
                }
                Some(self.tasks[i].clone())
            },
            None => None,
        }
    }

    /// A copy of the project with the given id, if the store has it.
    pub fn get_project(&self, project_id: &str) -> (r: Option<Project>)
        requires
            self.wf(),
        ensures
            match r {
                Some(p) => self@.projects.dom().contains(project_id@) && p@
                    == self@.projects[project_id@],
                None => !self@.projects.dom().contains(project_id@),
            },
    {
        match self.find_project(project_id) {
            Some(i) => {
                proof {
                    lemma_as_map_index(seq_view(self.projects@), i as int);
                    assert(seq_view(self.projects@)[i as int] == self.projects@[i as int]@);
                }
                Some(self.projects[i].clone())
            },
            None => None,
        }
    }

    /// Sets the state, the details and the detection method of a task.
    pub fn update_state(
        &mut self,
        task_id: &str,
        new_state: String,
        details: Option<String>,
        detection_method: String,
        now: i64,
    ) -> (r: Result<(), StoreError>)
        requires
            old(self).wf(),
        ensures
            final(self).wf(),
            r.is_ok() <==> old(self)@.tasks.dom().contains(task_id@),
            r.is_ok() ==> final(self)@ == (AppStateView {
                tasks: old(self)@.tasks.insert(
                    task_id@,
                    TaskView {
                        state: new_state@,
                        details: opt_view(details),
                        detection_method: Some(detection_method@),
                        updated_at: now,
                        ..old(self)@.tasks[task_id@]
                    },
                ),
                updated_at: now,
                ..old(self)@
            }),
            r.is_err() ==> *final(self) == *old(self),
            attached(old(self)@) ==> attached(final(self)@),
            now >= old(self).updated_at && in_order(old(self)@) ==> in_order(final(self)@),
    {
        match self.get_task(task_id) {
            Some(mut task) => {
                task.state = new_state;
                task.details = details;
                task.detection_method = Some(detection_method);
                task.updated_at = now;
                self.put_task(task);
                self.updated_at = now;
                Ok(())
            },
            None => Err(StoreError::NotFound),
        }
    }

    /// Sets the state and the details of a task.
    pub fn set_state(
        &mut self,
        task_id: &str,
        new_state: String,
        details: Option<String>,
        now: i64,
    ) -> (r: Result<(), StoreError>)
        requires
            old(self).wf(),
        ensures
            final(self).wf(),
            r.is_ok() <==> old(self)@.tasks.dom().contains(task_id@),
            r.is_ok() ==> final(self)@ == (AppStateView {
                tasks: old(self)@.tasks.insert(
                    task_id@,
                    TaskView {
                        state: new_state@,
                        details: opt_view(details),
                        updated_at: now,
                        ..old(self)@.tasks[task_id@]
                    },
                ),
                updated_at: now,
                ..old(self)@
            }),
            r.is_err() ==> *final(self) == *old(self),
            attached(old(self)@) ==> attached(final(self)@),
            now >= old(self).updated_at && in_order(old(self)@) ==> in_order(final(self)@),
    {
        match self.get_task(task_id) {
            Some(mut task) => {
                task.state = new_state;
                task.details = details;
                task.updated_at = now;
                self.put_task(task);
                self.updated_at = now;
                Ok(())
            },
            None => Err(StoreError::NotFound),
        }
    }

    /// Sets the state of a task from a report that carries its context: the
    /// detection method, the score and the contexts are taken from the
    /// report, and `details` becomes the details of the task.
    pub fn update_state_with_context(
        &mut self,
        task_id: &str,
        new_state: String,
        context: &EnhancedStateContext,
        details: String,
        now: i64,
    ) -> (r: Result<(), StoreError>)
        requires
            old(self).wf(),
        ensures
            final(self).wf(),
            r.is_ok() <==> old(self)@.tasks.dom().contains(task_id@),
            r.is_ok() ==> final(self)@ == (AppStateView {
                tasks: old(self)@.tasks.insert(
                    task_id@,
                    TaskView {
                        state: new_state@,
                        details: Some(details@),
                        detection_method: Some(context.detection_method@),
                        confidence: Some(context.confidence),
                        network_context: opt_view(context.network),
                        session_context: opt_view(context.session),
                        updated_at: now,
                        ..old(self)@.tasks[task_id@]
                    },
                ),
                updated_at: now,
                ..old(self)@
            }),
            r.is_err() ==> *final(self) == *old(self),
            attached(old(self)@) ==> attached(final(self)@),
            now >= old(self).updated_at && in_order(old(self)@) ==> in_order(final(self)@),
    {
        match self.get_task(task_id) {
            Some(mut task) => {
                task.state = new_state;
                task.detection_method = Some(context.detection_method.clone());
                task.confidence = Some(context.confidence);
                task.network_context = clone_opt_network(&context.network);
                task.session_context = clone_opt_session(&context.session);
                task.updated_at = now;
                task.details = Some(details);
                self.put_task(task);
                self.updated_at = now;
                Ok(())
            },
            None => Err(StoreError::NotFound),
        }
    }

    /// Replaces the details of a task.
    pub fn update_details(&mut self, task_id: &str, details: String, now: i64) -> (r: Result<
        (),
        StoreError,
    >)
        requires
            old(self).wf(),
        ensures
            final(self).wf(),
            r.is_ok() <==> old(self)@.tasks.dom().contains(task_id@),
            r.is_ok() ==> final(self)@ == (AppStateView {
                tasks: old(self)@.tasks.insert(
                    task_id@,
                    TaskView {
                        details: Some(details@),
                        updated_at: now,
                        ..old(self)@.tasks[task_id@]
                    },
                ),
                updated_at: now,
                ..old(self)@
            }),
            r.is_err() ==> *final(self) == *old(self),
            attached(old(self)@) ==> attached(final(self)@),
            now >= old(self).updated_at && in_order(old(self)@) ==> in_order(final(self)@),
    {
        match self.get_task(task_id) {
            Some(mut task) => {
                task.details = Some(details);
                task.updated_at = now;
                self.put_task(task);
                self.updated_at = now;
                Ok(())
            },
            None => Err(StoreError::NotFound),
        }
    }

    /// Puts a task into the state `DONE`.
    pub fn mark_done(&mut self, task_id: &str, details: Option<String>, now: i64) -> (r: Result<
        (),
        StoreError,
    >)
        requires
            old(self).wf(),
        ensures
            final(self).wf(),
            r.is_ok() <==> old(self)@.tasks.dom().contains(task_id@),
            r.is_ok() ==> final(self)@ == (AppStateView {
                tasks: old(self)@.tasks.insert(
                    task_id@,
                    TaskView {
                        state: "DONE"@,
                        details: opt_view(details),
                        updated_at: now,
                        ..old(self)@.tasks[task_id@]
                    },
                ),
                updated_at: now,
                ..old(self)@
            }),
            r.is_err() ==> *final(self) == *old(self),
            attached(old(self)@) ==> attached(final(self)@),
            now >= old(self).updated_at && in_order(old(self)@) ==> in_order(final(self)@),
    {
        match self.get_task(task_id) {
            Some(mut task) => {
                task.state = "DONE".to_string();
                task.details = details;
                task.updated_at = now;
                self.put_task(task);
                self.updated_at = now;
                Ok(())
            },
            None => Err(StoreError::NotFound),
        }
    }

    /// Removes a task.
    pub fn delete(&mut self, task_id: &str, now: i64) -> (r: Result<(), StoreError>)
        requires
            old(self).wf(),
        ensures
            final(self).wf(),
            r.is_ok() <==> old(self)@.tasks.dom().contains(task_id@),
            r.is_ok() ==> final(self)@ == (AppStateView {
                tasks: old(self)@.tasks.remove(task_id@),
                updated_at: now,
                ..old(self)@
            }),
            r.is_err() ==> *final(self) == *old(self),
            attached(old(self)@) ==> attached(final(self)@),
            now >= old(self).updated_at && in_order(old(self)@) ==> in_order(final(self)@),
    {
        match self.find_task(task_id) {
            Some(i) => {
                let ghost before = seq_view(self.tasks@);
                proof {
                    lemma_as_map_index(before, i as int);
                    lemma_as_map_remove(before, i as int);
                    assert(before[i as int] == self.tasks@[i as int]@);
                }
                let _gone = self.tasks.remove(i);
                assert(seq_view(self.tasks@) =~= before.remove(i as int));
                self.updated_at = now;
                Ok(())
            },
            None => Err(StoreError::NotFound),
        }
    }

    /// Pins or unpins a task.
    pub fn set_pinned(&mut self, task_id: &str, pinned: bool, now: i64) -> (r: Result<
        (),
        StoreError,
    >)
        requires
            old(self).wf(),
        ensures
            final(self).wf(),
            r.is_ok() <==> old(self)@.tasks.dom().contains(task_id@),
            r.is_ok() ==> final(self)@ == (AppStateView {
                tasks: old(self)@.tasks.insert(
                    task_id@,
                    TaskView { pinned, updated_at: now, ..old(self)@.tasks[task_id@] },
                ),
                updated_at: now,
                ..old(self)@
            }),
            r.is_err() ==> *final(self) == *old(self),
            attached(old(self)@) ==> attached(final(self)@),
            now >= old(self).updated_at && in_order(old(self)@) ==> in_order(final(self)@),
    {
        match self.get_task(task_id) {
            Some(mut task) => {
                task.pinned = pinned;
                task.updated_at = now;
                self.put_task(task);
                self.updated_at = now;
                Ok(())
            },
            None => Err(StoreError::NotFound),
        }
    }

    /// A full copy of the snapshot for a reader.
    pub fn snapshot(&self) -> (r: AppState)
        ensures
            r@ == self@,
            self.wf() ==> r.wf(),
    {
        self.clone()
    }

    /// Records that the external reporter was heard from at the time `now`.
    pub fn record_ping(&mut self, now: i64)
        ensures
            final(self)@ == (AppStateView {
                last_cli_ping: Some(now),
                ..old(self)@
            }),
            old(self).wf() ==> final(self).wf(),
    {
        self.last_cli_ping = Some(now);
    }

    /// Stores the diagnostic trace of a task in place of any earlier one.
    pub fn put_debug_data(&mut self, data: DebugData)
        requires
            old(self).wf(),
        ensures
            final(self).wf(),
            final(self)@ == (AppStateView {
                debug_data: old(self)@.debug_data.insert(data.task_id@, data@),
                ..old(self)@
            }),
    {
        let ghost before = seq_view(self.debug_data@);
        match self.find_debug_data(data.task_id.as_str()) {
            Some(i) => {
                proof {
                    lemma_as_map_update(before, i as int, data@);
                }
                self.debug_data.set(i, data);
                assert(seq_view(self.debug_data@) =~= before.update(i as int, data@));
            },
            None => {
                proof {
                    lemma_as_map_push(before, data@);
                }
                self.debug_data.push(data);
                assert(seq_view(self.debug_data@) =~= before.push(data@));
            },
        }
    }
}

/// One upsert of a sequence: what was sent, when, the id that a new project
/// would get, and the project that the task was attached to.
pub struct UpsertStep {
    pub project: ProjectIn,
    pub task: TaskIn,
    pub now: i64,
    pub fresh: Seq<char>,
    pub pid: Seq<char>,
}

/// Whether each snapshot of `states` but the first comes from the one
/// before it by the upsert of `steps` at its place.
pub open spec fn upsert_run(states: Seq<AppStateView>, steps: Seq<UpsertStep>) -> bool {
    &&& states.len() == steps.len() + 1
    &&& forall|i: int|
        0 <= i < steps.len() ==> upsert_post(
            states[i],
            (#[trigger] steps[i]).project,
            steps[i].task,
            steps[i].now,
            steps[i].fresh,
            steps[i].pid,
            states[i + 1],
        )
}

/// However many upserts are made, and whatever they send, no two projects
/// ever lie at the same repository path, if none did at the start.
pub proof fn lemma_upserts_keep_paths_unique(states: Seq<AppStateView>, steps: Seq<UpsertStep>)
    requires
        upsert_run(states, steps),
        unique_paths(states[0].projects),
    ensures
        forall|i: int| 0 <= i < states.len() ==> unique_paths((#[trigger] states[i]).projects),
    decreases steps.len(),
{
    if steps.len() > 0 {
        let n = steps.len() - 1;
        let front_states = states.drop_last();
        let front_steps = steps.drop_last();
        assert forall|i: int| 0 <= i < front_steps.len() implies upsert_post(
            front_states[i],
            (#[trigger] front_steps[i]).project,
            front_steps[i].task,
            front_steps[i].now,
            front_steps[i].fresh,
            front_steps[i].pid,
            front_states[i + 1],
        ) by {
            assert(front_steps[i] == steps[i]);
        }
        lemma_upserts_keep_paths_unique(front_states, front_steps);
        assert(front_states[n] == states[n]);
        let last = steps[n];
        lemma_upsert_keeps_paths_unique(
            states[n].projects,
            last.project,
            last.now,
            last.fresh,
            last.pid,
            states[n + 1].projects,
        );
        assert forall|i: int| 0 <= i < states.len() implies unique_paths(
            (#[trigger] states[i]).projects,
        ) by {
            if i <= n {
                assert(front_states[i] == states[i]);
            }
        }
    }
}

/// An upsert that follows another with the same repository path adds no
/// project: the projects after it are those before it.
pub proof fn lemma_repeated_upsert_adds_no_project(
    start: AppStateView,
    first: UpsertStep,
    between: AppStateView,
    second: UpsertStep,
    end: AppStateView,
)
    requires
        upsert_post(start, first.project, first.task, first.now, first.fresh, first.pid, between),
        upsert_post(
            between,
            second.project,
            second.task,
            second.now,
            second.fresh,
            second.pid,
            end,
        ),
        first.project.repo_path@ == second.project.repo_path@,
    ensures
        end.projects.dom() == between.projects.dom(),
{
    let path = first.project.repo_path@;
    assert(between.projects.dom().contains(first.pid) && between.projects[first.pid].repo_path
        == path);
    assert(has_path(between.projects, path));
    assert(end.projects.dom() =~= between.projects.dom());
}

/// An upsert of a task that the store already has leaves the task's pinned
/// flag as it was, whatever the upsert sends.
pub proof fn lemma_upsert_keeps_pinned(pre: AppStateView, step: UpsertStep, post: AppStateView)
    requires
        upsert_post(pre, step.project, step.task, step.now, step.fresh, step.pid, post),
        pre.tasks.dom().contains(step.task.id@),
    ensures
        post.tasks.dom().contains(step.task.id@),
        post.tasks[step.task.id@].pinned == pre.tasks[step.task.id@].pinned,
{
}

} // verus!
