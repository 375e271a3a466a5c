//! What is done with the snapshot found on disk when the application
//! starts.
//!
//! Reading and writing the file, and turning its text into a snapshot, are
//! the caller's part; what to make of the outcome is decided here. A file
//! that cannot be understood never keeps the application from starting: it
//! is set aside, and the store starts empty.

use crate::state::{
    cleanup_sweep, empty_snapshot, survivors, AppState, AppStateView, CleanupPolicy,
    DONE_GRACE_SECONDS,
};
use crate::keyed::lemma_as_map_len;
use crate::text::{is_blank, trimmed};
use crate::types::seq_view;
use vstd::prelude::*;

verus! {

/// What was found at the place of the persisted snapshot.
#[derive(Debug)]
pub enum SessionsFile {
    /// There is no file.
    Absent,
    /// There is a file, and it could not be read.
    Unreadable(String),
    /// The text of the file, and the snapshot that was read from the text
    /// or the reason why none could be.
    Present { content: String, parsed: Result<AppState, String> },
}

/// The outcome of loading the persisted snapshot.
#[derive(Debug)]
pub struct Loaded {
    /// The snapshot to start from, or why the file could not be read.
    pub state: Result<AppState, String>,
    /// Whether the file is to be set aside under the name of its backup.
    pub quarantine: bool,
    /// Why the snapshot is empty although there is a file, for the log.
    pub warning: Option<String>,
}

/// What loading gives for a file that was read: the empty snapshot for a
/// blank file, and the snapshot read from any other. A text that is no
/// snapshot gives the empty snapshot too: the file is set aside, and the
/// reason is kept for the log.
pub open spec fn load_settled(blank: bool, parsed: Result<AppState, String>, r: Loaded) -> bool {
    if blank {
        &&& r.state matches Ok(s) && s@ == empty_snapshot() && s.wf()
        &&& !r.quarantine
        &&& r.warning.is_none()
    } else {
        match parsed {
            Ok(p) => r.state matches Ok(s) && s == p && !r.quarantine && r.warning.is_none(),
            Err(why) => {
                &&& r.state matches Ok(s) && s@ == empty_snapshot() && s.wf()
                &&& r.quarantine
                &&& r.warning == Some(why)
            },
        }
    }
}

/// Decides what a file that was read gives. `blank` says whether it holds
/// nothing but white space.
pub fn settle_load(blank: bool, parsed: Result<AppState, String>) -> (r: Loaded)
    ensures
        load_settled(blank, parsed, r),
{
    if blank {
        return Loaded { state: Ok(AppState::default()), quarantine: false, warning: None };
    }
    match parsed {
        Ok(p) => Loaded { state: Ok(p), quarantine: false, warning: None },
        Err(why) => Loaded { state: Ok(AppState::default()), quarantine: true, warning: Some(why) },
    }
}

/// What loading gives: the empty snapshot where there is no file, the
/// reason where the file could not be read, and otherwise what
/// `load_settled` says. Loading fails only for a file that cannot be read.
pub open spec fn load_result(file: SessionsFile, r: Loaded) -> bool {
    match file {
        SessionsFile::Absent => {
            &&& r.state matches Ok(s) && s@ == empty_snapshot() && s.wf()
            &&& !r.quarantine
            &&& r.warning.is_none()
        },
        SessionsFile::Unreadable(why) => {
            &&& r.state matches Err(e) && e == why
            &&& !r.quarantine
            &&& r.warning.is_none()
        },
        SessionsFile::Present { content, parsed } => load_settled(
            trimmed(content@).len() == 0,
            parsed,
            r,
        ),
    }
}

/// Loads the persisted snapshot from what was found on disk.
pub fn load_app_state(file: SessionsFile) -> (r: Loaded)
    ensures
        load_result(file, r),
        r.state.is_err() <==> file is Unreadable,
{
    match file {
        SessionsFile::Absent => Loaded {
            state: Ok(AppState::default()),
            quarantine: false,
            warning: None,
        },
        SessionsFile::Unreadable(why) => Loaded {
            state: Err(why),
            quarantine: false,
            warning: None,
        },
        SessionsFile::Present { content, parsed } => settle_load(
            is_blank(content.as_str()),
            parsed,
        ),
    }
}

/// The policy of the sweep at start-up: finished tasks go after the grace
/// window, idle tasks stay.
pub open spec fn startup_policy() -> CleanupPolicy {
    CleanupPolicy { done_grace_seconds: DONE_GRACE_SECONDS, idle_window_seconds: None }
}

/// The store that the application starts with.
#[derive(Debug)]
pub struct Startup {
    /// The snapshot that becomes the live copy.
    pub state: AppState,
    /// How many tasks the sweep removed.
    pub removed: usize,
    /// Whether the snapshot is to be written back to disk at once.
    pub persist: bool,
    /// Whether the file is to be set aside under the name of its backup.
    pub quarantine: bool,
    /// Why the store starts empty, where loading failed.
    pub warning: Option<String>,
}

/// What starting from a loaded snapshot gives: the snapshot after the
/// start-up sweep, written back where the sweep removed something, with
/// the warning that loading left; and the empty snapshot, with the reason
/// as the warning, where the file could not be read.
pub open spec fn started_from(loaded: Loaded, current_time: i64, r: Startup) -> bool {
    &&& r.quarantine == loaded.quarantine
    &&& match loaded.state {
        Ok(s) => {
            &&& r.state@ == (AppStateView {
                tasks: s@.tasks.restrict(survivors(s@.tasks, current_time, startup_policy())),
                updated_at: if r.removed > 0 {
                    current_time
                } else {
                    s.updated_at
                },
                ..s@
            })
            &&& r.removed == s.tasks@.len() - r.state.tasks@.len()
            &&& r.persist == (r.removed > 0)
            &&& r.warning == loaded.warning
        },
        Err(why) => {
            &&& r.state@ == empty_snapshot()
            &&& r.removed == 0
            &&& !r.persist
            &&& r.warning == Some(why)
        },
    }
}

/// Makes the live copy from a loaded snapshot.
pub fn start_from(loaded: Loaded, current_time: i64) -> (r: Startup)
    requires
        loaded.state matches Ok(s) ==> s.wf(),
    ensures
        r.state.wf(),
        started_from(loaded, current_time, r),
{
    let quarantine = loaded.quarantine;
    match loaded.state {
        Ok(mut state) => {
            let policy = CleanupPolicy {
                done_grace_seconds: DONE_GRACE_SECONDS,
                idle_window_seconds: None,
            };
            let removed = cleanup_sweep(&mut state, current_time, &policy);
            Startup { state, removed, persist: removed > 0, quarantine, warning: loaded.warning }
        },
        Err(why) => Startup {
            state: AppState::default(),
            removed: 0,
            persist: false,
            quarantine,
            warning: Some(why),
        },
    }
}

/// Sets up the store when the application starts: loads the persisted
/// snapshot from what was found on disk and sweeps it.
///
/// A file whose text is no snapshot leaves the store at the empty snapshot,
/// and is set aside. Nothing is written back then.
pub fn initialize_app_state(file: SessionsFile, current_time: i64) -> (r: Startup)
    requires
        file matches SessionsFile::Present { content, parsed } ==> (parsed matches Ok(s)
            ==> s.wf()),
    ensures
        r.state.wf(),
        exists|loaded: Loaded|
            load_result(file, loaded) && #[trigger] started_from(loaded, current_time, r),
        file matches SessionsFile::Present { content, parsed } ==> (trimmed(content@).len() != 0
            && parsed is Err ==> r.state@ == empty_snapshot() && r.quarantine && !r.persist
            && r.removed == 0 && r.warning == Some(parsed->Err_0)),
        file is Absent ==> r.state@ == empty_snapshot() && !r.quarantine && !r.persist
            && r.warning.is_none(),
{
    let loaded = load_app_state(file);
    let r = start_from(loaded, current_time);
    proof {
        if loaded.state is Ok && loaded.state->Ok_0@ == empty_snapshot() {
            let s = loaded.state->Ok_0;
            assert(s@.tasks.restrict(survivors(s@.tasks, current_time, startup_policy()))
                =~= s@.tasks);
            lemma_as_map_len(seq_view(r.state.tasks@));
            lemma_as_map_len(seq_view(s.tasks@));
        }
    }
    r
}

} // verus!
