//! The requests of the user interface, as decisions: what each one changes
//! in the store and what the caller has to do next.

use crate::handlers::Effects;
use crate::keyed::lemma_as_map_index;
use crate::state::{AppState, AppStateView};
use crate::store::StoreError;
use crate::text::concat2;
use crate::types::{opt_view, seq_view, DebugData, SetupStatus, TaskView};
use vstd::prelude::*;
use vstd::string::*;

verus! {

/// A list of one string.
fn one_string(s: &str) -> (r: Vec<String>)
    ensures
        seq_view(r@) == seq![s@],
{
    let mut v: Vec<String> = Vec::new();
    v.push(s.to_string());
    assert(seq_view(v@) =~= seq![s@]);
    v
}

/// The program and the arguments that open a project in an editor: the
/// editor's command, with the project's path as its only argument.
pub fn get_ide_command_and_args(ide_cmd: &str, project_path: &str) -> (r: (String, Vec<String>))
    ensures
        r.0@ == ide_cmd@,
        seq_view(r.1@) == seq![project_path@],
{
    (ide_cmd.to_string(), one_string(project_path))
}

/// The message of a request that names a task which the store does not
/// have.
pub open spec fn task_not_found() -> Seq<char> {
    "Task not found"@
}

/// What a request of the user interface that changes one task returns:
/// the effects where the store has the task, and else the message that it
/// was not found, with the store unchanged.
pub open spec fn frontend_result(
    pre: AppState,
    task_id: Seq<char>,
    post: AppState,
    changed: AppStateView,
    tray: bool,
    r: Result<Effects, String>,
) -> bool {
    match r {
        Ok(effects) => {
            &&& pre@.tasks.dom().contains(task_id)
            &&& post@ == changed
            &&& effects.emit_tasks_updated && effects.persist
            &&& effects.refresh_tray == tray
            &&& effects.notification.is_none()
        },
        Err(message) => {
            &&& !pre@.tasks.dom().contains(task_id)
            &&& post == pre
            &&& message@ == task_not_found()
        },
    }
}

fn frontend_effects(outcome: Result<(), StoreError>, tray: bool) -> (r: Result<Effects, String>)
    ensures
        match r {
            Ok(effects) => outcome.is_ok() && effects.emit_tasks_updated && effects.persist
                && effects.refresh_tray == tray && effects.notification.is_none(),
            Err(message) => outcome.is_err() && message@ == task_not_found(),
        },
{
    match outcome {
        Ok(()) => Ok(
            Effects {
                emit_tasks_updated: true,
                notification: None,
                refresh_tray: tray,
                persist: true,
            },
        ),
        Err(StoreError::NotFound) => Err("Task not found".to_string()),
    }
}

/// Sets the state and the details of a task at the user's request. The
/// snapshot is pushed to the user interface and written to disk.
pub fn frontend_update_task_state(
    app_state: &mut AppState,
    task_id: String,
    state: String,
    details: Option<String>,
    now: i64,
) -> (r: Result<Effects, String>)
    requires
        old(app_state).wf(),
    ensures
        final(app_state).wf(),
        frontend_result(
            *old(app_state),
            task_id@,
            *final(app_state),
            AppStateView {
                tasks: old(app_state)@.tasks.insert(
                    task_id@,
                    TaskView {
                        state: state@,
                        details: opt_view(details),
                        updated_at: now,
                        ..old(app_state)@.tasks[task_id@]
                    },
                ),
                updated_at: now,
                ..old(app_state)@
            },
            false,
            r,
        ),
{
    let outcome = app_state.set_state(task_id.as_str(), state, details, now);
    frontend_effects(outcome, false)
}

/// Puts a task into the state `DONE` at the user's request. The snapshot is
/// pushed to the user interface, the tray is rebuilt and the snapshot is
/// written to disk.
pub fn frontend_mark_task_done(
    app_state: &mut AppState,
    task_id: String,
    details: Option<String>,
    now: i64,
) -> (r: Result<Effects, String>)
    requires
        old(app_state).wf(),
    ensures
        final(app_state).wf(),
        frontend_result(
            *old(app_state),
            task_id@,
            *final(app_state),
            AppStateView {
                tasks: old(app_state)@.tasks.insert(
                    task_id@,
                    TaskView {
                        state: "DONE"@,
                        details: opt_view(details),
                        updated_at: now,
                        ..old(app_state)@.tasks[task_id@]
                    },
                ),
                updated_at: now,
                ..old(app_state)@
            },
            true,
            r,
        ),
{
    let outcome = app_state.mark_done(task_id.as_str(), details, now);
    frontend_effects(outcome, true)
}

/// Removes a task at the user's request. The snapshot is pushed to the user
/// interface, the tray is rebuilt and the snapshot is written to disk.
pub fn frontend_delete_task(app_state: &mut AppState, task_id: String, now: i64) -> (r: Result<
    Effects,
    String,
>)
    requires
        old(app_state).wf(),
    ensures
        final(app_state).wf(),
        frontend_result(
            *old(app_state),
            task_id@,
            *final(app_state),
            AppStateView {
                tasks: old(app_state)@.tasks.remove(task_id@),
                updated_at: now,
                ..old(app_state)@
            },
            true,
            r,
        ),
{
    let outcome = app_state.delete(task_id.as_str(), now);
    frontend_effects(outcome, true)
}

/// Pins or unpins a task at the user's request. The snapshot is pushed to
/// the user interface and written to disk.
pub fn frontend_toggle_task_pin(
    app_state: &mut AppState,
    task_id: String,
    pinned: bool,
    now: i64,
) -> (r: Result<Effects, String>)
    requires
        old(app_state).wf(),
    ensures
        final(app_state).wf(),
        frontend_result(
            *old(app_state),
            task_id@,
            *final(app_state),
            AppStateView {
                tasks: old(app_state)@.tasks.insert(
                    task_id@,
                    TaskView { pinned, updated_at: now, ..old(app_state)@.tasks[task_id@] },
                ),
                updated_at: now,
                ..old(app_state)@
            },
            false,
            r,
        ),
{
    let outcome = app_state.set_pinned(task_id.as_str(), pinned, now);
    frontend_effects(outcome, false)
}

/// The snapshot, for the user interface.
pub fn get_tasks(app_state: &AppState) -> (r: AppState)
    ensures
        r@ == app_state@,
        app_state.wf() ==> r.wf(),
{
    app_state.snapshot()
}

/// The first-launch and installation flags, for the user interface.
pub fn get_setup_status_cmd(setup_completed: bool, cli_installed: bool) -> (r: SetupStatus)
    ensures
        r == (SetupStatus { is_first_launch: !setup_completed, cli_installed, setup_completed }),
{
    SetupStatus { is_first_launch: !setup_completed, cli_installed, setup_completed }
}

/// The longest silence, in seconds, after which the external reporter still
/// counts as connected.
pub const PING_WINDOW_SECONDS: i64 = 30;

/// Whether the external reporter is connected.
#[derive(Clone, Copy, Debug, PartialEq, Eq, Structural)]
pub struct Connectivity {
    pub connected: bool,
    pub last_ping: Option<i64>,
    pub current_time: i64,
}

/// Whether the external reporter is connected: it is where it was heard
/// from, and no more than the ping window has passed since.
pub fn get_cli_connectivity(app_state: &AppState, current_time: i64) -> (r: Connectivity)
    ensures
        r.last_ping == app_state.last_cli_ping,
        r.current_time == current_time,
        r.connected == match app_state.last_cli_ping {
            Some(last) => current_time - last <= PING_WINDOW_SECONDS,
            None => false,
        },
{
    let connected = match app_state.last_cli_ping {
        Some(last) => current_time as i128 - last as i128 <= PING_WINDOW_SECONDS as i128,
        None => false,
    };
    Connectivity { connected, last_ping: app_state.last_cli_ping, current_time }
}

/// The diagnostic traces that the user interface asked for.
#[derive(Debug)]
pub enum DebugSelection {
    /// The trace of the task that was asked for, if the store has one.
    One(Option<DebugData>),
    /// All traces of the store.
    All(Vec<DebugData>),
}

/// The trace of one task where a task is named, and all traces else.
pub fn frontend_get_debug_data(app_state: &AppState, task_id: Option<String>) -> (r: DebugSelection)
    requires
        app_state.wf(),
    ensures
        match task_id {
            Some(id) => r matches DebugSelection::One(found) && match found {
                Some(trace) => app_state@.debug_data.dom().contains(id@) && trace@
                    == app_state@.debug_data[id@],
                None => !app_state@.debug_data.dom().contains(id@),
            },
            None => r matches DebugSelection::All(traces) && seq_view(traces@) == seq_view(
                app_state.debug_data@,
            ),
        },
{
    match task_id {
        Some(id) => match app_state.find_debug_data(id.as_str()) {
            Some(i) => {
                proof {
                    lemma_as_map_index(seq_view(app_state.debug_data@), i as int);
                    assert(seq_view(app_state.debug_data@)[i as int]
                        == app_state.debug_data@[i as int]@);
                }
                DebugSelection::One(Some(app_state.debug_data[i].clone()))
            },
            None => DebugSelection::One(None),
        },
        None => {
            let mut traces: Vec<DebugData> = Vec::new();
            let mut i: usize = 0;
            while i < app_state.debug_data.len()
                invariant
                    0 <= i <= app_state.debug_data@.len(),
                    traces@.len() == i,
                    forall|k: int| 0 <= k < i ==> traces@[k]@ == app_state.debug_data@[k]@,
                decreases app_state.debug_data@.len() - i,
            {
                traces.push(app_state.debug_data[i].clone());
                i += 1;
            }
            assert(seq_view(traces@) =~= seq_view(app_state.debug_data@));
            DebugSelection::All(traces)
        },
    }
}

/// One attempt to open a project: a program, its arguments, and the
/// directories in which the program is looked for.
#[derive(Debug)]
pub struct LaunchCommand {
    pub program: String,
    pub args: Vec<String>,
    pub search_path: String,
}

/// An attempt with its strings read as sequences of characters.
pub struct LaunchCommandView {
    pub program: Seq<char>,
    pub args: Seq<Seq<char>>,
    pub search_path: Seq<char>,
}

impl View for LaunchCommand {
    type V = LaunchCommandView;

    open spec fn view(&self) -> LaunchCommandView {
        LaunchCommandView {
            program: self.program@,
            args: seq_view(self.args@),
            search_path: self.search_path@,
        }
    }
}

/// The directories in which an editor's command is looked for.
pub open spec fn ide_search_path() -> Seq<char> {
    "/usr/local/bin:/opt/homebrew/bin:/usr/bin:/bin:/Applications/Visual Studio Code.app/Contents/Resources/app/bin:/Applications/Cursor.app/Contents/Resources/app/bin"@
}

/// The directories in which the system's opener is looked for.
pub open spec fn system_search_path() -> Seq<char> {
    "/usr/local/bin:/opt/homebrew/bin:/usr/bin:/bin"@
}

/// The attempt that hands the project's directory to the system's opener.
pub open spec fn open_directory(project_path: Seq<char>) -> LaunchCommandView {
    LaunchCommandView {
        program: "open"@,
        args: seq![project_path],
        search_path: system_search_path(),
    }
}

/// The attempts to open a project, in the order in which they are made
/// until one succeeds. With an editor named: the editor's own command, then
/// the system's opener with the editor as the application, then the
/// system's opener on the directory. Without one: the last of these alone.
pub open spec fn launch_plan(project_path: Seq<char>, ide: Option<Seq<char>>) -> Seq<
    LaunchCommandView,
> {
    if ide.is_some() && ide.unwrap().len() > 0 {
        let command = ide.unwrap();
        seq![
            LaunchCommandView {
                program: command,
                args: seq![project_path],
                search_path: ide_search_path(),
            },
            LaunchCommandView {
                program: "open"@,
                args: seq!["-a"@, command, project_path],
                search_path: system_search_path(),
            },
            open_directory(project_path),
        ]
    } else {
        seq![open_directory(project_path)]
    }
}

fn open_directory_command(project_path: &str) -> (r: LaunchCommand)
    ensures
        r@ == open_directory(project_path@),
{
    LaunchCommand {
        program: "open".to_string(),
        args: one_string(project_path),
        search_path: "/usr/local/bin:/opt/homebrew/bin:/usr/bin:/bin".to_string(),
    }
}

/// Plans how a project is opened. The caller makes the attempts in order
/// and stops at the first that succeeds.
pub fn open_ide_and_terminal(project_path: &str, ide: &Option<String>) -> (r: Vec<LaunchCommand>)
    ensures
        seq_view(r@) == launch_plan(project_path@, opt_view(*ide)),
{
    let mut plan: Vec<LaunchCommand> = Vec::new();
    match ide {
        Some(command) => {
            if !command.as_str().is_empty() {
                let (program, args) = get_ide_command_and_args(command.as_str(), project_path);
                plan.push(
                    LaunchCommand {
                        program,
                        args,
                        search_path: "/usr/local/bin:/opt/homebrew/bin:/usr/bin:/bin:/Applications/Visual Studio Code.app/Contents/Resources/app/bin:/Applications/Cursor.app/Contents/Resources/app/bin".to_string(),
                    },
                );
                let mut args: Vec<String> = Vec::new();
                args.push("-a".to_string());
                args.push(command.clone());
                args.push(project_path.to_string());
                assert(seq_view(args@) =~= seq!["-a"@, command@, project_path@]);
                plan.push(
                    LaunchCommand {
                        program: "open".to_string(),
                        args,
                        search_path: "/usr/local/bin:/opt/homebrew/bin:/usr/bin:/bin".to_string(),
                    },
                );
            }
        },
        None => {},
    }
    plan.push(open_directory_command(project_path));
    assert(seq_view(plan@) =~= launch_plan(project_path@, opt_view(*ide)));
    plan
}

/// The message for a project that the system's opener could not open,
/// where no editor was named.
pub fn directory_failure(error: &str) -> (r: String)
    ensures
        r@ == "Failed to open project directory: "@ + error@,
{
    concat2("Failed to open project directory: ", error)
}

/// The message for a project that none of the three attempts could open.
pub fn chain_failure(command: &str, first: &str, second: &str, third: &str) -> (r: String)
    ensures
        r@ == "All methods failed to open project:\n1. IDE command '"@ + command@ + "': "@
            + first@ + "\n2. 'open -a' fallback: "@ + second@ + "\n3. Directory fallback: "@
            + third@,
{
    let mut s = concat2("All methods failed to open project:\n1. IDE command '", command);
    s.append("': ");
    s.append(first);
    s.append("\n2. 'open -a' fallback: ");
    s.append(second);
    s.append("\n3. Directory fallback: ");
    s.append(third);
    s
}

} // verus!
