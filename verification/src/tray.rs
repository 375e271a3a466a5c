//! The tray: the menu that lists the active sessions, what a click on an
//! entry asks for, and the icon that shows the aggregate status.

use crate::keyed::{lemma_as_map_absent, lemma_as_map_index, Keyed};
use crate::state::{AppState, AppStateView};
use crate::text::{concat2, str_eq};
use crate::types::{seq_view, ProjectView, TaskView};
use vstd::prelude::*;
use vstd::string::*;

verus! {

/// One line of the tray menu.
#[derive(Debug)]
pub enum TrayEntry {
    /// An entry that can be clicked unless it is disabled.
    Item { id: String, text: String, enabled: bool },
    /// A line between two groups of entries.
    Separator,
}

/// A line of the menu with its strings read as sequences of characters.
pub enum TrayEntryView {
    Item { id: Seq<char>, text: Seq<char>, enabled: bool },
    Separator,
}

impl View for TrayEntry {
    type V = TrayEntryView;

    open spec fn view(&self) -> TrayEntryView {
        match *self {
            TrayEntry::Item { id, text, enabled } => TrayEntryView::Item {
                id: id@,
                text: text@,
                enabled,
            },
            TrayEntry::Separator => TrayEntryView::Separator,
        }
    }
}

/// The mark that stands for a state in the menu: a yellow circle for
/// `PENDING`, a blue one for `WORKING`, a red one for `ERROR`, a black one
/// for `IDLE` and a white one for any other state.
pub open spec fn status_icon_of(state: Seq<char>) -> Seq<char> {
    if state == "PENDING"@ {
        "\u{1F7E1}"@
    } else if state == "WORKING"@ {
        "\u{1F535}"@
    } else if state == "ERROR"@ {
        "\u{1F534}"@
    } else if state == "IDLE"@ {
        "\u{26AB}"@
    } else {
        "\u{26AA}"@
    }
}

/// The mark that stands for a state in the menu.
pub fn status_icon(state: &str) -> (r: &'static str)
    ensures
        r@ == status_icon_of(state@),
{
    if str_eq(state, "PENDING") {
        "\u{1F7E1}"
    } else if str_eq(state, "WORKING") {
        "\u{1F535}"
    } else if str_eq(state, "ERROR") {
        "\u{1F534}"
    } else if str_eq(state, "IDLE") {
        "\u{26AB}"
    } else {
        "\u{26AA}"
    }
}

/// The name under which a task's project is listed: the project's name, or
/// the project's id where the store does not have the project.
pub open spec fn listed_project(projects: Map<Seq<char>, ProjectView>, task: TaskView) -> Seq<char> {
    if projects.dom().contains(task.project_id) {
        projects[task.project_id].name
    } else {
        task.project_id
    }
}

/// The id of the menu entry of a task.
pub open spec fn session_entry_id(task_id: Seq<char>) -> Seq<char> {
    "session_"@ + task_id
}

/// The menu entry of a task.
pub open spec fn session_entry(projects: Map<Seq<char>, ProjectView>, task: TaskView) -> TrayEntryView {
    TrayEntryView::Item {
        id: session_entry_id(task.id),
        text: status_icon_of(task.state) + " "@ + listed_project(projects, task) + " - "@
            + task.agent + " - "@ + task.state,
        enabled: true,
    }
}

/// The menu entries of the tasks that are not `DONE`, in the order of the
/// tasks.
pub open spec fn session_entries(
    projects: Map<Seq<char>, ProjectView>,
    tasks: Seq<TaskView>,
) -> Seq<TrayEntryView>
    decreases tasks.len(),
{
    if tasks.len() == 0 {
        Seq::empty()
    } else {
        let before = session_entries(projects, tasks.drop_last());
        if tasks.last().state == "DONE"@ {
            before
        } else {
            before.push(session_entry(projects, tasks.last()))
        }
    }
}

/// The entries that close every menu.
pub open spec fn fixed_entries() -> Seq<TrayEntryView> {
    seq![
        TrayEntryView::Separator,
        TrayEntryView::Item { id: "show_window"@, text: "Show Tallr"@, enabled: true },
        TrayEntryView::Item { id: "quit"@, text: "Quit"@, enabled: true },
    ]
}

/// The tray menu: one entry for each task that is not `DONE`, or a disabled
/// entry that says that there is none, and then the fixed entries.
pub open spec fn tray_menu(
    projects: Map<Seq<char>, ProjectView>,
    tasks: Seq<TaskView>,
) -> Seq<TrayEntryView> {
    let sessions = session_entries(projects, tasks);
    if sessions.len() == 0 {
        seq![
            TrayEntryView::Item {
                id: "no_sessions"@,
                text: "No active sessions"@,
                enabled: false,
            },
        ] + fixed_entries()
    } else {
        sessions + fixed_entries()
    }
}

/// Builds the tray menu from the store.
pub fn build_tray_menu(state: &AppState) -> (r: Vec<TrayEntry>)
    requires
        state.wf(),
    ensures
        seq_view(r@) == tray_menu(state@.projects, seq_view(state.tasks@)),
{
    let ghost tasks = seq_view(state.tasks@);
    let ghost projects = state@.projects;
    let mut menu: Vec<TrayEntry> = Vec::new();
    let mut i: usize = 0;
    assert(tasks.subrange(0, 0) =~= Seq::<TaskView>::empty());
    while i < state.tasks.len()
        invariant
            state.wf(),
            tasks == seq_view(state.tasks@),
            projects == state@.projects,
            0 <= i <= state.tasks@.len(),
            seq_view(menu@) == session_entries(projects, tasks.subrange(0, i as int)),
        decreases state.tasks@.len() - i,
    {
        let task = &state.tasks[i];
        proof {
            let next = tasks.subrange(0, i as int + 1);
            assert(next.drop_last() =~= tasks.subrange(0, i as int));
            assert(next.last() == task@);
        }
        if !str_eq(task.state.as_str(), "DONE") {
            let name = match state.get_project(task.project_id.as_str()) {
                Some(project) => project.name,
                None => task.project_id.clone(),
            };
            let mut text = concat2(status_icon(task.state.as_str()), " ");
            text.append(name.as_str());
            text.append(" - ");
            text.append(task.agent.as_str());
            text.append(" - ");
            text.append(task.state.as_str());
            let entry = TrayEntry::Item {
                id: concat2("session_", task.id.as_str()),
                text,
                enabled: true,
            };
            assert(entry@ == session_entry(projects, task@));
            let ghost before = seq_view(menu@);
            menu.push(entry);
            assert(seq_view(menu@) =~= before.push(entry@));
        }
        i += 1;
    }
    assert(tasks.subrange(0, i as int) =~= tasks);
    let ghost sessions = seq_view(menu@);
    if menu.len() == 0 {
        menu.push(
            TrayEntry::Item {
                id: "no_sessions".to_string(),
                text: "No active sessions".to_string(),
                enabled: false,
            },
        );
    }
    let ghost head = seq_view(menu@);
    menu.push(TrayEntry::Separator);
    menu.push(
        TrayEntry::Item {
            id: "show_window".to_string(),
            text: "Show Tallr".to_string(),
            enabled: true,
        },
    );
    menu.push(
        TrayEntry::Item { id: "quit".to_string(), text: "Quit".to_string(), enabled: true },
    );
    assert(seq_view(menu@) =~= head + fixed_entries());
    menu
}

/// What a click on a menu entry asks for.
#[derive(Debug)]
pub enum TrayAction {
    /// Show the main window and give it the focus.
    ShowWindow,
    /// Leave the application.
    Quit,
    /// Open the project of a session in its preferred editor.
    OpenProject { project_path: String, preferred_ide: String, project_name: String },
    /// Nothing.
    Nothing,
}

/// Whether `text` starts with `prefix`.
pub open spec fn starts_with(text: Seq<char>, prefix: Seq<char>) -> bool {
    prefix.len() <= text.len() && text.subrange(0, prefix.len() as int) == prefix
}

/// What a click on the entry `menu_id` asks for.
///
/// The entry of a session opens the session's project, where the store has
/// the session and its project; the entry of a session that is gone does
/// nothing, and neither does an entry that is not known.
pub open spec fn tray_action(s: AppStateView, menu_id: Seq<char>, r: TrayAction) -> bool {
    if menu_id == "show_window"@ {
        r is ShowWindow
    } else if menu_id == "quit"@ {
        r is Quit
    } else if starts_with(menu_id, "session_"@) {
        let task_id = menu_id.skip("session_"@.len() as int);
        if s.tasks.dom().contains(task_id) && s.projects.dom().contains(
            s.tasks[task_id].project_id,
        ) {
            let project = s.projects[s.tasks[task_id].project_id];
            r matches TrayAction::OpenProject { project_path, preferred_ide, project_name }
                && project_path@ == project.repo_path && preferred_ide@ == project.preferred_ide
                && project_name@ == project.name
        } else {
            r is Nothing
        }
    } else {
        r is Nothing
    }
}

/// `text` is `prefix` followed by `rest` exactly when it starts with
/// `prefix` and `rest` is what follows.
pub proof fn lemma_prefix_split(text: Seq<char>, prefix: Seq<char>, rest: Seq<char>)
    ensures
        (text == prefix + rest) <==> (starts_with(text, prefix) && text.skip(prefix.len() as int)
            == rest),
{
    if text == prefix + rest {
        assert(text.subrange(0, prefix.len() as int) =~= prefix);
        assert(text.skip(prefix.len() as int) =~= rest);
    }
    if starts_with(text, prefix) && text.skip(prefix.len() as int) == rest {
        assert(text =~= prefix + rest);
    }
}

/// Whether `text` starts with `prefix`.
pub fn has_prefix(text: &str, prefix: &str) -> (r: bool)
    ensures
        r == starts_with(text@, prefix@),
{
    let n = prefix.unicode_len();
    if text.unicode_len() < n {
        return false;
    }
    let head = text.substring_char(0, n);
    str_eq(head, prefix)
}

/// Decides what a click on a menu entry asks for.
pub fn handle_tray_menu_event(state: &AppState, menu_id: &str) -> (r: TrayAction)
    requires
        state.wf(),
    ensures
        tray_action(state@, menu_id@, r),
{
    if str_eq(menu_id, "show_window") {
        return TrayAction::ShowWindow;
    }
    if str_eq(menu_id, "quit") {
        return TrayAction::Quit;
    }
    if !has_prefix(menu_id, "session_") {
        return TrayAction::Nothing;
    }
    let ghost wanted = menu_id@.skip("session_"@.len() as int);
    let ghost tasks = seq_view(state.tasks@);
    let mut i: usize = 0;
    while i < state.tasks.len()
        invariant
            state.wf(),
            tasks == seq_view(state.tasks@),
            wanted == menu_id@.skip("session_"@.len() as int),
            starts_with(menu_id@, "session_"@),
            menu_id@ != "show_window"@,
            menu_id@ != "quit"@,
            0 <= i <= state.tasks@.len(),
            forall|k: int| 0 <= k < i ==> (#[trigger] tasks[k]).key() != wanted,
        decreases state.tasks@.len() - i,
    {
        let task = &state.tasks[i];
        let entry_id = concat2("session_", task.id.as_str());
        proof {
            lemma_prefix_split(menu_id@, "session_"@, task.id@);
            assert(tasks[i as int] == task@);
        }
        if str_eq(entry_id.as_str(), menu_id) {
            proof {
                lemma_as_map_index(tasks, i as int);
            }
            return match state.get_project(task.project_id.as_str()) {
                Some(project) => TrayAction::OpenProject {
                    project_path: project.repo_path,
                    preferred_ide: project.preferred_ide,
                    project_name: project.name,
                },
                None => TrayAction::Nothing,
            };
        }
        i += 1;
    }
    proof {
        lemma_as_map_absent(tasks, wanted);
    }
    TrayAction::Nothing
}

/// The icons of the tray.
#[derive(Clone, Copy, Debug, PartialEq, Eq, Structural)]
pub enum TrayIcon {
    Default,
    Working,
    Pending,
    Error,
}

/// The icon that shows an aggregate status: its own for `PENDING`, `ERROR`
/// and `WORKING`, and the default one for any other.
pub open spec fn tray_icon_of(state: Seq<char>) -> TrayIcon {
    if state == "PENDING"@ {
        TrayIcon::Pending
    } else if state == "ERROR"@ {
        TrayIcon::Error
    } else if state == "WORKING"@ {
        TrayIcon::Working
    } else {
        TrayIcon::Default
    }
}

/// The icon that shows an aggregate status.
pub fn tray_icon_for(state: &str) -> (r: TrayIcon)
    ensures
        r == tray_icon_of(state@),
{
    if str_eq(state, "PENDING") {
        TrayIcon::Pending
    } else if str_eq(state, "ERROR") {
        TrayIcon::Error
    } else if str_eq(state, "WORKING") {
        TrayIcon::Working
    } else {
        TrayIcon::Default
    }
}

/// The encoded images of the four icons.
#[derive(Clone, Debug)]
pub struct TrayIconFiles {
    pub default: Vec<u8>,
    pub working: Vec<u8>,
    pub pending: Vec<u8>,
    pub error: Vec<u8>,
}

/// A picture as rows of pixels, four bytes to the pixel: red, green, blue
/// and opacity.
#[derive(Clone, Debug)]
pub struct IconImage {
    pub rgba: Vec<u8>,
    pub width: u32,
    pub height: u32,
}

impl IconImage {
    /// Whether the buffer holds four bytes for each pixel of the picture.
    pub open spec fn covers(&self) -> bool {
        4 * self.width * self.height <= self.rgba@.len()
    }
}

/// The side of the picture that stands in where no icon can be decoded.
pub const BLANK_ICON_SIDE: u32 = 16;

/// A square picture of `BLANK_ICON_SIDE` pixels a side, all of them
/// transparent.
pub fn blank_icon() -> (r: IconImage)
    ensures
        r.width == BLANK_ICON_SIDE,
        r.height == BLANK_ICON_SIDE,
        r.rgba@ == Seq::new(4 * 16 * 16, |i: int| 0u8),
        r.covers(),
{
    let mut rgba: Vec<u8> = Vec::new();
    while rgba.len() < 1024
        invariant
            rgba@.len() <= 1024,
            forall|k: int| 0 <= k < rgba@.len() ==> rgba@[k] == 0u8,
        decreases 1024 - rgba@.len(),
    {
        rgba.push(0);
    }
    assert(rgba@ =~= Seq::new(4 * 16 * 16, |i: int| 0u8));
    IconImage { rgba, width: BLANK_ICON_SIDE, height: BLANK_ICON_SIDE }
}

/// The picture to show: the wanted one where it was decoded, else the
/// default one where that was decoded, else the blank picture. Its buffer
/// covers its size where the buffers of the decoded pictures do.
pub fn choose_icon(wanted: Option<IconImage>, default: Option<IconImage>) -> (r: IconImage)
    ensures
        match (wanted, default) {
            (Some(picture), _) => r == picture,
            (None, Some(picture)) => r == picture,
            (None, None) => r.width == BLANK_ICON_SIDE && r.height == BLANK_ICON_SIDE && r.rgba@
                == Seq::new(4 * 16 * 16, |i: int| 0u8),
        },
        (wanted matches Some(picture) ==> picture.covers()) && (default matches Some(picture)
            ==> picture.covers()) ==> r.covers(),
{
    match wanted {
        Some(picture) => picture,
        None => match default {
            Some(picture) => picture,
            None => blank_icon(),
        },
    }
}

/// The encoded image of the icon that shows an aggregate status.
pub fn icon_file<'a>(state: &str, files: &'a TrayIconFiles) -> (r: &'a Vec<u8>)
    ensures
        *r == match tray_icon_of(state@) {
            TrayIcon::Pending => files.pending,
            TrayIcon::Error => files.error,
            TrayIcon::Working => files.working,
            TrayIcon::Default => files.default,
        },
{
    match tray_icon_for(state) {
        TrayIcon::Pending => &files.pending,
        TrayIcon::Error => &files.error,
        TrayIcon::Working => &files.working,
        TrayIcon::Default => &files.default,
    }
}

/// What a picture holds: its buffer, its width and its height.
pub open spec fn picture_of(icon: IconImage) -> (Seq<u8>, u32, u32) {
    (icon.rgba@, icon.width, icon.height)
}

/// The blank picture: `BLANK_ICON_SIDE` transparent pixels a side.
pub open spec fn blank_picture() -> (Seq<u8>, u32, u32) {
    (Seq::new(4 * 16 * 16, |i: int| 0u8), BLANK_ICON_SIDE, BLANK_ICON_SIDE)
}

/// The encoded image of the icon that shows an aggregate status.
pub open spec fn icon_file_of(state: Seq<char>, files: TrayIconFiles) -> Seq<u8> {
    match tray_icon_of(state) {
        TrayIcon::Pending => files.pending@,
        TrayIcon::Error => files.error@,
        TrayIcon::Working => files.working@,
        TrayIcon::Default => files.default@,
    }
}

/// The picture that is shown for an encoded icon: the picture that it
/// decodes to, else the picture that the default icon decodes to, else the
/// blank picture.
pub open spec fn shown_picture(wanted: Seq<u8>, default: Seq<u8>) -> (Seq<u8>, u32, u32) {
    match decoded_icon(wanted) {
        Some(picture) => picture,
        None => match decoded_icon(default) {
            Some(picture) => picture,
            None => blank_picture(),
        },
    }
}

/// Decodes the icon that shows an aggregate status. The file that
/// `icon_file` picks for the status is decoded first; where it cannot be
/// decoded, the default file is; and where that cannot be decoded either,
/// the blank picture is shown.
///
/// The picture that is shown has a buffer that covers its width and
/// height.
pub fn load_tray_icon(state: &str, files: &TrayIconFiles) -> (r: IconImage)
    ensures
        picture_of(r) == shown_picture(icon_file_of(state@, *files), files.default@),
        r.covers(),
{
    let wanted = decode_icon(icon_file(state, files).as_slice());
    let default = if wanted.is_none() {
        decode_icon(files.default.as_slice())
    } else {
        None
    };
    choose_icon(wanted, default)
}

/// The picture that a PNG image decodes to, as rows of pixels of four bytes
/// each with its width and its height, and nothing for bytes that are no
/// PNG image.
pub uninterp spec fn decoded_icon(encoded: Seq<u8>) -> Option<(Seq<u8>, u32, u32)>;

/// The picture that an encoded PNG image holds, if it can be decoded.
///
/// Trusted: calls `image::load_from_memory_with_format` for the PNG format,
/// and reads the pixels and the size of what it returns with `to_rgba8`,
/// `into_raw` and `dimensions`. Decoding in a given format reads nothing
/// but the bytes, so the contract gives its result the name
/// `decoded_icon`. It also claims that the buffer holds four bytes for each
/// pixel of the picture: `image` makes no buffer that is too small for its
/// size.
#[verifier::external_body]
fn decode_icon(encoded: &[u8]) -> (r: Option<IconImage>)
    ensures
        match r {
            Some(picture) => picture.covers() && decoded_icon(encoded@) == Some(
                picture_of(picture),
            ),
            None => decoded_icon(encoded@).is_none(),
        },
{
    match image::load_from_memory_with_format(encoded, image::ImageFormat::Png) {
        Ok(picture) => {
            let (width, height) = image::GenericImageView::dimensions(&picture);
            Some(IconImage { rgba: picture.to_rgba8().into_raw(), width, height })
        },
        Err(_) => None,
    }
}

} // verus!
