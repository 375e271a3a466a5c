use tallr::state::{get_aggregate_state, AppState};
use tallr::tray::{
    blank_icon, build_tray_menu, choose_icon, handle_tray_menu_event, has_prefix, icon_file,
    load_tray_icon, status_icon, tray_icon_for, IconImage, TrayAction, TrayEntry, TrayIcon,
    TrayIconFiles, BLANK_ICON_SIDE,
};
use tallr::types::{ProjectIn, TaskIn};

fn store() -> AppState {
    let mut s = AppState::default();
    let add = |s: &mut AppState, name: &str, path: &str, id: &str, state: &str, fresh: &str| {
        s.upsert(
            ProjectIn {
                name: name.to_string(),
                repo_path: path.to_string(),
                preferred_ide: Some("zed".to_string()),
                github_url: None,
            },
            TaskIn {
                id: id.to_string(),
                agent: "assistant".to_string(),
                title: "t".to_string(),
                state: state.to_string(),
                details: None,
                source: None,
            },
            1,
            fresh.to_string(),
        );
    };
    add(&mut s, "Alpha", "/repos/alpha", "t1", "PENDING", "p1");
    add(&mut s, "Beta", "/repos/beta", "t2", "DONE", "p2");
    add(&mut s, "Alpha", "/repos/alpha", "t3", "WORKING", "p3");
    add(&mut s, "Beta", "/repos/beta", "t4", "PAUSED", "p4");
    s
}

fn item(entry: &TrayEntry) -> (&str, &str, bool) {
    match entry {
        TrayEntry::Item { id, text, enabled } => (id.as_str(), text.as_str(), *enabled),
        TrayEntry::Separator => panic!("a separator"),
    }
}

// A picture of one red pixel, encoded as PNG.
fn red_pixel_png() -> Vec<u8> {
    vec![
        0x89, 0x50, 0x4E, 0x47, 0x0D, 0x0A, 0x1A, 0x0A, 0x00, 0x00, 0x00, 0x0D, 0x49, 0x48, 0x44,
        0x52, 0x00, 0x00, 0x00, 0x01, 0x00, 0x00, 0x00, 0x01, 0x08, 0x02, 0x00, 0x00, 0x00, 0x90,
        0x77, 0x53, 0xDE, 0x00, 0x00, 0x00, 0x0C, 0x49, 0x44, 0x41, 0x54, 0x78, 0x9C, 0x63, 0xF8,
        0xCF, 0xC0, 0x00, 0x00, 0x03, 0x01, 0x01, 0x00, 0xC9, 0xFE, 0x92, 0xEF, 0x00, 0x00, 0x00,
        0x00, 0x49, 0x45, 0x4E, 0x44, 0xAE, 0x42, 0x60, 0x82,
    ]
}

fn files(default: Vec<u8>, pending: Vec<u8>) -> TrayIconFiles {
    TrayIconFiles { default, working: b"working".to_vec(), pending, error: b"error".to_vec() }
}

#[test]
fn each_state_has_its_mark() {
    assert_eq!(status_icon("PENDING"), "\u{1F7E1}");
    assert_eq!(status_icon("WORKING"), "\u{1F535}");
    assert_eq!(status_icon("ERROR"), "\u{1F534}");
    assert_eq!(status_icon("IDLE"), "\u{26AB}");
    assert_eq!(status_icon("DONE"), "\u{26AA}");
    assert_eq!(status_icon("anything"), "\u{26AA}");
}

#[test]
fn the_menu_lists_the_tasks_that_are_not_done() {
    let menu = build_tray_menu(&store());
    assert_eq!(menu.len(), 6);
    assert_eq!(item(&menu[0]), ("session_t1", "\u{1F7E1} Alpha - assistant - PENDING", true));
    assert_eq!(item(&menu[1]), ("session_t3", "\u{1F535} Alpha - assistant - WORKING", true));
    assert_eq!(item(&menu[2]), ("session_t4", "\u{26AA} Beta - assistant - PAUSED", true));
    assert!(matches!(menu[3], TrayEntry::Separator));
    assert_eq!(item(&menu[4]), ("show_window", "Show Tallr", true));
    assert_eq!(item(&menu[5]), ("quit", "Quit", true));
}

#[test]
fn a_task_without_its_project_is_listed_under_the_project_id() {
    let mut s = store();
    s.projects.clear();
    let menu = build_tray_menu(&s);
    assert_eq!(item(&menu[0]), ("session_t1", "\u{1F7E1} p1 - assistant - PENDING", true));
}

#[test]
fn a_store_without_active_tasks_says_so() {
    for s in [AppState::default(), {
        let mut s = store();
        for id in ["t1", "t3", "t4"] {
            s.mark_done(id, None, 2).unwrap();
        }
        s
    }] {
        let menu = build_tray_menu(&s);
        assert_eq!(menu.len(), 4);
        assert_eq!(item(&menu[0]), ("no_sessions", "No active sessions", false));
        assert!(matches!(menu[1], TrayEntry::Separator));
        assert_eq!(item(&menu[2]), ("show_window", "Show Tallr", true));
        assert_eq!(item(&menu[3]), ("quit", "Quit", true));
    }
}

#[test]
fn the_fixed_entries_show_the_window_and_quit() {
    let s = store();
    assert!(matches!(handle_tray_menu_event(&s, "show_window"), TrayAction::ShowWindow));
    assert!(matches!(handle_tray_menu_event(&s, "quit"), TrayAction::Quit));
}

#[test]
fn a_session_entry_opens_the_project_of_the_session() {
    match handle_tray_menu_event(&store(), "session_t4") {
        TrayAction::OpenProject { project_path, preferred_ide, project_name } => {
            assert_eq!(project_path, "/repos/beta");
            assert_eq!(preferred_ide, "zed");
            assert_eq!(project_name, "Beta");
        }
        other => panic!("{other:?}"),
    }
    assert!(matches!(
        handle_tray_menu_event(&store(), "session_t2"),
        TrayAction::OpenProject { .. }
    ));
}

#[test]
fn other_entries_do_nothing() {
    let mut s = store();
    for id in ["", "no_sessions", "session_", "session_nope", "session_t1 ", "Session_t1", "t1", "quit "] {
        assert!(matches!(handle_tray_menu_event(&s, id), TrayAction::Nothing), "{id:?}");
    }
    s.projects.clear();
    assert!(matches!(handle_tray_menu_event(&s, "session_t1"), TrayAction::Nothing));
}

#[test]
fn prefixes_are_told_by_characters() {
    assert!(has_prefix("session_t1", "session_"));
    assert!(has_prefix("session_", "session_"));
    assert!(has_prefix("anything", ""));
    assert!(!has_prefix("session", "session_"));
    assert!(!has_prefix("Session_t1", "session_"));
    assert!(has_prefix("\u{e9}t\u{e9}", "\u{e9}t"));
    assert!(!has_prefix("\u{e9}t\u{e9}", "e"));
}

#[test]
fn each_aggregate_status_has_its_icon() {
    assert_eq!(tray_icon_for("PENDING"), TrayIcon::Pending);
    assert_eq!(tray_icon_for("ERROR"), TrayIcon::Error);
    assert_eq!(tray_icon_for("WORKING"), TrayIcon::Working);
    assert_eq!(tray_icon_for("IDLE"), TrayIcon::Default);
    assert_eq!(tray_icon_for("DONE"), TrayIcon::Default);
    assert_eq!(tray_icon_for(""), TrayIcon::Default);
    assert_eq!(tray_icon_for(get_aggregate_state(&store())), TrayIcon::Pending);
}

#[test]
fn the_icon_file_follows_the_status() {
    let f = files(b"default".to_vec(), b"pending".to_vec());
    assert_eq!(icon_file("PENDING", &f).as_slice(), b"pending");
    assert_eq!(icon_file("ERROR", &f).as_slice(), b"error");
    assert_eq!(icon_file("WORKING", &f).as_slice(), b"working");
    assert_eq!(icon_file("IDLE", &f).as_slice(), b"default");
    assert_eq!(icon_file("other", &f).as_slice(), b"default");
}

#[test]
fn the_blank_icon_is_sixteen_transparent_pixels_a_side() {
    let icon = blank_icon();
    assert_eq!(BLANK_ICON_SIDE, 16);
    assert_eq!((icon.width, icon.height), (16, 16));
    assert_eq!(icon.rgba, vec![0u8; 1024]);
}

#[test]
fn the_wanted_icon_comes_before_the_default_and_the_blank() {
    let a = IconImage { rgba: vec![1, 2, 3, 4], width: 1, height: 1 };
    let b = IconImage { rgba: vec![5, 6, 7, 8], width: 1, height: 1 };
    assert_eq!(choose_icon(Some(a.clone()), Some(b.clone())).rgba, vec![1, 2, 3, 4]);
    assert_eq!(choose_icon(Some(a), None).rgba, vec![1, 2, 3, 4]);
    assert_eq!(choose_icon(None, Some(b)).rgba, vec![5, 6, 7, 8]);
    let blank = choose_icon(None, None);
    assert_eq!((blank.width, blank.height, blank.rgba.len()), (16, 16, 1024));
}

#[test]
fn an_encoded_icon_is_decoded_to_its_pixels() {
    let icon = load_tray_icon("PENDING", &files(b"default".to_vec(), red_pixel_png()));
    assert_eq!((icon.width, icon.height), (1, 1));
    assert_eq!(icon.rgba, vec![255, 0, 0, 255]);
}

#[test]
fn an_icon_that_cannot_be_decoded_falls_back_to_the_default() {
    let icon = load_tray_icon("PENDING", &files(red_pixel_png(), b"not a picture".to_vec()));
    assert_eq!((icon.width, icon.height), (1, 1));
    assert_eq!(icon.rgba, vec![255, 0, 0, 255]);
    let icon = load_tray_icon("ERROR", &files(red_pixel_png(), Vec::new()));
    assert_eq!(icon.rgba, vec![255, 0, 0, 255]);
}

#[test]
fn without_any_decodable_icon_the_blank_one_is_shown() {
    let icon = load_tray_icon("WORKING", &files(b"broken".to_vec(), Vec::new()));
    assert_eq!((icon.width, icon.height), (16, 16));
    assert_eq!(icon.rgba, vec![0u8; 1024]);
}

#[test]
fn a_shown_icon_has_four_bytes_for_each_pixel() {
    let covers = |icon: &IconImage| {
        4 * icon.width as usize * icon.height as usize <= icon.rgba.len()
    };
    for state in ["PENDING", "ERROR", "WORKING", "IDLE", "other"] {
        assert!(covers(&load_tray_icon(state, &files(red_pixel_png(), red_pixel_png()))));
        assert!(covers(&load_tray_icon(state, &files(red_pixel_png(), b"broken".to_vec()))));
        assert!(covers(&load_tray_icon(state, &files(Vec::new(), Vec::new()))));
    }
    assert!(covers(&blank_icon()));
}

#[test]
fn only_png_images_are_decoded() {
    // The first bytes of a GIF image: no PNG image, so the default is shown.
    let gif = b"GIF89a\x01\x00\x01\x00\x00\x00\x00;".to_vec();
    let icon = load_tray_icon("PENDING", &files(red_pixel_png(), gif));
    assert_eq!((icon.width, icon.height), (1, 1));
    assert_eq!(icon.rgba, vec![255, 0, 0, 255]);
    // A PNG image that breaks off: no picture either.
    let mut cut = red_pixel_png();
    cut.truncate(40);
    let icon = load_tray_icon("PENDING", &files(Vec::new(), cut));
    assert_eq!((icon.width, icon.height), (16, 16));
    assert_eq!(icon.rgba, vec![0u8; 1024]);
}
