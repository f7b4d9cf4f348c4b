use topmost::enumerate::ProbedWindow;
use topmost::enumerate::WindowEntry;
use topmost::ids::MENU_ID_BASE;
use topmost::ids::MENU_ID_EXIT;
use topmost::menu::MenuHostCall;
use topmost::menu::MenuItem;
use topmost::menu::Selection;
use topmost::menu::build_menu;
use topmost::menu::decode_menu_id;
use topmost::menu::menu_session_calls;
use topmost::menu::open_menu_session;

fn utf16(s: &str) -> Vec<u16> {
    s.encode_utf16().collect()
}

fn entry(handle: u64, title: &str) -> WindowEntry {
    WindowEntry { handle, title: utf16(title) }
}

#[test]
fn menu_of_three_windows() {
    let snap = vec![entry(11, "Alpha"), entry(22, "Beta"), entry(33, "Gamma")];
    let menu = build_menu(&snap);
    assert_eq!(
        menu,
        vec![
            MenuItem::Entry { id: MENU_ID_BASE, title: utf16("Alpha") },
            MenuItem::Entry { id: MENU_ID_BASE + 1, title: utf16("Beta") },
            MenuItem::Entry { id: MENU_ID_BASE + 2, title: utf16("Gamma") },
            MenuItem::Separator,
            MenuItem::Entry { id: MENU_ID_EXIT, title: utf16("Exit") },
        ]
    );
}

#[test]
fn empty_menu_shows_only_exit() {
    let menu = build_menu(&Vec::new());
    assert_eq!(
        menu,
        vec![
            MenuItem::Separator,
            MenuItem::Entry { id: MENU_ID_EXIT, title: utf16("Exit") },
        ]
    );
}

#[test]
fn identifiers_decode_back_to_indices() {
    for i in 0..5u32 {
        assert_eq!(
            decode_menu_id(MENU_ID_BASE + i),
            Selection::Window { index: i as usize }
        );
        assert_ne!(MENU_ID_BASE + i, MENU_ID_EXIT);
    }
    assert_eq!(decode_menu_id(MENU_ID_EXIT), Selection::Exit);
}

#[test]
fn unrelated_identifiers_decode_to_nothing() {
    assert_eq!(decode_menu_id(0), Selection::Unrelated);
    assert_eq!(decode_menu_id(0x8000), Selection::Unrelated);
    assert_eq!(decode_menu_id(0x4001), Selection::Unrelated);
    assert_eq!(decode_menu_id(0xBFFF), Selection::Unrelated);
}

#[test]
fn session_without_menu_resource_is_silent() {
    let snap = vec![entry(11, "Alpha")];
    let calls = menu_session_calls(false, &snap, 99, 10, 20);
    assert!(calls.is_empty());
}

#[test]
fn session_renders_raises_tracks_and_destroys() {
    let snap = vec![entry(11, "Alpha"), entry(22, "Beta")];
    let calls = menu_session_calls(true, &snap, 99, 10, 20);
    assert_eq!(
        calls,
        vec![
            MenuHostCall::AppendEntry { id: MENU_ID_BASE, title: utf16("Alpha") },
            MenuHostCall::AppendEntry { id: MENU_ID_BASE + 1, title: utf16("Beta") },
            MenuHostCall::AppendSeparator,
            MenuHostCall::AppendEntry { id: MENU_ID_EXIT, title: utf16("Exit") },
            MenuHostCall::RaiseOwner { owner: 99 },
            MenuHostCall::TrackAt { x: 10, y: 20 },
            MenuHostCall::DestroyMenu,
        ]
    );
}

#[test]
fn session_always_releases_the_menu() {
    let snap = vec![entry(11, "Alpha")];
    for created in [false, true] {
        let calls = menu_session_calls(created, &snap, 7, 0, 0);
        let destroys = calls
            .iter()
            .filter(|c| matches!(c, MenuHostCall::DestroyMenu))
            .count();
        let live: i64 = if created { 1 } else { 0 };
        assert_eq!(live - destroys as i64, 0);
    }
}

#[test]
fn open_menu_refreshes_snapshot_before_rendering() {
    let probed = vec![
        ProbedWindow { handle: 11, visible: true, live: true, title: utf16("Alpha") },
        ProbedWindow { handle: 12, visible: false, live: true, title: utf16("Hidden") },
        ProbedWindow { handle: 22, visible: true, live: true, title: utf16("Beta") },
    ];
    let (snap, calls) = open_menu_session(true, &probed, 99, 1, 2);
    assert_eq!(snap.len(), 2);
    assert_eq!(snap[0].handle, 11);
    assert_eq!(snap[1].handle, 22);
    assert_eq!(calls.len(), 7);
    assert_eq!(calls.last(), Some(&MenuHostCall::DestroyMenu));
}
