use topmost::enumerate::ProbedWindow;
use topmost::enumerate::accept_window;
use topmost::enumerate::copy_units;
use topmost::enumerate::snapshot_windows;

fn utf16(s: &str) -> Vec<u16> {
    s.encode_utf16().collect()
}

fn probed(handle: u64, visible: bool, live: bool, title: &str) -> ProbedWindow {
    ProbedWindow { handle, visible, live, title: utf16(title) }
}

#[test]
fn accepts_only_visible_live_titled() {
    assert!(accept_window(&probed(1, true, true, "Alpha")));
    assert!(!accept_window(&probed(2, false, true, "Hidden")));
    assert!(!accept_window(&probed(3, true, false, "Dead")));
    assert!(!accept_window(&probed(4, true, true, "")));
}

#[test]
fn snapshot_keeps_order_and_filters() {
    let ws = vec![
        probed(11, true, true, "Alpha"),
        probed(12, false, true, "Hidden"),
        probed(13, true, true, ""),
        probed(14, true, false, "Dead"),
        probed(15, true, true, "Gamma"),
    ];
    let snap = snapshot_windows(&ws);
    assert_eq!(snap.len(), 2);
    assert_eq!(snap[0].handle, 11);
    assert_eq!(snap[0].title, utf16("Alpha"));
    assert_eq!(snap[1].handle, 15);
    assert_eq!(snap[1].title, utf16("Gamma"));
}

#[test]
fn snapshot_of_nothing_is_empty() {
    let snap = snapshot_windows(&Vec::new());
    assert!(snap.is_empty());
}

#[test]
fn snapshot_titles_never_empty() {
    let ws = vec![
        probed(1, true, true, ""),
        probed(2, true, true, "B"),
        probed(3, false, false, ""),
    ];
    let snap = snapshot_windows(&ws);
    assert_eq!(snap.len(), 1);
    for e in &snap {
        assert!(e.title.len() >= 1);
    }
}

#[test]
fn copy_units_copies_exactly() {
    let v = utf16("Beta");
    let c = copy_units(&v);
    assert_eq!(c, v);
    assert_eq!(c, vec![0x42, 0x65, 0x74, 0x61]);
}
