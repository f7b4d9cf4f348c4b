//! The window enumerator: one pass over every top-level window the host
//! reports, keeping those that are visible, still live, and titled.
//!
//! The host's enumeration callback hands this module one [`ProbedWindow`]
//! per window, in the host's own order; the snapshot it produces is the
//! ordered list the menu is later built from.

use vstd::prelude::*;

verus! {

/// What the host reports for one top-level window when it is probed during
/// an enumeration pass: its handle, whether it is currently visible,
/// whether the handle still names a live window, and its title text as
/// UTF-16 code units (without a terminator).
#[derive(Debug)]
pub struct ProbedWindow {
    pub handle: u64,
    pub visible: bool,
    pub live: bool,
    pub title: Vec<u16>,
}

/// One entry of an enumeration snapshot: a window that passed every filter,
/// with the title under which the menu will list it.
#[derive(Debug, PartialEq, Eq)]
pub struct WindowEntry {
    pub handle: u64,
    pub title: Vec<u16>,
}

/// The mathematical model of one snapshot entry: its handle and title text.
pub open spec fn entry_model(e: WindowEntry) -> (u64, Seq<u16>) {
    (e.handle, e.title@)
}

/// The model of a whole snapshot, in order.
pub open spec fn entries_model(s: Seq<WindowEntry>) -> Seq<(u64, Seq<u16>)> {
    s.map_values(|e: WindowEntry| entry_model(e))
}

/// The filter: a probed window is kept exactly when it is visible, its
/// handle is still live, and its title is non-empty.
pub open spec fn keeps(w: ProbedWindow) -> bool {
    w.visible && w.live && w.title@.len() >= 1
}

/// The snapshot an enumeration pass over `ws` yields: the kept windows, in
/// enumeration order, each reduced to its handle and title.
pub open spec fn snapshot_model(ws: Seq<ProbedWindow>) -> Seq<(u64, Seq<u16>)>
    decreases ws.len(),
{
    if ws.len() == 0 {
        Seq::empty()
    } else if keeps(ws.last()) {
        snapshot_model(ws.drop_last()).push((ws.last().handle, ws.last().title@))
    } else {
        snapshot_model(ws.drop_last())
    }
}

/// Copies a title's code units into a fresh vector.
pub fn copy_units(v: &Vec<u16>) -> (r: Vec<u16>)
    ensures
        r@ == v@,
{
    let mut r: Vec<u16> = Vec::new();
    let mut i: usize = 0;
    while i < v.len()
        invariant
            i <= v.len(),
            r@ =~= v@.take(i as int),
        decreases v.len() - i,
    {
        r.push(v[i]);
        proof {
            assert(r@ =~= v@.take(i + 1 as int));
        }
        i = i + 1;
    }
    proof {
        assert(v@.take(v@.len() as int) =~= v@);
    }
    r
}

/// Decides whether one probed window belongs in the snapshot; this is the
/// judgement the enumeration callback makes per window.
pub fn accept_window(w: &ProbedWindow) -> (r: bool)
    ensures
        r == keeps(*w),
{
    w.visible && w.live && w.title.len() >= 1
}

/// Runs the filter over a whole enumeration pass and returns the snapshot.
/// No windows matching is not an error: the snapshot is then empty.
pub fn snapshot_windows(ws: &Vec<ProbedWindow>) -> (out: Vec<WindowEntry>)
    ensures
        entries_model(out@) == snapshot_model(ws@),
{
    let mut out: Vec<WindowEntry> = Vec::new();
    let mut i: usize = 0;
    while i < ws.len()
        invariant
            i <= ws.len(),
            entries_model(out@) == snapshot_model(ws@.take(i as int)),
        decreases ws.len() - i,
    {
        let w = &ws[i];
        if accept_window(w) {
            let title = copy_units(&w.title);
            out.push(WindowEntry { handle: w.handle, title });
        }
        proof {
            assert(ws@.take(i + 1 as int).drop_last() =~= ws@.take(i as int));
            assert(ws@.take(i + 1 as int).last() == ws@[i as int]);
            assert(entries_model(out@) =~= snapshot_model(ws@.take(i + 1 as int)));
        }
        i = i + 1;
    }
    proof {
        assert(ws@.take(ws@.len() as int) =~= ws@);
    }
    out
}

/// A snapshot never holds more entries than windows were probed.
pub proof fn lemma_snapshot_len(ws: Seq<ProbedWindow>)
    ensures
        snapshot_model(ws).len() <= ws.len(),
    decreases ws.len(),
{
    if ws.len() > 0 {
        lemma_snapshot_len(ws.drop_last());
    }
}

/// Whether some probed window of `ws` passes the filter and reduces to the
/// snapshot entry `e`.
pub open spec fn stems_from(ws: Seq<ProbedWindow>, e: (u64, Seq<u16>)) -> bool {
    exists|j: int|
        0 <= j < ws.len() && #[trigger] keeps(ws[j]) && (ws[j].handle, ws[j].title@) == e
}

/// Filter correctness: every entry of a snapshot has a non-empty title, and
/// stems from a probed window that was visible and live at observation time,
/// with that very handle and title.
pub proof fn lemma_snapshot_filter_correct(ws: Seq<ProbedWindow>)
    ensures
        forall|i: int|
            0 <= i < snapshot_model(ws).len() ==> #[trigger] snapshot_model(ws)[i].1.len() >= 1,
        forall|i: int|
            0 <= i < snapshot_model(ws).len() ==> stems_from(ws, #[trigger] snapshot_model(ws)[i]),
    decreases ws.len(),
{
    if ws.len() > 0 {
        lemma_snapshot_filter_correct(ws.drop_last());
        let prior = snapshot_model(ws.drop_last());
        assert forall|i: int|
            0 <= i < snapshot_model(ws).len() implies stems_from(
            ws,
            #[trigger] snapshot_model(ws)[i],
        ) by {
            if i < prior.len() {
                assert(snapshot_model(ws)[i] == prior[i]);
                assert(stems_from(ws.drop_last(), prior[i]));
                let j = choose|j: int|
                    0 <= j < ws.drop_last().len() && #[trigger] keeps(ws.drop_last()[j])
                        && (ws.drop_last()[j].handle, ws.drop_last()[j].title@) == prior[i];
                assert(ws[j] == ws.drop_last()[j]);
                assert(keeps(ws[j]) && (ws[j].handle, ws[j].title@) == snapshot_model(ws)[i]);
            } else {
                let j = ws.len() - 1;
                assert(ws[j] == ws.last());
                assert(keeps(ws[j]) && (ws[j].handle, ws[j].title@) == snapshot_model(ws)[i]);
            }
        }
    }
}

} // verus!
