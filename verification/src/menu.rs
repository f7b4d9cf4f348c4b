//! The context menu builder: renders an enumeration snapshot into the
//! popup menu's items, maps chosen command identifiers back to snapshot
//! indices, and lays out the host calls of one menu session so that the
//! transient menu resource is released on every path.

use vstd::prelude::*;
use crate::ids::MAX_MENU_ENTRIES;
use crate::ids::MENU_ID_BASE;
use crate::ids::MENU_ID_EXIT;
use crate::ids::MENU_INDEX_MASK;
use crate::enumerate::ProbedWindow;
use crate::enumerate::WindowEntry;
use crate::enumerate::copy_units;
use crate::enumerate::entries_model;
use crate::enumerate::lemma_snapshot_len;
use crate::enumerate::snapshot_model;
use crate::enumerate::snapshot_windows;

verus! {

/// One rendered item of the popup menu.
#[derive(Debug, PartialEq, Eq)]
pub enum MenuItem {
    /// A selectable entry: its command identifier and its label text.
    Entry { id: u32, title: Vec<u16> },
    /// The visual separator between the window list and the fixed tail.
    Separator,
}

/// The mathematical model of one menu item.
pub enum ItemModel {
    Entry { id: u32, title: Seq<u16> },
    Separator,
}

pub open spec fn item_model(it: MenuItem) -> ItemModel {
    match it {
        MenuItem::Entry { id, title } => ItemModel::Entry { id, title: title@ },
        MenuItem::Separator => ItemModel::Separator,
    }
}

pub open spec fn items_model(s: Seq<MenuItem>) -> Seq<ItemModel> {
    s.map_values(|it: MenuItem| item_model(it))
}

/// The label of the fixed exit entry: "Exit" in UTF-16 code units.
pub open spec fn exit_label() -> Seq<u16> {
    seq![0x45u16, 0x78u16, 0x69u16, 0x74u16]
}

/// The command identifier of the entry addressing snapshot index `i`.
pub open spec fn menu_entry_id(i: int) -> u32 {
    (MENU_ID_BASE + i) as u32
}

/// The menu a snapshot renders to: one entry per snapshot index `i`,
/// labelled with that window's title under identifier `MENU_ID_BASE + i`,
/// then the separator, then the fixed exit entry under `MENU_ID_EXIT`.
pub open spec fn menu_model(snap: Seq<(u64, Seq<u16>)>) -> Seq<ItemModel> {
    Seq::new(
        snap.len(),
        |i: int| ItemModel::Entry { id: menu_entry_id(i), title: snap[i].1 },
    ).push(ItemModel::Separator).push(
        ItemModel::Entry { id: MENU_ID_EXIT, title: exit_label() },
    )
}

/// Renders the current snapshot into the popup menu's item list.
pub fn build_menu(snap: &Vec<WindowEntry>) -> (menu: Vec<MenuItem>)
    requires
        snap@.len() <= MAX_MENU_ENTRIES,
    ensures
        items_model(menu@) == menu_model(entries_model(snap@)),
{
    let mut menu: Vec<MenuItem> = Vec::new();
    let mut i: usize = 0;
    while i < snap.len()
        invariant
            i <= snap.len(),
            snap@.len() <= MAX_MENU_ENTRIES,
            menu@.len() == i,
            forall|k: int|
                0 <= k < i as int ==> #[trigger] item_model(menu@[k]) == (ItemModel::Entry {
                    id: menu_entry_id(k),
                    title: entries_model(snap@)[k].1,
                }),
        decreases snap.len() - i,
    {
        let id: u32 = MENU_ID_BASE + (i as u32);
        let title = copy_units(&snap[i].title);
        menu.push(MenuItem::Entry { id, title });
        proof {
            assert(item_model(menu@[i as int]) == (ItemModel::Entry {
                id: menu_entry_id(i as int),
                title: entries_model(snap@)[i as int].1,
            }));
        }
        i = i + 1;
    }
    let ghost base = menu@;
    menu.push(MenuItem::Separator);
    let mut exit_title: Vec<u16> = Vec::new();
    exit_title.push(0x45);
    exit_title.push(0x78);
    exit_title.push(0x69);
    exit_title.push(0x74);
    proof {
        assert(exit_title@ =~= exit_label());
    }
    menu.push(MenuItem::Entry { id: MENU_ID_EXIT, title: exit_title });
    proof {
        let m = entries_model(snap@);
        let n = m.len() as int;
        assert(n == base.len());
        assert(menu@.len() == n + 2);
        assert(menu_model(m).len() == n + 2);
        assert(items_model(menu@).len() == menu@.len());
        assert forall|q: int| 0 <= q < n + 2 implies items_model(menu@)[q] == menu_model(m)[q] by {
            assert(items_model(menu@)[q] == item_model(menu@[q]));
            if q < n {
                assert(menu@[q] == base[q]);
                assert(item_model(base[q]) == (ItemModel::Entry {
                    id: menu_entry_id(q),
                    title: m[q].1,
                }));
                assert(menu_model(m)[q] == (ItemModel::Entry {
                    id: menu_entry_id(q),
                    title: m[q].1,
                }));
            } else if q == n {
                assert(menu@[q] == MenuItem::Separator);
                assert(menu_model(m)[q] == ItemModel::Separator);
            } else {
                assert(item_model(menu@[q]) == (ItemModel::Entry {
                    id: MENU_ID_EXIT,
                    title: exit_label(),
                }));
                assert(menu_model(m)[q] == (ItemModel::Entry {
                    id: MENU_ID_EXIT,
                    title: exit_label(),
                }));
            }
        }
        assert(items_model(menu@) =~= menu_model(m));
    }
    menu
}

/// What a chosen command identifier means.
#[derive(Debug, PartialEq, Eq, Structural)]
pub enum Selection {
    /// The fixed exit entry.
    Exit,
    /// The entry addressing snapshot index `index`.
    Window { index: usize },
    /// An identifier outside both reserved ranges; nothing to do.
    Unrelated,
}

/// The meaning of a 16-bit command identifier: the reserved exit sentinel,
/// or an index addressed through the `MENU_ID_BASE` block, or unrelated.
pub open spec fn decode_model(id: u32) -> Selection {
    if id == MENU_ID_EXIT {
        Selection::Exit
    } else if id & MENU_ID_BASE == MENU_ID_BASE {
        Selection::Window { index: (id & MENU_INDEX_MASK) as usize }
    } else {
        Selection::Unrelated
    }
}

/// Decodes a chosen command identifier. Identifiers are 16-bit values in
/// practice — the dispatcher masks the low half of the command parameter —
/// and only the block bits and the index bits decide the meaning.
pub fn decode_menu_id(id: u32) -> (r: Selection)
    ensures
        r == decode_model(id),
{
    if id == MENU_ID_EXIT {
        Selection::Exit
    } else if id & MENU_ID_BASE == MENU_ID_BASE {
        Selection::Window { index: (id & MENU_INDEX_MASK) as usize }
    } else {
        Selection::Unrelated
    }
}

/// Identifier assignment is a bijection between snapshot indices `0..n` and
/// the identifier block `MENU_ID_BASE..MENU_ID_BASE + n`, disjoint from the
/// exit identifier, for every snapshot size `n` the menu can hold, the
/// empty one included: each index's identifier lies in the block and is not
/// the exit sentinel, decoding is its left inverse, distinct indices get
/// distinct identifiers, and every identifier of the block is taken.
pub proof fn lemma_menu_id_bijection(n: int)
    requires
        0 <= n <= MAX_MENU_ENTRIES,
    ensures
        forall|i: int| 0 <= i < n ==> #[trigger] menu_entry_id(i) != MENU_ID_EXIT,
        forall|i: int| 0 <= i < n ==> MENU_ID_BASE <= #[trigger] menu_entry_id(i) < MENU_ID_BASE
            + n,
        forall|i: int|
            0 <= i < n ==> decode_model(#[trigger] menu_entry_id(i)) == (Selection::Window {
                index: i as usize,
            }),
        forall|i: int, j: int|
            0 <= i < n && 0 <= j < n && #[trigger] menu_entry_id(i) == #[trigger] menu_entry_id(j)
                ==> i == j,
        forall|v: u32|
            MENU_ID_BASE <= v < MENU_ID_BASE + n ==> #[trigger] menu_entry_id(v - MENU_ID_BASE)
                == v,
{
    assert forall|i: int| 0 <= i < n implies #[trigger] menu_entry_id(i) == MENU_ID_BASE + i by {
    }
    assert forall|i: int| 0 <= i < n implies decode_model(#[trigger] menu_entry_id(i))
        == (Selection::Window { index: i as usize }) by {
        let iu = i as u32;
        let id = menu_entry_id(i);
        assert(id == 0xC000 + iu);
        assert((id & 0xC000u32) == 0xC000 && (id & 0x3FFFu32) == iu) by (bit_vector)
            requires
                id == 0xC000 + iu,
                iu < 0x4000,
        ;
        assert(id != MENU_ID_EXIT);
    }
}

/// One host call of a menu session, in order of performance.
#[derive(Debug, PartialEq, Eq)]
pub enum MenuHostCall {
    /// Append one selectable entry (identifier, label) to the popup.
    AppendEntry { id: u32, title: Vec<u16> },
    /// Append the visual separator.
    AppendSeparator,
    /// Bring the owning window to the foreground so the popup reliably
    /// receives input focus.
    RaiseOwner { owner: u64 },
    /// Display the popup anchored at the pointer position and block until
    /// the user selects an item or dismisses the menu.
    TrackAt { x: i32, y: i32 },
    /// Release the transient menu resource.
    DestroyMenu,
}

/// The mathematical model of one session call.
pub enum CallModel {
    AppendEntry { id: u32, title: Seq<u16> },
    AppendSeparator,
    RaiseOwner { owner: u64 },
    TrackAt { x: i32, y: i32 },
    DestroyMenu,
}

pub open spec fn call_model(c: MenuHostCall) -> CallModel {
    match c {
        MenuHostCall::AppendEntry { id, title } => CallModel::AppendEntry { id, title: title@ },
        MenuHostCall::AppendSeparator => CallModel::AppendSeparator,
        MenuHostCall::RaiseOwner { owner } => CallModel::RaiseOwner { owner },
        MenuHostCall::TrackAt { x, y } => CallModel::TrackAt { x, y },
        MenuHostCall::DestroyMenu => CallModel::DestroyMenu,
    }
}

pub open spec fn calls_model(s: Seq<MenuHostCall>) -> Seq<CallModel> {
    s.map_values(|c: MenuHostCall| call_model(c))
}

/// The append call that renders one menu item.
pub open spec fn append_of(it: ItemModel) -> CallModel {
    match it {
        ItemModel::Entry { id, title } => CallModel::AppendEntry { id, title },
        ItemModel::Separator => CallModel::AppendSeparator,
    }
}

/// The host calls of one menu session whose popup was created: every menu
/// item appended in order, the owning window raised, the popup tracked at
/// the pointer position, and the menu destroyed.
pub open spec fn session_model(
    snap: Seq<(u64, Seq<u16>)>,
    owner: u64,
    x: i32,
    y: i32,
) -> Seq<CallModel> {
    menu_model(snap).map_values(|it: ItemModel| append_of(it)).push(
        CallModel::RaiseOwner { owner },
    ).push(CallModel::TrackAt { x, y }).push(CallModel::DestroyMenu)
}

/// How many of the session's calls release the menu resource.
pub open spec fn destroy_count(calls: Seq<CallModel>) -> int
    decreases calls.len(),
{
    if calls.len() == 0 {
        0
    } else {
        destroy_count(calls.drop_last()) + if calls.last() is DestroyMenu {
            1int
        } else {
            0int
        }
    }
}

/// Transient menu resources still live once the session's calls have run:
/// one was allocated if creation succeeded, and each destroy releases one.
pub open spec fn menus_open(created: bool, calls: Seq<CallModel>) -> int {
    (if created {
        1int
    } else {
        0int
    }) - destroy_count(calls)
}

proof fn lemma_destroy_count_no_destroy(calls: Seq<CallModel>)
    requires
        forall|i: int| 0 <= i < calls.len() ==> !(#[trigger] calls[i] is DestroyMenu),
    ensures
        destroy_count(calls) == 0,
    decreases calls.len(),
{
    if calls.len() > 0 {
        lemma_destroy_count_no_destroy(calls.drop_last());
    }
}

/// A created session's calls destroy the menu exactly once.
pub proof fn lemma_session_destroys_once(snap: Seq<(u64, Seq<u16>)>, owner: u64, x: i32, y: i32)
    ensures
        destroy_count(session_model(snap, owner, x, y)) == 1,
{
    let appends = menu_model(snap).map_values(|it: ItemModel| append_of(it));
    assert(forall|i: int| 0 <= i < appends.len() ==> !(#[trigger] appends[i] is DestroyMenu));
    lemma_destroy_count_no_destroy(appends);
    let t1 = appends.push(CallModel::RaiseOwner { owner });
    let t2 = t1.push(CallModel::TrackAt { x, y });
    let s = session_model(snap, owner, x, y);
    assert(s == t2.push(CallModel::DestroyMenu));
    assert(s.drop_last() =~= t2);
    assert(s.last() is DestroyMenu);
    assert(destroy_count(s) == destroy_count(t2) + 1);
    assert(t2.drop_last() =~= t1);
    assert(destroy_count(t2) == destroy_count(t1));
    assert(t1.drop_last() =~= appends);
    assert(destroy_count(t1) == destroy_count(appends));
}

/// Lays out one whole menu session over the current snapshot.
///
/// `created` reports whether the host granted the popup resource: when it
/// did not, the action aborts silently and there is nothing to perform or
/// release. When it did, the returned calls render the menu, display it,
/// and end by destroying it — the calls do not depend on what the user
/// selects, so the resource is released whether an item was chosen or the
/// menu dismissed. Either way no menu resource stays live.
pub fn menu_session_calls(
    created: bool,
    snap: &Vec<WindowEntry>,
    owner: u64,
    x: i32,
    y: i32,
) -> (calls: Vec<MenuHostCall>)
    requires
        snap@.len() <= MAX_MENU_ENTRIES,
    ensures
        calls_model(calls@) == if created {
            session_model(entries_model(snap@), owner, x, y)
        } else {
            Seq::<CallModel>::empty()
        },
        menus_open(created, calls_model(calls@)) == 0,
{
    let mut calls: Vec<MenuHostCall> = Vec::new();
    if !created {
        proof {
            assert(calls_model(calls@) =~= Seq::<CallModel>::empty());
        }
        return calls;
    }
    let menu = build_menu(snap);
    let mut k: usize = 0;
    while k < menu.len()
        invariant
            k <= menu.len(),
            items_model(menu@) == menu_model(entries_model(snap@)),
            calls@.len() == k,
            forall|q: int|
                0 <= q < k as int ==> #[trigger] call_model(calls@[q]) == append_of(
                    items_model(menu@)[q],
                ),
        decreases menu.len() - k,
    {
        match &menu[k] {
            MenuItem::Entry { id, title } => {
                let title = copy_units(title);
                calls.push(MenuHostCall::AppendEntry { id: *id, title });
            },
            MenuItem::Separator => {
                calls.push(MenuHostCall::AppendSeparator);
            },
        }
        proof {
            assert(items_model(menu@)[k as int] == item_model(menu@[k as int]));
            assert(call_model(calls@[k as int]) == append_of(items_model(menu@)[k as int]));
        }
        k = k + 1;
    }
    let ghost base = calls@;
    calls.push(MenuHostCall::RaiseOwner { owner });
    calls.push(MenuHostCall::TrackAt { x, y });
    calls.push(MenuHostCall::DestroyMenu);
    proof {
        let m = entries_model(snap@);
        let sess = session_model(m, owner, x, y);
        let appends = menu_model(m).map_values(|it: ItemModel| append_of(it));
        assert(items_model(menu@).len() == menu@.len());
        assert(base.len() == menu@.len());
        assert(appends.len() == menu@.len());
        assert(calls@.len() == base.len() + 3);
        assert(sess.len() == appends.len() + 3);
        assert forall|q: int| 0 <= q < calls@.len() implies calls_model(calls@)[q] == sess[q] by {
            assert(calls_model(calls@)[q] == call_model(calls@[q]));
            if q < base.len() {
                assert(calls@[q] == base[q]);
                assert(call_model(base[q]) == append_of(items_model(menu@)[q]));
                assert(sess[q] == appends[q]);
                assert(appends[q] == append_of(menu_model(m)[q]));
            } else if q == base.len() {
                assert(calls@[q] == (MenuHostCall::RaiseOwner { owner }));
                assert(sess[q] == (CallModel::RaiseOwner { owner }));
            } else if q == base.len() + 1 {
                assert(calls@[q] == (MenuHostCall::TrackAt { x, y }));
                assert(sess[q] == (CallModel::TrackAt { x, y }));
            } else {
                assert(calls@[q] == MenuHostCall::DestroyMenu);
                assert(sess[q] == CallModel::DestroyMenu);
            }
        }
        assert(calls_model(calls@) =~= sess);
        lemma_session_destroys_once(m, owner, x, y);
    }
    calls
}

/// One whole open-menu action, as the tray gesture triggers it: replace
/// the previous snapshot with a fresh enumeration pass over the probed
/// windows, then lay out the session's host calls over it. Returns the new
/// snapshot — the selection handler reads it later — and the calls.
pub fn open_menu_session(
    created: bool,
    probed: &Vec<ProbedWindow>,
    owner: u64,
    x: i32,
    y: i32,
) -> (r: (Vec<WindowEntry>, Vec<MenuHostCall>))
    requires
        probed@.len() <= MAX_MENU_ENTRIES,
    ensures
        entries_model(r.0@) == snapshot_model(probed@),
        calls_model(r.1@) == if created {
            session_model(snapshot_model(probed@), owner, x, y)
        } else {
            Seq::<CallModel>::empty()
        },
        menus_open(created, calls_model(r.1@)) == 0,
{
    proof {
        lemma_snapshot_len(probed@);
    }
    let snap = snapshot_windows(probed);
    proof {
        assert(snap@.len() == entries_model(snap@).len());
    }
    let calls = menu_session_calls(created, &snap, owner, x, y);
    (snap, calls)
}

} // verus!
