//! The dispatcher: decodes the host's raw messages into events and decides
//! the utility's reaction to each, against the current enumeration
//! snapshot. The host shell performs whatever the reaction asks for.

use vstd::prelude::*;
use crate::ids::TRAY_CALLBACK_MSG;
use crate::ids::WM_CLOSE;
use crate::ids::WM_COMMAND;
use crate::ids::WM_CONTEXTMENU;
use crate::ids::WM_DESTROY;
use crate::ids::WM_RBUTTONDOWN;
use crate::enumerate::WindowEntry;
use crate::enumerate::entries_model;
use crate::menu::Selection;
use crate::menu::decode_menu_id;
use crate::menu::decode_model;

verus! {

/// One event of the host message stream, decoded from its raw numeric form.
#[derive(Debug, PartialEq, Eq, Structural)]
pub enum Event {
    /// A gesture on the tray icon, with the gesture's message code.
    TrayClick { gesture: u32 },
    /// A menu command: the chosen identifier and the notification code.
    MenuCommand { id: u32, code: u32 },
    /// The main window was asked to close.
    CloseRequested,
    /// The main window is gone; the message loop should end.
    Destroyed,
    /// Anything else; left to the host's default handling.
    Other { message: u32 },
}

/// How a raw message decodes: the tray callback message carries the gesture
/// in its second parameter; a command message carries the identifier in the
/// low half of its first parameter and the notification code in the high
/// half.
pub open spec fn event_model(message: u32, wparam: u64, lparam: u64) -> Event {
    if message == TRAY_CALLBACK_MSG {
        Event::TrayClick { gesture: (lparam & 0xFFFF_FFFF) as u32 }
    } else if message == WM_COMMAND {
        Event::MenuCommand {
            id: (wparam & 0xFFFF) as u32,
            code: ((wparam >> 16) & 0xFFFF) as u32,
        }
    } else if message == WM_CLOSE {
        Event::CloseRequested
    } else if message == WM_DESTROY {
        Event::Destroyed
    } else {
        Event::Other { message }
    }
}

/// Decodes one raw host message.
pub fn decode_message(message: u32, wparam: u64, lparam: u64) -> (e: Event)
    ensures
        e == event_model(message, wparam, lparam),
{
    proof {
        assert((lparam & 0xFFFF_FFFF) <= 0xFFFF_FFFFu64) by (bit_vector);
        assert((wparam & 0xFFFF) <= 0xFFFFu64) by (bit_vector);
        assert(((wparam >> 16) & 0xFFFF) <= 0xFFFFu64) by (bit_vector);
    }
    if message == TRAY_CALLBACK_MSG {
        Event::TrayClick { gesture: (lparam & 0xFFFF_FFFF) as u32 }
    } else if message == WM_COMMAND {
        Event::MenuCommand {
            id: (wparam & 0xFFFF) as u32,
            code: ((wparam >> 16) & 0xFFFF) as u32,
        }
    } else if message == WM_CLOSE {
        Event::CloseRequested
    } else if message == WM_DESTROY {
        Event::Destroyed
    } else {
        Event::Other { message }
    }
}

/// What the dialog procedure decides to do for one event.
#[derive(Debug, PartialEq, Eq, Structural)]
pub enum Reaction {
    /// Open the context menu (tray right-click or context-menu gesture).
    OpenMenu,
    /// Bring the window with this handle to the foreground.
    Activate { handle: u64 },
    /// Destroy the main window (the exit entry, or a close request).
    CloseMain,
    /// Stop the message loop with this exit code.
    Quit { code: i32 },
    /// Consume the event without acting: an unrelated tray gesture or
    /// command identifier, or a stale index no longer in the snapshot.
    Ignore,
    /// Hand the message back to the host's default handling.
    HostDefault,
}

/// The reaction to one event against the current snapshot. A command that
/// addresses a snapshot index activates that entry's handle; one whose
/// index is stale — the window list having been shorter than the identifier
/// claims — is silently consumed. Destruction quits with exit code zero.
pub open spec fn reaction_model(e: Event, snap: Seq<(u64, Seq<u16>)>) -> Reaction {
    match e {
        Event::TrayClick { gesture } => if gesture == WM_RBUTTONDOWN || gesture
            == WM_CONTEXTMENU {
            Reaction::OpenMenu
        } else {
            Reaction::Ignore
        },
        Event::MenuCommand { id, .. } => match decode_model(id) {
            Selection::Exit => Reaction::CloseMain,
            Selection::Window { index } => if index < snap.len() {
                Reaction::Activate { handle: snap[index as int].0 }
            } else {
                Reaction::Ignore
            },
            Selection::Unrelated => Reaction::Ignore,
        },
        Event::CloseRequested => Reaction::CloseMain,
        Event::Destroyed => Reaction::Quit { code: 0 },
        Event::Other { .. } => Reaction::HostDefault,
    }
}

/// Decides the reaction to one decoded event.
pub fn react(e: &Event, snap: &Vec<WindowEntry>) -> (r: Reaction)
    ensures
        r == reaction_model(*e, entries_model(snap@)),
{
    match e {
        Event::TrayClick { gesture } => {
            if *gesture == WM_RBUTTONDOWN || *gesture == WM_CONTEXTMENU {
                Reaction::OpenMenu
            } else {
                Reaction::Ignore
            }
        },
        Event::MenuCommand { id, code: _ } => {
            match decode_menu_id(*id) {
                Selection::Exit => Reaction::CloseMain,
                Selection::Window { index } => {
                    if index < snap.len() {
                        let handle = snap[index].handle;
                        proof {
                            assert(entries_model(snap@)[index as int].0 == snap@[index as int].handle);
                        }
                        Reaction::Activate { handle }
                    } else {
                        Reaction::Ignore
                    }
                },
                Selection::Unrelated => Reaction::Ignore,
            }
        },
        Event::CloseRequested => Reaction::CloseMain,
        Event::Destroyed => Reaction::Quit { code: 0 },
        Event::Other { message: _ } => Reaction::HostDefault,
    }
}

/// Decides the reaction to one raw host message, as the dialog procedure
/// does: decode it, then react against the current snapshot.
pub fn handle_message(message: u32, wparam: u64, lparam: u64, snap: &Vec<WindowEntry>) -> (r:
    Reaction)
    ensures
        r == reaction_model(event_model(message, wparam, lparam), entries_model(snap@)),
{
    let e = decode_message(message, wparam, lparam);
    react(&e, snap)
}

/// The value the dialog procedure reports to the host for an event it
/// handles itself: command messages report one, every other handled event
/// reports zero, and an unrecognized message is not handled at all — the
/// host's default procedure answers for it.
pub open spec fn reply_model(e: Event) -> Option<isize> {
    match e {
        Event::MenuCommand { .. } => Option::Some(1isize),
        Event::Other { .. } => Option::None,
        _ => Option::Some(0isize),
    }
}

/// The handled-message reply for one event.
pub fn message_reply(e: &Event) -> (r: Option<isize>)
    ensures
        r == reply_model(*e),
{
    match e {
        Event::MenuCommand { id: _, code: _ } => Option::Some(1),
        Event::Other { message: _ } => Option::None,
        _ => Option::Some(0),
    }
}

} // verus!
