//! The tray presence manager: the lifecycle of the one notification-area
//! icon. The manager decides when the host must be asked to register or
//! remove the icon; the host adapter performs the calls it hands out.

use vstd::prelude::*;

verus! {

/// The host call a presence transition asks for.
#[derive(Debug, PartialEq, Eq, Structural)]
pub enum TrayCall {
    /// Register the icon with the notification area.
    AddIcon,
    /// Remove the icon from the notification area.
    RemoveIcon,
}

/// How a transition's call changes the number of icons this application has
/// registered with the notification area.
pub open spec fn icon_delta(c: Option<TrayCall>) -> int {
    match c {
        Option::Some(TrayCall::AddIcon) => 1,
        Option::Some(TrayCall::RemoveIcon) => -1,
        Option::None => 0,
    }
}

/// The show transition on the abstract presence state: the presence
/// afterwards, and the change in registered icons it causes.
pub open spec fn show_step(present: bool) -> (bool, int) {
    if present {
        (true, 0)
    } else {
        (true, 1)
    }
}

/// The hide transition, likewise.
pub open spec fn hide_step(present: bool) -> (bool, int) {
    if present {
        (false, -1)
    } else {
        (false, 0)
    }
}

/// Owner of the notification-area icon: absent until shown, present until
/// hidden. While present it owns exactly one icon registration.
pub struct TrayPresence {
    /// Whether the icon is currently registered.
    pub present: bool,
}

impl TrayPresence {
    /// A fresh manager: nothing registered yet.
    pub fn new() -> (s: Self)
        ensures
            !s.present,
    {
        TrayPresence { present: false }
    }

    /// Asks for the icon to be registered. A no-op when the icon is already
    /// present: no call is handed out and nothing changes.
    pub fn show(&mut self) -> (c: Option<TrayCall>)
        ensures
            final(self).present == show_step(old(self).present).0,
            icon_delta(c) == show_step(old(self).present).1,
            c == if old(self).present {
                Option::<TrayCall>::None
            } else {
                Option::Some(TrayCall::AddIcon)
            },
    {
        if self.present {
            Option::None
        } else {
            self.present = true;
            Option::Some(TrayCall::AddIcon)
        }
    }

    /// Asks for the icon to be removed; run at shutdown on every path. A
    /// no-op when the icon is not present.
    pub fn hide_icon(&mut self) -> (c: Option<TrayCall>)
        ensures
            final(self).present == hide_step(old(self).present).0,
            icon_delta(c) == hide_step(old(self).present).1,
            c == if old(self).present {
                Option::Some(TrayCall::RemoveIcon)
            } else {
                Option::<TrayCall>::None
            },
    {
        if self.present {
            self.present = false;
            Option::Some(TrayCall::RemoveIcon)
        } else {
            Option::None
        }
    }
}

/// Idempotence of show: the second of two successive show transitions is a
/// no-op — it keeps the presence and registers nothing — and from a fresh
/// manager two successive shows leave exactly one icon registered.
pub proof fn lemma_show_idempotent(present: bool, icons: int)
    ensures
        show_step(show_step(present).0) == (show_step(present).0, 0int),
        !present ==> icons + show_step(present).1 + show_step(show_step(present).0).1 == icons + 1,
{
}

/// Guaranteed release: a show followed by a hide always ends not present,
/// and from a fresh manager the two transitions together register nothing
/// lasting.
pub proof fn lemma_show_then_hide_releases(present: bool)
    ensures
        !hide_step(show_step(present).0).0,
        !present ==> show_step(present).1 + hide_step(show_step(present).0).1 == 0,
{
}

} // verus!
