//! The numeric identifier spaces of the utility: the host message codes it
//! reacts to, the private callback message of the notification-area icon,
//! and the command-identifier space of the popup menu.

use vstd::prelude::*;

verus! {

/// First message code of the application-private range.
pub const WM_APP: u32 = 0x8000;

/// Command message: the low half of its first parameter carries the chosen
/// menu identifier.
pub const WM_COMMAND: u32 = 0x0111;

/// The main window was asked to close.
pub const WM_CLOSE: u32 = 0x0010;

/// The main window was destroyed; the message loop should end.
pub const WM_DESTROY: u32 = 0x0002;

/// Right mouse button pressed, reported as a tray gesture.
pub const WM_RBUTTONDOWN: u32 = 0x0204;

/// Context-menu gesture, reported as a tray gesture.
pub const WM_CONTEXTMENU: u32 = 0x007B;

/// Private message through which the notification area reports clicks on
/// the tray icon.
pub const TRAY_CALLBACK_MSG: u32 = WM_APP;

/// Identifier of the one notification-area icon this utility registers.
pub const TRAY_ICON_ID: u32 = 1;

/// Menu identifier reserved for the fixed "Exit" entry.
pub const MENU_ID_EXIT: u32 = WM_APP + 1;

/// Base of the contiguous block of menu identifiers that address snapshot
/// indices: entry `i` of the snapshot gets identifier `MENU_ID_BASE + i`.
/// Both high bits are set, so the block can never collide with
/// [`MENU_ID_EXIT`] or with zero.
pub const MENU_ID_BASE: u32 = 0xC000;

/// Mask that recovers a snapshot index from a menu identifier at or above
/// [`MENU_ID_BASE`]: the complement of `MENU_ID_BASE` within the 16-bit
/// identifier space.
pub const MENU_INDEX_MASK: u32 = 0x3FFF;

/// Largest snapshot a menu can address: identifiers are 16-bit values, of
/// which the block above [`MENU_ID_BASE`] holds this many.
pub const MAX_MENU_ENTRIES: usize = 0x4000;

} // verus!
