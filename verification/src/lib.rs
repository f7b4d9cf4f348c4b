//! Core logic of a notification-area utility that lists the visible
//! top-level windows of a desktop session in a popup menu and brings the
//! chosen one to the foreground.
//!
//! The host window system itself (message loop, icon resources, the popup
//! widget) lives outside this crate; every decision the utility makes is
//! here, stated over plain values: which windows an enumeration pass keeps,
//! how menu entries and command identifiers map to snapshot indices, which
//! host calls a menu session or a foreground activation performs, and the
//! lifecycle of the notification-area icon.

pub mod ids;
pub mod enumerate;
pub mod menu;
pub mod tray;
pub mod activate;
pub mod dispatch;
