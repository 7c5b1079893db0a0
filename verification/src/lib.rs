//! Coordinator for a background-resident desktop shell: a tray menu, one
//! global hotkey, and a single primary application window.
//!
//! The shell translates discrete operating-system input events (a menu
//! selection, a global hotkey press) into a small set of uniform commands
//! for the frontend surface, into window show/focus requests, or into
//! process termination. The mapping itself is a flat, total function with
//! an explicit no-op default; everything platform-specific (the tray icon,
//! the hotkey hook, the windows, the notification transport) lives outside
//! this crate and only feeds events in and carries effects out.

pub mod channel;
pub mod command;
pub mod dispatch;
pub mod hotkey;
pub mod laws;
pub mod menu;
pub mod registry;
