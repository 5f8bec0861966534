//! Verified core of a menu-bar screenshot utility.
//!
//! The library holds the logic of the tool: the store for the most recent
//! capture, the capture-and-encode pipeline, the preview window's placement
//! and lifecycle, and the tray and shortcut decision rules. The surrounding
//! UI shell owns the toolkit objects (windows, tray icon, event loop) and
//! carries out the plans these functions return.

pub mod capture;
pub mod preview;
pub mod state;
pub mod windows;
