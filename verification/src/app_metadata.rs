//! Application identity shared by the launcher and native build resources.
use vstd::prelude::*;

verus! {

/// User-visible application name in the operating system.
pub const APP_NAME: &'static str = "Phanerite";

/// Title shared by the native window and the custom title bar.
pub const APP_WINDOW_TITLE: &'static str = "Phanerite Launcher";

/// Machine-readable, globally unique application id in reverse domain name
/// notation. Keep the desktop entry and bundle identifier in sync with it.
pub const APP_ID: &'static str = "org.feniota.phanerite";

} // verus!
