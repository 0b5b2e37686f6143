//! The decisions the launcher's pages make: what they show, and what their
//! controls change.
pub mod accounts;
pub mod aphanite;
pub mod crash_report;
pub mod instance_detail;
pub mod instances;
pub mod launch_settings;
pub mod play;
pub mod resources;
pub mod settings;
pub mod setup;
pub mod widgets;
