//! Phanerite launcher state: routes, stores, crash diagnostics and seed data.
use vstd::prelude::*;

mod app_metadata;
pub mod assets;
pub mod components;
pub mod launcher;
pub mod pages;
pub mod palette;
pub mod plain;
pub mod route;
pub mod seed;
pub mod seqs;
pub mod state;
pub mod text;
pub mod theme;
pub mod window;

pub use app_metadata::{APP_ID, APP_NAME, APP_WINDOW_TITLE};
pub use launcher::Phanerite;

verus! {

} // verus!
