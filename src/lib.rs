//! Session engine of a terminal file browser: fuzzy ranking of a file index,
//! the recent-files ring, content-search matching and replacement, terminal
//! command handling, and the key dispatcher that owns all session state.

pub mod utils;
pub mod fuzzy;
pub mod recent;
pub mod state;
pub mod ui;
pub mod search;
pub mod replace;
pub mod terminal;
pub mod fileviewer;
pub mod stringsearch;
pub mod stringsearchreplace;
pub mod events;
