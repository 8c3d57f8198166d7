//! The control engine of a terminal bookmark search and application launcher:
//! the key router, the mode machine, the filtered lists with their selection
//! cursors, and the dispatcher that turns a command into a state change and a
//! request for an outside capability.

pub mod app;
pub mod bookmarks;
pub mod config;
pub mod filter;
pub mod input;
pub mod launcher;
pub mod overlay;
pub mod selection;
pub mod status;
pub mod store;
pub mod text;
pub mod words;
