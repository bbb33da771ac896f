//! Decisions of a savegame watcher: which file events call for a backup copy,
//! where the copy goes, and what to do when a step fails.

pub mod backup;
mod clock;
pub mod dir;
pub mod event;
pub mod paths;
pub mod pattern;
pub mod policy;
pub mod startup;
