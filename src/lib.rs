//! Watches one subject's profile image and decides, cycle by cycle, when a
//! change must be announced.
pub mod display;
pub mod laws;
pub mod state;
pub mod watcher;
