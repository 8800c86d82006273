//! A small news reader: story extraction from fetched markup, a lazily
//! filled per-story content cache, and the navigation state machine of a
//! two-view terminal interface.

pub mod extract;
pub mod homepage;
pub mod nav;
pub mod story;
