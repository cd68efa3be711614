//! Change-set model for an interactive staging front-end: change kinds,
//! actionable entries, selectable lists and the two-view controller.

pub mod git;
pub mod keys;
pub mod list;
pub mod status;
pub mod view;
