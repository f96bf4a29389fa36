//! The panes of the earlier screen layout.

pub mod log;
pub mod start;
pub mod test;
pub mod times_ui;
