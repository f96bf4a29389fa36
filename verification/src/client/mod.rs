//! The decision logic of the desktop client: what each screen shows, what
//! each user action asks for, and how answers change the screens.

use vstd::prelude::*;

pub mod app;
pub mod jobs;
pub mod pane;
pub mod preview;
pub mod req;
pub mod select;
pub mod side_panel;
pub mod start;
pub mod times;
pub mod times_ui;

verus! {

/// What the application reports to the screen models.
#[derive(Debug)]
pub enum AppResponse {
    /// A file was dropped on the window; its path.
    FileDropped(String),
    /// An error to show.
    Error(String),
}

} // verus!
