//! The times pane.

use vstd::prelude::*;

verus! {

/// What the model tells the times pane.
#[derive(Debug)]
pub enum UIResponse {
    /// The post was stored.
    PostSuccess,
    /// A file was dropped on the pane; its path.
    FileDropped(String),
}

} // verus!
