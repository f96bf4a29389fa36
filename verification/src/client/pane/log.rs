//! The pane that shows the log records.

use vstd::prelude::*;

verus! {

/// The pane of the log; `L` is the handle of the shared records.
pub struct LogPane<L> {
    logs: L,
}

impl<L> LogPane<L> {
    /// The handle of the records shown.
    pub closed spec fn logs(&self) -> L {
        self.logs
    }

    /// The pane showing the records behind `logs`.
    pub fn new(logs: L) -> (r: Self)
        ensures
            r.logs() == logs,
    {
        LogPane { logs }
    }

    /// The handle of the records shown.
    pub fn logs_ref(&self) -> (r: &L)
        ensures
            *r == self.logs(),
    {
        &self.logs
    }
}

} // verus!
