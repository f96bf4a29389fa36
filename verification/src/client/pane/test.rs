//! The pane for trying out widgets: a counter and two texts.

use vstd::prelude::*;

use crate::text::{concat, decimal, decimal_string};

verus! {

/// The state of the test pane.
pub struct TestUI {
    pub test_val: u64,
    pub text: String,
    pub edit_text: String,
}

impl TestUI {
    /// The counter at zero, the text "hello", nothing edited.
    pub fn new() -> (r: Self)
        ensures
            r.test_val == 0,
            r.text@ == "hello"@,
            r.edit_text@ == Seq::<char>::empty(),
    {
        TestUI { test_val: 0, text: String::from_str("hello"), edit_text: String::new() }
    }

    /// The label of the counter.
    pub fn get_test_label(&self) -> (r: String)
        ensures
            r@ == "hello world "@ + decimal(self.test_val as nat),
    {
        let n = decimal_string(self.test_val);
        concat("hello world ", n.as_str())
    }

    /// Counts one more.
    pub fn incr(&mut self)
        requires
            old(self).test_val < u64::MAX,
        ensures
            final(self).test_val == old(self).test_val + 1,
            final(self).text == old(self).text,
            final(self).edit_text == old(self).edit_text,
    {
        self.test_val = self.test_val + 1;
    }

    /// Puts the counter back to zero.
    pub fn reset(&mut self)
        ensures
            final(self).test_val == 0,
            final(self).text == old(self).text,
            final(self).edit_text == old(self).edit_text,
    {
        self.test_val = 0;
    }
}

} // verus!
