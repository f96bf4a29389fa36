//! One times in the key/value database.

use vstd::prelude::*;

use crate::text::{decimal, decimal_then};
use crate::types::{Tid, Times, TimesV};

verus! {

/// The key of the metadata of times `tid`.
pub open spec fn times_meta_key(tid: Tid) -> Seq<char> {
    decimal(tid as nat) + "/meta.data"@
}

/// The key of the metadata of times `tid`.
pub fn get_times_meta_path(tid: Tid) -> (r: String)
    ensures
        r@ == times_meta_key(tid),
{
    decimal_then(tid, "/meta.data")
}

/// One times; its posts and todos are reached through their own stores.
pub struct LocalTimesStore {
    times: Times,
}

impl LocalTimesStore {
    /// The times held.
    pub closed spec fn times(&self) -> TimesV {
        self.times@
    }

    /// The store of `times`.
    pub fn new(times: Times) -> (r: Self)
        ensures
            r.times() == times@,
    {
        LocalTimesStore { times }
    }

    /// The times held.
    pub fn get(&self) -> (r: Result<Times, String>)
        ensures
            r matches Ok(t) && t@ == self.times(),
    {
        Ok(self.times.duplicate())
    }

    /// Puts `times` in the place of the one held; gives it back with the
    /// key of its identifier to write it under.
    pub fn update(&mut self, times: Times) -> (r: (Times, String))
        ensures
            final(self).times() == times@,
            r.0@ == times@,
            r.1@ == times_meta_key(times.id),
    {
        self.times = times.duplicate();
        let key = get_times_meta_path(times.id);
        (times, key)
    }
}

} // verus!
