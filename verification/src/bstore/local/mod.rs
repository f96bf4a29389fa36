//! The store kept in a local key/value database file.
//!
//! Keys:
//!   `meta.data`        the root metadata: next times identifier, times list
//!   `{tid}/meta.data`  the metadata of one times
//!   and, under `{tid}/`, the keys of its posts, tags and todos.
//!
//! The stores here decide identifiers, keys and records; reading and
//! writing the database is left to their caller.

use vstd::prelude::*;

use crate::time::{utc_now, DateTime};
use crate::types::{Tid, Times, TimesV};

pub mod post;
pub mod times;
pub mod todo;

use self::times::LocalTimesStore;

verus! {

/// The root metadata: the identifier to hand out next and the identifiers
/// of the stored times, in the order they were created.
#[derive(Debug)]
pub struct RootMeta {
    pub ntid: u64,
    pub tids: Vec<Tid>,
}

impl RootMeta {
    /// The metadata of an empty database.
    pub fn empty() -> (r: Self)
        ensures
            r.ntid == 0,
            r.tids@ == Seq::<Tid>::empty(),
    {
        RootMeta { ntid: 0, tids: Vec::new() }
    }
}

/// What the database keeps of a times besides its identifier.
#[derive(Debug)]
pub struct TimesMeta {
    pub title: String,
    pub created_at: DateTime,
    pub updated_at: Option<DateTime>,
}

/// The times that `meta` describes under identifier `tid`.
pub open spec fn meta_times(meta: TimesMeta, tid: Tid) -> TimesV {
    TimesV { id: tid, title: meta.title@, created_at: meta.created_at, updated_at: meta.updated_at }
}

impl TimesMeta {
    /// The metadata of a times titled `title`, created at the point `now`
    /// and not updated.
    pub fn new_at(title: String, now: DateTime) -> (r: Self)
        ensures
            r.title@ == title@,
            r.updated_at is None,
            r.created_at == now,
    {
        TimesMeta { title, created_at: now, updated_at: None }
    }

    /// The metadata of a times titled `title`, created now, by the clock,
    /// and not updated.
    pub fn new(title: String) -> (r: Self)
        ensures
            r.title@ == title@,
            r.updated_at is None,
    {
        let now = utc_now();
        TimesMeta::new_at(title, now)
    }

    /// The times this metadata describes under identifier `tid`.
    pub fn to_times(&self, tid: Tid) -> (r: Times)
        ensures
            r@ == meta_times(*self, tid),
    {
        Times { id: tid, title: self.title.clone(), created_at: self.created_at, updated_at: self.updated_at }
    }

    /// A field-by-field copy.
    pub fn duplicate(&self) -> (r: Self)
        ensures
            r.title@ == self.title@,
            r.created_at == self.created_at,
            r.updated_at == self.updated_at,
    {
        TimesMeta { title: self.title.clone(), created_at: self.created_at, updated_at: self.updated_at }
    }
}

/// All times of the database.
pub struct LocalStore {
    tids: Vec<Tid>,
    ntid: u64,
    tstores: Vec<LocalTimesStore>,
}

impl LocalStore {
    /// The identifiers of the times, in the order they were created.
    pub closed spec fn tids(&self) -> Seq<Tid> {
        self.tids@
    }

    /// The next times identifier.
    pub closed spec fn ntid(&self) -> u64 {
        self.ntid
    }

    /// The times, in the order they were created.
    pub closed spec fn times(&self) -> Seq<TimesV> {
        self.tstores@.map_values(|s: LocalTimesStore| s.times())
    }

    /// Well-formed: one times per identifier.
    pub closed spec fn wf(&self) -> bool {
        self.tstores@.len() == self.tids@.len()
    }

    /// The store described by the root metadata `meta`, with `tmetas[i]`
    /// the metadata found for the `i`-th times of it.
    pub fn new(meta: RootMeta, tmetas: Vec<TimesMeta>) -> (r: Self)
        requires
            tmetas.len() == meta.tids.len(),
        ensures
            r.wf(),
            r.tids() == meta.tids@,
            r.ntid() == meta.ntid,
            r.times().len() == tmetas.len(),
            forall|i: int| 0 <= i < tmetas.len() ==> #[trigger] r.times()[i] == meta_times(tmetas[i], meta.tids@[i]),
    {
        let mut tstores: Vec<LocalTimesStore> = Vec::new();
        let mut i: usize = 0;
        while i < tmetas.len()
            invariant
                i <= tmetas.len(),
                tmetas.len() == meta.tids.len(),
                tstores.len() == i,
                forall|k: int| 0 <= k < i ==> #[trigger] tstores@[k].times() == meta_times(tmetas[k], meta.tids@[k]),
            decreases tmetas.len() - i,
        {
            tstores.push(LocalTimesStore::new(tmetas[i].to_times(meta.tids[i])));
            i = i + 1;
        }
        LocalStore { tids: meta.tids, ntid: meta.ntid, tstores }
    }

    /// The root metadata as it is to be written.
    pub fn root_meta(&self) -> (r: RootMeta)
        ensures
            r.ntid == self.ntid(),
            r.tids@ == self.tids(),
    {
        RootMeta { ntid: self.ntid, tids: self.tids.clone() }
    }

    /// The store is always usable.
    pub fn check(&self) -> (r: Result<(), String>)
        ensures
            r is Ok,
    {
        Ok(())
    }

    /// The number of times.
    pub fn len(&self) -> (r: usize)
        requires
            self.wf(),
        ensures
            r == self.times().len(),
    {
        self.tstores.len()
    }

    /// The times, in the order they were created.
    pub fn get(&self) -> (r: Result<Vec<Times>, String>)
        ensures
            r matches Ok(v) && v@.map_values(|t: Times| t@) == self.times(),
    {
        let mut v: Vec<Times> = Vec::new();
        let mut i: usize = 0;
        while i < self.tstores.len()
            invariant
                i <= self.tstores.len(),
                v.len() == i,
                forall|k: int| 0 <= k < i ==> #[trigger] v@[k]@ == self.tstores@[k].times(),
            decreases self.tstores.len() - i,
        {
            match self.tstores[i].get() {
                Ok(t) => v.push(t),
                Err(_) => {},
            }
            i = i + 1;
        }
        assert(v@.map_values(|t: Times| t@) =~= self.times());
        Ok(v)
    }

    /// Creates a times titled `title` with the next identifier.  It is
    /// refused when the database already holds a record under the key
    /// `title` (`title_taken`).  Gives the new times and its metadata.
    pub fn create(&mut self, title: String, title_taken: bool) -> (r: Result<(Times, TimesMeta), String>)
        requires
            old(self).wf(),
            old(self).ntid() < u64::MAX,
        ensures
            final(self).wf(),
            title_taken ==> (r matches Err(e) && e@ == "Already exists"@
                && final(self).tids() == old(self).tids()
                && final(self).ntid() == old(self).ntid()
                && final(self).times() == old(self).times()),
            !title_taken ==> (r matches Ok(p) && {
                let (t, m) = p;
                &&& t@ == meta_times(m, old(self).ntid())
                &&& m.title@ == title@
                &&& m.updated_at is None
                &&& final(self).tids() == old(self).tids().push(old(self).ntid())
                &&& final(self).ntid() == old(self).ntid() + 1
                &&& final(self).times() == old(self).times().push(t@)
            }),
    {
        if title_taken {
            return Err(String::from_str("Already exists"));
        }
        let tid = self.ntid;
        let tmeta = TimesMeta::new(title);
        let times = tmeta.to_times(tid);
        self.tstores.push(LocalTimesStore::new(times.duplicate()));
        self.ntid = self.ntid + 1;
        self.tids.push(tid);
        proof {
            assert(final(self).times() =~= old(self).times().push(times@));
        }
        Ok((times, tmeta))
    }

    /// The store of the `i`-th times.
    pub fn tstore(&self, i: usize) -> (r: &LocalTimesStore)
        requires
            i < self.times().len(),
        ensures
            r.times() == self.times()[i as int],
    {
        &self.tstores[i]
    }

    /// The store of the `i`-th times, to change.
    pub fn tstore_mut(&mut self, i: usize) -> (r: &mut LocalTimesStore)
        requires
            i < old(self).times().len(),
        ensures
            r.times() == old(self).times()[i as int],
            final(self).times() == old(self).times().update(i as int, final(r).times()),
            final(self).tids() == old(self).tids(),
            final(self).ntid() == old(self).ntid(),
            old(self).wf() ==> final(self).wf(),
    {
        &mut self.tstores[i]
    }
}

} // verus!
