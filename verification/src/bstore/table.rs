//! A table of records kept in increasing order of their identifiers, with
//! the identifier that the next new record gets.

use vstd::prelude::*;

verus! {

/// A record with an identifier.
pub trait Keyed: Sized {
    /// The identifier of the record.
    spec fn spec_key(&self) -> u64;

    /// The identifier of the record.
    fn key(&self) -> (r: u64)
        ensures
            r == self.spec_key(),
    ;
}

/// A record with an identifier that can be copied.
pub trait Record: Keyed {
    /// A copy of the record.
    fn copy_record(&self) -> (r: Self)
        ensures
            r.spec_key() == self.spec_key(),
            self.same_record(r),
    ;

    /// Whether `other` holds the same values as `self`.
    spec fn same_record(&self, other: Self) -> bool;
}

/// The records, in increasing order of identifier, and the next identifier.
pub struct IdTable<T> {
    items: Vec<T>,
    next: u64,
}

/// Identifiers strictly increase along the sequence and stay below `next`.
pub open spec fn sorted_below<T: Keyed>(s: Seq<T>, next: u64) -> bool {
    &&& forall|i: int, j: int| 0 <= i < j < s.len() ==> #[trigger] s[i].spec_key() < #[trigger] s[j].spec_key()
    &&& forall|i: int| 0 <= i < s.len() ==> #[trigger] s[i].spec_key() < next
}

/// The position of the record with identifier `id`, if there is one.
pub open spec fn has_key<T: Keyed>(s: Seq<T>, id: u64) -> bool {
    exists|i: int| 0 <= i < s.len() && #[trigger] s[i].spec_key() == id
}

impl<T: Keyed> IdTable<T> {
    /// The records.
    pub closed spec fn items(&self) -> Seq<T> {
        self.items@
    }

    /// The identifier that the next new record gets.
    pub closed spec fn next(&self) -> u64 {
        self.next
    }

    /// The table is well formed.
    pub open spec fn wf(&self) -> bool {
        sorted_below(self.items(), self.next())
    }

    /// An empty table whose first identifier is 0.
    pub fn new() -> (r: Self)
        ensures
            r.wf(),
            r.items() == Seq::<T>::empty(),
            r.next() == 0,
    {
        IdTable { items: Vec::new(), next: 0 }
    }

    /// The identifier that the next new record gets.
    pub fn next_id(&self) -> (r: u64)
        ensures
            r == self.next(),
    {
        self.next
    }

    /// The number of records.
    pub fn len(&self) -> (r: usize)
        ensures
            r == self.items().len(),
    {
        self.items.len()
    }

    /// The record at position `i`.
    pub fn at(&self, i: usize) -> (r: &T)
        requires
            i < self.items().len(),
        ensures
            *r == self.items()[i as int],
    {
        &self.items[i]
    }

    /// The record at position `i`, to change in place.  The table stays
    /// well formed when the record keeps its identifier.
    pub fn at_mut(&mut self, i: usize) -> (r: &mut T)
        requires
            i < old(self).items().len(),
        ensures
            *r == old(self).items()[i as int],
            final(self).items() == old(self).items().update(i as int, *final(r)),
            final(self).next() == old(self).next(),
    {
        &mut self.items[i]
    }

    /// The position of the record with identifier `id`.
    pub fn find(&self, id: u64) -> (r: Option<usize>)
        requires
            self.wf(),
        ensures
            r matches Some(i) ==> i < self.items().len() && self.items()[i as int].spec_key() == id,
            r is None <==> !has_key(self.items(), id),
    {
        let mut i: usize = 0;
        while i < self.items.len()
            invariant
                i <= self.items@.len(),
                forall|k: int| 0 <= k < i ==> #[trigger] self.items@[k].spec_key() != id,
            decreases self.items@.len() - i,
        {
            if self.items[i].key() == id {
                return Some(i);
            }
            i = i + 1;
        }
        None
    }

    /// Appends a new record, which carries the next identifier.
    pub fn push_new(&mut self, item: T)
        requires
            old(self).wf(),
            item.spec_key() == old(self).next(),
            old(self).next() < u64::MAX,
        ensures
            final(self).wf(),
            final(self).items() == old(self).items().push(item),
            final(self).next() == old(self).next() + 1,
    {
        self.items.push(item);
        self.next = self.next + 1;
    }

    /// Removes the record with identifier `id`; false when there is none.
    pub fn remove(&mut self, id: u64) -> (r: bool)
        requires
            old(self).wf(),
        ensures
            final(self).wf(),
            final(self).next() == old(self).next(),
            r == has_key(old(self).items(), id),
            !r ==> final(self).items() == old(self).items(),
            r ==> exists|i: int| 0 <= i < old(self).items().len()
                && old(self).items()[i].spec_key() == id
                && final(self).items() == #[trigger] old(self).items().remove(i),
    {
        match self.find(id) {
            Some(i) => {
                self.items.remove(i);
                proof {
                    assert(self.items@ == old(self).items@.remove(i as int));
                }
                true
            },
            None => false,
        }
    }

    /// Puts `item` in the place of the record with the same identifier; false
    /// when there is none.
    pub fn replace(&mut self, item: T) -> (r: bool)
        requires
            old(self).wf(),
        ensures
            final(self).wf(),
            final(self).next() == old(self).next(),
            r == has_key(old(self).items(), item.spec_key()),
            !r ==> final(self).items() == old(self).items(),
            r ==> exists|i: int| 0 <= i < old(self).items().len()
                && old(self).items()[i].spec_key() == item.spec_key()
                && final(self).items() == #[trigger] old(self).items().update(i, item),
    {
        let id = item.key();
        match self.find(id) {
            Some(i) => {
                self.items.set(i, item);
                true
            },
            None => false,
        }
    }
}

impl<T: Record> IdTable<T> {
    /// Copies of all records, in increasing order of identifier.
    pub fn copy_all(&self) -> (r: Vec<T>)
        ensures
            r@.len() == self.items().len(),
            forall|i: int| 0 <= i < r@.len() ==> #[trigger] self.items()[i].same_record(r@[i])
                && r@[i].spec_key() == self.items()[i].spec_key(),
    {
        let mut r: Vec<T> = Vec::new();
        let mut i: usize = 0;
        while i < self.items.len()
            invariant
                i <= self.items@.len(),
                r@.len() == i,
                forall|k: int| 0 <= k < i ==> #[trigger] self.items@[k].same_record(r@[k])
                    && r@[k].spec_key() == self.items@[k].spec_key(),
            decreases self.items@.len() - i,
        {
            r.push(self.items[i].copy_record());
            i = i + 1;
        }
        r
    }

}

/// Putting a record with the same identifier in place keeps a table well formed.
pub proof fn lemma_update_same_key<T: Keyed>(s: Seq<T>, next: u64, i: int, x: T)
    requires
        sorted_below(s, next),
        0 <= i < s.len(),
        x.spec_key() == s[i].spec_key(),
    ensures
        sorted_below(s.update(i, x), next),
{
    let t = s.update(i, x);
    assert forall|a: int, b: int| 0 <= a < b < t.len() implies #[trigger] t[a].spec_key() < #[trigger] t[b].spec_key() by {
        assert(s[a].spec_key() < s[b].spec_key());
    }
    assert forall|a: int| 0 <= a < t.len() implies #[trigger] t[a].spec_key() < next by {
        assert(s[a].spec_key() < next);
    }
}

/// In a well-formed table there is at most one record per identifier.
pub proof fn lemma_unique_key<T: Keyed>(s: Seq<T>, next: u64, i: int, j: int)
    requires
        sorted_below(s, next),
        0 <= i < s.len(),
        0 <= j < s.len(),
        s[i].spec_key() == s[j].spec_key(),
    ensures
        i == j,
{
    if i < j {
        assert(s[i].spec_key() < s[j].spec_key());
    } else if j < i {
        assert(s[j].spec_key() < s[i].spec_key());
    }
}

} // verus!
