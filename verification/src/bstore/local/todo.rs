//! Todos of one times in the key/value database.
//!
//! Keys:
//!   `{tid}/todos/meta.data`  the todo metadata
//!   `{tid}/todos/{tdid}`     one todo

use vstd::prelude::*;

use crate::text::{decimal, decimal_pair, decimal_then, lemma_number_pair_injective, is_digit};
use crate::time::{utc_now, DateTime};
use crate::types::{Tdid, Tid, Todo};

verus! {

/// The key of the todo metadata of times `tid`.
pub open spec fn todo_meta_key(tid: Tid) -> Seq<char> {
    decimal(tid as nat) + "/todos/meta.data"@
}

/// The key of todo `tdid` of times `tid`.
pub open spec fn todo_key(tid: Tid, tdid: Tdid) -> Seq<char> {
    decimal(tid as nat) + "/todos/"@ + decimal(tdid as nat)
}

/// The key of the todo metadata of times `tid`.
pub fn get_meta_path(tid: Tid) -> (r: String)
    ensures
        r@ == todo_meta_key(tid),
{
    decimal_then(tid, "/todos/meta.data")
}

/// The key of todo `tdid` of times `tid`.
pub fn get_todo_path(tid: Tid, tdid: Tdid) -> (r: String)
    ensures
        r@ == todo_key(tid, tdid),
{
    decimal_pair(tid, "/todos/", tdid)
}

/// Two todos share a key only when they are the same todo of the same
/// times.
pub proof fn law_todo_keys_distinct(t1: Tid, d1: Tdid, t2: Tid, d2: Tdid)
    requires
        todo_key(t1, d1) == todo_key(t2, d2),
    ensures
        t1 == t2,
        d1 == d2,
{
    reveal_strlit("/todos/");
    assert(!is_digit("/todos/"@[0]));
    lemma_number_pair_injective(t1 as nat, d1 as nat, t2 as nat, d2 as nat, "/todos/"@);
}

/// The todo metadata of a times: the identifier to hand out next and the
/// identifiers of the stored todos, in the order they were added.
#[derive(Debug)]
pub struct TodoMeta {
    pub ntdid: Tdid,
    pub tdids: Vec<Tdid>,
}

/// The first place of `id` in `s`.
pub open spec fn first_index(s: Seq<u64>, id: u64, i: int) -> bool {
    0 <= i < s.len() && s[i] == id && forall|j: int| 0 <= j < i ==> s[j] != id
}

/// The todos of one times.
pub struct LocalTodoStore {
    tid: Tid,
    meta: TodoMeta,
}

impl LocalTodoStore {
    /// The times the todos belong to.
    pub closed spec fn tid(&self) -> Tid {
        self.tid
    }

    /// The next todo identifier.
    pub closed spec fn ntdid(&self) -> Tdid {
        self.meta.ntdid
    }

    /// The identifiers of the stored todos.
    pub closed spec fn tdids(&self) -> Seq<Tdid> {
        self.meta.tdids@
    }

    /// The store of times `tid`, from the metadata found in the database;
    /// metadata that is not there yet starts empty.
    pub fn new(tid: Tid, meta: Option<TodoMeta>) -> (r: Self)
        ensures
            r.tid() == tid,
            match meta {
                Some(m) => r.ntdid() == m.ntdid && r.tdids() == m.tdids@,
                None => r.ntdid() == 0 && r.tdids() == Seq::<Tdid>::empty(),
            },
    {
        let meta = match meta {
            Some(m) => m,
            None => TodoMeta { ntdid: 0, tdids: Vec::new() },
        };
        LocalTodoStore { tid, meta }
    }

    /// The todo metadata as it is to be written.
    pub fn meta(&self) -> (r: &TodoMeta)
        ensures
            r.ntdid == self.ntdid(),
            r.tdids@ == self.tdids(),
    {
        &self.meta
    }

    /// The keys of the stored todos, in the order they were added.
    pub fn todo_keys(&self) -> (r: Vec<String>)
        ensures
            r.len() == self.tdids().len(),
            forall|i: int| 0 <= i < r.len() ==> #[trigger] r[i]@ == todo_key(self.tid(), self.tdids()[i]),
    {
        let mut r: Vec<String> = Vec::new();
        let mut i: usize = 0;
        while i < self.meta.tdids.len()
            invariant
                i <= self.meta.tdids.len(),
                r.len() == i,
                forall|k: int| 0 <= k < i ==> #[trigger] r[k]@ == todo_key(self.tid, self.meta.tdids@[k]),
            decreases self.meta.tdids.len() - i,
        {
            r.push(get_todo_path(self.tid, self.meta.tdids[i]));
            i = i + 1;
        }
        r
    }

    /// The key of todo `tdid` of this times.
    pub fn todo_path(&self, tdid: Tdid) -> (r: String)
        ensures
            r@ == todo_key(self.tid(), tdid),
    {
        get_todo_path(self.tid, tdid)
    }

    /// Makes a todo with the next identifier, created at `now`, no detail,
    /// and not done; gives the todo and the key to store it under.
    pub fn new_todo_at(&mut self, content: String, now: DateTime) -> (r: (Todo, String))
        requires
            old(self).ntdid() < u64::MAX,
        ensures
            r.0.id == old(self).ntdid(),
            r.0.content@ == content@,
            r.0.detail is None,
            r.0.done_at is None,
            r.1@ == todo_key(old(self).tid(), r.0.id),
            final(self).tid() == old(self).tid(),
            final(self).ntdid() == old(self).ntdid() + 1,
            final(self).tdids() == old(self).tdids().push(r.0.id),
            r.0.created_at == now,
    {
        let id = self.meta.ntdid;
        let todo = Todo { id, content, detail: None, created_at: now, done_at: None };
        let key = get_todo_path(self.tid, id);
        self.meta.ntdid = self.meta.ntdid + 1;
        self.meta.tdids.push(id);
        (todo, key)
    }

    /// Makes a todo as `new_todo_at` does, at the current time of the clock.
    pub fn new_todo(&mut self, content: String) -> (r: (Todo, String))
        requires
            old(self).ntdid() < u64::MAX,
        ensures
            r.0.id == old(self).ntdid(),
            r.0.content@ == content@,
            r.0.detail is None,
            r.0.done_at is None,
            r.1@ == todo_key(old(self).tid(), r.0.id),
            final(self).tid() == old(self).tid(),
            final(self).ntdid() == old(self).ntdid() + 1,
            final(self).tdids() == old(self).tdids().push(r.0.id),
    {
        let now = utc_now();
        self.new_todo_at(content, now)
    }

    /// Marks the todo `tdid`, as read from the database (`None` when it
    /// could not be read), done at the point `now` or not done.  A todo
    /// that is missing or already in the asked state is refused; otherwise
    /// the new todo and the key to write it under are given.
    pub fn mark_done(&self, tdid: Tdid, done: bool, stored: Option<Todo>, now: DateTime) -> (r: Result<(Todo, String), String>)
        ensures
            match stored {
                None => (r matches Err(e) && e@ == "invalid tid"@),
                Some(t) => if (t.done_at is Some) == done {
                    r matches Err(e) && e@ == "invalid state"@
                } else {
                    r matches Ok(p) && {
                        let (n, key) = p;
                        &&& n.id == t.id
                        &&& n.content == t.content
                        &&& n.detail == t.detail
                        &&& n.created_at == t.created_at
                        &&& (n.done_at is Some) == done
                        &&& key@ == todo_key(self.tid(), tdid)
                    }
                },
            },
            r matches Ok(p) ==> p.0.done_at == (if done { Some(now) } else { None::<DateTime> }),
    {
        match stored {
            None => Err(String::from_str("invalid tid")),
            Some(t) => {
                if t.done_at.is_some() == done {
                    return Err(String::from_str("invalid state"));
                }
                let mut t = t;
                t.done_at = if done { Some(now) } else { None };
                Ok((t, get_todo_path(self.tid, tdid)))
            },
        }
    }

    /// Marks the todo `tdid`, as read from the database (`None` when it
    /// could not be read), done at the current time or not done.  A todo
    /// that is missing or already in the asked state is refused; otherwise
    /// the new todo and the key to write it under are given.
    pub fn done(&self, tdid: Tdid, done: bool, stored: Option<Todo>) -> (r: Result<(Todo, String), String>)
        ensures
            match stored {
                None => (r matches Err(e) && e@ == "invalid tid"@),
                Some(t) => if (t.done_at is Some) == done {
                    r matches Err(e) && e@ == "invalid state"@
                } else {
                    r matches Ok(p) && {
                        let (n, key) = p;
                        &&& n.id == t.id
                        &&& n.content == t.content
                        &&& n.detail == t.detail
                        &&& n.created_at == t.created_at
                        &&& (n.done_at is Some) == done
                        &&& key@ == todo_key(self.tid(), tdid)
                    }
                },
            },
            r matches Ok(p) ==> done ==> exists|now: DateTime| p.0.done_at == Some(now),
    {
        let now = utc_now();
        self.mark_done(tdid, done, stored, now)
    }

    /// Gives `todo` back with the key of its identifier to write it under,
    /// when a todo is stored there (`exists`); otherwise refuses it.
    pub fn update(&self, todo: Todo, exists: bool) -> (r: Result<(Todo, String), String>)
        ensures
            !exists ==> (r matches Err(e) && e@ == "Todo not found"@),
            exists ==> (r matches Ok(p) && p.0 == todo && p.1@ == todo_key(self.tid(), todo.id)),
    {
        if !exists {
            return Err(String::from_str("Todo not found"));
        }
        let key = get_todo_path(self.tid, todo.id);
        Ok((todo, key))
    }

    /// Takes the first `tdid` out of the todo identifiers and gives the key
    /// of the todo to delete; a todo that is not listed is refused and
    /// nothing changes.
    pub fn delete(&mut self, tdid: Tdid) -> (r: Result<String, String>)
        ensures
            final(self).tid() == old(self).tid(),
            final(self).ntdid() == old(self).ntdid(),
            !old(self).tdids().contains(tdid) ==> (r matches Err(e) && e@ == "Todo not found"@
                && final(self).tdids() == old(self).tdids()),
            old(self).tdids().contains(tdid) ==> (r matches Ok(key) && key@ == todo_key(old(self).tid(), tdid)
                && exists|i: int| first_index(old(self).tdids(), tdid, i)
                    && final(self).tdids() == old(self).tdids().remove(i)),
    {
        let mut i: usize = 0;
        while i < self.meta.tdids.len()
            invariant
                i <= self.meta.tdids.len(),
                forall|j: int| 0 <= j < i ==> self.meta.tdids@[j] != tdid,
                self.meta.tdids@ == old(self).meta.tdids@,
                self.tid == old(self).tid,
                self.meta.ntdid == old(self).meta.ntdid,
            ensures
                i <= self.meta.tdids.len(),
                forall|j: int| 0 <= j < i ==> self.meta.tdids@[j] != tdid,
                i < self.meta.tdids.len() ==> self.meta.tdids@[i as int] == tdid,
                self.meta.tdids@ == old(self).meta.tdids@,
                self.tid == old(self).tid,
                self.meta.ntdid == old(self).meta.ntdid,
            decreases self.meta.tdids.len() - i,
        {
            if self.meta.tdids[i] == tdid {
                break;
            }
            i = i + 1;
        }
        if i == self.meta.tdids.len() {
            return Err(String::from_str("Todo not found"));
        }
        proof {
            assert(first_index(old(self).tdids(), tdid, i as int));
        }
        self.meta.tdids.remove(i);
        Ok(get_todo_path(self.tid, tdid))
    }
}

} // verus!
