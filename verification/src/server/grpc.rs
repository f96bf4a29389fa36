//! The requests of the gRPC front, answered from a store kept in memory.

use vstd::prelude::*;

use crate::bstore::ram::{has_todo, post_created, post_deleted, unit_res_view, RamStore, RamTimesStore};
use crate::grpc;
use crate::grpc::{is_post_msg, is_times_msg, is_times_of, is_todo_msg};
use crate::text::{concat, decimal, decimal_string};
use crate::types::{PostV, TagV, Tdid, Tid, TodoV};

verus! {

/// The class of a refused request.
#[derive(Clone, Copy, Debug, PartialEq, Eq)]
pub enum Code {
    Aborted,
    NotFound,
    InvalidArgument,
}

/// A refused request: its class and a message.
#[derive(Clone, Debug, PartialEq, Eq)]
pub struct Status {
    pub code: Code,
    pub message: String,
}

impl Status {
    /// A status of class `code` with the message `message`.
    pub fn new(code: Code, message: String) -> (r: Status)
        ensures
            r.code == code,
            r.message == message,
    {
        Status { code, message }
    }

    /// The class of the status.
    pub fn code(&self) -> (r: Code)
        ensures
            r == self.code,
    {
        self.code
    }
}

/// A refusal of class `code` with the message `msg`.
pub open spec fn refused<T>(r: Result<T, Status>, code: Code, msg: Seq<char>) -> bool {
    r matches Err(s) && s.code == code && s.message@ == msg
}

/// The message of a missing times.
pub open spec fn times_not_found(tid: Tid) -> Seq<char> {
    "Times with id "@ + decimal(tid as nat) + " not found"@
}

/// The message of a missing todo.
pub open spec fn todo_not_found(tdid: Tdid) -> Seq<char> {
    "Todo with id "@ + decimal(tdid as nat) + " not found"@
}

/// `i` is the first times store whose times has identifier `tid`.
pub open spec fn first_times(s: Seq<RamTimesStore>, tid: Tid, i: int) -> bool {
    &&& 0 <= i < s.len()
    &&& s[i].times().id == tid
    &&& forall|k: int| 0 <= k < i ==> #[trigger] s[k].times().id != tid
}

/// No times store holds a times with identifier `tid`.
pub open spec fn no_times(s: Seq<RamTimesStore>, tid: Tid) -> bool {
    forall|k: int| 0 <= k < s.len() ==> #[trigger] s[k].times().id != tid
}

/// Only the times store at `i` may differ between `s` and `t`.
pub open spec fn only_at(s: Seq<RamTimesStore>, t: Seq<RamTimesStore>, i: int) -> bool {
    &&& t.len() == s.len()
    &&& forall|k: int| 0 <= k < s.len() && k != i ==> #[trigger] t[k] == s[k]
}

/// Only the posts of the times store at `i` may differ between `s` and `t`.
pub open spec fn posts_only_at(s: Seq<RamTimesStore>, t: Seq<RamTimesStore>, i: int) -> bool {
    &&& only_at(s, t, i)
    &&& t[i].times() == s[i].times()
    &&& t[i].todo_store() == s[i].todo_store()
    &&& t[i].post_store().tags() == s[i].post_store().tags()
    &&& t[i].post_store().ntagid() == s[i].post_store().ntagid()
}

/// Only the todos of the times store at `i` may differ between `s` and `t`.
pub open spec fn todos_only_at(s: Seq<RamTimesStore>, t: Seq<RamTimesStore>, i: int) -> bool {
    &&& only_at(s, t, i)
    &&& t[i].times() == s[i].times()
    &&& t[i].post_store() == s[i].post_store()
}

/// Posts can still be numbered in the times store that `tid` names.
pub open spec fn post_room(s: Seq<RamTimesStore>, tid: Tid) -> bool {
    forall|k: int| #[trigger] first_times(s, tid, k) ==> s[k].post_store().npid() < u64::MAX
}

/// Todos can still be numbered in the times store that `tid` names.
pub open spec fn todo_room(s: Seq<RamTimesStore>, tid: Tid) -> bool {
    forall|k: int| #[trigger] first_times(s, tid, k) ==> s[k].todo_store().ntdid() < u64::MAX
}

/// A store's error, passed on as an aborted request.
pub open spec fn aborted_as<T, U>(rv: Result<T, Seq<char>>, r: Result<U, Status>) -> bool {
    rv matches Err(e) ==> refused(r, Code::Aborted, e)
}

/// The outcome of a request that carries nothing on success, as a store
/// outcome: the message of a refusal.
pub open spec fn unit_status(r: Result<(), Status>) -> Result<(), Seq<char>> {
    match r {
        Ok(_) => Ok(()),
        Err(s) => Err(s.message@),
    }
}

/// The outcome of replacing the post `p`, answered with its message.
pub open spec fn post_updated_msg(old: Seq<PostV>, new: Seq<PostV>, p: PostV, r: Result<grpc::Post, Status>) -> bool {
    if crate::bstore::ram::has_post(old, p.id) {
        &&& exists|i: int| 0 <= i < old.len() && old[i].id == p.id && new == #[trigger] old.update(i, p)
        &&& r matches Ok(m) && is_post_msg(m, p)
    } else {
        refused(r, Code::Aborted, "invalid pid"@) && new == old
    }
}

/// The outcome of marking the todo `tdid` done or not done, answered with
/// the message of the todo.
pub open spec fn todo_done_msg(old: Seq<TodoV>, new: Seq<TodoV>, tdid: Tdid, done: bool, r: Result<grpc::Todo, Status>) -> bool {
    if !has_todo(old, tdid) {
        refused(r, Code::Aborted, "invalid tid"@) && new == old
    } else {
        exists|i: int| 0 <= i < old.len() && #[trigger] old[i].id == tdid && {
            let o = old[i];
            if (o.done_at is Some) == done {
                refused(r, Code::Aborted, "invalid state"@) && new == old
            } else {
                let t = new[i];
                &&& new == old.update(i, t)
                &&& t.id == tdid && t.content == o.content && t.detail == o.detail && t.created_at == o.created_at
                &&& (t.done_at is Some) == done
                &&& r matches Ok(m) && is_todo_msg(m, t)
            }
        }
    }
}

/// The server of the gRPC front.
/// The outcome of replacing the first times with the identifier of the
/// message `request` by the times of the message, in the store `o`, leaving
/// `n`: a missing times is not found and nothing changes; otherwise only
/// that times changes, to the message's, and is answered.
pub open spec fn times_updated(o: RamStore, n: RamStore, request: grpc::Times, r: Result<grpc::Times, Status>) -> bool {
    &&& n.wf()
    &&& n.tids() == o.tids()
    &&& n.ntid() == o.ntid()
    &&& no_times(o.stores(), request.id) ==> refused(r, Code::NotFound, times_not_found(request.id)) && n == o
    &&& forall|i: int| #[trigger] first_times(o.stores(), request.id, i) ==> {
        let s = o.stores();
        let t = n.stores();
        &&& only_at(s, t, i)
        &&& is_times_of(t[i].times(), request)
        &&& t[i].post_store() == s[i].post_store()
        &&& t[i].todo_store() == s[i].todo_store()
        &&& r matches Ok(m) && is_times_msg(m, t[i].times())
    }
}

/// The outcome of replacing a post of the first times with the asked
/// identifier by the post of the message, in the store `o`, leaving `n`:
/// a request without a post is invalid, a missing times is not found, and
/// otherwise only that times' posts change as the post store's update does.
pub open spec fn post_update_done(o: RamStore, n: RamStore, request: grpc::UpdatePostParam, r: Result<grpc::Post, Status>) -> bool {
    &&& n.wf()
    &&& n.tids() == o.tids()
    &&& n.ntid() == o.ntid()
    &&& request.post is None ==> refused(r, Code::InvalidArgument, "Post data is required"@) && n == o
    &&& request.post is Some && no_times(o.stores(), request.tid) ==> refused(r, Code::NotFound, times_not_found(request.tid)) && n == o
    &&& forall|i: int| request.post is Some && #[trigger] first_times(o.stores(), request.tid, i) ==> {
        let s = o.stores();
        let t = n.stores();
        let m = request.post.unwrap();
        &&& posts_only_at(s, t, i)
        &&& t[i].post_store().npid() == s[i].post_store().npid()
        &&& post_updated_msg(s[i].post_store().posts(), t[i].post_store().posts(), grpc::post_of_msg(m), r)
    }
}

/// The answer to a message whose times chrono cannot read.
pub open spec fn unreadable_refusal() -> Seq<char> {
    "Invalid timestamp"@
}

pub struct TMServer {
    store: RamStore,
}

impl TMServer {
    /// The store the server answers from.
    pub closed spec fn store(&self) -> RamStore {
        self.store
    }

    /// A server over `store`.
    pub fn new(store: RamStore) -> (r: TMServer)
        ensures
            r.store() == store,
    {
        TMServer { store }
    }

    /// A server over an empty memory store.
    pub fn new_memory() -> (r: TMServer)
        ensures
            r.store().wf(),
            r.store().stores() == Seq::<RamTimesStore>::empty(),
            r.store().ntid() == 0,
    {
        TMServer { store: RamStore::new() }
    }

    /// The position of the first times store whose times has identifier `tid`.
    fn find_times(&self, tid: Tid) -> (r: Option<usize>)
        requires
            self.store().wf(),
        ensures
            r matches Some(i) ==> first_times(self.store().stores(), tid, i as int),
            r is None ==> no_times(self.store().stores(), tid),
    {
        let mut i: usize = 0;
        while i < self.store.len()
            invariant
                self.store().wf(),
                i <= self.store().stores().len(),
                forall|k: int| 0 <= k < i ==> #[trigger] self.store().stores()[k].times().id != tid,
            decreases self.store().stores().len() - i,
        {
            let ts = self.store.tstore(i);
            let id = match ts.get() {
                Ok(t) => t.id,
                Err(_) => {
                    proof { assert(false); }
                    0
                },
            };
            if id == tid {
                return Some(i);
            }
            i = i + 1;
        }
        None
    }

    /// The refusal of a missing times.
    fn times_not_found_status(tid: Tid) -> (r: Status)
        ensures
            r.code == Code::NotFound,
            r.message@ == times_not_found(tid),
    {
        let s = concat("Times with id ", decimal_string(tid).as_str());
        Status::new(Code::NotFound, concat(s.as_str(), " not found"))
    }

    /// The refusal of a missing todo.
    fn todo_not_found_status(tdid: Tdid) -> (r: Status)
        ensures
            r.code == Code::NotFound,
            r.message@ == todo_not_found(tdid),
    {
        let s = concat("Todo with id ", decimal_string(tdid).as_str());
        Status::new(Code::NotFound, concat(s.as_str(), " not found"))
    }

    /// Every times, in the order of the store.
    pub fn get_times(&self) -> (r: Result<grpc::TimesArray, Status>)
        requires
            self.store().wf(),
        ensures
            r matches Ok(a) && a.timeses@.len() == self.store().stores().len()
                && forall|k: int| 0 <= k < a.timeses@.len()
                    ==> is_times_msg(#[trigger] a.timeses@[k], self.store().stores()[k].times()),
    {
        let ts = match self.store.get() {
            Ok(ts) => ts,
            Err(e) => {
                proof { assert(false); }
                return Err(Status::new(Code::Aborted, e));
            },
        };
        let mut timeses: Vec<grpc::Times> = Vec::new();
        let mut i: usize = 0;
        while i < ts.len()
            invariant
                i <= ts@.len(),
                ts@.len() == self.store().stores().len(),
                forall|k: int| 0 <= k < ts@.len() ==> #[trigger] ts@[k]@ == self.store().stores()[k].times(),
                timeses@.len() == i,
                forall|k: int| 0 <= k < i ==> is_times_msg(#[trigger] timeses@[k], self.store().stores()[k].times()),
            decreases ts@.len() - i,
        {
            let m = grpc::Times::from_model(ts[i].duplicate());
            timeses.push(m);
            i = i + 1;
        }
        Ok(grpc::TimesArray { timeses })
    }

    /// Creates a times titled as asked.
    pub fn create_times(&mut self, request: grpc::TimesTitle) -> (r: Result<grpc::Times, Status>)
        requires
            old(self).store().wf(),
            old(self).store().ntid() < u64::MAX,
        ensures
            final(self).store().wf(),
            final(self).store().ntid() == old(self).store().ntid() + 1,
            final(self).store().tids() == old(self).store().tids().push(old(self).store().ntid()),
            final(self).store().stores().len() == old(self).store().stores().len() + 1,
            forall|k: int| 0 <= k < old(self).store().stores().len()
                ==> #[trigger] final(self).store().stores()[k] == old(self).store().stores()[k],
            r matches Ok(m) && m.id == old(self).store().ntid() && m.title@ == request.title@ && {
                let s = final(self).store().stores().last();
                &&& is_times_msg(m, s.times())
                &&& s.times().updated_at is None
                &&& s.post_store().posts() == Seq::<PostV>::empty()
                &&& s.post_store().tags() == Seq::<TagV>::empty()
                &&& s.todo_store().todos() == Seq::<TodoV>::empty()
                &&& s.post_store().npid() == 0
                &&& s.post_store().ntagid() == 0
                &&& s.todo_store().ntdid() == 0
            },
    {
        let t = match self.store.create(request.title) {
            Ok(t) => t,
            Err(e) => {
                proof { assert(false); }
                return Err(Status::new(Code::Aborted, e));
            },
        };
        Ok(grpc::Times::from_model(t))
    }

    /// Removes the times kept under the asked identifier.
    pub fn delete_times(&mut self, request: grpc::TimesId) -> (r: Result<(), Status>)
        requires
            old(self).store().wf(),
        ensures
            final(self).store().wf(),
            final(self).store().ntid() == old(self).store().ntid(),
            r is Ok <==> old(self).store().tids().contains(request.id),
            r is Err ==> refused(r, Code::Aborted, "invalid tid"@)
                && final(self).store().stores() == old(self).store().stores()
                && final(self).store().tids() == old(self).store().tids(),
            r is Ok ==> exists|i: int| 0 <= i < old(self).store().tids().len()
                && old(self).store().tids()[i] == request.id
                && final(self).store().tids() == old(self).store().tids().remove(i)
                && final(self).store().stores() == #[trigger] old(self).store().stores().remove(i),
    {
        match self.store.delete(request.id) {
            Ok(()) => Ok(()),
            Err(e) => Err(Status::new(Code::Aborted, e)),
        }
    }

    /// Replaces the first times with the identifier of the message by the
    /// times of the message.
    pub fn update_times(&mut self, request: grpc::Times) -> (r: Result<grpc::Times, Status>)
        requires
            old(self).store().wf(),
            request.readable(),
        ensures
            times_updated(old(self).store(), final(self).store(), request, r),
    {
        let times = request.into_model();
        let tid = times.id;
        match self.find_times(tid) {
            None => Err(Self::times_not_found_status(tid)),
            Some(i) => {
                let ghost s = self.store().stores();
                proof { self.store.lemma_wf(); }
                assert(s[i as int].wf());
                let ts = self.store.tstore_mut(i);
                assert(ts.wf());
                let updated = match ts.update(times) {
                    Ok(t) => t,
                    Err(e) => {
                        proof { assert(false); }
                        return Err(Status::new(Code::Aborted, e));
                    },
                };
                assert(ts.wf());
                Ok(grpc::Times::from_model(updated))
            },
        }
    }

    /// The posts of the first times with the asked identifier.
    pub fn get_posts(&self, request: grpc::TimesId) -> (r: Result<grpc::PostArray, Status>)
        requires
            self.store().wf(),
        ensures
            no_times(self.store().stores(), request.id) ==> refused(r, Code::NotFound, times_not_found(request.id)),
            forall|i: int| #[trigger] first_times(self.store().stores(), request.id, i) ==> {
                let ps = self.store().stores()[i].post_store().posts();
                r matches Ok(a) && a.posts@.len() == ps.len()
                    && forall|k: int| 0 <= k < ps.len() ==> is_post_msg(#[trigger] a.posts@[k], ps[k])
            },
    {
        match self.find_times(request.id) {
            None => Err(Self::times_not_found_status(request.id)),
            Some(i) => {
                proof { self.store.lemma_wf(); }
                let ts = self.store.tstore(i);
                assert(ts.wf());
                let posts = match ts.pstore().get_all() {
                    Ok(p) => p,
                    Err(e) => {
                        proof { assert(false); }
                        return Err(Status::new(Code::Aborted, e));
                    },
                };
                let ghost ps = ts.post_store().posts();
                let mut out: Vec<grpc::Post> = Vec::new();
                let mut k: usize = 0;
                while k < posts.len()
                    invariant
                        k <= posts@.len(),
                        posts@.len() == ps.len(),
                        forall|j: int| 0 <= j < posts@.len() ==> #[trigger] posts@[j]@ == ps[j],
                        out@.len() == k,
                        forall|j: int| 0 <= j < k ==> is_post_msg(#[trigger] out@[j], ps[j]),
                    decreases posts@.len() - k,
                {
                    out.push(grpc::Post::from_model(posts[k].duplicate()));
                    k = k + 1;
                }
                proof {
                    assert forall|j: int| 0 <= j < posts@.len() implies #[trigger] posts@[j]@ == ps[j] by {
                        assert(crate::bstore::ram::post_views(posts@)[j] == ps[j]);
                    }
                }
                Ok(grpc::PostArray { posts: out })
            },
        }
    }

    /// Records a post without a file under the first times with the asked identifier.
    pub fn create_post(&mut self, request: grpc::CreatePostPrams) -> (r: Result<grpc::Post, Status>)
        requires
            old(self).store().wf(),
            post_room(old(self).store().stores(), request.id),
        ensures
            final(self).store().wf(),
            final(self).store().tids() == old(self).store().tids(),
            final(self).store().ntid() == old(self).store().ntid(),
            no_times(old(self).store().stores(), request.id) ==> refused(r, Code::NotFound, times_not_found(request.id))
                && final(self).store() == old(self).store(),
            forall|i: int| #[trigger] first_times(old(self).store().stores(), request.id, i) ==> {
                let s = old(self).store().stores();
                let t = final(self).store().stores();
                &&& posts_only_at(s, t, i)
                &&& t[i].post_store().npid() == s[i].post_store().npid() + 1
                &&& exists|p: PostV| post_created(s[i].post_store().posts(), s[i].post_store().npid(),
                        t[i].post_store().posts(), request.text@, None, p)
                        && (r matches Ok(m) && is_post_msg(m, p))
            },
    {
        match self.find_times(request.id) {
            None => Err(Self::times_not_found_status(request.id)),
            Some(i) => {
                proof { self.store.lemma_wf(); }
                let ghost s = self.store().stores();
                assert(s[i as int].wf());
                assert(s[i as int].post_store().npid() < u64::MAX);
                let ts = self.store.tstore_mut(i);
                assert(ts.wf());
                let ps = ts.pstore_mut();
                let post = match ps.post(request.text, None) {
                    Ok(p) => p,
                    Err(e) => {
                        proof { assert(false); }
                        return Err(Status::new(Code::Aborted, e));
                    },
                };
                assert(ts.wf());
                Ok(grpc::Post::from_model(post))
            },
        }
    }

    /// Removes a post of the first times with the asked identifier.
    pub fn delete_post(&mut self, request: grpc::DeletePostParam) -> (r: Result<(), Status>)
        requires
            old(self).store().wf(),
        ensures
            final(self).store().wf(),
            final(self).store().tids() == old(self).store().tids(),
            final(self).store().ntid() == old(self).store().ntid(),
            no_times(old(self).store().stores(), request.tid) ==> refused(r, Code::NotFound, times_not_found(request.tid))
                && final(self).store() == old(self).store(),
            forall|i: int| #[trigger] first_times(old(self).store().stores(), request.tid, i) ==> {
                let s = old(self).store().stores();
                let t = final(self).store().stores();
                &&& posts_only_at(s, t, i)
                &&& t[i].post_store().npid() == s[i].post_store().npid()
                &&& post_deleted(s[i].post_store().posts(), t[i].post_store().posts(), request.pid, unit_status(r))
                &&& r matches Err(st) ==> st.code == Code::Aborted
            },
    {
        match self.find_times(request.tid) {
            None => Err(Self::times_not_found_status(request.tid)),
            Some(i) => {
                proof { self.store.lemma_wf(); }
                let ghost s = self.store().stores();
                assert(s[i as int].wf());
                let ts = self.store.tstore_mut(i);
                assert(ts.wf());
                let ps = ts.pstore_mut();
                let res = ps.delete(request.pid);
                let ghost rv = unit_res_view(res);
                assert(ts.wf());
                match res {
                    Ok(()) => Ok(()),
                    Err(e) => Err(Status::new(Code::Aborted, e)),
                }
            },
        }
    }

    /// Replaces a post of the first times with the asked identifier by the
    /// post of the message.
    pub fn update_post(&mut self, request: grpc::UpdatePostParam) -> (r: Result<grpc::Post, Status>)
        requires
            old(self).store().wf(),
            request.post matches Some(m) ==> m.readable() || no_times(old(self).store().stores(), request.tid),
        ensures
            post_update_done(old(self).store(), final(self).store(), request, r),
    {
        let post_data = match request.post {
            Some(p) => p,
            None => {
                return Err(Status::new(Code::InvalidArgument, String::from_str("Post data is required")));
            },
        };
        match self.find_times(request.tid) {
            None => Err(Self::times_not_found_status(request.tid)),
            Some(i) => {
                let post = post_data.into_model();
                proof { self.store.lemma_wf(); }
                let ghost s = self.store().stores();
                assert(s[i as int].wf());
                let ts = self.store.tstore_mut(i);
                assert(ts.wf());
                let ps = ts.pstore_mut();
                proof { grpc::lemma_post_of_msg(post@, post_data); }
                let res = ps.update(post);
                assert(ts.wf());
                match res {
                    Ok(p) => Ok(grpc::Post::from_model(p)),
                    Err(e) => Err(Status::new(Code::Aborted, e)),
                }
            },
        }
    }

    /// Replaces a times as `update_times` does when chrono can read the
    /// times of the message; a message without a creation time, or with a
    /// time chrono refuses, is refused as invalid and nothing changes.
    pub fn update_times_checked(&mut self, request: grpc::Times) -> (r: Result<grpc::Times, Status>)
        requires
            old(self).store().wf(),
        ensures
            !request.readable() ==> refused(r, Code::InvalidArgument, unreadable_refusal())
                && final(self).store() == old(self).store(),
            request.readable() ==> times_updated(old(self).store(), final(self).store(), request, r),
    {
        if !request.is_readable() {
            return Err(Status::new(Code::InvalidArgument, String::from_str("Invalid timestamp")));
        }
        self.update_times(request)
    }

    /// Replaces a post as `update_post` does when the times is found and
    /// chrono can read the times of the post; a post whose times chrono
    /// refuses, under a times that exists, is refused as invalid and
    /// nothing changes.
    pub fn update_post_checked(&mut self, request: grpc::UpdatePostParam) -> (r: Result<grpc::Post, Status>)
        requires
            old(self).store().wf(),
        ensures
            (request.post matches Some(m) && !m.readable()) && !no_times(old(self).store().stores(), request.tid)
                ==> refused(r, Code::InvalidArgument, unreadable_refusal()) && final(self).store() == old(self).store(),
            !((request.post matches Some(m) && !m.readable()) && !no_times(old(self).store().stores(), request.tid))
                ==> post_update_done(old(self).store(), final(self).store(), request, r),
    {
        let unreadable = match &request.post {
            Some(m) => !m.is_readable(),
            None => false,
        };
        if unreadable && self.find_times(request.tid).is_some() {
            return Err(Status::new(Code::InvalidArgument, String::from_str("Invalid timestamp")));
        }
        self.update_post(request)
    }

    /// The todos of the first times with the asked identifier.
    pub fn get_todos(&self, request: grpc::TimesId) -> (r: Result<grpc::TodoArray, Status>)
        requires
            self.store().wf(),
        ensures
            no_times(self.store().stores(), request.id) ==> refused(r, Code::NotFound, times_not_found(request.id)),
            forall|i: int| #[trigger] first_times(self.store().stores(), request.id, i) ==> {
                let ts = self.store().stores()[i].todo_store().todos();
                r matches Ok(a) && a.todos@.len() == ts.len()
                    && forall|k: int| 0 <= k < ts.len() ==> is_todo_msg(#[trigger] a.todos@[k], ts[k])
            },
    {
        match self.find_times(request.id) {
            None => Err(Self::times_not_found_status(request.id)),
            Some(i) => {
                proof { self.store.lemma_wf(); }
                let ts = self.store.tstore(i);
                assert(ts.wf());
                let todos = match ts.tdstore().get() {
                    Ok(t) => t,
                    Err(e) => {
                        proof { assert(false); }
                        return Err(Status::new(Code::Aborted, e));
                    },
                };
                let ghost tv = ts.todo_store().todos();
                proof {
                    assert forall|j: int| 0 <= j < todos@.len() implies #[trigger] todos@[j]@ == tv[j] by {
                        assert(crate::bstore::ram::todo_views(todos@)[j] == tv[j]);
                    }
                }
                let mut out: Vec<grpc::Todo> = Vec::new();
                let mut k: usize = 0;
                while k < todos.len()
                    invariant
                        k <= todos@.len(),
                        todos@.len() == tv.len(),
                        forall|j: int| 0 <= j < todos@.len() ==> #[trigger] todos@[j]@ == tv[j],
                        out@.len() == k,
                        forall|j: int| 0 <= j < k ==> is_todo_msg(#[trigger] out@[j], tv[j]),
                    decreases todos@.len() - k,
                {
                    out.push(grpc::Todo::from_model(todos[k].duplicate()));
                    k = k + 1;
                }
                Ok(grpc::TodoArray { todos: out })
            },
        }
    }

    /// Records a todo under the first times with the asked identifier, with
    /// the asked detail when there is one.
    pub fn create_todo(&mut self, request: grpc::CreateTodoParams) -> (r: Result<grpc::Todo, Status>)
        requires
            old(self).store().wf(),
            todo_room(old(self).store().stores(), request.tid),
        ensures
            final(self).store().wf(),
            final(self).store().tids() == old(self).store().tids(),
            final(self).store().ntid() == old(self).store().ntid(),
            no_times(old(self).store().stores(), request.tid) ==> refused(r, Code::NotFound, times_not_found(request.tid))
                && final(self).store() == old(self).store(),
            forall|i: int| #[trigger] first_times(old(self).store().stores(), request.tid, i) ==> {
                let s = old(self).store().stores();
                let t = final(self).store().stores();
                let old_todos = s[i].todo_store().todos();
                let new_todos = t[i].todo_store().todos();
                let c = new_todos.last();
                &&& todos_only_at(s, t, i)
                &&& t[i].todo_store().ntdid() == s[i].todo_store().ntdid() + 1
                &&& new_todos.len() == old_todos.len() + 1
                &&& new_todos == old_todos.push(c)
                &&& c.id == s[i].todo_store().ntdid()
                &&& c.content == request.content@
                &&& c.detail == crate::types::opt_str_view(request.detail)
                &&& c.done_at is None
                &&& r matches Ok(m) && is_todo_msg(m, c)
            },
    {
        match self.find_times(request.tid) {
            None => Err(Self::times_not_found_status(request.tid)),
            Some(i) => {
                proof { self.store.lemma_wf(); }
                let ghost s = self.store().stores();
                assert(s[i as int].wf());
                assert(s[i as int].todo_store().ntdid() < u64::MAX);
                let ts = self.store.tstore_mut(i);
                assert(ts.wf());
                let tds = ts.tdstore_mut();
                let ghost before = tds.todos();
                let todo = match tds.new_todo(request.content) {
                    Ok(t) => t,
                    Err(e) => {
                        proof { assert(false); }
                        return Err(Status::new(Code::Aborted, e));
                    },
                };
                let ghost mid = tds.todos();
                let result = match request.detail {
                    None => todo,
                    Some(d) => {
                        let mut todo = todo;
                        todo.detail = Some(d);
                        proof {
                            tds.lemma_wf();
                            assert(mid[mid.len() - 1].id == todo.id);
                        }
                        let ghost tv = todo@;
                        match tds.update(todo) {
                            Ok(t) => {
                                proof {
                                    let j = choose|j: int| 0 <= j < mid.len() && mid[j].id == tv.id
                                        && tds.todos() == #[trigger] mid.update(j, tv);
                                    if j != mid.len() - 1 {
                                        assert(mid[j].id < mid[mid.len() - 1].id);
                                    }
                                    assert(tds.todos() =~= before.push(tv));
                                }
                                t
                            },
                            Err(e) => {
                                proof { assert(false); }
                                return Err(Status::new(Code::Aborted, e));
                            },
                        }
                    },
                };
                assert(ts.wf());
                Ok(grpc::Todo::from_model(result))
            },
        }
    }

    /// Marks a todo of the first times with the asked identifier done or not done.
    pub fn done_todo(&mut self, request: grpc::DoneTodoParams) -> (r: Result<grpc::Todo, Status>)
        requires
            old(self).store().wf(),
        ensures
            final(self).store().wf(),
            final(self).store().tids() == old(self).store().tids(),
            final(self).store().ntid() == old(self).store().ntid(),
            no_times(old(self).store().stores(), request.tid) ==> refused(r, Code::NotFound, times_not_found(request.tid))
                && final(self).store() == old(self).store(),
            forall|i: int| #[trigger] first_times(old(self).store().stores(), request.tid, i) ==> {
                let s = old(self).store().stores();
                let t = final(self).store().stores();
                &&& todos_only_at(s, t, i)
                &&& t[i].todo_store().ntdid() == s[i].todo_store().ntdid()
                &&& todo_done_msg(s[i].todo_store().todos(), t[i].todo_store().todos(), request.tdid, request.done, r)
            },
    {
        match self.find_times(request.tid) {
            None => Err(Self::times_not_found_status(request.tid)),
            Some(i) => {
                proof { self.store.lemma_wf(); }
                let ghost s = self.store().stores();
                assert(s[i as int].wf());
                let ts = self.store.tstore_mut(i);
                assert(ts.wf());
                let tds = ts.tdstore_mut();
                let res = tds.done(request.tdid, request.done);
                assert(ts.wf());
                match res {
                    Ok(t) => Ok(grpc::Todo::from_model(t)),
                    Err(e) => Err(Status::new(Code::Aborted, e)),
                }
            },
        }
    }

    /// A todo of the first times with the asked identifier.
    pub fn get_todo_detail(&self, request: grpc::TodoDetailParams) -> (r: Result<grpc::Todo, Status>)
        requires
            self.store().wf(),
        ensures
            no_times(self.store().stores(), request.tid) ==> refused(r, Code::NotFound, times_not_found(request.tid)),
            forall|i: int| #[trigger] first_times(self.store().stores(), request.tid, i) ==> {
                let ts = self.store().stores()[i].todo_store().todos();
                if has_todo(ts, request.tdid) {
                    exists|j: int| 0 <= j < ts.len() && #[trigger] ts[j].id == request.tdid
                        && (r matches Ok(m) && is_todo_msg(m, ts[j]))
                } else {
                    refused(r, Code::NotFound, todo_not_found(request.tdid))
                }
            },
    {
        match self.find_times(request.tid) {
            None => Err(Self::times_not_found_status(request.tid)),
            Some(i) => {
                proof { self.store.lemma_wf(); }
                let ts = self.store.tstore(i);
                assert(ts.wf());
                let todos = match ts.tdstore().get() {
                    Ok(t) => t,
                    Err(e) => {
                        proof { assert(false); }
                        return Err(Status::new(Code::Aborted, e));
                    },
                };
                let ghost tv = ts.todo_store().todos();
                proof {
                    assert forall|j: int| 0 <= j < todos@.len() implies #[trigger] todos@[j]@ == tv[j] by {
                        assert(crate::bstore::ram::todo_views(todos@)[j] == tv[j]);
                    }
                }
                let mut k: usize = 0;
                while k < todos.len()
                    invariant
                        k <= todos@.len(),
                        todos@.len() == tv.len(),
                        forall|j: int| 0 <= j < todos@.len() ==> #[trigger] todos@[j]@ == tv[j],
                        forall|j: int| 0 <= j < k ==> #[trigger] tv[j].id != request.tdid,
                        first_times(self.store().stores(), request.tid, i as int),
                        tv == self.store().stores()[i as int].todo_store().todos(),
                    decreases todos@.len() - k,
                {
                    if todos[k].id == request.tdid {
                        let m = grpc::Todo::from_model(todos[k].duplicate());
                        assert(tv[k as int].id == request.tdid);
                        return Ok(m);
                    }
                    assert(todos@[k as int]@ == tv[k as int]);
                    k = k + 1;
                }
                Err(Self::todo_not_found_status(request.tdid))
            },
        }
    }

    /// Sets the detail of a todo of the first times with the asked identifier.
    pub fn update_todo_detail(&mut self, request: grpc::UpdateTodoDetailParams) -> (r: Result<grpc::Todo, Status>)
        requires
            old(self).store().wf(),
        ensures
            final(self).store().wf(),
            final(self).store().tids() == old(self).store().tids(),
            final(self).store().ntid() == old(self).store().ntid(),
            no_times(old(self).store().stores(), request.tid) ==> refused(r, Code::NotFound, times_not_found(request.tid))
                && final(self).store() == old(self).store(),
            forall|i: int| #[trigger] first_times(old(self).store().stores(), request.tid, i) ==> {
                let s = old(self).store().stores();
                let t = final(self).store().stores();
                let old_todos = s[i].todo_store().todos();
                let new_todos = t[i].todo_store().todos();
                &&& todos_only_at(s, t, i)
                &&& t[i].todo_store().ntdid() == s[i].todo_store().ntdid()
                &&& if has_todo(old_todos, request.tdid) {
                    exists|j: int| 0 <= j < old_todos.len() && #[trigger] old_todos[j].id == request.tdid && {
                        let u = TodoV { detail: Some(request.detail@), ..old_todos[j] };
                        &&& new_todos == old_todos.update(j, u)
                        &&& r matches Ok(m) && is_todo_msg(m, u)
                    }
                } else {
                    refused(r, Code::NotFound, todo_not_found(request.tdid)) && new_todos == old_todos
                }
            },
    {
        match self.find_times(request.tid) {
            None => Err(Self::times_not_found_status(request.tid)),
            Some(i) => {
                proof { self.store.lemma_wf(); }
                let ghost s = self.store().stores();
                assert(s[i as int].wf());
                let ts = self.store.tstore_mut(i);
                assert(ts.wf());
                let tds = ts.tdstore_mut();
                let todos = match tds.get() {
                    Ok(t) => t,
                    Err(e) => {
                        proof { assert(false); }
                        return Err(Status::new(Code::Aborted, e));
                    },
                };
                let ghost tv = tds.todos();
                proof {
                    tds.lemma_wf();
                    assert forall|j: int| 0 <= j < todos@.len() implies #[trigger] todos@[j]@ == tv[j] by {
                        assert(crate::bstore::ram::todo_views(todos@)[j] == tv[j]);
                    }
                }
                let mut k: usize = 0;
                while k < todos.len() && todos[k].id != request.tdid
                    invariant
                        k <= todos@.len(),
                        todos@.len() == tv.len(),
                        forall|j: int| 0 <= j < todos@.len() ==> #[trigger] todos@[j]@ == tv[j],
                        forall|j: int| 0 <= j < k ==> #[trigger] tv[j].id != request.tdid,
                    decreases todos@.len() - k,
                {
                    assert(todos@[k as int]@ == tv[k as int]);
                    k = k + 1;
                }
                if k == todos.len() {
                    assert(ts.wf());
                    return Err(Self::todo_not_found_status(request.tdid));
                }
                let mut todo = todos[k].duplicate();
                todo.detail = Some(request.detail);
                let ghost u = todo@;
                assert(u == TodoV { detail: Some(request.detail@), ..tv[k as int] });
                match tds.update(todo) {
                    Ok(t) => {
                        proof {
                            let j = choose|j: int| 0 <= j < tv.len() && tv[j].id == u.id
                                && tds.todos() == #[trigger] tv.update(j, u);
                            if j < k {
                                assert(tv[j].id < tv[k as int].id);
                            } else if j > k {
                                assert(tv[k as int].id < tv[j].id);
                            }
                        }
                        assert(ts.wf());
                        Ok(grpc::Todo::from_model(t))
                    },
                    Err(e) => {
                        proof { assert(false); }
                        Err(Status::new(Code::Aborted, e))
                    },
                }
            },
        }
    }
}

} // verus!
