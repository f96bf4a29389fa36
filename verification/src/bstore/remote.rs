//! The stores that keep their data on a TimesMan gRPC server: the requests
//! each operation sends and what each answer becomes.

use vstd::prelude::*;

use crate::grpc;
use crate::text::{concat, decimal, decimal_string};
use crate::types::{Pid, Post, Tdid, Tid, Times, TimesV, Todo};

verus! {

/// The message that the post `pid` was not among the posts of the times.
pub fn post_not_found(pid: Pid) -> (r: String)
    ensures
        r@ == "Post with id "@ + decimal(pid as nat) + " not found"@,
{
    let id = decimal_string(pid);
    let a = concat("Post with id ", id.as_str());
    concat(a.as_str(), " not found")
}

/// The posts of one times on the server.
pub struct GrpcPostStore {
    tid: Tid,
}

impl GrpcPostStore {
    /// The times the posts belong to.
    pub closed spec fn tid(&self) -> Tid {
        self.tid
    }

    /// The posts of times `tid`.
    pub fn new(tid: Tid) -> (r: Self)
        ensures
            r.tid() == tid,
    {
        GrpcPostStore { tid }
    }

    /// The request for the posts of the times.
    pub fn get_all_request(&self) -> (r: grpc::TimesId)
        ensures
            r.id == self.tid(),
    {
        grpc::TimesId { id: self.tid }
    }

    /// The post `pid` among `posts`, the posts the server gave: the first
    /// with that identifier.
    pub fn get(&self, pid: Pid, posts: Vec<Post>) -> (r: Result<Post, String>)
        ensures
            (forall|i: int| 0 <= i < posts.len() ==> posts@[i].id != pid) ==>
                (r matches Err(e) && e@ == "Post with id "@ + decimal(pid as nat) + " not found"@),
            (exists|i: int| 0 <= i < posts.len() && posts@[i].id == pid) ==> (r matches Ok(p)
                && exists|i: int| 0 <= i < posts.len() && posts@[i].id == pid
                    && (forall|j: int| 0 <= j < i ==> posts@[j].id != pid) && p@ == posts@[i]@),
    {
        let mut i: usize = 0;
        while i < posts.len()
            invariant
                i <= posts.len(),
                forall|j: int| 0 <= j < i ==> posts@[j].id != pid,
            decreases posts.len() - i,
        {
            if posts[i].id == pid {
                return Ok(posts[i].duplicate());
            }
            i = i + 1;
        }
        Err(post_not_found(pid))
    }

    /// The request that creates a post with `text`; files are not sent.
    pub fn post_request(&self, text: String) -> (r: grpc::CreatePostPrams)
        ensures
            r.id == self.tid(),
            r.text == text,
    {
        grpc::CreatePostPrams { id: self.tid, text }
    }

    /// The request that removes post `pid`.
    pub fn delete_request(&self, pid: Pid) -> (r: grpc::DeletePostParam)
        ensures
            r.tid == self.tid(),
            r.pid == pid,
    {
        grpc::DeletePostParam { tid: self.tid, pid }
    }

    /// The request that replaces a post with `post`.
    pub fn update_request(&self, post: Post) -> (r: grpc::UpdatePostParam)
        ensures
            r.tid == self.tid(),
            r.post matches Some(m) && grpc::is_post_msg(m, post@),
    {
        grpc::UpdatePostParam { tid: self.tid, post: Some(grpc::Post::from_model(post)) }
    }
}

/// What updating a todo does: send its new detail, or give the todo back
/// as it is when it has no detail, since the server only changes details.
pub enum TodoUpdate {
    Send(grpc::UpdateTodoDetailParams),
    Keep(Todo),
}

/// The todos of one times on the server.
pub struct GrpcTodoStore {
    tid: Tid,
}

impl GrpcTodoStore {
    /// The times the todos belong to.
    pub closed spec fn tid(&self) -> Tid {
        self.tid
    }

    /// The todos of times `tid`.
    pub fn new(tid: Tid) -> (r: Self)
        ensures
            r.tid() == tid,
    {
        GrpcTodoStore { tid }
    }

    /// The request for the todos of the times.
    pub fn get_request(&self) -> (r: grpc::TimesId)
        ensures
            r.id == self.tid(),
    {
        grpc::TimesId { id: self.tid }
    }

    /// The request that creates a todo with `content` and no detail.
    pub fn new_request(&self, content: String) -> (r: grpc::CreateTodoParams)
        ensures
            r.tid == self.tid(),
            r.content == content,
            r.detail is None,
    {
        grpc::CreateTodoParams { tid: self.tid, content, detail: None }
    }

    /// The request that marks todo `tdid` done or not done.
    pub fn done_request(&self, tdid: Tdid, done: bool) -> (r: grpc::DoneTodoParams)
        ensures
            r.tid == self.tid(),
            r.tdid == tdid,
            r.done == done,
    {
        grpc::DoneTodoParams { tid: self.tid, tdid, done }
    }

    /// What updating `todo` sends: its detail, when it has one.
    pub fn update(&self, todo: Todo) -> (r: TodoUpdate)
        ensures
            todo.detail matches Some(d) ==> (r matches TodoUpdate::Send(p)
                && p.tid == self.tid() && p.tdid == todo.id && p.detail == d),
            todo.detail is None ==> (r matches TodoUpdate::Keep(t) && t == todo),
    {
        match todo.detail {
            Some(d) => TodoUpdate::Send(grpc::UpdateTodoDetailParams { tid: self.tid, tdid: todo.id, detail: d }),
            None => TodoUpdate::Keep(todo),
        }
    }

    /// Refused: the server does not delete todos.
    pub fn delete(&self, tdid: Tdid) -> (r: Result<(), String>)
        ensures
            r matches Err(e) && e@ == "Todo delete not supported via gRPC"@,
    {
        Err(String::from_str("Todo delete not supported via gRPC"))
    }
}

/// One times on the server.
pub struct GrpcTimesStore {
    times: Times,
}

impl GrpcTimesStore {
    /// The times held.
    pub closed spec fn times(&self) -> TimesV {
        self.times@
    }

    /// The store of `times`.
    pub fn new(times: Times) -> (r: Self)
        ensures
            r.times() == times@,
    {
        GrpcTimesStore { times }
    }

    /// The times held.
    pub fn get(&self) -> (r: Result<Times, String>)
        ensures
            r matches Ok(t) && t@ == self.times(),
    {
        Ok(self.times.duplicate())
    }

    /// The request that replaces the times with `times`.
    pub fn update_request(&self, times: Times) -> (r: grpc::Times)
        ensures
            r.id == times.id,
            r.title@ == times.title@,
            r.created_at == Some(grpc::spec_timestamp(times.created_at)),
            r.updated_at == grpc::spec_opt_timestamp(times.updated_at),
    {
        grpc::Times::from_model(times)
    }

    /// Keeps the times the server answered with and gives it back.
    pub fn updated(&mut self, times: Times) -> (r: Result<Times, String>)
        ensures
            final(self).times() == times@,
            r matches Ok(t) && t@ == times@,
    {
        self.times = times.duplicate();
        Ok(times)
    }

    /// The post store of this times.
    pub fn pstore(&self) -> (r: GrpcPostStore)
        ensures
            r.tid() == self.times().id,
    {
        GrpcPostStore::new(self.times.id)
    }

    /// The todo store of this times.
    pub fn tdstore(&self) -> (r: GrpcTodoStore)
        ensures
            r.tid() == self.times().id,
    {
        GrpcTodoStore::new(self.times.id)
    }
}

} // verus!
