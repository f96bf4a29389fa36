//! A store on a remote HTTP server.  The server answers each request with a
//! status (0 for success) and a text; the store builds the request URLs and
//! decides what each answer means.

use vstd::prelude::*;

use super::{Post, Times};
use crate::text::{concat, signed_decimal, signed_decimal_string};
use crate::time::{utc_now, DateTime};

verus! {

/// The server address with one trailing '/' taken off.
pub open spec fn trimmed_server(s: Seq<char>) -> Seq<char> {
    if s.len() > 0 && s.last() == '/' { s.drop_last() } else { s }
}

/// A store on the server at `server`.
pub struct RemoteStore {
    server: String,
}

/// The value of an answer: the text as the error when the status is not 0.
pub fn status_result<T>(status: i64, text: String, value: T) -> (r: Result<T, String>)
    ensures
        status != 0 ==> (r matches Err(e) && e@ == text@),
        status == 0 ==> r == Ok::<T, String>(value),
{
    if status != 0 {
        Err(text)
    } else {
        Ok(value)
    }
}

/// The outcome of a request with no value: "request error: " and the text
/// when the status is not 0.
pub fn request_result(status: i64, text: &str) -> (r: Result<(), String>)
    ensures
        status != 0 ==> (r matches Err(e) && e@ == "request error: "@ + text@),
        status == 0 ==> r is Ok,
{
    if status != 0 {
        Err(concat("request error: ", text))
    } else {
        Ok(())
    }
}

/// `posts[k]` is the latest post of `posts`: the last one with the largest
/// identifier.
pub open spec fn is_latest(posts: Seq<Post>, k: int) -> bool {
    &&& 0 <= k < posts.len()
    &&& forall|j: int| 0 <= j < posts.len() ==> posts[j].id <= #[trigger] posts[k].id
    &&& forall|j: int| k < j < posts.len() ==> #[trigger] posts[j].id < posts[k].id
}

/// The latest post: the last one among those with the largest identifier,
/// none for no post.
pub fn latest_post(posts: &Vec<Post>) -> (r: Option<Post>)
    ensures
        posts.len() == 0 <==> r is None,
        r matches Some(p) ==> exists|k: int| is_latest(posts@, k) && p@ == posts@[k]@,
{
    if posts.len() == 0 {
        return None;
    }
    let mut best: usize = 0;
    let mut i: usize = 1;
    while i < posts.len()
        invariant
            1 <= i <= posts.len(),
            best < i,
            forall|j: int| 0 <= j < i ==> posts@[j].id <= posts@[best as int].id,
            forall|j: int| best < j < i ==> posts@[j].id < posts@[best as int].id,
        decreases posts.len() - i,
    {
        if posts[i].id >= posts[best].id {
            best = i;
        }
        i = i + 1;
    }
    let p = posts[best].duplicate();
    assert(is_latest(posts@, best as int));
    Some(p)
}

impl RemoteStore {
    /// The server address, without a trailing '/'.
    pub closed spec fn server(&self) -> Seq<char> {
        self.server@
    }

    /// The store on `server`; one trailing '/' of the address is dropped.
    pub fn new(server: String) -> (r: Self)
        ensures
            r.server() == trimmed_server(server@),
    {
        let n = server.as_str().unicode_len();
        if n > 0 && server.as_str().get_char(n - 1) == '/' {
            let s = server.as_str().substring_char(0, n - 1);
            RemoteStore { server: String::from_str(s) }
        } else {
            RemoteStore { server }
        }
    }

    /// The URL of the times list.
    pub fn times_url(&self) -> (r: String)
        ensures
            r@ == self.server() + "/times"@,
    {
        concat(self.server.as_str(), "/times")
    }

    /// The URL of times `tid`.
    pub fn times_id_url(&self, tid: i64) -> (r: String)
        ensures
            r@ == self.server() + "/times/"@ + signed_decimal(tid as int),
    {
        let base = concat(self.server.as_str(), "/times/");
        let id = signed_decimal_string(tid);
        concat(base.as_str(), id.as_str())
    }

    /// The store is usable when the times list can be read.
    pub fn check(&self, times: Result<Vec<Times>, String>) -> (r: Result<(), String>)
        ensures
            times is Ok ==> r is Ok,
            times matches Err(e) ==> (r matches Err(f) && f@ == e@),
    {
        match times {
            Ok(_) => Ok(()),
            Err(e) => Err(e),
        }
    }

    /// The post created on the server: the server's identifier `pid`, the
    /// text, the point `now` and no update time; the answer's text, after
    /// "request error: ", when the status is not 0.
    pub fn create_post_at(&self, post: String, status: i64, text: &str, pid: i64, now: DateTime) -> (r: Result<Post, String>)
        ensures
            status != 0 ==> (r matches Err(e) && e@ == "request error: "@ + text@),
            status == 0 ==> (r matches Ok(p) && p.id == pid && p.post@ == post@ && p.updated_at is None),
            r matches Ok(p) ==> p.created_at == now,
    {
        if status != 0 {
            return Err(concat("request error: ", text));
        }
        Ok(Post { id: pid, post, created_at: now, updated_at: None })
    }

    /// The post created on the server, as `create_post_at` gives it, at the
    /// current time of the clock.
    pub fn create_post(&self, post: String, status: i64, text: &str, pid: i64) -> (r: Result<Post, String>)
        ensures
            status != 0 ==> (r matches Err(e) && e@ == "request error: "@ + text@),
            status == 0 ==> (r matches Ok(p) && p.id == pid && p.post@ == post@ && p.updated_at is None),
    {
        let now = utc_now();
        self.create_post_at(post, status, text, pid, now)
    }

    /// The latest post of the answer to the posts request.
    pub fn get_latest_post(&self, posts: Result<Vec<Post>, String>) -> (r: Result<Option<Post>, String>)
        ensures
            posts matches Err(e) ==> (r matches Err(f) && f@ == e@),
            posts matches Ok(v) ==> (r matches Ok(o) && (v.len() == 0 <==> o is None)
                && (o matches Some(p) ==> exists|k: int| is_latest(v@, k) && p@ == v@[k]@)),
    {
        match posts {
            Err(e) => Err(e),
            Ok(v) => Ok(latest_post(&v)),
        }
    }
}

} // verus!
