//! Requests to the HTTP server of the first generation: the URLs asked and
//! what each answer means.  An answer carries a status, 0 for success, and
//! a text.

use vstd::prelude::*;

use crate::text::{concat, signed_decimal, signed_decimal_string};
use crate::time::{utc_now, DateTime};

verus! {

/// A times as the server lists it.
#[derive(Clone, Debug)]
pub struct Times {
    pub id: i64,
    pub title: String,
    pub created_at: DateTime,
    pub updated_at: Option<DateTime>,
    pub deleted: bool,
}

/// A post as the server lists it.
#[derive(Clone, Debug)]
pub struct Post {
    pub id: i64,
    pub times_id: i64,
    pub post: String,
    pub created_at: DateTime,
    pub updated_at: Option<DateTime>,
}

/// The client of the server at `server`.
#[derive(Clone, Debug)]
pub struct Requester {
    pub server: String,
}

/// The value of an answer, none when its status is not 0.
pub fn answer_value<T>(status: i64, value: T) -> (r: Option<T>)
    ensures
        status != 0 ==> r is None,
        status == 0 ==> r == Some(value),
{
    if status != 0 {
        None
    } else {
        Some(value)
    }
}

impl Requester {
    /// The client of `server`.
    pub fn new(server: &String) -> (r: Self)
        ensures
            r.server@ == server@,
    {
        Requester { server: server.clone() }
    }

    /// The URL of the times list; times are created there too.
    pub fn times_url(&self) -> (r: String)
        ensures
            r@ == self.server@ + "/times"@,
    {
        concat(self.server.as_str(), "/times")
    }

    /// The URL of times `tid`: its posts are read, written and deleted there.
    pub fn times_id_url(&self, tid: i64) -> (r: String)
        ensures
            r@ == self.server@ + "/times/"@ + signed_decimal(tid as int),
    {
        let base = concat(self.server.as_str(), "/times/");
        let id = signed_decimal_string(tid);
        concat(base.as_str(), id.as_str())
    }

    /// The post written to times `tid`, from the answer: the server's
    /// identifier `pid`, the text and the point `now`; "request error: "
    /// and the answer's text when the status is not 0.
    pub fn post_post_at(&self, tid: i64, post: &String, status: i64, text: &str, pid: i64, now: DateTime) -> (r: Result<Post, String>)
        ensures
            status != 0 ==> (r matches Err(e) && e@ == "request error: "@ + text@),
            status == 0 ==> (r matches Ok(p) && p.times_id == tid && p.id == pid && p.post@ == post@
                && p.updated_at is None),
            r matches Ok(p) ==> p.created_at == now,
    {
        if status != 0 {
            return Err(concat("request error: ", text));
        }
        Ok(Post { times_id: tid, id: pid, post: post.clone(), created_at: now, updated_at: None })
    }

    /// The post written to times `tid`, as `post_post_at` gives it, at the
    /// current time of the clock.
    pub fn post_post(&self, tid: i64, post: &String, status: i64, text: &str, pid: i64) -> (r: Result<Post, String>)
        ensures
            status != 0 ==> (r matches Err(e) && e@ == "request error: "@ + text@),
            status == 0 ==> (r matches Ok(p) && p.times_id == tid && p.id == pid && p.post@ == post@
                && p.updated_at is None),
    {
        let now = utc_now();
        self.post_post_at(tid, post, status, text, pid, now)
    }

    /// The outcome of deleting a times, from the answer.
    pub fn delete_times(&self, status: i64, text: &str) -> (r: Result<(), String>)
        ensures
            status != 0 ==> (r matches Err(e) && e@ == "request error: "@ + text@),
            status == 0 ==> r is Ok,
    {
        if status != 0 {
            return Err(concat("request error: ", text));
        }
        Ok(())
    }
}

} // verus!
