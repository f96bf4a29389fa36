//! A store of one times and its posts, read from a JSON file.  It only
//! reads: every change is refused.

use vstd::prelude::*;

use super::{copy_posts, post_views, Post, PostV, Times, TimesV};

verus! {

/// The times and posts of a JSON file.
pub struct JsonStore {
    times: Times,
    posts: Vec<Post>,
}

impl JsonStore {
    /// The times of the file.
    pub closed spec fn times(&self) -> TimesV {
        self.times@
    }

    /// The posts of the file.
    pub closed spec fn posts(&self) -> Seq<PostV> {
        post_views(self.posts@)
    }

    /// The store holding `times` and `posts`.
    pub fn new(times: Times, posts: Vec<Post>) -> (r: Self)
        ensures
            r.times() == times@,
            r.posts() == post_views(posts@),
    {
        JsonStore { times, posts }
    }

    /// The times held, as it is to be written.
    pub fn data_times(&self) -> (r: &Times)
        ensures
            r@ == self.times(),
    {
        &self.times
    }

    /// The posts held, as they are to be written.
    pub fn data_posts(&self) -> (r: &Vec<Post>)
        ensures
            post_views(r@) == self.posts(),
    {
        &self.posts
    }

    /// The store is always usable.
    pub fn check(&self) -> (r: Result<(), String>)
        ensures
            r is Ok,
    {
        Ok(())
    }

    /// The one times of the file.
    pub fn get_times(&self) -> (r: Result<Vec<Times>, String>)
        ensures
            r matches Ok(v) && v.len() == 1 && v[0]@ == self.times(),
    {
        let mut v: Vec<Times> = Vec::new();
        v.push(self.times.duplicate());
        Ok(v)
    }

    /// Refused: the file holds one times.
    pub fn create_times(&mut self, title: String) -> (r: Result<Times, String>)
        ensures
            r matches Err(e) && e@ == "not supported to create times"@,
            final(self).times() == old(self).times(),
            final(self).posts() == old(self).posts(),
    {
        Err(String::from_str("not supported to create times"))
    }

    /// Refused: the file holds one times.
    pub fn delete_times(&mut self, tid: i64) -> (r: Result<(), String>)
        ensures
            r matches Err(e) && e@ == "not supported to delete times"@,
            final(self).times() == old(self).times(),
            final(self).posts() == old(self).posts(),
    {
        Err(String::from_str("not supported to delete times"))
    }

    /// Refused: the file is only read.
    pub fn update_times(&mut self, times: Times) -> (r: Result<Times, String>)
        ensures
            r matches Err(e) && e@ == "not supported to update times"@,
            final(self).times() == old(self).times(),
            final(self).posts() == old(self).posts(),
    {
        Err(String::from_str("not supported to update times"))
    }

    /// The posts, when `tid` is the times of the file.
    pub fn get_posts(&self, tid: i64) -> (r: Result<Vec<Post>, String>)
        ensures
            self.times().id != tid ==> (r matches Err(e) && e@ == "unknown tid found"@),
            self.times().id == tid ==> (r matches Ok(v) && post_views(v@) == self.posts()),
    {
        if self.times.id != tid {
            return Err(String::from_str("unknown tid found"));
        }
        Ok(copy_posts(&self.posts))
    }

    /// Refused: "unknown tid found" for another times, else not supported.
    pub fn create_post(&mut self, tid: i64, post: String) -> (r: Result<Post, String>)
        ensures
            old(self).times().id != tid ==> (r matches Err(e) && e@ == "unknown tid found"@),
            old(self).times().id == tid ==> (r matches Err(e) && e@ == "not supported to create post"@),
            final(self).times() == old(self).times(),
            final(self).posts() == old(self).posts(),
    {
        if self.times.id != tid {
            return Err(String::from_str("unknown tid found"));
        }
        Err(String::from_str("not supported to create post"))
    }

    /// Refused: "unknown tid found" for another times, else not supported.
    pub fn update_post(&mut self, tid: i64, post: Post) -> (r: Result<Post, String>)
        ensures
            old(self).times().id != tid ==> (r matches Err(e) && e@ == "unknown tid found"@),
            old(self).times().id == tid ==> (r matches Err(e) && e@ == "not supported to update post"@),
            final(self).times() == old(self).times(),
            final(self).posts() == old(self).posts(),
    {
        if self.times.id != tid {
            return Err(String::from_str("unknown tid found"));
        }
        Err(String::from_str("not supported to update post"))
    }

    /// Refused: "unknown tid found" for another times, else not supported.
    pub fn delete_post(&mut self, tid: i64, pid: i64) -> (r: Result<(), String>)
        ensures
            old(self).times().id != tid ==> (r matches Err(e) && e@ == "unknown tid found"@),
            old(self).times().id == tid ==> (r matches Err(e) && e@ == "not supported to delete post"@),
            final(self).times() == old(self).times(),
            final(self).posts() == old(self).posts(),
    {
        if self.times.id != tid {
            return Err(String::from_str("unknown tid found"));
        }
        Err(String::from_str("not supported to delete post"))
    }

    /// The file keeps no notion of a latest post.
    pub fn get_latest_post(&self, tid: i64) -> (r: Option<Post>)
        ensures
            r is None,
    {
        None
    }
}

} // verus!
