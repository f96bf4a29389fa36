//! The first generation of stores: times and posts with signed identifiers,
//! kept in a JSON file or on a remote HTTP server.

use vstd::prelude::*;

use crate::time::DateTime;

pub mod json;
pub mod remote;

verus! {

/// A titled log of posts.
#[derive(Clone, Debug)]
pub struct Times {
    pub id: i64,
    pub title: String,
    pub created_at: DateTime,
    pub updated_at: Option<DateTime>,
}

/// The mathematical value of a [`Times`].
pub struct TimesV {
    pub id: i64,
    pub title: Seq<char>,
    pub created_at: DateTime,
    pub updated_at: Option<DateTime>,
}

impl View for Times {
    type V = TimesV;

    open spec fn view(&self) -> TimesV {
        TimesV { id: self.id, title: self.title@, created_at: self.created_at, updated_at: self.updated_at }
    }
}

impl Times {
    /// A field-by-field copy.
    pub fn duplicate(&self) -> (r: Times)
        ensures
            r@ == self@,
    {
        Times { id: self.id, title: self.title.clone(), created_at: self.created_at, updated_at: self.updated_at }
    }
}

/// A post of a times.
#[derive(Clone, Debug)]
pub struct Post {
    pub id: i64,
    pub post: String,
    pub created_at: DateTime,
    pub updated_at: Option<DateTime>,
}

/// The mathematical value of a [`Post`].
pub struct PostV {
    pub id: i64,
    pub post: Seq<char>,
    pub created_at: DateTime,
    pub updated_at: Option<DateTime>,
}

impl View for Post {
    type V = PostV;

    open spec fn view(&self) -> PostV {
        PostV { id: self.id, post: self.post@, created_at: self.created_at, updated_at: self.updated_at }
    }
}

impl Post {
    /// A field-by-field copy.
    pub fn duplicate(&self) -> (r: Post)
        ensures
            r@ == self@,
    {
        Post { id: self.id, post: self.post.clone(), created_at: self.created_at, updated_at: self.updated_at }
    }
}

/// The views of a sequence of posts.
pub open spec fn post_views(s: Seq<Post>) -> Seq<PostV> {
    s.map_values(|p: Post| p@)
}

/// A copy of a list of posts.
pub fn copy_posts(v: &Vec<Post>) -> (r: Vec<Post>)
    ensures
        post_views(r@) == post_views(v@),
{
    let mut r: Vec<Post> = Vec::new();
    let mut i: usize = 0;
    while i < v.len()
        invariant
            i <= v.len(),
            r.len() == i,
            forall|k: int| 0 <= k < i ==> #[trigger] r@[k]@ == v@[k]@,
        decreases v.len() - i,
    {
        r.push(v[i].duplicate());
        i = i + 1;
    }
    assert(post_views(r@) =~= post_views(v@));
    r
}

} // verus!
