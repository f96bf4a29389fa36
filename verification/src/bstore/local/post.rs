//! Posts and tags of one times in the key/value database.
//!
//! Keys:
//!   `{tid}/posts/meta.data`  the post metadata
//!   `{tid}/posts/{pid}`      one post
//!   `{tid}/tags/meta.data`   the tag metadata
//!   `{tid}/tags/{tagid}`     one tag
//!
//! The store decides which identifiers are handed out and under which key
//! each record goes; the caller moves the records to and from the database.

use vstd::prelude::*;

use crate::text::{decimal, decimal_pair, decimal_then, lemma_number_pair_injective, is_digit};
use crate::time::{utc_now, DateTime};
use crate::types::{File, Pid, Post, Tag, TagId, Tid, opt_file_view};

verus! {

/// The key of the post metadata of times `tid`.
pub open spec fn post_meta_key(tid: Tid) -> Seq<char> {
    decimal(tid as nat) + "/posts/meta.data"@
}

/// The key of post `pid` of times `tid`.
pub open spec fn post_key(tid: Tid, pid: Pid) -> Seq<char> {
    decimal(tid as nat) + "/posts/"@ + decimal(pid as nat)
}

/// The key of the tag metadata of times `tid`.
pub open spec fn tag_meta_key(tid: Tid) -> Seq<char> {
    decimal(tid as nat) + "/tags/meta.data"@
}

/// The key of tag `tagid` of times `tid`.
pub open spec fn tag_key(tid: Tid, tagid: TagId) -> Seq<char> {
    decimal(tid as nat) + "/tags/"@ + decimal(tagid as nat)
}

/// The key of the post metadata of times `tid`.
pub fn get_pmeta_path(tid: Tid) -> (r: String)
    ensures
        r@ == post_meta_key(tid),
{
    decimal_then(tid, "/posts/meta.data")
}

/// The key of post `pid` of times `tid`.
pub fn get_post_path(tid: Tid, pid: Pid) -> (r: String)
    ensures
        r@ == post_key(tid, pid),
{
    decimal_pair(tid, "/posts/", pid)
}

/// The key of the tag metadata of times `tid`.
pub fn get_tag_meta_path(tid: Tid) -> (r: String)
    ensures
        r@ == tag_meta_key(tid),
{
    decimal_then(tid, "/tags/meta.data")
}

/// The key of tag `tagid` of times `tid`.
pub fn get_tag_path(tid: Tid, tagid: TagId) -> (r: String)
    ensures
        r@ == tag_key(tid, tagid),
{
    decimal_pair(tid, "/tags/", tagid)
}

/// Two posts share a key only when they are the same post of the same
/// times.
pub proof fn law_post_keys_distinct(t1: Tid, p1: Pid, t2: Tid, p2: Pid)
    requires
        post_key(t1, p1) == post_key(t2, p2),
    ensures
        t1 == t2,
        p1 == p2,
{
    reveal_strlit("/posts/");
    assert(!is_digit("/posts/"@[0]));
    lemma_number_pair_injective(t1 as nat, p1 as nat, t2 as nat, p2 as nat, "/posts/"@);
}

/// Two tags share a key only when they are the same tag of the same times.
pub proof fn law_tag_keys_distinct(t1: Tid, g1: TagId, t2: Tid, g2: TagId)
    requires
        tag_key(t1, g1) == tag_key(t2, g2),
    ensures
        t1 == t2,
        g1 == g2,
{
    reveal_strlit("/tags/");
    assert(!is_digit("/tags/"@[0]));
    lemma_number_pair_injective(t1 as nat, g1 as nat, t2 as nat, g2 as nat, "/tags/"@);
}

/// The largest number of `s`, 0 for an empty sequence.
pub open spec fn seq_max(s: Seq<u64>) -> u64
    decreases s.len(),
{
    if s.len() == 0 {
        0
    } else {
        let m = seq_max(s.drop_last());
        if s.last() > m { s.last() } else { m }
    }
}

/// `seq_max` bounds every element and, on a non-empty sequence, is one of
/// them.
pub proof fn lemma_seq_max(s: Seq<u64>)
    ensures
        forall|i: int| 0 <= i < s.len() ==> s[i] <= seq_max(s),
        s.len() > 0 ==> exists|i: int| 0 <= i < s.len() && s[i] == seq_max(s),
    decreases s.len(),
{
    if s.len() > 0 {
        lemma_seq_max(s.drop_last());
        let m = seq_max(s.drop_last());
        if s.len() > 1 && s.last() <= m {
            let j = choose|j: int| 0 <= j < s.drop_last().len() && s.drop_last()[j] == m;
            assert(s[j] == seq_max(s));
        } else {
            assert(s[s.len() - 1] == seq_max(s));
        }
        assert forall|i: int| 0 <= i < s.len() implies s[i] <= seq_max(s) by {
            if i < s.len() - 1 {
                assert(s[i] == s.drop_last()[i]);
            }
        }
    }
}

/// The largest identifier of `v`, 0 when it is empty.
fn max_id(v: &Vec<u64>) -> (r: u64)
    ensures
        r == seq_max(v@),
{
    let mut m: u64 = 0;
    let mut i: usize = 0;
    while i < v.len()
        invariant
            i <= v.len(),
            m == seq_max(v@.subrange(0, i as int)),
        decreases v.len() - i,
    {
        assert(v@.subrange(0, i as int + 1).drop_last() =~= v@.subrange(0, i as int));
        if v[i] > m {
            m = v[i];
        }
        i = i + 1;
    }
    assert(v@.subrange(0, v.len() as int) =~= v@);
    m
}

/// The post metadata of a times: the identifier to hand out next and the
/// identifiers of the stored posts, in the order they were added.
#[derive(Debug)]
pub struct PostMeta {
    pub npid: Pid,
    pub pids: Vec<Pid>,
}

impl Default for PostMeta {
    fn default() -> (r: Self)
        ensures
            r.npid == 0,
            r.pids@ == Seq::<Pid>::empty(),
    {
        PostMeta { npid: 0, pids: Vec::new() }
    }
}

impl PostMeta {
    /// Adds `pid`; the next identifier becomes one more than the largest
    /// identifier held, so that no identifier is handed out twice.
    pub fn append(&mut self, pid: Pid)
        requires
            seq_max(old(self).pids@.push(pid)) < u64::MAX,
        ensures
            final(self).pids@ == old(self).pids@.push(pid),
            final(self).npid == seq_max(final(self).pids@) + 1,
            forall|i: int| 0 <= i < final(self).pids@.len() ==> final(self).pids@[i] < final(self).npid,
    {
        self.pids.push(pid);
        proof {
            lemma_seq_max(self.pids@);
        }
        self.npid = max_id(&self.pids) + 1;
    }
}

/// The tag metadata of a times: the identifier to hand out next and the
/// identifiers of the stored tags, in the order they were added.
#[derive(Debug)]
pub struct TagMeta {
    pub ntagid: TagId,
    pub tagids: Vec<TagId>,
}

impl Default for TagMeta {
    fn default() -> (r: Self)
        ensures
            r.ntagid == 0,
            r.tagids@ == Seq::<TagId>::empty(),
    {
        TagMeta { ntagid: 0, tagids: Vec::new() }
    }
}

impl TagMeta {
    /// Adds `tagid` and moves the next identifier one on.
    pub fn append(&mut self, tagid: TagId)
        requires
            old(self).ntagid < u64::MAX,
        ensures
            final(self).tagids@ == old(self).tagids@.push(tagid),
            final(self).ntagid == old(self).ntagid + 1,
    {
        self.tagids.push(tagid);
        self.ntagid = self.ntagid + 1;
    }
}

/// The posts and tags of one times.
pub struct LocalPostStore {
    tid: Tid,
    pmeta: PostMeta,
    tag_meta: TagMeta,
}

impl LocalPostStore {
    /// The times the posts belong to.
    pub closed spec fn tid(&self) -> Tid {
        self.tid
    }

    /// The next post identifier.
    pub closed spec fn npid(&self) -> Pid {
        self.pmeta.npid
    }

    /// The identifiers of the stored posts.
    pub closed spec fn pids(&self) -> Seq<Pid> {
        self.pmeta.pids@
    }

    /// The next tag identifier.
    pub closed spec fn ntagid(&self) -> TagId {
        self.tag_meta.ntagid
    }

    /// The identifiers of the stored tags.
    pub closed spec fn tagids(&self) -> Seq<TagId> {
        self.tag_meta.tagids@
    }

    /// The store of times `tid`, from the metadata found in the database;
    /// metadata that is not there yet starts empty.
    pub fn new(tid: Tid, pmeta: Option<PostMeta>, tag_meta: Option<TagMeta>) -> (r: Self)
        ensures
            r.tid() == tid,
            match pmeta {
                Some(m) => r.npid() == m.npid && r.pids() == m.pids@,
                None => r.npid() == 0 && r.pids() == Seq::<Pid>::empty(),
            },
            match tag_meta {
                Some(m) => r.ntagid() == m.ntagid && r.tagids() == m.tagids@,
                None => r.ntagid() == 0 && r.tagids() == Seq::<TagId>::empty(),
            },
    {
        let pmeta = match pmeta {
            Some(m) => m,
            None => PostMeta::default(),
        };
        let tag_meta = match tag_meta {
            Some(m) => m,
            None => TagMeta::default(),
        };
        LocalPostStore { tid, pmeta, tag_meta }
    }

    /// The post metadata as it is to be written.
    pub fn post_meta(&self) -> (r: &PostMeta)
        ensures
            r.npid == self.npid(),
            r.pids@ == self.pids(),
    {
        &self.pmeta
    }

    /// The tag metadata as it is to be written.
    pub fn tag_meta(&self) -> (r: &TagMeta)
        ensures
            r.ntagid == self.ntagid(),
            r.tagids@ == self.tagids(),
    {
        &self.tag_meta
    }

    /// The keys of the stored posts, in the order they were added.
    pub fn post_keys(&self) -> (r: Vec<String>)
        ensures
            r.len() == self.pids().len(),
            forall|i: int| 0 <= i < r.len() ==> #[trigger] r[i]@ == post_key(self.tid(), self.pids()[i]),
    {
        let mut r: Vec<String> = Vec::new();
        let mut i: usize = 0;
        while i < self.pmeta.pids.len()
            invariant
                i <= self.pmeta.pids.len(),
                r.len() == i,
                forall|k: int| 0 <= k < i ==> #[trigger] r[k]@ == post_key(self.tid, self.pmeta.pids@[k]),
            decreases self.pmeta.pids.len() - i,
        {
            r.push(get_post_path(self.tid, self.pmeta.pids[i]));
            i = i + 1;
        }
        r
    }

    /// The keys of the stored tags, in the order they were added.
    pub fn tag_keys(&self) -> (r: Vec<String>)
        ensures
            r.len() == self.tagids().len(),
            forall|i: int| 0 <= i < r.len() ==> #[trigger] r[i]@ == tag_key(self.tid(), self.tagids()[i]),
    {
        let mut r: Vec<String> = Vec::new();
        let mut i: usize = 0;
        while i < self.tag_meta.tagids.len()
            invariant
                i <= self.tag_meta.tagids.len(),
                r.len() == i,
                forall|k: int| 0 <= k < i ==> #[trigger] r[k]@ == tag_key(self.tid, self.tag_meta.tagids@[k]),
            decreases self.tag_meta.tagids.len() - i,
        {
            r.push(get_tag_path(self.tid, self.tag_meta.tagids[i]));
            i = i + 1;
        }
        r
    }

    /// Makes a tag named `name` with the next tag identifier; gives the
    /// tag and the key to store it under.
    pub fn create_tag(&mut self, name: String) -> (r: (Tag, String))
        requires
            old(self).ntagid() < u64::MAX,
        ensures
            r.0.id == old(self).ntagid(),
            r.0.name@ == name@,
            r.1@ == tag_key(old(self).tid(), r.0.id),
            final(self).tid() == old(self).tid(),
            final(self).tagids() == old(self).tagids().push(r.0.id),
            final(self).ntagid() == old(self).ntagid() + 1,
            final(self).pids() == old(self).pids(),
            final(self).npid() == old(self).npid(),
    {
        let id = self.tag_meta.ntagid;
        let key = get_tag_path(self.tid, id);
        self.tag_meta.append(id);
        (Tag { id, name }, key)
    }

    /// Makes a post with the next post identifier, created at `now`, no
    /// update time and no tag; gives the post and the key to store it
    /// under.
    pub fn post_at(&mut self, post: String, file: Option<File>, now: DateTime) -> (r: (Post, String))
        requires
            old(self).npid() < u64::MAX,
        ensures
            r.0.id == old(self).npid(),
            r.0.post@ == post@,
            r.0.updated_at is None,
            r.0.tag is None,
            opt_file_view(r.0.file) == opt_file_view(file),
            r.1@ == post_key(old(self).tid(), r.0.id),
            final(self).tid() == old(self).tid(),
            final(self).npid() == old(self).npid() + 1,
            final(self).pids() == old(self).pids().push(r.0.id),
            final(self).tagids() == old(self).tagids(),
            final(self).ntagid() == old(self).ntagid(),
            r.0.created_at == now,
    {
        let pid = self.pmeta.npid;
        self.pmeta.npid = self.pmeta.npid + 1;
        let p = Post { id: pid, post, created_at: now, updated_at: None, file, tag: None };
        let key = get_post_path(self.tid, pid);
        self.pmeta.pids.push(pid);
        (p, key)
    }

    /// Makes a post as `post_at` does, at the current time of the clock.
    pub fn post(&mut self, post: String, file: Option<File>) -> (r: (Post, String))
        requires
            old(self).npid() < u64::MAX,
        ensures
            r.0.id == old(self).npid(),
            r.0.post@ == post@,
            r.0.updated_at is None,
            r.0.tag is None,
            opt_file_view(r.0.file) == opt_file_view(file),
            r.1@ == post_key(old(self).tid(), r.0.id),
            final(self).tid() == old(self).tid(),
            final(self).npid() == old(self).npid() + 1,
            final(self).pids() == old(self).pids().push(r.0.id),
            final(self).tagids() == old(self).tagids(),
            final(self).ntagid() == old(self).ntagid(),
    {
        let now = utc_now();
        self.post_at(post, file, now)
    }

    /// Gives `post` back with the key it is to be written under, that of
    /// its identifier.
    pub fn update(&self, post: Post) -> (r: (Post, String))
        ensures
            r.0 == post,
            r.1@ == post_key(self.tid(), post.id),
    {
        let key = get_post_path(self.tid, post.id);
        (post, key)
    }
}

} // verus!
