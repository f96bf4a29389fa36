//! The store that keeps everything in memory.

use vstd::prelude::*;

use crate::bstore::table::{has_key, lemma_unique_key, lemma_update_same_key, IdTable, Keyed, Record};
use crate::time::{local_now, DateTime};
use crate::types::{File, FileV, Pid, Post, PostV, Tag, TagId, TagV, Tdid, Tid, Times, TimesV, Todo, TodoV, opt_file_view};

verus! {

impl Keyed for Post {
    open spec fn spec_key(&self) -> u64 {
        self.id
    }

    fn key(&self) -> (r: u64) {
        self.id
    }
}

impl Record for Post {
    open spec fn same_record(&self, other: Self) -> bool {
        self@ == other@
    }

    fn copy_record(&self) -> (r: Self) {
        self.duplicate()
    }
}

impl Keyed for Tag {
    open spec fn spec_key(&self) -> u64 {
        self.id
    }

    fn key(&self) -> (r: u64) {
        self.id
    }
}

impl Record for Tag {
    open spec fn same_record(&self, other: Self) -> bool {
        self@ == other@
    }

    fn copy_record(&self) -> (r: Self) {
        self.duplicate()
    }
}

impl Keyed for Todo {
    open spec fn spec_key(&self) -> u64 {
        self.id
    }

    fn key(&self) -> (r: u64) {
        self.id
    }
}

impl Record for Todo {
    open spec fn same_record(&self, other: Self) -> bool {
        self@ == other@
    }

    fn copy_record(&self) -> (r: Self) {
        self.duplicate()
    }
}

/// The views of a sequence of posts.
pub open spec fn post_views(s: Seq<Post>) -> Seq<PostV> {
    s.map_values(|p: Post| p@)
}

/// The views of a sequence of tags.
pub open spec fn tag_views(s: Seq<Tag>) -> Seq<TagV> {
    s.map_values(|t: Tag| t@)
}

/// The views of a sequence of todos.
pub open spec fn todo_views(s: Seq<Todo>) -> Seq<TodoV> {
    s.map_values(|t: Todo| t@)
}

/// Some post of `s` has identifier `id`.
pub open spec fn has_post(s: Seq<PostV>, id: Pid) -> bool {
    exists|i: int| 0 <= i < s.len() && #[trigger] s[i].id == id
}

/// Some todo of `s` has identifier `id`.
pub open spec fn has_todo(s: Seq<TodoV>, id: Tdid) -> bool {
    exists|i: int| 0 <= i < s.len() && #[trigger] s[i].id == id
}

/// Identifiers strictly increase along a sequence of posts.
pub open spec fn posts_increasing(s: Seq<PostV>) -> bool {
    forall|i: int, j: int| 0 <= i < j < s.len() ==> #[trigger] s[i].id < #[trigger] s[j].id
}

/// Identifiers strictly increase along a sequence of todos.
pub open spec fn todos_increasing(s: Seq<TodoV>) -> bool {
    forall|i: int, j: int| 0 <= i < j < s.len() ==> #[trigger] s[i].id < #[trigger] s[j].id
}

/// Identifiers strictly increase along a sequence of tags.
pub open spec fn tags_increasing(s: Seq<TagV>) -> bool {
    forall|i: int, j: int| 0 <= i < j < s.len() ==> #[trigger] s[i].id < #[trigger] s[j].id
}

/// The view of an operation's result.
pub open spec fn res_view<T: View>(r: Result<T, String>) -> Result<T::V, Seq<char>> {
    match r {
        Ok(t) => Ok(t@),
        Err(e) => Err(e@),
    }
}

/// The view of an operation's result that carries nothing on success.
pub open spec fn unit_res_view(r: Result<(), String>) -> Result<(), Seq<char>> {
    match r {
        Ok(_) => Ok(()),
        Err(e) => Err(e@),
    }
}

/// `p` is the post recorded in a store of posts `old` whose next identifier
/// is `npid`, leaving the posts `new`.
pub open spec fn post_created(old: Seq<PostV>, npid: Pid, new: Seq<PostV>, text: Seq<char>, file: Option<FileV>, p: PostV) -> bool {
    &&& p.id == npid
    &&& p.post == text
    &&& p.updated_at is None
    &&& p.tag is None
    &&& p.file == file
    &&& new == old.push(p)
}

/// The outcome of removing the post `pid` from the posts `old`.
pub open spec fn post_deleted(old: Seq<PostV>, new: Seq<PostV>, pid: Pid, r: Result<(), Seq<char>>) -> bool {
    if has_post(old, pid) {
        &&& r is Ok
        &&& exists|i: int| 0 <= i < old.len() && old[i].id == pid && new == #[trigger] old.remove(i)
    } else {
        r == Err::<(), Seq<char>>("invalid pid"@) && new == old
    }
}

/// The outcome of putting `post` in the place of the post with its identifier.
pub open spec fn post_updated(old: Seq<PostV>, new: Seq<PostV>, post: PostV, r: Result<PostV, Seq<char>>) -> bool {
    if has_post(old, post.id) {
        &&& r == Ok::<PostV, Seq<char>>(post)
        &&& exists|i: int| 0 <= i < old.len() && old[i].id == post.id && new == #[trigger] old.update(i, post)
    } else {
        r == Err::<PostV, Seq<char>>("invalid pid"@) && new == old
    }
}

/// `t` is the todo recorded in a store of todos `old` whose next identifier
/// is `ntdid`, leaving the todos `new`.
pub open spec fn todo_created(old: Seq<TodoV>, ntdid: Tdid, new: Seq<TodoV>, content: Seq<char>, t: TodoV) -> bool {
    &&& t.id == ntdid
    &&& t.content == content
    &&& t.detail is None
    &&& t.done_at is None
    &&& new == old.push(t)
}

/// The outcome of marking the todo `tdid` done or not done.
pub open spec fn todo_done(old: Seq<TodoV>, new: Seq<TodoV>, tdid: Tdid, done: bool, r: Result<TodoV, Seq<char>>) -> bool {
    if !has_todo(old, tdid) {
        r == Err::<TodoV, Seq<char>>("invalid tid"@) && new == old
    } else {
        exists|i: int| 0 <= i < old.len() && #[trigger] old[i].id == tdid && {
            let o = old[i];
            if (o.done_at is Some) == done {
                r == Err::<TodoV, Seq<char>>("invalid state"@) && new == old
            } else {
                r matches Ok(t) && t.id == tdid && t.content == o.content && t.detail == o.detail
                    && t.created_at == o.created_at && (t.done_at is Some) == done
                    && new == old.update(i, t)
            }
        }
    }
}

/// The outcome of putting `todo` in the place of the todo with its identifier.
pub open spec fn todo_updated(old: Seq<TodoV>, new: Seq<TodoV>, todo: TodoV, r: Result<TodoV, Seq<char>>) -> bool {
    if has_todo(old, todo.id) {
        &&& r == Ok::<TodoV, Seq<char>>(todo)
        &&& exists|i: int| 0 <= i < old.len() && old[i].id == todo.id && new == #[trigger] old.update(i, todo)
    } else {
        r == Err::<TodoV, Seq<char>>("invalid pid"@) && new == old
    }
}

/// The outcome of removing the todo `tdid`.
pub open spec fn todo_deleted(old: Seq<TodoV>, new: Seq<TodoV>, tdid: Tdid, r: Result<(), Seq<char>>) -> bool {
    if has_todo(old, tdid) {
        &&& r is Ok
        &&& exists|i: int| 0 <= i < old.len() && old[i].id == tdid && new == #[trigger] old.remove(i)
    } else {
        r == Err::<(), Seq<char>>("invalid tdid"@) && new == old
    }
}

proof fn lemma_has_post<T>(s: Seq<Post>, id: Pid)
    ensures
        has_key(s, id) <==> has_post(post_views(s), id),
{
    if has_key(s, id) {
        let i = choose|i: int| 0 <= i < s.len() && #[trigger] s[i].spec_key() == id;
        assert(post_views(s)[i].id == id);
    }
    if has_post(post_views(s), id) {
        let i = choose|i: int| 0 <= i < post_views(s).len() && #[trigger] post_views(s)[i].id == id;
        assert(s[i].spec_key() == id);
    }
}

proof fn lemma_has_todo(s: Seq<Todo>, id: Tdid)
    ensures
        has_key(s, id) <==> has_todo(todo_views(s), id),
{
    if has_key(s, id) {
        let i = choose|i: int| 0 <= i < s.len() && #[trigger] s[i].spec_key() == id;
        assert(todo_views(s)[i].id == id);
    }
    if has_todo(todo_views(s), id) {
        let i = choose|i: int| 0 <= i < todo_views(s).len() && #[trigger] todo_views(s)[i].id == id;
        assert(s[i].spec_key() == id);
    }
}

/// The posts and tags of one times, kept in memory.
pub struct RamPostStore {
    posts: IdTable<Post>,
    tags: IdTable<Tag>,
}

impl RamPostStore {
    /// The posts, in increasing order of identifier.
    pub closed spec fn posts(&self) -> Seq<PostV> {
        post_views(self.posts.items())
    }

    /// The identifier that the next post gets.
    pub closed spec fn npid(&self) -> Pid {
        self.posts.next()
    }

    /// The tags, in increasing order of identifier.
    pub closed spec fn tags(&self) -> Seq<TagV> {
        tag_views(self.tags.items())
    }

    /// The identifier that the next tag gets.
    pub closed spec fn ntagid(&self) -> TagId {
        self.tags.next()
    }

    /// The store is well formed.
    pub closed spec fn wf(&self) -> bool {
        self.posts.wf() && self.tags.wf()
    }

    /// In a well-formed store identifiers increase and stay below the next ones.
    pub proof fn lemma_wf(&self)
        requires
            self.wf(),
        ensures
            posts_increasing(self.posts()),
            tags_increasing(self.tags()),
            forall|i: int| 0 <= i < self.posts().len() ==> #[trigger] self.posts()[i].id < self.npid(),
            forall|i: int| 0 <= i < self.tags().len() ==> #[trigger] self.tags()[i].id < self.ntagid(),
    {
        let ps = self.posts.items();
        let ts = self.tags.items();
        assert forall|i: int, j: int| 0 <= i < j < self.posts().len() implies #[trigger] self.posts()[i].id < #[trigger] self.posts()[j].id by {
            assert(ps[i].spec_key() < ps[j].spec_key());
        }
        assert forall|i: int, j: int| 0 <= i < j < self.tags().len() implies #[trigger] self.tags()[i].id < #[trigger] self.tags()[j].id by {
            assert(ts[i].spec_key() < ts[j].spec_key());
        }
        assert forall|i: int| 0 <= i < self.posts().len() implies #[trigger] self.posts()[i].id < self.npid() by {
            assert(ps[i].spec_key() < self.npid());
        }
        assert forall|i: int| 0 <= i < self.tags().len() implies #[trigger] self.tags()[i].id < self.ntagid() by {
            assert(ts[i].spec_key() < self.ntagid());
        }
    }

    /// An empty store.
    pub fn new() -> (r: Self)
        ensures
            r.wf(),
            r.posts() == Seq::<PostV>::empty(),
            r.tags() == Seq::<TagV>::empty(),
            r.npid() == 0,
            r.ntagid() == 0,
    {
        let r = RamPostStore { posts: IdTable::new(), tags: IdTable::new() };
        assert(r.posts() =~= Seq::<PostV>::empty());
        assert(r.tags() =~= Seq::<TagV>::empty());
        r
    }

    /// The identifier the next post gets.
    pub fn next_pid(&self) -> (r: Pid)
        ensures
            r == self.npid(),
    {
        self.posts.next_id()
    }

    /// The identifier the next tag gets.
    pub fn next_tagid(&self) -> (r: TagId)
        ensures
            r == self.ntagid(),
    {
        self.tags.next_id()
    }

    /// The post with identifier `pid`.
    pub fn get(&self, pid: Pid) -> (r: Result<Post, String>)
        requires
            self.wf(),
        ensures
            r is Ok <==> has_post(self.posts(), pid),
            r matches Ok(p) ==> p.id == pid && exists|i: int| 0 <= i < self.posts().len() && self.posts()[i] == p@,
            r matches Err(e) ==> e@ == "invalid pid"@,
    {
        proof { lemma_has_post::<Post>(self.posts.items(), pid); }
        match self.posts.find(pid) {
            Some(i) => {
                let p = self.posts.at(i).duplicate();
                assert(self.posts()[i as int] == p@);
                Ok(p)
            },
            None => Err(String::from_str("invalid pid")),
        }
    }

    /// All posts, in increasing order of identifier.
    pub fn get_all(&self) -> (r: Result<Vec<Post>, String>)
        requires
            self.wf(),
        ensures
            r matches Ok(v) && post_views(v@) == self.posts(),
    {
        let v = self.posts.copy_all();
        assert forall|i: int| 0 <= i < v@.len() implies #[trigger] post_views(v@)[i] == self.posts()[i] by {
            assert(self.posts.items()[i].same_record(v@[i]));
        }
        assert(post_views(v@) =~= self.posts());
        Ok(v)
    }

    /// All tags, in increasing order of identifier.
    pub fn get_tags(&self) -> (r: Result<Vec<Tag>, String>)
        requires
            self.wf(),
        ensures
            r matches Ok(v) && tag_views(v@) == self.tags(),
    {
        let v = self.tags.copy_all();
        assert forall|i: int| 0 <= i < v@.len() implies #[trigger] tag_views(v@)[i] == self.tags()[i] by {
            assert(self.tags.items()[i].same_record(v@[i]));
        }
        assert(tag_views(v@) =~= self.tags());
        Ok(v)
    }

    /// Creates a tag named `name` with the next tag identifier.
    pub fn create_tag(&mut self, name: String) -> (r: Result<Tag, String>)
        requires
            old(self).wf(),
            old(self).ntagid() < u64::MAX,
        ensures
            final(self).wf(),
            r matches Ok(t) && t.id == old(self).ntagid() && t.name@ == name@
                && final(self).tags() == old(self).tags().push(t@),
            final(self).ntagid() == old(self).ntagid() + 1,
            final(self).posts() == old(self).posts(),
            final(self).npid() == old(self).npid(),
    {
        let id = self.tags.next_id();
        let tag = Tag { id, name };
        let stored = tag.duplicate();
        self.tags.push_new(stored);
        proof {
            assert(final(self).tags() =~= old(self).tags().push(tag@));
        }
        Ok(tag)
    }

    /// Records a post with the next post identifier, created at the point
    /// `now`, with no update time and no tag.
    pub fn post_at(&mut self, post: String, file: Option<File>, now: DateTime) -> (r: Result<Post, String>)
        requires
            old(self).wf(),
            old(self).npid() < u64::MAX,
        ensures
            final(self).wf(),
            r matches Ok(p) && p.id == old(self).npid() && p.post@ == post@
                && p.updated_at is None && p.tag is None
                && opt_file_view(p.file) == opt_file_view(file)
                && final(self).posts() == old(self).posts().push(p@),
            final(self).npid() == old(self).npid() + 1,
            final(self).tags() == old(self).tags(),
            final(self).ntagid() == old(self).ntagid(),
            r matches Ok(p) && post_created(old(self).posts(), old(self).npid(), final(self).posts(), post@, opt_file_view(file), p@),
            r matches Ok(p) ==> p.created_at == now,
    {
        let id = self.posts.next_id();
        let p = Post { id, post, created_at: now, updated_at: None, file, tag: None };
        let stored = p.duplicate();
        self.posts.push_new(stored);
        proof {
            assert(final(self).posts() =~= old(self).posts().push(p@));
        }
        Ok(p)
    }

    /// Records a post as `post_at` does, at the current time of the clock.
    pub fn post(&mut self, post: String, file: Option<File>) -> (r: Result<Post, String>)
        requires
            old(self).wf(),
            old(self).npid() < u64::MAX,
        ensures
            final(self).wf(),
            r matches Ok(p) && p.id == old(self).npid() && p.post@ == post@
                && p.updated_at is None && p.tag is None
                && opt_file_view(p.file) == opt_file_view(file)
                && final(self).posts() == old(self).posts().push(p@),
            final(self).npid() == old(self).npid() + 1,
            final(self).tags() == old(self).tags(),
            final(self).ntagid() == old(self).ntagid(),
            r matches Ok(p) && post_created(old(self).posts(), old(self).npid(), final(self).posts(), post@, opt_file_view(file), p@),
    {
        let now = local_now();
        self.post_at(post, file, now)
    }

    /// Removes the post with identifier `pid`.
    pub fn delete(&mut self, pid: Pid) -> (r: Result<(), String>)
        requires
            old(self).wf(),
        ensures
            final(self).wf(),
            r is Ok <==> has_post(old(self).posts(), pid),
            r matches Err(e) ==> e@ == "invalid pid"@ && final(self).posts() == old(self).posts(),
            r is Ok ==> exists|i: int| 0 <= i < old(self).posts().len()
                && old(self).posts()[i].id == pid
                && final(self).posts() == #[trigger] old(self).posts().remove(i),
            final(self).npid() == old(self).npid(),
            final(self).tags() == old(self).tags(),
            final(self).ntagid() == old(self).ntagid(),
            post_deleted(old(self).posts(), final(self).posts(), pid, unit_res_view(r)),
    {
        proof { lemma_has_post::<Post>(old(self).posts.items(), pid); }
        let removed = self.posts.remove(pid);
        if removed {
            proof {
                let i = choose|i: int| 0 <= i < old(self).posts.items().len()
                    && old(self).posts.items()[i].spec_key() == pid
                    && self.posts.items() == #[trigger] old(self).posts.items().remove(i);
                assert(final(self).posts() =~= old(self).posts().remove(i));
                assert(old(self).posts()[i].id == pid);
            }
            Ok(())
        } else {
            Err(String::from_str("invalid pid"))
        }
    }

    /// Puts `post` in the place of the post with the same identifier.
    pub fn update(&mut self, post: Post) -> (r: Result<Post, String>)
        requires
            old(self).wf(),
        ensures
            final(self).wf(),
            r is Ok <==> has_post(old(self).posts(), post.id),
            r matches Ok(p) ==> p == post && exists|i: int| 0 <= i < old(self).posts().len()
                && old(self).posts()[i].id == post.id
                && final(self).posts() == #[trigger] old(self).posts().update(i, post@),
            r matches Err(e) ==> e@ == "invalid pid"@ && final(self).posts() == old(self).posts(),
            final(self).npid() == old(self).npid(),
            final(self).tags() == old(self).tags(),
            final(self).ntagid() == old(self).ntagid(),
            post_updated(old(self).posts(), final(self).posts(), post@, res_view(r)),
    {
        proof { lemma_has_post::<Post>(old(self).posts.items(), post.id); }
        let stored = post.duplicate();
        let replaced = self.posts.replace(stored);
        if replaced {
            proof {
                let i = choose|i: int| 0 <= i < old(self).posts.items().len()
                    && old(self).posts.items()[i].spec_key() == stored.spec_key()
                    && self.posts.items() == #[trigger] old(self).posts.items().update(i, stored);
                assert(final(self).posts() =~= old(self).posts().update(i, post@));
            }
            Ok(post)
        } else {
            Err(String::from_str("invalid pid"))
        }
    }
}

/// A post just recorded is the only one with its identifier: reading that
/// identifier back after `post` gives the recorded post.
pub proof fn law_post_then_get(s: RamPostStore, p: PostV)
    requires
        s.wf(),
        p.id == s.npid(),
    ensures
        has_post(s.posts().push(p), p.id),
        forall|k: int| 0 <= k < s.posts().len() + 1 && #[trigger] s.posts().push(p)[k].id == p.id
            ==> s.posts().push(p)[k] == p,
{
    s.lemma_wf();
    let t = s.posts().push(p);
    assert(t[s.posts().len() as int].id == p.id);
    assert forall|k: int| 0 <= k < s.posts().len() + 1 && #[trigger] t[k].id == p.id implies t[k] == p by {
        if k < s.posts().len() {
            assert(s.posts()[k].id < s.npid());
        }
    }
}

/// After a post is removed no post with its identifier is left: reading
/// the identifier again is refused.
pub proof fn law_delete_then_get(s: RamPostStore, i: int)
    requires
        s.wf(),
        0 <= i < s.posts().len(),
    ensures
        !has_post(s.posts().remove(i), s.posts()[i].id),
{
    s.lemma_wf();
    let pid = s.posts()[i].id;
    let t = s.posts().remove(i);
    assert forall|k: int| 0 <= k < t.len() implies #[trigger] t[k].id != pid by {
        if k < i {
            assert(s.posts()[k].id < s.posts()[i].id);
        } else {
            assert(t[k] == s.posts()[k + 1]);
            assert(s.posts()[i].id < s.posts()[k + 1].id);
        }
    }
}

/// After a post is updated, the post read back under its identifier is the
/// new one.
pub proof fn law_update_then_get(s: RamPostStore, i: int, p: PostV)
    requires
        s.wf(),
        0 <= i < s.posts().len(),
        s.posts()[i].id == p.id,
    ensures
        forall|k: int| 0 <= k < s.posts().len() && #[trigger] s.posts().update(i, p)[k].id == p.id
            ==> s.posts().update(i, p)[k] == p,
{
    s.lemma_wf();
    assert forall|k: int| 0 <= k < s.posts().len() && #[trigger] s.posts().update(i, p)[k].id == p.id
        implies s.posts().update(i, p)[k] == p by {
        if k < i {
            assert(s.posts()[k].id < s.posts()[i].id);
        } else if k > i {
            assert(s.posts()[i].id < s.posts()[k].id);
        }
    }
}

/// The todos of one times, kept in memory.
pub struct RamToDoStore {
    todos: IdTable<Todo>,
}

impl RamToDoStore {
    /// The todos, in increasing order of identifier.
    pub closed spec fn todos(&self) -> Seq<TodoV> {
        todo_views(self.todos.items())
    }

    /// The identifier that the next todo gets.
    pub closed spec fn ntdid(&self) -> Tdid {
        self.todos.next()
    }

    /// The store is well formed.
    pub closed spec fn wf(&self) -> bool {
        self.todos.wf()
    }

    /// In a well-formed store identifiers increase and stay below the next one.
    pub proof fn lemma_wf(&self)
        requires
            self.wf(),
        ensures
            todos_increasing(self.todos()),
            forall|i: int| 0 <= i < self.todos().len() ==> #[trigger] self.todos()[i].id < self.ntdid(),
    {
        let ts = self.todos.items();
        assert forall|i: int, j: int| 0 <= i < j < self.todos().len() implies #[trigger] self.todos()[i].id < #[trigger] self.todos()[j].id by {
            assert(ts[i].spec_key() < ts[j].spec_key());
        }
        assert forall|i: int| 0 <= i < self.todos().len() implies #[trigger] self.todos()[i].id < self.ntdid() by {
            assert(ts[i].spec_key() < self.ntdid());
        }
    }

    /// An empty store.
    pub fn new() -> (r: Self)
        ensures
            r.wf(),
            r.todos() == Seq::<TodoV>::empty(),
            r.ntdid() == 0,
    {
        let r = RamToDoStore { todos: IdTable::new() };
        assert(r.todos() =~= Seq::<TodoV>::empty());
        r
    }

    /// The identifier the next todo gets.
    pub fn next_tdid(&self) -> (r: Tdid)
        ensures
            r == self.ntdid(),
    {
        self.todos.next_id()
    }

    /// All todos, in increasing order of identifier.
    pub fn get(&self) -> (r: Result<Vec<Todo>, String>)
        requires
            self.wf(),
        ensures
            r matches Ok(v) && todo_views(v@) == self.todos(),
    {
        let v = self.todos.copy_all();
        assert forall|i: int| 0 <= i < v@.len() implies #[trigger] todo_views(v@)[i] == self.todos()[i] by {
            assert(self.todos.items()[i].same_record(v@[i]));
        }
        assert(todo_views(v@) =~= self.todos());
        Ok(v)
    }

    /// Records a todo with the next identifier, created at the point `now`,
    /// with no detail, and not done.
    pub fn new_todo_at(&mut self, content: String, now: DateTime) -> (r: Result<Todo, String>)
        requires
            old(self).wf(),
            old(self).ntdid() < u64::MAX,
        ensures
            final(self).wf(),
            r matches Ok(t) && t.id == old(self).ntdid() && t.content@ == content@
                && t.detail is None && t.done_at is None
                && final(self).todos() == old(self).todos().push(t@),
            final(self).ntdid() == old(self).ntdid() + 1,
            r matches Ok(t) && todo_created(old(self).todos(), old(self).ntdid(), final(self).todos(), content@, t@),
            r matches Ok(t) ==> t.created_at == now,
    {
        let id = self.todos.next_id();
        let t = Todo { id, content, detail: None, created_at: now, done_at: None };
        let stored = t.duplicate();
        self.todos.push_new(stored);
        proof {
            assert(final(self).todos() =~= old(self).todos().push(t@));
        }
        Ok(t)
    }

    /// Records a todo as `new_todo_at` does, at the current time of the clock.
    pub fn new_todo(&mut self, content: String) -> (r: Result<Todo, String>)
        requires
            old(self).wf(),
            old(self).ntdid() < u64::MAX,
        ensures
            final(self).wf(),
            r matches Ok(t) && t.id == old(self).ntdid() && t.content@ == content@
                && t.detail is None && t.done_at is None
                && final(self).todos() == old(self).todos().push(t@),
            final(self).ntdid() == old(self).ntdid() + 1,
            r matches Ok(t) && todo_created(old(self).todos(), old(self).ntdid(), final(self).todos(), content@, t@),
    {
        let now = local_now();
        self.new_todo_at(content, now)
    }

    /// Marks the todo `tdid` done at the point `now`, or not done.  A todo
    /// that is already in the asked state is refused.
    pub fn mark_done(&mut self, tdid: Tdid, done: bool, now: DateTime) -> (r: Result<Todo, String>)
        requires
            old(self).wf(),
        ensures
            final(self).wf(),
            final(self).ntdid() == old(self).ntdid(),
            !has_todo(old(self).todos(), tdid) ==> (r matches Err(e) && e@ == "invalid tid"@
                && final(self).todos() == old(self).todos()),
            forall|i: int| 0 <= i < old(self).todos().len() && #[trigger] old(self).todos()[i].id == tdid ==> {
                let o = old(self).todos()[i];
                if (o.done_at is Some) == done {
                    r matches Err(e) && e@ == "invalid state"@ && final(self).todos() == old(self).todos()
                } else {
                    r matches Ok(t) && t.id == tdid && t.content@ == o.content && t@.detail == o.detail
                        && t.created_at == o.created_at && (t.done_at is Some) == done
                        && final(self).todos() == old(self).todos().update(i, t@)
                }
            },
            todo_done(old(self).todos(), final(self).todos(), tdid, done, res_view(r)),
            r matches Ok(t) ==> t.done_at == (if done { Some(now) } else { None::<DateTime> }),
    {
        proof {
            lemma_has_todo(old(self).todos.items(), tdid);
        }
        match self.todos.find(tdid) {
            None => Err(String::from_str("invalid tid")),
            Some(i) => {
                proof {
                    assert forall|k: int| 0 <= k < old(self).todos().len() && #[trigger] old(self).todos()[k].id == tdid implies k == i by {
                        lemma_unique_key(old(self).todos.items(), old(self).todos.next(), k, i as int);
                    }
                }
                let cur = self.todos.at(i);
                if cur.done_at.is_some() == done {
                    return Err(String::from_str("invalid state"));
                }
                let mut t = cur.duplicate();
                t.done_at = if done { Some(now) } else { None };
                let stored = t.duplicate();
                let ghost before = self.todos.items();
                let e = self.todos.at_mut(i);
                *e = stored;
                proof {
                    lemma_update_same_key(before, old(self).todos.next(), i as int, stored);
                    assert(final(self).todos() =~= old(self).todos().update(i as int, t@));
                }
                Ok(t)
            },
        }
    }

    /// Marks the todo `tdid` done (at the current time) or not done.  A todo
    /// that is already in the asked state is refused.
    pub fn done(&mut self, tdid: Tdid, done: bool) -> (r: Result<Todo, String>)
        requires
            old(self).wf(),
        ensures
            final(self).wf(),
            final(self).ntdid() == old(self).ntdid(),
            !has_todo(old(self).todos(), tdid) ==> (r matches Err(e) && e@ == "invalid tid"@
                && final(self).todos() == old(self).todos()),
            forall|i: int| 0 <= i < old(self).todos().len() && #[trigger] old(self).todos()[i].id == tdid ==> {
                let o = old(self).todos()[i];
                if (o.done_at is Some) == done {
                    r matches Err(e) && e@ == "invalid state"@ && final(self).todos() == old(self).todos()
                } else {
                    r matches Ok(t) && t.id == tdid && t.content@ == o.content && t@.detail == o.detail
                        && t.created_at == o.created_at && (t.done_at is Some) == done
                        && final(self).todos() == old(self).todos().update(i, t@)
                }
            },
            todo_done(old(self).todos(), final(self).todos(), tdid, done, res_view(r)),
            r matches Ok(t) ==> done ==> exists|now: DateTime| t.done_at == Some(now),
    {
        let now = local_now();
        self.mark_done(tdid, done, now)
    }

    /// Puts `todo` in the place of the todo with the same identifier.
    pub fn update(&mut self, todo: Todo) -> (r: Result<Todo, String>)
        requires
            old(self).wf(),
        ensures
            final(self).wf(),
            r is Ok <==> has_todo(old(self).todos(), todo.id),
            r matches Ok(t) ==> t == todo && exists|i: int| 0 <= i < old(self).todos().len()
                && old(self).todos()[i].id == todo.id
                && final(self).todos() == #[trigger] old(self).todos().update(i, todo@),
            r matches Err(e) ==> e@ == "invalid pid"@ && final(self).todos() == old(self).todos(),
            final(self).ntdid() == old(self).ntdid(),
            todo_updated(old(self).todos(), final(self).todos(), todo@, res_view(r)),
    {
        proof { lemma_has_todo(old(self).todos.items(), todo.id); }
        let stored = todo.duplicate();
        let replaced = self.todos.replace(stored);
        if replaced {
            proof {
                let i = choose|i: int| 0 <= i < old(self).todos.items().len()
                    && old(self).todos.items()[i].spec_key() == stored.spec_key()
                    && self.todos.items() == #[trigger] old(self).todos.items().update(i, stored);
                assert(final(self).todos() =~= old(self).todos().update(i, todo@));
            }
            Ok(todo)
        } else {
            Err(String::from_str("invalid pid"))
        }
    }

    /// Removes the todo with identifier `tdid`.
    pub fn delete(&mut self, tdid: Tdid) -> (r: Result<(), String>)
        requires
            old(self).wf(),
        ensures
            final(self).wf(),
            r is Ok <==> has_todo(old(self).todos(), tdid),
            r matches Err(e) ==> e@ == "invalid tdid"@ && final(self).todos() == old(self).todos(),
            r is Ok ==> exists|i: int| 0 <= i < old(self).todos().len()
                && old(self).todos()[i].id == tdid
                && final(self).todos() == #[trigger] old(self).todos().remove(i),
            final(self).ntdid() == old(self).ntdid(),
            todo_deleted(old(self).todos(), final(self).todos(), tdid, unit_res_view(r)),
    {
        proof { lemma_has_todo(old(self).todos.items(), tdid); }
        let removed = self.todos.remove(tdid);
        if removed {
            proof {
                let i = choose|i: int| 0 <= i < old(self).todos.items().len()
                    && old(self).todos.items()[i].spec_key() == tdid
                    && self.todos.items() == #[trigger] old(self).todos.items().remove(i);
                assert(final(self).todos() =~= old(self).todos().remove(i));
                assert(old(self).todos()[i].id == tdid);
            }
            Ok(())
        } else {
            Err(String::from_str("invalid tdid"))
        }
    }
}

/// A todo just created is the only one with its identifier, and it is not done.
pub proof fn law_new_todo_unique(s: RamToDoStore, t: TodoV)
    requires
        s.wf(),
        t.id == s.ntdid(),
    ensures
        forall|k: int| 0 <= k < s.todos().len() + 1 && #[trigger] s.todos().push(t)[k].id == t.id
            ==> s.todos().push(t)[k] == t,
{
    s.lemma_wf();
    assert forall|k: int| 0 <= k < s.todos().len() + 1 && #[trigger] s.todos().push(t)[k].id == t.id
        implies s.todos().push(t)[k] == t by {
        if k < s.todos().len() {
            assert(s.todos()[k].id < s.ntdid());
        }
    }
}

/// After a todo is marked done (or not done), it is the only todo with its
/// identifier and it is in that state, so marking it the same way again is
/// refused with "invalid state".
pub proof fn law_done_twice_refused(s: RamToDoStore, i: int, t: TodoV, done: bool)
    requires
        s.wf(),
        0 <= i < s.todos().len(),
        s.todos()[i].id == t.id,
        (t.done_at is Some) == done,
    ensures
        forall|k: int| 0 <= k < s.todos().len() && #[trigger] s.todos().update(i, t)[k].id == t.id
            ==> k == i && (s.todos().update(i, t)[k].done_at is Some) == done,
{
    s.lemma_wf();
    assert forall|k: int| 0 <= k < s.todos().len() && #[trigger] s.todos().update(i, t)[k].id == t.id
        implies k == i && (s.todos().update(i, t)[k].done_at is Some) == done by {
        if k < i {
            assert(s.todos()[k].id < s.todos()[i].id);
        } else if k > i {
            assert(s.todos()[i].id < s.todos()[k].id);
        }
    }
}

/// A todo marked done at a point in time is, read back under its
/// identifier, the only todo there, and carries that point as its done
/// time and its creation time unchanged; a todo marked not done carries no
/// done time.
pub proof fn law_mark_done_records_the_time(o: RamToDoStore, n: Seq<TodoV>, tdid: Tdid, done: bool, now: DateTime, t: TodoV)
    requires
        o.wf(),
        todo_done(o.todos(), n, tdid, done, Ok::<TodoV, Seq<char>>(t)),
        t.done_at == (if done { Some(now) } else { None::<DateTime> }),
    ensures
        has_todo(n, tdid),
        forall|k: int| 0 <= k < n.len() && #[trigger] n[k].id == tdid ==> {
            &&& n[k].done_at == (if done { Some(now) } else { None::<DateTime> })
            &&& exists|i: int| 0 <= i < o.todos().len() && o.todos()[i].id == tdid && n[k].created_at == #[trigger] o.todos()[i].created_at
        },
{
    o.lemma_wf();
    let i = choose|i: int| 0 <= i < o.todos().len() && #[trigger] o.todos()[i].id == tdid && {
        let t0 = o.todos()[i];
        if (t0.done_at is Some) == done {
            Ok::<TodoV, Seq<char>>(t) == Err::<TodoV, Seq<char>>("invalid state"@) && n == o.todos()
        } else {
            Ok::<TodoV, Seq<char>>(t) matches Ok(t1) && t1.id == tdid && t1.content == t0.content && t1.detail == t0.detail
                && t1.created_at == t0.created_at && (t1.done_at is Some) == done
                && n == o.todos().update(i, t1)
        }
    };
    assert(n[i].id == tdid);
    assert forall|k: int| 0 <= k < n.len() && #[trigger] n[k].id == tdid implies {
        &&& n[k].done_at == (if done { Some(now) } else { None::<DateTime> })
        &&& exists|j: int| 0 <= j < o.todos().len() && o.todos()[j].id == tdid && n[k].created_at == #[trigger] o.todos()[j].created_at
    } by {
        if k < i {
            assert(o.todos()[k].id < o.todos()[i].id);
        } else if k > i {
            assert(o.todos()[i].id < o.todos()[k].id);
        }
        assert(o.todos()[i].created_at == n[k].created_at);
    }
}

/// The todo `t` with its detail replaced by `detail`.
pub open spec fn with_detail(t: TodoV, detail: Seq<char>) -> TodoV {
    TodoV { detail: Some(detail), ..t }
}

/// After the detail of a todo is replaced, the todo read back under its
/// identifier carries the new detail and keeps everything else.
pub proof fn law_detail_then_get(s: RamToDoStore, i: int, detail: Seq<char>)
    requires
        s.wf(),
        0 <= i < s.todos().len(),
    ensures
        has_todo(s.todos().update(i, with_detail(s.todos()[i], detail)), s.todos()[i].id),
        forall|k: int| 0 <= k < s.todos().len()
            && #[trigger] s.todos().update(i, with_detail(s.todos()[i], detail))[k].id == s.todos()[i].id
            ==> s.todos().update(i, with_detail(s.todos()[i], detail))[k] == with_detail(s.todos()[i], detail),
{
    s.lemma_wf();
    let u = with_detail(s.todos()[i], detail);
    let t = s.todos().update(i, u);
    assert(t[i].id == s.todos()[i].id);
    assert forall|k: int| 0 <= k < s.todos().len() && #[trigger] t[k].id == s.todos()[i].id implies t[k] == u by {
        if k < i {
            assert(s.todos()[k].id < s.todos()[i].id);
        } else if k > i {
            assert(s.todos()[i].id < s.todos()[k].id);
        }
    }
}

/// One times kept in memory, with its posts, tags and todos.
pub struct RamTimesStore {
    times: Times,
    pstore: RamPostStore,
    tdstore: RamToDoStore,
}

impl RamTimesStore {
    /// The times.
    pub closed spec fn times(&self) -> TimesV {
        self.times@
    }

    /// The store of its posts and tags.
    pub closed spec fn post_store(&self) -> RamPostStore {
        self.pstore
    }

    /// The store of its todos.
    pub closed spec fn todo_store(&self) -> RamToDoStore {
        self.tdstore
    }

    /// The store is well formed.
    pub open spec fn wf(&self) -> bool {
        self.post_store().wf() && self.todo_store().wf()
    }

    /// A times with no posts, tags or todos.
    pub fn new(times: Times) -> (r: Self)
        ensures
            r.wf(),
            r.times() == times@,
            r.post_store().posts() == Seq::<PostV>::empty(),
            r.post_store().tags() == Seq::<TagV>::empty(),
            r.post_store().npid() == 0,
            r.post_store().ntagid() == 0,
            r.todo_store().todos() == Seq::<TodoV>::empty(),
            r.todo_store().ntdid() == 0,
    {
        RamTimesStore { times, pstore: RamPostStore::new(), tdstore: RamToDoStore::new() }
    }

    /// The times.
    pub fn get(&self) -> (r: Result<Times, String>)
        ensures
            r matches Ok(t) && t@ == self.times(),
    {
        Ok(self.times.duplicate())
    }

    /// Replaces the times with `times`.
    pub fn update(&mut self, times: Times) -> (r: Result<Times, String>)
        ensures
            r == Ok::<Times, String>(times),
            final(self).times() == times@,
            final(self).post_store() == old(self).post_store(),
            final(self).todo_store() == old(self).todo_store(),
    {
        self.times = times.duplicate();
        Ok(times)
    }

    /// The store of its posts and tags.
    pub fn pstore(&self) -> (r: &RamPostStore)
        ensures
            *r == self.post_store(),
    {
        &self.pstore
    }

    /// The store of its posts and tags, to change.
    pub fn pstore_mut(&mut self) -> (r: &mut RamPostStore)
        ensures
            *r == old(self).post_store(),
            final(self).post_store() == *final(r),
            final(self).times() == old(self).times(),
            final(self).todo_store() == old(self).todo_store(),
    {
        &mut self.pstore
    }

    /// The store of its todos.
    pub fn tdstore(&self) -> (r: &RamToDoStore)
        ensures
            *r == self.todo_store(),
    {
        &self.tdstore
    }

    /// The store of its todos, to change.
    pub fn tdstore_mut(&mut self) -> (r: &mut RamToDoStore)
        ensures
            *r == old(self).todo_store(),
            final(self).todo_store() == *final(r),
            final(self).times() == old(self).times(),
            final(self).post_store() == old(self).post_store(),
    {
        &mut self.tdstore
    }
}

/// A times store together with the identifier it is kept under.
pub struct TimesEntry {
    pub tid: Tid,
    pub store: RamTimesStore,
}

impl Keyed for TimesEntry {
    open spec fn spec_key(&self) -> u64 {
        self.tid
    }

    fn key(&self) -> (r: u64) {
        self.tid
    }
}

/// The identifiers of the entries.
spec fn entry_tids(s: Seq<TimesEntry>) -> Seq<Tid> {
    s.map_values(|e: TimesEntry| e.tid)
}

/// The stores of the entries.
spec fn entry_stores(s: Seq<TimesEntry>) -> Seq<RamTimesStore> {
    s.map_values(|e: TimesEntry| e.store)
}

proof fn lemma_entry_stores_update(s: Seq<TimesEntry>, i: int, e: TimesEntry)
    requires
        0 <= i < s.len(),
    ensures
        entry_stores(s.update(i, e)) == entry_stores(s).update(i, e.store),
        entry_tids(s.update(i, e)) == entry_tids(s).update(i, e.tid),
{
    assert(entry_stores(s.update(i, e)) =~= entry_stores(s).update(i, e.store));
    assert(entry_tids(s.update(i, e)) =~= entry_tids(s).update(i, e.tid));
}

proof fn lemma_all_wf_update(s: Seq<RamTimesStore>, i: int, x: RamTimesStore)
    requires
        0 <= i < s.len(),
        forall|k: int| 0 <= k < s.len() ==> #[trigger] s[k].wf(),
    ensures
        x.wf() ==> forall|k: int| 0 <= k < s.len() ==> #[trigger] s.update(i, x)[k].wf(),
{
    if x.wf() {
        assert forall|k: int| 0 <= k < s.len() implies #[trigger] s.update(i, x)[k].wf() by {
            if k != i {
                assert(s.update(i, x)[k] == s[k]);
            }
        }
    }
}

/// Every times kept in memory.
pub struct RamStore {
    tstores: IdTable<TimesEntry>,
}

impl RamStore {
    /// The identifiers the times are kept under, increasing.
    pub closed spec fn tids(&self) -> Seq<Tid> {
        entry_tids(self.tstores.items())
    }

    /// The times stores, in the order of `tids`.
    pub closed spec fn stores(&self) -> Seq<RamTimesStore> {
        entry_stores(self.tstores.items())
    }

    /// The identifier that the next times gets.
    pub closed spec fn ntid(&self) -> Tid {
        self.tstores.next()
    }

    /// The store is well formed.
    pub closed spec fn wf(&self) -> bool {
        &&& self.tstores.wf()
        &&& forall|i: int| 0 <= i < self.stores().len() ==> #[trigger] self.stores()[i].wf()
    }

    /// In a well-formed store the identifiers increase, stay below the next
    /// one, and every times store is well formed.
    pub proof fn lemma_wf(&self)
        requires
            self.wf(),
        ensures
            self.tids().len() == self.stores().len(),
            forall|i: int, j: int| 0 <= i < j < self.tids().len() ==> #[trigger] self.tids()[i] < #[trigger] self.tids()[j],
            forall|i: int| 0 <= i < self.tids().len() ==> #[trigger] self.tids()[i] < self.ntid(),
            forall|i: int| 0 <= i < self.stores().len() ==> #[trigger] self.stores()[i].wf(),
    {
        let s = self.tstores.items();
        assert forall|i: int, j: int| 0 <= i < j < self.tids().len() implies #[trigger] self.tids()[i] < #[trigger] self.tids()[j] by {
            assert(s[i].spec_key() < s[j].spec_key());
        }
        assert forall|i: int| 0 <= i < self.tids().len() implies #[trigger] self.tids()[i] < self.ntid() by {
            assert(s[i].spec_key() < self.ntid());
        }
    }

    /// An empty store.
    pub fn new() -> (r: Self)
        ensures
            r.wf(),
            r.tids() == Seq::<Tid>::empty(),
            r.stores() == Seq::<RamTimesStore>::empty(),
            r.ntid() == 0,
    {
        let r = RamStore { tstores: IdTable::new() };
        assert(r.tids() =~= Seq::<Tid>::empty());
        assert(r.stores() =~= Seq::<RamTimesStore>::empty());
        r
    }

    /// The store is reachable; memory always is.
    pub fn check(&self) -> (r: Result<(), String>)
        ensures
            r is Ok,
    {
        Ok(())
    }

    /// The number of times.
    pub fn len(&self) -> (r: usize)
        ensures
            r == self.stores().len(),
    {
        self.tstores.len()
    }

    /// The times of every times store, in increasing order of identifier.
    pub fn get(&self) -> (r: Result<Vec<Times>, String>)
        requires
            self.wf(),
        ensures
            r matches Ok(v) && v@.len() == self.stores().len()
                && forall|i: int| 0 <= i < v@.len() ==> #[trigger] v@[i]@ == self.stores()[i].times(),
    {
        let mut v: Vec<Times> = Vec::new();
        let mut i: usize = 0;
        while i < self.tstores.len()
            invariant
                i <= self.stores().len(),
                self.stores().len() == self.tstores.items().len(),
                v@.len() == i,
                forall|k: int| 0 <= k < i ==> #[trigger] v@[k]@ == self.stores()[k].times(),
            decreases self.stores().len() - i,
        {
            let t = self.tstores.at(i).store.times.duplicate();
            v.push(t);
            i = i + 1;
        }
        Ok(v)
    }

    /// Creates a times titled `title`, with the next identifier, created at
    /// the point `now`, with no update time, and no posts, tags or todos.
    pub fn create_at(&mut self, title: String, now: DateTime) -> (r: Result<Times, String>)
        requires
            old(self).wf(),
            old(self).ntid() < u64::MAX,
        ensures
            final(self).wf(),
            final(self).ntid() == old(self).ntid() + 1,
            final(self).tids() == old(self).tids().push(old(self).ntid()),
            final(self).stores().len() == old(self).stores().len() + 1,
            forall|i: int| 0 <= i < old(self).stores().len() ==> #[trigger] final(self).stores()[i] == old(self).stores()[i],
            r matches Ok(t) && t.id == old(self).ntid() && t.title@ == title@ && t.updated_at is None && {
                let s = final(self).stores().last();
                &&& s.times() == t@
                &&& s.post_store().posts() == Seq::<PostV>::empty()
                &&& s.post_store().tags() == Seq::<TagV>::empty()
                &&& s.todo_store().todos() == Seq::<TodoV>::empty()
                &&& s.post_store().npid() == 0
                &&& s.post_store().ntagid() == 0
                &&& s.todo_store().ntdid() == 0
            },
            r matches Ok(t) ==> t.created_at == now,
    {
        let tid = self.tstores.next_id();
        let times = Times { id: tid, title, created_at: now, updated_at: None };
        let store = RamTimesStore::new(times.duplicate());
        self.tstores.push_new(TimesEntry { tid, store });
        proof {
            assert(final(self).tids() =~= old(self).tids().push(old(self).ntid()));
            assert forall|i: int| 0 <= i < final(self).stores().len() implies #[trigger] final(self).stores()[i].wf() by {
                if i < old(self).stores().len() {
                    assert(final(self).stores()[i] == old(self).stores()[i]);
                }
            }
        }
        Ok(times)
    }

    /// Creates a times as `create_at` does, at the current time of the clock.
    pub fn create(&mut self, title: String) -> (r: Result<Times, String>)
        requires
            old(self).wf(),
            old(self).ntid() < u64::MAX,
        ensures
            final(self).wf(),
            final(self).ntid() == old(self).ntid() + 1,
            final(self).tids() == old(self).tids().push(old(self).ntid()),
            final(self).stores().len() == old(self).stores().len() + 1,
            forall|i: int| 0 <= i < old(self).stores().len() ==> #[trigger] final(self).stores()[i] == old(self).stores()[i],
            r matches Ok(t) && t.id == old(self).ntid() && t.title@ == title@ && t.updated_at is None && {
                let s = final(self).stores().last();
                &&& s.times() == t@
                &&& s.post_store().posts() == Seq::<PostV>::empty()
                &&& s.post_store().tags() == Seq::<TagV>::empty()
                &&& s.todo_store().todos() == Seq::<TodoV>::empty()
                &&& s.post_store().npid() == 0
                &&& s.post_store().ntagid() == 0
                &&& s.todo_store().ntdid() == 0
            },
    {
        let now = local_now();
        self.create_at(title, now)
    }

    /// Removes the times kept under `tid`.
    pub fn delete(&mut self, tid: Tid) -> (r: Result<(), String>)
        requires
            old(self).wf(),
        ensures
            final(self).wf(),
            final(self).ntid() == old(self).ntid(),
            r is Ok <==> old(self).tids().contains(tid),
            r matches Err(e) ==> e@ == "invalid tid"@ && final(self).tids() == old(self).tids()
                && final(self).stores() == old(self).stores(),
            r is Ok ==> exists|i: int| 0 <= i < old(self).tids().len()
                && old(self).tids()[i] == tid
                && final(self).tids() == old(self).tids().remove(i)
                && final(self).stores() == #[trigger] old(self).stores().remove(i),
    {
        proof {
            let s = old(self).tstores.items();
            if old(self).tids().contains(tid) {
                let i = choose|i: int| 0 <= i < old(self).tids().len() && old(self).tids()[i] == tid;
                assert(s[i].spec_key() == tid);
            }
            if has_key(s, tid) {
                let i = choose|i: int| 0 <= i < s.len() && #[trigger] s[i].spec_key() == tid;
                assert(old(self).tids()[i] == tid);
            }
        }
        let removed = self.tstores.remove(tid);
        if removed {
            proof {
                let s = old(self).tstores.items();
                let i = choose|i: int| 0 <= i < s.len()
                    && s[i].spec_key() == tid
                    && self.tstores.items() == #[trigger] s.remove(i);
                assert(final(self).tids() =~= old(self).tids().remove(i));
                assert(final(self).stores() =~= old(self).stores().remove(i));
                assert forall|k: int| 0 <= k < final(self).stores().len() implies #[trigger] final(self).stores()[k].wf() by {
                    if k < i {
                        assert(final(self).stores()[k] == old(self).stores()[k]);
                    } else {
                        assert(final(self).stores()[k] == old(self).stores()[k + 1]);
                    }
                }
            }
            Ok(())
        } else {
            proof {
                assert(self.stores() == old(self).stores());
            }
            Err(String::from_str("invalid tid"))
        }
    }

    /// The times store at position `i`.
    pub fn tstore(&self, i: usize) -> (r: &RamTimesStore)
        requires
            i < self.stores().len(),
        ensures
            *r == self.stores()[i as int],
    {
        &self.tstores.at(i).store
    }

    /// The times store at position `i`, to change.  The store stays well
    /// formed when the times store does.
    pub fn tstore_mut(&mut self, i: usize) -> (r: &mut RamTimesStore)
        requires
            old(self).wf(),
            i < old(self).stores().len(),
        ensures
            *r == old(self).stores()[i as int],
            final(self).stores() == old(self).stores().update(i as int, *final(r)),
            final(self).tids() == old(self).tids(),
            final(self).ntid() == old(self).ntid(),
            (*final(r)).wf() ==> final(self).wf(),
    {
        let ghost before = self.tstores.items();
        let e = self.tstores.at_mut(i);
        let r = &mut e.store;
        proof {
            lemma_update_same_key(before, old(self).tstores.next(), i as int, TimesEntry { tid: before[i as int].tid, store: *final(r) });
            lemma_all_wf_update(entry_stores(before), i as int, *final(r));
            lemma_entry_stores_update(before, i as int, TimesEntry { tid: before[i as int].tid, store: *final(r) });
        }
        r
    }
}

} // verus!
