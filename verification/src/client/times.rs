//! The model of the screen of one times: the posts, todos and tags shown,
//! what each request of the screen asks of the stores, and how each answer
//! of the stores changes what is shown.

use vstd::prelude::*;

use super::AppResponse;
use crate::bstore::ram::{post_views, tag_views, todo_views};
use crate::text::{concat, decimal, decimal_string};
use crate::types::{File, Pid, Post, PostV, Tag, TagV, Tdid, Times, Todo, TodoV};

verus! {

broadcast use {vstd::seq_lib::group_to_multiset_ensures, vstd::multiset::group_multiset_axioms};

/// What the screen of a times asks for.
#[derive(Debug)]
pub enum UIRequest {
    Post(String, Option<File>),
    UpdatePost(Post),
    Dump(String),
    Sort(bool),
    Todo(String),
    TodoWithDetail(String, String),
    UpdateTodoDetail(Tdid, String),
    Tag(String),
    TodoDone(Tdid, bool),
    Close,
}

/// What the model tells the screen of a times.
#[derive(Debug)]
pub enum UIResponse {
    ClearText,
    ClearTextSidePane,
    ClearTextSidePaneDetail,
    FileDropped(String),
}

/// An answer of the stores, handed back to the model.
#[derive(Debug)]
pub enum AsyncEvent {
    AddPost(Post),
    UpdatePost(Post),
    AddTodo(Todo),
    AddTag(Tag),
    UpdateTodo(Todo),
    Error(String),
}

/// What the model asks of the application.
#[derive(Debug)]
pub enum AppRequest {
    /// Leave the screen.
    Back,
    /// Report an error.
    Error(String),
}

/// The store work a request of the screen calls for.
#[derive(Debug)]
pub enum TimesJob {
    /// Post `text` with `file`; then add the post and clear the text.
    Post(String, Option<File>),
    /// Write the post; then show the new version.
    UpdatePost(Post),
    /// Create a tag; then add it and clear the side pane text.
    CreateTag(String),
    /// Create a todo and post that it was created.
    CreateTodo(String),
    /// Create a todo, give it the detail, and post that it was created.
    CreateTodoWithDetail(String, String),
    /// Write the todo; then show the new version.
    UpdateTodo(Todo),
    /// Mark a todo done or not done and post it.
    TodoDone(Tdid, bool),
    /// Write the times with `posts` and `tags` to the file at `path`.
    Dump(String, Vec<Post>, Vec<Tag>),
    /// Nothing to ask of the stores; report the error.
    Fail(String),
}

/// The failures reported while doing a job.
#[derive(Clone, Copy, Debug, PartialEq, Eq)]
pub enum Failure {
    CreateTodo,
    CreatePost,
    UpdateTodoWithDetail,
    UpdateTodoDetail,
    UpdateTodoStatus,
    CreatePostForTodoStatus,
}

/// The words that name what failed.
pub open spec fn failure_words(f: Failure) -> Seq<char> {
    match f {
        Failure::CreateTodo => "create todo"@,
        Failure::CreatePost => "create post"@,
        Failure::UpdateTodoWithDetail => "update todo with detail"@,
        Failure::UpdateTodoDetail => "update todo detail"@,
        Failure::UpdateTodoStatus => "update todo status"@,
        Failure::CreatePostForTodoStatus => "create post for todo status"@,
    }
}

/// The report of failure `f` with the store's error `e`.
pub fn failure_message(f: Failure, e: &str) -> (r: String)
    ensures
        r@ == "Failed to "@ + failure_words(f) + ": "@ + e@,
{
    let words = match f {
        Failure::CreateTodo => "create todo",
        Failure::CreatePost => "create post",
        Failure::UpdateTodoWithDetail => "update todo with detail",
        Failure::UpdateTodoDetail => "update todo detail",
        Failure::UpdateTodoStatus => "update todo status",
        Failure::CreatePostForTodoStatus => "create post for todo status",
    };
    let a = concat("Failed to ", words);
    let b = concat(a.as_str(), ": ");
    concat(b.as_str(), e)
}

/// The post that records the creation of todo `content`.
pub fn todo_created_post(content: &str) -> (r: String)
    ensures
        r@ == "todo ("@ + content@ + ") is created"@,
{
    let a = concat("todo (", content);
    concat(a.as_str(), ") is created")
}

/// The post that records the creation of todo `content` given `detail`:
/// it says "with detail" when the detail is not empty.
pub fn todo_with_detail_post(content: &str, detail: &str) -> (r: String)
    ensures
        detail@.len() == 0 ==> r@ == "todo ("@ + content@ + ") is created"@,
        detail@.len() > 0 ==> r@ == "todo ("@ + content@ + ") is created with detail"@,
{
    if detail.unicode_len() == 0 {
        todo_created_post(content)
    } else {
        let a = concat("todo (", content);
        concat(a.as_str(), ") is created with detail")
    }
}

/// The post that records that todo `content` is now done or not done.
pub fn todo_status_post(content: &str, done: bool) -> (r: String)
    ensures
        done ==> r@ == "todo ("@ + content@ + ") is done"@,
        !done ==> r@ == "todo ("@ + content@ + ") is undone"@,
{
    let a = concat("todo (", content);
    if done {
        concat(a.as_str(), ") is done")
    } else {
        concat(a.as_str(), ") is undone")
    }
}

/// The report of a todo that the screen names and the model lacks.
pub fn todo_not_found(tdid: Tdid) -> (r: String)
    ensures
        r@ == "Todo with ID "@ + decimal(tdid as nat) + " not found"@,
{
    let id = decimal_string(tdid);
    let a = concat("Todo with ID ", id.as_str());
    concat(a.as_str(), " not found")
}

/// The posts are in the order of their identifiers, from the largest when
/// `reverse`.
pub open spec fn ids_ordered(s: Seq<PostV>, reverse: bool) -> bool {
    forall|i: int, j: int| 0 <= i < j < s.len() ==>
        if reverse { (#[trigger] s[i]).id >= (#[trigger] s[j]).id } else { s[i].id <= s[j].id }
}

/// `a` comes after `b` in the order of identifiers (reversed when
/// `reverse`).
pub open spec fn comes_after(a: PostV, b: PostV, reverse: bool) -> bool {
    if reverse { a.id < b.id } else { a.id > b.id }
}

/// The first position of `s` whose post comes after `p`, or the length.
fn insert_position(s: &Vec<Post>, p: &Post, reverse: bool) -> (r: usize)
    requires
        ids_ordered(post_views(s@), reverse),
    ensures
        r <= s.len(),
        forall|i: int| 0 <= i < r ==> !comes_after(#[trigger] s@[i]@, p@, reverse),
        forall|i: int| r <= i < s.len() ==> comes_after(#[trigger] s@[i]@, p@, reverse),
{
    let mut i: usize = 0;
    while i < s.len()
        invariant
            i <= s.len(),
            ids_ordered(post_views(s@), reverse),
            forall|k: int| 0 <= k < i ==> !comes_after(#[trigger] s@[k]@, p@, reverse),
        decreases s.len() - i,
    {
        let after = if reverse { s[i].id < p.id } else { s[i].id > p.id };
        if after {
            assert forall|k: int| i <= k < s.len() implies comes_after(#[trigger] s@[k]@, p@, reverse) by {
                if k > i {
                    assert(post_views(s@)[i as int] == s@[i as int]@);
                    assert(post_views(s@)[k] == s@[k]@);
                }
            }
            return i;
        }
        i = i + 1;
    }
    i
}

/// Whether a post has the identifier `id`.
pub open spec fn id_is(id: Pid) -> spec_fn(PostV) -> bool {
    |p: PostV| p.id == id
}

/// The posts of `s` with the identifier `id`, in their order.
pub open spec fn with_id(s: Seq<PostV>, id: Pid) -> Seq<PostV> {
    s.filter(id_is(id))
}

/// No post of `s` has the identifier `id`, so none is kept.
proof fn lemma_with_id_none(s: Seq<PostV>, id: Pid)
    requires
        forall|i: int| 0 <= i < s.len() ==> (#[trigger] s[i]).id != id,
    ensures
        with_id(s, id) == Seq::<PostV>::empty(),
{
    let f = with_id(s, id);
    if f.len() > 0 {
        s.lemma_filter_pred(id_is(id), 0);
        assert(f.contains(f[0]));
        s.lemma_filter_contains_rev(id_is(id), f[0]);
        let i = choose|i: int| 0 <= i < s.len() && s[i] == f[0];
        assert(s[i].id == id);
    }
    assert(f =~= Seq::<PostV>::empty());
}

/// Of a single post, the post is kept when it has the identifier.
proof fn lemma_with_id_single(p: PostV, id: Pid)
    ensures
        with_id(seq![p], id) == (if p.id == id { seq![p] } else { Seq::<PostV>::empty() }),
{
    reveal_with_fuel(Seq::filter, 2);
    assert(seq![p].drop_last() =~= Seq::<PostV>::empty());
    assert(Seq::<PostV>::empty().filter(id_is(id)) =~= Seq::<PostV>::empty());
    if p.id == id {
        assert(with_id(seq![p], id) =~= seq![p]);
    } else {
        assert(with_id(seq![p], id) =~= Seq::<PostV>::empty());
    }
}

/// The posts ordered by identifier, from the largest when `reverse`; posts
/// with the same identifier keep their order.
#[verifier::spinoff_prover]
pub fn sort_posts(v: Vec<Post>, reverse: bool) -> (r: Vec<Post>)
    ensures
        post_views(r@).to_multiset() == post_views(v@).to_multiset(),
        ids_ordered(post_views(r@), reverse),
        forall|id: Pid| #[trigger] with_id(post_views(r@), id) == with_id(post_views(v@), id),
{
    let ghost orig = post_views(v@);
    let mut rest = v;
    let mut out: Vec<Post> = Vec::new();
    assert(post_views(out@) =~= Seq::<PostV>::empty());
    proof {
        reveal_with_fuel(Seq::filter, 1);
        assert forall|id: Pid| #[trigger] with_id(orig, id) == with_id(post_views(out@), id) + with_id(post_views(rest@), id) by {
            assert(with_id(post_views(out@), id) =~= Seq::<PostV>::empty());
            assert(with_id(orig, id) =~= with_id(post_views(out@), id) + with_id(post_views(rest@), id));
        }
    }
    while rest.len() > 0
        invariant
            post_views(out@).to_multiset().add(post_views(rest@).to_multiset()) == orig.to_multiset(),
            ids_ordered(post_views(out@), reverse),
            forall|id: Pid| #[trigger] with_id(orig, id) == with_id(post_views(out@), id) + with_id(post_views(rest@), id),
        decreases rest.len(),
    {
        let ghost before = post_views(rest@);
        let p = rest.remove(0);
        proof {
            vstd::seq_lib::to_multiset_remove(before, 0);
            assert(post_views(rest@) =~= before.remove(0));
            assert(before =~= seq![p@] + post_views(rest@));
        }
        let pos = insert_position(&out, &p, reverse);
        let ghost o = post_views(out@);
        out.insert(pos, p);
        proof {
            assert(post_views(out@) =~= o.insert(pos as int, p@));
            vstd::seq_lib::to_multiset_insert(o, pos as int, p@);
            let n = post_views(out@);
            assert forall|i: int, j: int| 0 <= i < j < n.len() implies
                if reverse { (#[trigger] n[i]).id >= (#[trigger] n[j]).id } else { n[i].id <= n[j].id } by {
                if i < pos && j < pos {
                    assert(n[i] == o[i] && n[j] == o[j]);
                } else if i < pos && j == pos {
                    assert(n[i] == o[i] && !comes_after(o[i], p@, reverse));
                } else if i < pos && j > pos {
                    assert(n[i] == o[i] && n[j] == o[j - 1]);
                } else if i == pos {
                    assert(n[j] == o[j - 1] && comes_after(o[j - 1], p@, reverse));
                } else {
                    assert(n[i] == o[i - 1] && n[j] == o[j - 1]);
                }
            }
            assert(post_views(out@).to_multiset().add(post_views(rest@).to_multiset()) =~= orig.to_multiset());
            let lo = o.subrange(0, pos as int);
            let hi = o.subrange(pos as int, o.len() as int);
            assert(o =~= lo + hi);
            assert(n =~= lo + seq![p@] + hi);
            assert forall|id: Pid| #[trigger] with_id(orig, id) == with_id(post_views(out@), id) + with_id(post_views(rest@), id) by {
                let rs = post_views(rest@);
                Seq::filter_distributes_over_add(seq![p@], rs, id_is(id));
                Seq::filter_distributes_over_add(lo, hi, id_is(id));
                Seq::filter_distributes_over_add(lo + seq![p@], hi, id_is(id));
                Seq::filter_distributes_over_add(lo, seq![p@], id_is(id));
                lemma_with_id_single(p@, id);
                assert(with_id(orig, id) == with_id(o, id) + with_id(before, id));
                if p.id == id {
                    assert forall|k: int| 0 <= k < hi.len() implies (#[trigger] hi[k]).id != id by {
                        assert(hi[k] == o[pos + k]);
                        assert(comes_after(out@[pos + k + 1]@, p@, reverse));
                    }
                    lemma_with_id_none(hi, id);
                    assert(with_id(n, id) =~= with_id(lo, id) + seq![p@]);
                    assert(with_id(o, id) =~= with_id(lo, id));
                    assert(with_id(orig, id) =~= with_id(n, id) + with_id(rs, id));
                } else {
                    assert(with_id(n, id) =~= with_id(lo, id) + with_id(hi, id));
                    assert(with_id(before, id) =~= with_id(rs, id));
                    assert(with_id(orig, id) =~= with_id(n, id) + with_id(rs, id));
                }
            }
        }
    }
    proof {
        reveal_with_fuel(Seq::filter, 1);
        assert forall|id: Pid| #[trigger] with_id(post_views(out@), id) == with_id(orig, id) by {
            assert(with_id(post_views(rest@), id) =~= Seq::<PostV>::empty());
            assert(with_id(orig, id) =~= with_id(post_views(out@), id) + with_id(post_views(rest@), id));
        }
    }
    assert(post_views(rest@) =~= Seq::<PostV>::empty());
    assert(post_views(rest@).to_multiset() =~= vstd::multiset::Multiset::<PostV>::empty());
    assert(post_views(out@).to_multiset() =~= post_views(out@).to_multiset().add(post_views(rest@).to_multiset()));
    out
}

/// The posts of `s` with every post whose identifier is that of `p`
/// replaced by `p`.
pub open spec fn replace_posts(s: Seq<PostV>, p: PostV) -> Seq<PostV> {
    s.map_values(|q: PostV| if q.id == p.id { p } else { q })
}

/// The todos of `s` with every todo whose identifier is that of `t`
/// replaced by `t`.
pub open spec fn replace_todos(s: Seq<TodoV>, t: TodoV) -> Seq<TodoV> {
    s.map_values(|q: TodoV| if q.id == t.id { t } else { q })
}

/// The tags of `s` with the tag of the identifier of `t` replaced by `t`,
/// or `t` added at the end when there is none: the tags are kept by
/// identifier.
pub open spec fn insert_tag(s: Seq<TagV>, t: TagV) -> Seq<TagV> {
    if exists|i: int| 0 <= i < s.len() && s[i].id == t.id {
        s.map_values(|q: TagV| if q.id == t.id { t } else { q })
    } else {
        s.push(t)
    }
}

/// No two tags of `s` share an identifier.
pub open spec fn tags_unique(s: Seq<TagV>) -> bool {
    forall|i: int, j: int| 0 <= i < j < s.len() ==> (#[trigger] s[i]).id != (#[trigger] s[j]).id
}

/// The paths of the dropped files among the reports of the application.
pub open spec fn dropped_paths(s: Seq<AppResponse>) -> Seq<Seq<char>>
    decreases s.len(),
{
    if s.len() == 0 {
        Seq::empty()
    } else {
        let before = dropped_paths(s.drop_last());
        match s.last() {
            AppResponse::FileDropped(p) => before.push(p@),
            AppResponse::Error(_) => before,
        }
    }
}

/// The store work that the request `req` calls for, given the todos
/// `todos`, the posts `posts` (in any order) and the tags `tags` shown.
pub open spec fn job_for(todos: Seq<TodoV>, posts: Seq<PostV>, tags: Seq<TagV>, req: UIRequest, job: Option<TimesJob>) -> bool {
    match req {
        UIRequest::Post(text, file) => job matches Some(TimesJob::Post(t, f)) && t == text && f == file,
        UIRequest::UpdatePost(p) => job matches Some(TimesJob::UpdatePost(q)) && q == p,
        UIRequest::Tag(name) => job matches Some(TimesJob::CreateTag(n)) && n == name,
        UIRequest::Todo(c) => job matches Some(TimesJob::CreateTodo(n)) && n == c,
        UIRequest::TodoWithDetail(c, d) => job matches Some(TimesJob::CreateTodoWithDetail(n, m)) && n == c && m == d,
        UIRequest::UpdateTodoDetail(tdid, detail) => if exists|i: int| 0 <= i < todos.len() && #[trigger] todos[i].id == tdid {
            job matches Some(TimesJob::UpdateTodo(t)) && exists|i: int| 0 <= i < todos.len()
                && #[trigger] todos[i].id == tdid
                && (forall|j: int| 0 <= j < i ==> todos[j].id != tdid)
                && t@ == (TodoV { detail: Some(detail@), ..todos[i] })
        } else {
            job matches Some(TimesJob::Fail(m)) && m@ == "Todo with ID "@ + decimal(tdid as nat) + " not found"@
        },
        UIRequest::TodoDone(tdid, done) => job matches Some(TimesJob::TodoDone(t, d)) && t == tdid && d == done,
        UIRequest::Dump(path) => job matches Some(TimesJob::Dump(pa, ps, ts)) && pa == path
            && post_views(ps@).to_multiset() == posts.to_multiset() && tag_views(ts@) == tags,
        UIRequest::Sort(_) => job is None,
        UIRequest::Close => job is None,
    }
}

/// The flag of the last sort request of `reqs`, or `reverse` when there is
/// none.
pub open spec fn last_sort(reqs: Seq<UIRequest>, reverse: bool) -> bool
    decreases reqs.len(),
{
    if reqs.len() == 0 {
        reverse
    } else {
        match reqs.last() {
            UIRequest::Sort(r) => r,
            _ => last_sort(reqs.drop_last(), reverse),
        }
    }
}

/// Some request of `reqs` asks for a sort.
pub open spec fn has_sort(reqs: Seq<UIRequest>) -> bool {
    exists|i: int| 0 <= i < reqs.len() && #[trigger] reqs[i] is Sort
}

/// The number of requests of `reqs` that close the screen.
pub open spec fn close_count(reqs: Seq<UIRequest>) -> nat
    decreases reqs.len(),
{
    if reqs.len() == 0 {
        0
    } else {
        close_count(reqs.drop_last()) + if reqs.last() is Close { 1nat } else { 0nat }
    }
}

/// The model of the screen of one times.
pub struct TimesModel {
    posts: Vec<Post>,
    todos: Vec<Todo>,
    tags: Vec<Tag>,
    sort_reverse: bool,
}

impl TimesModel {
    /// The posts shown.
    pub closed spec fn posts(&self) -> Seq<PostV> {
        post_views(self.posts@)
    }

    /// The todos shown.
    pub closed spec fn todos(&self) -> Seq<TodoV> {
        todo_views(self.todos@)
    }

    /// The tags known, one per identifier.
    pub closed spec fn tags(&self) -> Seq<TagV> {
        tag_views(self.tags@)
    }

    /// Whether the posts are shown from the largest identifier.
    pub closed spec fn sort_reverse(&self) -> bool {
        self.sort_reverse
    }

    /// Well-formed: the posts are in order and the tags unique.
    pub closed spec fn wf(&self) -> bool {
        &&& ids_ordered(self.posts(), self.sort_reverse)
        &&& tags_unique(self.tags())
    }

    /// In a well-formed model the posts are in the order of their
    /// identifiers, as last asked, and no two tags share an identifier.
    pub proof fn lemma_wf(&self)
        requires
            self.wf(),
        ensures
            ids_ordered(self.posts(), self.sort_reverse()),
            tags_unique(self.tags()),
    {
    }

    /// A model with nothing loaded yet, in increasing order.
    pub fn new() -> (r: Self)
        ensures
            r.wf(),
            ids_ordered(r.posts(), r.sort_reverse()),
            r.posts() == Seq::<PostV>::empty(),
            r.todos() == Seq::<TodoV>::empty(),
            r.tags() == Seq::<TagV>::empty(),
            !r.sort_reverse(),
    {
        let r = TimesModel { posts: Vec::new(), todos: Vec::new(), tags: Vec::new(), sort_reverse: false };
        assert(r.posts() =~= Seq::<PostV>::empty());
        assert(r.todos() =~= Seq::<TodoV>::empty());
        assert(r.tags() =~= Seq::<TagV>::empty());
        r
    }

    /// The posts shown.
    pub fn posts_ref(&self) -> (r: &Vec<Post>)
        ensures
            post_views(r@) == self.posts(),
    {
        &self.posts
    }

    /// The todos shown.
    pub fn todos_ref(&self) -> (r: &Vec<Todo>)
        ensures
            todo_views(r@) == self.todos(),
    {
        &self.todos
    }

    /// The tags known.
    pub fn tags_ref(&self) -> (r: &Vec<Tag>)
        ensures
            tag_views(r@) == self.tags(),
    {
        &self.tags
    }

    /// Puts the posts in the order of their identifiers, reversed or not
    /// as asked last.
    pub fn sort_post(&mut self)
        ensures
            ids_ordered(final(self).posts(), final(self).sort_reverse()),
            tags_unique(old(self).tags()) ==> final(self).wf(),
            final(self).posts().to_multiset() == old(self).posts().to_multiset(),
            forall|id: Pid| #[trigger] with_id(final(self).posts(), id) == with_id(old(self).posts(), id),
            final(self).todos() == old(self).todos(),
            final(self).tags() == old(self).tags(),
            final(self).sort_reverse() == old(self).sort_reverse(),
    {
        let mut posts: Vec<Post> = Vec::new();
        std::mem::swap(&mut posts, &mut self.posts);
        self.posts = sort_posts(posts, self.sort_reverse);
    }

    /// Takes in one answer of the stores: a new post is put in its place,
    /// an updated post or todo replaces those of its identifier, a new todo
    /// is added at the end, a tag is kept under its identifier, and an
    /// error is handed on to the application.
    pub fn handle_async_event(&mut self, event: AsyncEvent) -> (r: Option<AppRequest>)
        requires
            old(self).wf(),
        ensures
            final(self).wf(),
            ids_ordered(final(self).posts(), final(self).sort_reverse()),
            final(self).sort_reverse() == old(self).sort_reverse(),
            match event {
                AsyncEvent::AddPost(p) => r is None
                    && final(self).posts().to_multiset() == old(self).posts().to_multiset().insert(p@)
                    && (forall|id: Pid| #[trigger] with_id(final(self).posts(), id) == with_id(old(self).posts().push(p@), id))
                    && final(self).todos() == old(self).todos() && final(self).tags() == old(self).tags(),
                AsyncEvent::UpdatePost(p) => r is None
                    && final(self).posts() == replace_posts(old(self).posts(), p@)
                    && final(self).todos() == old(self).todos() && final(self).tags() == old(self).tags(),
                AsyncEvent::AddTodo(t) => r is None
                    && final(self).todos() == old(self).todos().push(t@)
                    && final(self).posts() == old(self).posts() && final(self).tags() == old(self).tags(),
                AsyncEvent::AddTag(t) => r is None
                    && final(self).tags() == insert_tag(old(self).tags(), t@)
                    && final(self).posts() == old(self).posts() && final(self).todos() == old(self).todos(),
                AsyncEvent::UpdateTodo(t) => r is None
                    && final(self).todos() == replace_todos(old(self).todos(), t@)
                    && final(self).posts() == old(self).posts() && final(self).tags() == old(self).tags(),
                AsyncEvent::Error(e) => (r matches Some(AppRequest::Error(f)) && f@ == e@)
                    && final(self).posts() == old(self).posts()
                    && final(self).todos() == old(self).todos() && final(self).tags() == old(self).tags(),
            },
    {
        match event {
            AsyncEvent::AddPost(post) => {
                let ghost before = self.posts();
                self.posts.push(post);
                proof {
                    assert(self.posts() =~= before.push(post@));
                }
                self.sort_post();
                None
            },
            AsyncEvent::UpdatePost(post) => {
                self.replace_post(post);
                None
            },
            AsyncEvent::AddTodo(todo) => {
                let ghost before = self.todos();
                self.todos.push(todo);
                proof {
                    assert(self.todos() =~= before.push(todo@));
                }
                None
            },
            AsyncEvent::AddTag(tag) => {
                self.put_tag(tag);
                None
            },
            AsyncEvent::UpdateTodo(todo) => {
                self.replace_todo(todo);
                None
            },
            AsyncEvent::Error(e) => Some(AppRequest::Error(e)),
        }
    }

    /// Replaces every post with the identifier of `post` by a copy of it.
    fn replace_post(&mut self, post: Post)
        requires
            old(self).wf(),
        ensures
            final(self).wf(),
            final(self).posts() == replace_posts(old(self).posts(), post@),
            final(self).todos() == old(self).todos(),
            final(self).tags() == old(self).tags(),
            final(self).sort_reverse() == old(self).sort_reverse(),
    {
        let ghost old_posts = old(self).posts();
        let mut i: usize = 0;
        while i < self.posts.len()
            invariant
                i <= self.posts.len(),
                self.posts.len() == old_posts.len(),
                forall|k: int| 0 <= k < i ==> #[trigger] self.posts@[k]@ == (if old_posts[k].id == post.id { post@ } else { old_posts[k] }),
                forall|k: int| i <= k < self.posts.len() ==> #[trigger] self.posts@[k]@ == old_posts[k],
                self.todos == old(self).todos,
                self.tags == old(self).tags,
                self.sort_reverse == old(self).sort_reverse,
            decreases self.posts.len() - i,
        {
            assert(self.posts@[i as int]@ == old_posts[i as int]);
            if self.posts[i].id == post.id {
                self.posts.set(i, post.duplicate());
            }
            i = i + 1;
        }
        assert(self.posts() =~= replace_posts(old_posts, post@));
        assert forall|a: int, b: int| 0 <= a < b < self.posts().len() implies
            if self.sort_reverse { (#[trigger] self.posts()[a]).id >= (#[trigger] self.posts()[b]).id } else { self.posts()[a].id <= self.posts()[b].id } by {
            assert(self.posts()[a].id == old_posts[a].id);
            assert(self.posts()[b].id == old_posts[b].id);
        }
    }

    /// Replaces every todo with the identifier of `todo` by a copy of it.
    fn replace_todo(&mut self, todo: Todo)
        requires
            old(self).wf(),
        ensures
            final(self).wf(),
            final(self).todos() == replace_todos(old(self).todos(), todo@),
            final(self).posts() == old(self).posts(),
            final(self).tags() == old(self).tags(),
            final(self).sort_reverse() == old(self).sort_reverse(),
    {
        let ghost old_todos = old(self).todos();
        let mut i: usize = 0;
        while i < self.todos.len()
            invariant
                i <= self.todos.len(),
                self.todos.len() == old_todos.len(),
                forall|k: int| 0 <= k < i ==> #[trigger] self.todos@[k]@ == (if old_todos[k].id == todo.id { todo@ } else { old_todos[k] }),
                forall|k: int| i <= k < self.todos.len() ==> #[trigger] self.todos@[k]@ == old_todos[k],
                self.posts == old(self).posts,
                self.tags == old(self).tags,
                self.sort_reverse == old(self).sort_reverse,
            decreases self.todos.len() - i,
        {
            assert(self.todos@[i as int]@ == old_todos[i as int]);
            if self.todos[i].id == todo.id {
                self.todos.set(i, todo.duplicate());
            }
            i = i + 1;
        }
        assert(self.todos() =~= replace_todos(old_todos, todo@));
    }

    /// Keeps `tag` under its identifier.
    fn put_tag(&mut self, tag: Tag)
        requires
            old(self).wf(),
        ensures
            final(self).wf(),
            final(self).tags() == insert_tag(old(self).tags(), tag@),
            final(self).posts() == old(self).posts(),
            final(self).todos() == old(self).todos(),
            final(self).sort_reverse() == old(self).sort_reverse(),
    {
        let ghost old_tags = old(self).tags();
        let mut i: usize = 0;
        while i < self.tags.len()
            invariant
                i <= self.tags.len(),
                old_tags == self.tags(),
                old_tags == old(self).tags(),
                tags_unique(old_tags),
                self.posts == old(self).posts,
                self.todos == old(self).todos,
                self.sort_reverse == old(self).sort_reverse,
                ids_ordered(self.posts(), self.sort_reverse),
                forall|k: int| 0 <= k < i ==> #[trigger] old_tags[k].id != tag.id,
            decreases self.tags.len() - i,
        {
            if self.tags[i].id == tag.id {
                proof {
                    assert(old_tags[i as int] == self.tags@[i as int]@);
                    assert forall|k: int| 0 <= k < old_tags.len() && k != i implies #[trigger] old_tags[k].id != tag.id by {
                        if k > i {
                            assert(old_tags[i as int].id != old_tags[k].id);
                        }
                    }
                }
                self.tags.set(i, tag.duplicate());
                proof {
                    assert(old_tags[i as int].id == tag.id);
                    assert(exists|k: int| 0 <= k < old_tags.len() && old_tags[k].id == tag@.id);
                    assert(self.tags() =~= old_tags.map_values(|q: TagV| if q.id == tag@.id { tag@ } else { q }));
                    assert(self.tags() =~= insert_tag(old_tags, tag@));
                    assert forall|a: int, b: int| 0 <= a < b < self.tags().len() implies
                        (#[trigger] self.tags()[a]).id != (#[trigger] self.tags()[b]).id by {
                        assert(self.tags()[a].id == old_tags[a].id);
                        assert(self.tags()[b].id == old_tags[b].id);
                    }
                }
                return;
            }
            i = i + 1;
        }
        self.tags.push(tag);
        proof {
            assert(self.tags() =~= old_tags.push(tag@));
        }
    }

    /// The position of the first todo with identifier `tdid`.
    fn find_todo(&self, tdid: Tdid) -> (r: Option<usize>)
        ensures
            r matches Some(i) ==> i < self.todos().len() && self.todos()[i as int].id == tdid
                && forall|j: int| 0 <= j < i ==> self.todos()[j].id != tdid,
            r is None ==> forall|j: int| 0 <= j < self.todos().len() ==> self.todos()[j].id != tdid,
    {
        let mut i: usize = 0;
        while i < self.todos.len()
            invariant
                i <= self.todos.len(),
                forall|j: int| 0 <= j < i ==> #[trigger] self.todos()[j].id != tdid,
            decreases self.todos.len() - i,
        {
            assert(self.todos()[i as int] == self.todos@[i as int]@);
            if self.todos[i].id == tdid {
                return Some(i);
            }
            i = i + 1;
        }
        None
    }

    /// What a request of the screen calls for: the store work to do, or a
    /// request to the application.  Sorting is done at once.
    pub fn handle_ureq(&mut self, req: UIRequest) -> (r: (Option<TimesJob>, Option<AppRequest>))
        requires
            old(self).wf(),
        ensures
            final(self).wf(),
            ids_ordered(final(self).posts(), final(self).sort_reverse()),
            final(self).todos() == old(self).todos(),
            final(self).tags() == old(self).tags(),
            !(req is Sort) ==> final(self).posts() == old(self).posts() && final(self).sort_reverse() == old(self).sort_reverse(),
            match req {
                UIRequest::Post(text, file) => r.1 is None && (r.0 matches Some(TimesJob::Post(t, f)) && t == text && f == file),
                UIRequest::UpdatePost(p) => r.1 is None && (r.0 matches Some(TimesJob::UpdatePost(q)) && q == p),
                UIRequest::Tag(name) => r.1 is None && (r.0 matches Some(TimesJob::CreateTag(n)) && n == name),
                UIRequest::Todo(c) => r.1 is None && (r.0 matches Some(TimesJob::CreateTodo(n)) && n == c),
                UIRequest::TodoWithDetail(c, d) => r.1 is None
                    && (r.0 matches Some(TimesJob::CreateTodoWithDetail(n, m)) && n == c && m == d),
                UIRequest::UpdateTodoDetail(tdid, detail) => r.1 is None
                    && (if exists|i: int| 0 <= i < old(self).todos().len() && old(self).todos()[i].id == tdid {
                        r.0 matches Some(TimesJob::UpdateTodo(t)) && exists|i: int| 0 <= i < old(self).todos().len()
                            && old(self).todos()[i].id == tdid
                            && (forall|j: int| 0 <= j < i ==> old(self).todos()[j].id != tdid)
                            && t@ == (TodoV { detail: Some(detail@), ..old(self).todos()[i] })
                    } else {
                        r.0 matches Some(TimesJob::Fail(m)) && m@ == "Todo with ID "@ + decimal(tdid as nat) + " not found"@
                    }),
                UIRequest::TodoDone(tdid, done) => r.1 is None
                    && (r.0 matches Some(TimesJob::TodoDone(t, d)) && t == tdid && d == done),
                UIRequest::Dump(path) => r.1 is None && (r.0 matches Some(TimesJob::Dump(pa, ps, ts))
                    && pa == path && post_views(ps@) == old(self).posts() && tag_views(ts@) == old(self).tags()),
                UIRequest::Sort(reverse) => r.0 is None && r.1 is None && final(self).sort_reverse() == reverse
                    && final(self).posts().to_multiset() == old(self).posts().to_multiset()
                    && (forall|id: Pid| #[trigger] with_id(final(self).posts(), id) == with_id(old(self).posts(), id)),
                UIRequest::Close => r.0 is None && (r.1 matches Some(AppRequest::Back)),
            },
    {
        match req {
            UIRequest::Post(text, file) => (Some(TimesJob::Post(text, file)), None),
            UIRequest::UpdatePost(post) => (Some(TimesJob::UpdatePost(post)), None),
            UIRequest::Tag(name) => (Some(TimesJob::CreateTag(name)), None),
            UIRequest::Todo(content) => (Some(TimesJob::CreateTodo(content)), None),
            UIRequest::TodoWithDetail(content, detail) => (Some(TimesJob::CreateTodoWithDetail(content, detail)), None),
            UIRequest::UpdateTodoDetail(tdid, detail) => {
                match self.find_todo(tdid) {
                    Some(i) => {
                        let mut t = self.todos[i].duplicate();
                        t.detail = Some(detail);
                        (Some(TimesJob::UpdateTodo(t)), None)
                    },
                    None => (Some(TimesJob::Fail(todo_not_found(tdid))), None),
                }
            },
            UIRequest::TodoDone(tdid, done) => (Some(TimesJob::TodoDone(tdid, done)), None),
            UIRequest::Dump(path) => {
                let posts = copy_posts(&self.posts);
                let tags = copy_tags(&self.tags);
                (Some(TimesJob::Dump(path, posts, tags)), None)
            },
            UIRequest::Sort(reverse) => {
                self.sort_reverse = reverse;
                self.sort_post();
                (None, None)
            },
            UIRequest::Close => (None, Some(AppRequest::Back)),
        }
    }

    /// Takes in the requests of the screen in order.  Each calls for store
    /// work, given back in the order of the requests (none for a sort or a
    /// close), or for leaving the screen, asked of the application by
    /// adding to `areq`; sorts are done at once, the last one deciding the
    /// order.
    pub fn handle_ureqs(&mut self, ureq: Vec<UIRequest>, areq: &mut Vec<AppRequest>) -> (jobs: Vec<Option<TimesJob>>)
        requires
            old(self).wf(),
        ensures
            final(self).wf(),
            ids_ordered(final(self).posts(), final(self).sort_reverse()),
            final(self).todos() == old(self).todos(),
            final(self).tags() == old(self).tags(),
            final(self).posts().to_multiset() == old(self).posts().to_multiset(),
            forall|id: Pid| #[trigger] with_id(final(self).posts(), id) == with_id(old(self).posts(), id),
            final(self).sort_reverse() == last_sort(ureq@, old(self).sort_reverse()),
            !has_sort(ureq@) ==> final(self).posts() == old(self).posts(),
            final(areq)@.len() == old(areq)@.len() + close_count(ureq@),
            final(areq)@.subrange(0, old(areq)@.len() as int) == old(areq)@,
            forall|i: int| old(areq)@.len() <= i < final(areq)@.len() ==> #[trigger] final(areq)@[i] is Back,
            jobs@.len() == ureq@.len(),
            forall|k: int| #![trigger jobs@[k]] 0 <= k < ureq@.len()
                ==> job_for(old(self).todos(), old(self).posts(), old(self).tags(), ureq@[k], jobs@[k]),
    {
        let ghost orig = ureq@;
        let ghost p0 = self.posts();
        let ghost t0 = self.todos();
        let ghost g0 = self.tags();
        let ghost s0 = self.sort_reverse();
        let ghost a0 = areq@;
        let mut rest = ureq;
        let mut jobs: Vec<Option<TimesJob>> = Vec::new();
        assert(orig.take(0) =~= Seq::<UIRequest>::empty());
        assert(areq@.subrange(0, a0.len() as int) =~= a0);
        while rest.len() > 0
            invariant
                self.wf(),
                self.todos() == t0,
                self.tags() == g0,
                self.posts().to_multiset() == p0.to_multiset(),
                forall|id: Pid| #[trigger] with_id(self.posts(), id) == with_id(p0, id),
                jobs@.len() + rest@.len() == orig.len(),
                rest@ == orig.subrange(jobs@.len() as int, orig.len() as int),
                self.sort_reverse() == last_sort(orig.take(jobs@.len() as int), s0),
                !has_sort(orig.take(jobs@.len() as int)) ==> self.posts() == p0,
                areq@.len() == a0.len() + close_count(orig.take(jobs@.len() as int)),
                areq@.subrange(0, a0.len() as int) == a0,
                forall|i: int| a0.len() <= i < areq@.len() ==> #[trigger] areq@[i] is Back,
                forall|j: int| #![trigger jobs@[j]] 0 <= j < jobs@.len() ==> job_for(t0, p0, g0, orig[j], jobs@[j]),
            decreases rest.len(),
        {
            let ghost n = jobs@.len() as int;
            let ghost before = self.posts();
            let ghost a1 = areq@;
            let req = rest.remove(0);
            assert(req == orig[n]);
            let (job, app) = self.handle_ureq(req);
            match app {
                Some(a) => areq.push(a),
                None => {},
            }
            jobs.push(job);
            proof {
                let tk = orig.take(n);
                let tk1 = orig.take(n + 1);
                assert(tk1.drop_last() =~= tk);
                assert(tk1.last() == orig[n]);
                assert(rest@ =~= orig.subrange(n + 1, orig.len() as int));
                assert(areq@.subrange(0, a0.len() as int) =~= a0) by {
                    assert(a1.subrange(0, a0.len() as int) == a0);
                }
                if has_sort(tk) {
                    let i = choose|i: int| 0 <= i < tk.len() && #[trigger] tk[i] is Sort;
                    assert(tk1[i] == tk[i]);
                }
                if orig[n] is Sort {
                    assert(tk1[n] is Sort);
                }
                assert(job_for(t0, p0, g0, orig[n], jobs@[n]));
            }
        }
        proof {
            assert(orig.take(orig.len() as int) =~= orig);
        }
        jobs
    }

    /// The responses to the screen for what the application reports: each
    /// dropped file is handed on, in order.
    pub fn handle_app_resp(&self, resp: &Vec<AppResponse>) -> (r: Vec<UIResponse>)
        ensures
            r.len() == dropped_paths(resp@).len(),
            forall|i: int| 0 <= i < r.len() ==> (#[trigger] r@[i] matches UIResponse::FileDropped(p) && p@ == dropped_paths(resp@)[i]),
    {
        let mut out: Vec<UIResponse> = Vec::new();
        let mut i: usize = 0;
        while i < resp.len()
            invariant
                i <= resp.len(),
                out.len() == dropped_paths(resp@.subrange(0, i as int)).len(),
                forall|k: int| 0 <= k < out.len() ==> (#[trigger] out@[k] matches UIResponse::FileDropped(p) && p@ == dropped_paths(resp@.subrange(0, i as int))[k]),
            decreases resp.len() - i,
        {
            proof {
                assert(resp@.subrange(0, i as int + 1).drop_last() =~= resp@.subrange(0, i as int));
            }
            match &resp[i] {
                AppResponse::FileDropped(path) => {
                    out.push(UIResponse::FileDropped(path.clone()));
                },
                AppResponse::Error(_) => {},
            }
            i = i + 1;
        }
        assert(resp@.subrange(0, resp.len() as int) =~= resp@);
        out
    }
}

/// A copy of a list of posts.
fn copy_posts(v: &Vec<Post>) -> (r: Vec<Post>)
    ensures
        post_views(r@) == post_views(v@),
{
    let mut r: Vec<Post> = Vec::new();
    let mut i: usize = 0;
    while i < v.len()
        invariant
            i <= v.len(),
            r.len() == i,
            forall|k: int| 0 <= k < i ==> #[trigger] r@[k]@ == v@[k]@,
        decreases v.len() - i,
    {
        r.push(v[i].duplicate());
        i = i + 1;
    }
    assert(post_views(r@) =~= post_views(v@));
    r
}

/// A copy of a list of tags.
fn copy_tags(v: &Vec<Tag>) -> (r: Vec<Tag>)
    ensures
        tag_views(r@) == tag_views(v@),
{
    let mut r: Vec<Tag> = Vec::new();
    let mut i: usize = 0;
    while i < v.len()
        invariant
            i <= v.len(),
            r.len() == i,
            forall|k: int| 0 <= k < i ==> #[trigger] r@[k]@ == v@[k]@,
        decreases v.len() - i,
    {
        r.push(v[i].duplicate());
        i = i + 1;
    }
    assert(tag_views(r@) =~= tag_views(v@));
    r
}

/// The data written by a dump: the times, its posts without their files,
/// and its tags.
#[derive(Debug)]
pub struct DumpData {
    pub times: Times,
    pub posts: Vec<Post>,
    pub tags: Vec<Tag>,
}

impl DumpData {
    /// The dump of `times`, `posts` and `tags`; the posts lose their files.
    pub fn build(times: Times, posts: Vec<Post>, tags: Vec<Tag>) -> (r: Self)
        ensures
            r.times == times,
            r.tags == tags,
            r.posts.len() == posts.len(),
            forall|i: int| 0 <= i < posts.len() ==> #[trigger] r.posts@[i] == (Post { file: None, ..posts@[i] }),
    {
        let mut out: Vec<Post> = Vec::new();
        let mut rest = posts;
        let ghost orig = rest@;
        while rest.len() > 0
            invariant
                out.len() + rest.len() == orig.len(),
                rest@ == orig.subrange(out.len() as int, orig.len() as int),
                forall|k: int| 0 <= k < out.len() ==> #[trigger] out@[k] == (Post { file: None, ..orig[k] }),
            decreases rest.len(),
        {
            let mut p = rest.remove(0);
            p.file = None;
            out.push(p);
        }
        DumpData { times, posts: out, tags }
    }
}

} // verus!
