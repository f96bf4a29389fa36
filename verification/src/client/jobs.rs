//! The store work behind the requests of a times screen, done against a
//! times kept in memory, and the answers it gives the model and the screen.

use vstd::prelude::*;

use super::times::{
    failure_message, failure_words, todo_created_post, todo_status_post, todo_with_detail_post, AsyncEvent, DumpData,
    Failure, TimesJob, UIResponse,
};
use crate::bstore::ram::{has_post, has_todo, post_created, post_updated, RamPostStore, RamTimesStore, RamToDoStore};
use crate::types::{opt_file_view, FileV, Post, Todo, TodoV};

verus! {

/// What one job gives back: the events for the model, the responses for
/// the screen, and, for a dump, the path and the data to write there.
pub struct JobOutcome {
    pub events: Vec<AsyncEvent>,
    pub responses: Vec<UIResponse>,
    pub dump: Option<(String, DumpData)>,
}

/// The report of failure `f` with the store's error `e`.
pub open spec fn failure_text(f: Failure, e: Seq<char>) -> Seq<char> {
    "Failed to "@ + failure_words(f) + ": "@ + e
}

/// The post that records the creation of todo `content`.
pub open spec fn created_text(content: Seq<char>) -> Seq<char> {
    "todo ("@ + content + ") is created"@
}

/// The post that records the creation of todo `content` given `detail`.
pub open spec fn created_with_detail_text(content: Seq<char>, detail: Seq<char>) -> Seq<char> {
    if detail.len() == 0 {
        created_text(content)
    } else {
        "todo ("@ + content + ") is created with detail"@
    }
}

/// The post that records that todo `content` is now done or not done.
pub open spec fn status_text(content: Seq<char>, done: bool) -> Seq<char> {
    if done {
        "todo ("@ + content + ") is done"@
    } else {
        "todo ("@ + content + ") is undone"@
    }
}

/// `p` is the post that the store of posts `o` records, leaving `n`: the
/// next identifier, the text and the file, no update time and no tag; the
/// tags stay.
pub open spec fn posted(o: RamPostStore, n: RamPostStore, text: Seq<char>, file: Option<FileV>, p: Post) -> bool {
    &&& post_created(o.posts(), o.npid(), n.posts(), text, file, p@)
    &&& n.npid() == o.npid() + 1
    &&& n.tags() == o.tags()
    &&& n.ntagid() == o.ntagid()
}

/// `t` is the todo that the store of todos `o` records, leaving `n`: the
/// next identifier, the content and the detail, not done.
pub open spec fn todo_added(o: RamToDoStore, n: RamToDoStore, content: Seq<char>, detail: Option<Seq<char>>, t: Todo) -> bool {
    &&& t.id == o.ntdid()
    &&& t@.content == content
    &&& t@.detail == detail
    &&& t.done_at is None
    &&& n.todos() == o.todos().push(t@)
    &&& n.ntdid() == o.ntdid() + 1
}

/// Marking the todo `tdid` of `todos` done (or not done) changes it: it
/// exists and is in the other state.
pub open spec fn todo_changes(todos: Seq<TodoV>, tdid: u64, done: bool) -> bool {
    exists|i: int| 0 <= i < todos.len() && #[trigger] todos[i].id == tdid && (todos[i].done_at is Some) != done
}

/// The stores can take the job: each post, tag or todo it records still
/// gets an identifier, and a post it rewrites exists.
pub open spec fn job_fits(ts: RamTimesStore, job: TimesJob) -> bool {
    let ps = ts.post_store();
    let tds = ts.todo_store();
    match job {
        TimesJob::Post(_, _) => ps.npid() < u64::MAX,
        TimesJob::UpdatePost(p) => has_post(ps.posts(), p.id),
        TimesJob::CreateTag(_) => ps.ntagid() < u64::MAX,
        TimesJob::CreateTodo(_) => tds.ntdid() < u64::MAX && ps.npid() < u64::MAX,
        TimesJob::CreateTodoWithDetail(_, _) => tds.ntdid() < u64::MAX && ps.npid() < u64::MAX,
        TimesJob::TodoDone(tdid, done) => todo_changes(tds.todos(), tdid, done) ==> ps.npid() < u64::MAX,
        _ => true,
    }
}

/// The outcome of the todo `tdid` being marked done or not done in the
/// stores `o`, leaving `n`: a missing todo, or one already in the asked
/// state, is reported and nothing changes; otherwise the todo changes its
/// state and a post records it.
pub open spec fn todo_done_job(o: RamTimesStore, n: RamTimesStore, tdid: u64, done: bool, r: JobOutcome) -> bool {
    let (ops, nps, otd, ntd) = (o.post_store(), n.post_store(), o.todo_store(), n.todo_store());
    &&& ntd.ntdid() == otd.ntdid()
    &&& r.responses@.len() == 0
    &&& r.dump is None
    &&& !has_todo(otd.todos(), tdid) ==> {
        &&& nps == ops && ntd.todos() == otd.todos()
        &&& r.events@.len() == 1
        &&& (r.events@[0] matches AsyncEvent::Error(m) && m@ == failure_text(Failure::UpdateTodoStatus, "invalid tid"@))
    }
    &&& forall|i: int| 0 <= i < otd.todos().len() && #[trigger] otd.todos()[i].id == tdid ==> {
        let t0 = otd.todos()[i];
        if (t0.done_at is Some) == done {
            &&& nps == ops && ntd.todos() == otd.todos()
            &&& r.events@.len() == 1
            &&& (r.events@[0] matches AsyncEvent::Error(m) && m@ == failure_text(Failure::UpdateTodoStatus, "invalid state"@))
        } else {
            &&& r.events@.len() == 2
            &&& (r.events@[0] matches AsyncEvent::UpdateTodo(t) && t.id == tdid && t@.content == t0.content
                && t@.detail == t0.detail && t.created_at == t0.created_at && (t.done_at is Some) == done
                && ntd.todos() == otd.todos().update(i, t@))
            &&& (r.events@[1] matches AsyncEvent::AddPost(p) && posted(ops, nps, status_text(t0.content, done), None, p))
        }
    }
}

/// The outcome of `job` on the stores `o`, leaving `n`, with the answers
/// `r`.  The times itself never changes.
pub open spec fn job_done(o: RamTimesStore, n: RamTimesStore, job: TimesJob, r: JobOutcome) -> bool {
    let (ops, nps, otd, ntd) = (o.post_store(), n.post_store(), o.todo_store(), n.todo_store());
    &&& n.times() == o.times()
    &&& match job {
        TimesJob::Post(text, file) => {
            &&& ntd == otd
            &&& r.responses@.len() == 1 && r.responses@[0] is ClearText
            &&& r.dump is None
            &&& r.events@.len() == 1
            &&& (r.events@[0] matches AsyncEvent::AddPost(p) && posted(ops, nps, text@, opt_file_view(file), p))
        },
        TimesJob::UpdatePost(post) => {
            &&& ntd == otd
            &&& r.responses@.len() == 0
            &&& r.dump is None
            &&& r.events@.len() == 1
            &&& (r.events@[0] matches AsyncEvent::UpdatePost(p) && p == post)
            &&& post_updated(ops.posts(), nps.posts(), post@, Ok::<_, Seq<char>>(post@))
            &&& nps.npid() == ops.npid() && nps.tags() == ops.tags() && nps.ntagid() == ops.ntagid()
        },
        TimesJob::CreateTag(name) => {
            &&& ntd == otd
            &&& r.responses@.len() == 1 && r.responses@[0] is ClearTextSidePane
            &&& r.dump is None
            &&& r.events@.len() == 1
            &&& (r.events@[0] matches AsyncEvent::AddTag(t) && t.id == ops.ntagid() && t.name@ == name@
                && nps.tags() == ops.tags().push(t@))
            &&& nps.ntagid() == ops.ntagid() + 1
            &&& nps.posts() == ops.posts() && nps.npid() == ops.npid()
        },
        TimesJob::CreateTodo(content) => {
            &&& r.responses@.len() == 1 && r.responses@[0] is ClearTextSidePane
            &&& r.dump is None
            &&& r.events@.len() == 2
            &&& (r.events@[0] matches AsyncEvent::AddTodo(t) && todo_added(otd, ntd, content@, None, t))
            &&& (r.events@[1] matches AsyncEvent::AddPost(p) && posted(ops, nps, created_text(content@), None, p))
        },
        TimesJob::CreateTodoWithDetail(content, detail) => {
            &&& r.responses@.len() == 2 && r.responses@[0] is ClearTextSidePane
            &&& r.responses@[1] is ClearTextSidePaneDetail
            &&& r.dump is None
            &&& r.events@.len() == 2
            &&& (r.events@[0] matches AsyncEvent::AddTodo(t) && todo_added(otd, ntd, content@, Some(detail@), t))
            &&& (r.events@[1] matches AsyncEvent::AddPost(p)
                && posted(ops, nps, created_with_detail_text(content@, detail@), None, p))
        },
        TimesJob::UpdateTodo(todo) => {
            &&& nps == ops
            &&& ntd.ntdid() == otd.ntdid()
            &&& r.responses@.len() == 0
            &&& r.dump is None
            &&& r.events@.len() == 1
            &&& has_todo(otd.todos(), todo.id) ==> {
                &&& (r.events@[0] matches AsyncEvent::UpdateTodo(t) && t == todo)
                &&& exists|i: int| 0 <= i < otd.todos().len() && otd.todos()[i].id == todo.id
                    && ntd.todos() == #[trigger] otd.todos().update(i, todo@)
            }
            &&& !has_todo(otd.todos(), todo.id) ==> {
                &&& (r.events@[0] matches AsyncEvent::Error(m) && m@ == failure_text(Failure::UpdateTodoDetail, "invalid pid"@))
                &&& ntd.todos() == otd.todos()
            }
        },
        TimesJob::TodoDone(tdid, done) => todo_done_job(o, n, tdid, done, r),
        TimesJob::Dump(path, posts, tags) => {
            &&& nps == ops && ntd == otd
            &&& r.events@.len() == 0 && r.responses@.len() == 0
            &&& (r.dump matches Some(d) && d.0 == path && d.1.times@ == o.times() && d.1.tags == tags
                && d.1.posts.len() == posts.len()
                && forall|i: int| 0 <= i < posts.len() ==> #[trigger] d.1.posts@[i] == (Post { file: None, ..posts@[i] }))
        },
        TimesJob::Fail(message) => {
            &&& nps == ops && ntd == otd
            &&& r.responses@.len() == 0
            &&& r.dump is None
            &&& r.events@.len() == 1
            &&& (r.events@[0] matches AsyncEvent::Error(m) && m == message)
        },
    }
}

/// Does the store work of `job` on the times `ts` and gives back what the
/// model and the screen are told.
pub fn run_job(ts: &mut RamTimesStore, job: TimesJob) -> (r: JobOutcome)
    requires
        old(ts).wf(),
        job_fits(*old(ts), job),
    ensures
        final(ts).wf(),
        job_done(*old(ts), *final(ts), job, r),
{
    let mut events: Vec<AsyncEvent> = Vec::new();
    let mut responses: Vec<UIResponse> = Vec::new();
    let mut dump: Option<(String, DumpData)> = None;
    match job {
        TimesJob::Post(text, file) => {
            let ps = ts.pstore_mut();
            match ps.post(text, file) {
                Ok(post) => {
                    events.push(AsyncEvent::AddPost(post));
                    responses.push(UIResponse::ClearText);
                },
                Err(e) => {
                    proof { assert(false); }
                },
            }
        },
        TimesJob::UpdatePost(post) => {
            let ps = ts.pstore_mut();
            match ps.update(post) {
                Ok(p) => events.push(AsyncEvent::UpdatePost(p)),
                Err(e) => {
                    proof { assert(false); }
                },
            }
        },
        TimesJob::CreateTag(name) => {
            let ps = ts.pstore_mut();
            match ps.create_tag(name) {
                Ok(tag) => {
                    events.push(AsyncEvent::AddTag(tag));
                    responses.push(UIResponse::ClearTextSidePane);
                },
                Err(e) => {
                    proof { assert(false); }
                },
            }
        },
        TimesJob::CreateTodo(content) => {
            let tds = ts.tdstore_mut();
            match tds.new_todo(content) {
                Ok(todo) => {
                    let text = todo_created_post(todo.content.as_str());
                    let ps = ts.pstore_mut();
                    match ps.post(text, None) {
                        Ok(post) => {
                            events.push(AsyncEvent::AddTodo(todo));
                            events.push(AsyncEvent::AddPost(post));
                            responses.push(UIResponse::ClearTextSidePane);
                        },
                        Err(e) => {
                            proof { assert(false); }
                        },
                    }
                },
                Err(e) => {
                    proof { assert(false); }
                },
            }
        },
        TimesJob::CreateTodoWithDetail(content, detail) => {
            return run_todo_with_detail(ts, content, detail);
        },
        TimesJob::UpdateTodo(todo) => {
            let tds = ts.tdstore_mut();
            match tds.update(todo) {
                Ok(t) => events.push(AsyncEvent::UpdateTodo(t)),
                Err(e) => events.push(AsyncEvent::Error(failure_message(Failure::UpdateTodoDetail, e.as_str()))),
            }
        },
        TimesJob::TodoDone(tdid, done) => {
            return run_todo_done(ts, tdid, done);
        },
        TimesJob::Dump(path, posts, tags) => {
            let times = match ts.get() {
                Ok(t) => t,
                Err(e) => {
                    proof { assert(false); }
                    return JobOutcome { events, responses, dump };
                },
            };
            dump = Some((path, DumpData::build(times, posts, tags)));
        },
        TimesJob::Fail(message) => events.push(AsyncEvent::Error(message)),
    }
    JobOutcome { events, responses, dump }
}

/// Creates a todo with `content`, gives it `detail`, and posts that it was
/// created.
fn run_todo_with_detail(ts: &mut RamTimesStore, content: String, detail: String) -> (r: JobOutcome)
    requires
        old(ts).wf(),
        old(ts).todo_store().ntdid() < u64::MAX,
        old(ts).post_store().npid() < u64::MAX,
    ensures
        final(ts).wf(),
        final(ts).times() == old(ts).times(),
        job_done(*old(ts), *final(ts), TimesJob::CreateTodoWithDetail(content, detail), r),
{
    let mut events: Vec<AsyncEvent> = Vec::new();
    let mut responses: Vec<UIResponse> = Vec::new();
    let ghost otd = ts.todo_store();
    proof { otd.lemma_wf(); }
    let tds = ts.tdstore_mut();
    let mut todo = match tds.new_todo(content.clone()) {
        Ok(t) => t,
        Err(e) => {
            proof { assert(false); }
            return JobOutcome { events, responses, dump: None };
        },
    };
    let ghost mid = ts.todo_store();
    proof {
        assert(mid.todos()[otd.todos().len() as int].id == todo.id);
        assert(has_todo(mid.todos(), todo.id));
    }
    todo.detail = Some(detail.clone());
    let tds = ts.tdstore_mut();
    let todo = match tds.update(todo) {
        Ok(t) => t,
        Err(e) => {
            proof { assert(false); }
            return JobOutcome { events, responses, dump: None };
        },
    };
    proof {
        let i = choose|i: int| 0 <= i < mid.todos().len() && mid.todos()[i].id == todo.id
            && ts.todo_store().todos() == #[trigger] mid.todos().update(i, todo@);
        if i < otd.todos().len() {
            assert(otd.todos()[i].id < otd.ntdid());
            assert(mid.todos()[i] == otd.todos()[i]);
        }
        assert(i == otd.todos().len());
        assert(ts.todo_store().todos() =~= otd.todos().push(todo@));
    }
    let text = todo_with_detail_post(content.as_str(), detail.as_str());
    let ps = ts.pstore_mut();
    let post = match ps.post(text, None) {
        Ok(p) => p,
        Err(e) => {
            proof { assert(false); }
            return JobOutcome { events, responses, dump: None };
        },
    };
    events.push(AsyncEvent::AddTodo(todo));
    events.push(AsyncEvent::AddPost(post));
    responses.push(UIResponse::ClearTextSidePane);
    responses.push(UIResponse::ClearTextSidePaneDetail);
    JobOutcome { events, responses, dump: None }
}

/// Marks the todo `tdid` done or not done and posts its new state.
fn run_todo_done(ts: &mut RamTimesStore, tdid: u64, done: bool) -> (r: JobOutcome)
    requires
        old(ts).wf(),
        todo_changes(old(ts).todo_store().todos(), tdid, done) ==> old(ts).post_store().npid() < u64::MAX,
    ensures
        final(ts).wf(),
        final(ts).times() == old(ts).times(),
        todo_done_job(*old(ts), *final(ts), tdid, done, r),
{
    let mut events: Vec<AsyncEvent> = Vec::new();
    let ghost otd = ts.todo_store();
    let tds = ts.tdstore_mut();
    match tds.done(tdid, done) {
        Ok(todo) => {
            proof {
                let i = choose|i: int| 0 <= i < otd.todos().len() && #[trigger] otd.todos()[i].id == tdid;
                assert((otd.todos()[i].done_at is Some) != done);
                assert(todo_changes(otd.todos(), tdid, done));
            }
            let text = todo_status_post(todo.content.as_str(), done);
            let ps = ts.pstore_mut();
            match ps.post(text, None) {
                Ok(post) => {
                    events.push(AsyncEvent::UpdateTodo(todo));
                    events.push(AsyncEvent::AddPost(post));
                },
                Err(e) => {
                    proof { assert(false); }
                },
            }
        },
        Err(e) => events.push(AsyncEvent::Error(failure_message(Failure::UpdateTodoStatus, e.as_str()))),
    }
    JobOutcome { events, responses: Vec::new(), dump: None }
}

} // verus!
