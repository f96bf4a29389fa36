use timesman::bstore::ram::{RamStore, RamTimesStore};
use timesman::client::jobs::run_job;
use timesman::client::select::{create_times, AsyncEvent as SelectEvent};
use timesman::client::times::{AppRequest, AsyncEvent, TimesJob, TimesModel, UIRequest, UIResponse};
use timesman::time::DateTime;
use timesman::types::{Post, Tag, Times};

fn fresh_store() -> RamTimesStore {
    let t = Times { id: 7, title: "t".to_string(), created_at: DateTime::from_timestamp(0, 0).unwrap(), updated_at: None };
    RamTimesStore::new(t)
}

#[test]
fn job_todo_with_detail_creates_todo_and_post() {
    let mut ts = fresh_store();
    let out = run_job(&mut ts, TimesJob::CreateTodoWithDetail("task".to_string(), "".to_string()));
    let todos = ts.tdstore().get().unwrap();
    assert_eq!(todos.len(), 1);
    assert_eq!(todos[0].id, 0);
    assert_eq!(todos[0].content, "task");
    assert_eq!(todos[0].detail, Some("".to_string()));
    assert!(todos[0].done_at.is_none());
    let posts = ts.pstore().get_all().unwrap();
    assert_eq!(posts.len(), 1);
    assert_eq!(posts[0].post, "todo (task) is created");
    assert_eq!(out.events.len(), 2);
    assert!(matches!(&out.events[0], AsyncEvent::AddTodo(t) if t.detail == Some("".to_string())));
    assert!(matches!(&out.events[1], AsyncEvent::AddPost(p) if p.id == 0));
    assert!(matches!(out.responses[..], [UIResponse::ClearTextSidePane, UIResponse::ClearTextSidePaneDetail]));
    assert!(out.dump.is_none());

    let out = run_job(&mut ts, TimesJob::CreateTodoWithDetail("more".to_string(), "why".to_string()));
    let posts = ts.pstore().get_all().unwrap();
    assert_eq!(posts[1].post, "todo (more) is created with detail");
    assert!(matches!(&out.events[0], AsyncEvent::AddTodo(t) if t.id == 1 && t.detail == Some("why".to_string())));
}

#[test]
fn job_post_tag_and_todo() {
    let mut ts = fresh_store();
    let out = run_job(&mut ts, TimesJob::Post("hello".to_string(), None));
    assert!(matches!(&out.events[..], [AsyncEvent::AddPost(p)] if p.id == 0 && p.post == "hello"));
    assert!(matches!(out.responses[..], [UIResponse::ClearText]));

    let out = run_job(&mut ts, TimesJob::CreateTag("red".to_string()));
    assert!(matches!(&out.events[..], [AsyncEvent::AddTag(Tag { id: 0, name })] if name == "red"));
    assert!(matches!(out.responses[..], [UIResponse::ClearTextSidePane]));

    let out = run_job(&mut ts, TimesJob::CreateTodo("buy".to_string()));
    assert!(matches!(&out.events[..], [AsyncEvent::AddTodo(t), AsyncEvent::AddPost(p)]
        if t.id == 0 && t.content == "buy" && t.detail.is_none() && p.id == 1 && p.post == "todo (buy) is created"));
    assert!(matches!(out.responses[..], [UIResponse::ClearTextSidePane]));

    let mut changed: Post = ts.pstore().get(0).unwrap();
    changed.post = "hello again".to_string();
    let out = run_job(&mut ts, TimesJob::UpdatePost(changed));
    assert!(matches!(&out.events[..], [AsyncEvent::UpdatePost(p)] if p.post == "hello again"));
    assert_eq!(ts.pstore().get(0).unwrap().post, "hello again");
    assert_eq!(ts.pstore().get_all().unwrap().len(), 2);
}

#[test]
fn job_todo_done_and_update() {
    let mut ts = fresh_store();
    run_job(&mut ts, TimesJob::CreateTodo("buy".to_string()));
    let out = run_job(&mut ts, TimesJob::TodoDone(0, true));
    assert!(matches!(&out.events[..], [AsyncEvent::UpdateTodo(t), AsyncEvent::AddPost(p)]
        if t.done_at.is_some() && p.post == "todo (buy) is done"));
    let out = run_job(&mut ts, TimesJob::TodoDone(0, true));
    assert!(matches!(&out.events[..], [AsyncEvent::Error(m)] if m == "Failed to update todo status: invalid state"));
    let out = run_job(&mut ts, TimesJob::TodoDone(0, false));
    assert!(matches!(&out.events[..], [AsyncEvent::UpdateTodo(t), AsyncEvent::AddPost(p)]
        if t.done_at.is_none() && p.post == "todo (buy) is undone"));
    let out = run_job(&mut ts, TimesJob::TodoDone(9, true));
    assert!(matches!(&out.events[..], [AsyncEvent::Error(m)] if m == "Failed to update todo status: invalid tid"));
    assert_eq!(ts.pstore().get_all().unwrap().len(), 3);

    let mut t = ts.tdstore().get().unwrap()[0].clone();
    t.detail = Some("d".to_string());
    let out = run_job(&mut ts, TimesJob::UpdateTodo(t));
    assert!(matches!(&out.events[..], [AsyncEvent::UpdateTodo(t)] if t.detail == Some("d".to_string())));
    assert_eq!(ts.tdstore().get().unwrap()[0].detail, Some("d".to_string()));

    let mut missing = ts.tdstore().get().unwrap()[0].clone();
    missing.id = 5;
    let out = run_job(&mut ts, TimesJob::UpdateTodo(missing));
    assert!(matches!(&out.events[..], [AsyncEvent::Error(m)] if m == "Failed to update todo detail: invalid pid"));
}

#[test]
fn job_dump_and_fail() {
    let mut ts = fresh_store();
    run_job(&mut ts, TimesJob::Post("p".to_string(), None));
    let posts = ts.pstore().get_all().unwrap();
    let out = run_job(&mut ts, TimesJob::Dump("/tmp/d.json".to_string(), posts, vec![]));
    assert!(out.events.is_empty());
    let (path, dump) = out.dump.unwrap();
    assert_eq!(path, "/tmp/d.json");
    assert_eq!(dump.times.id, 7);
    assert_eq!(dump.posts.len(), 1);
    assert!(dump.posts[0].file.is_none());

    let out = run_job(&mut ts, TimesJob::Fail("nope".to_string()));
    assert!(matches!(&out.events[..], [AsyncEvent::Error(m)] if m == "nope"));
    assert!(out.responses.is_empty());
}

#[test]
fn creating_a_times_adds_and_selects_it() {
    let mut store = RamStore::new();
    let events = create_times(&mut store, "first".to_string());
    assert_eq!(events.len(), 2);
    assert!(matches!(&events[0], SelectEvent::AddTimes(t, 0) if t.id == 0 && t.title == "first"));
    assert!(matches!(&events[1], SelectEvent::SelectTimes(0)));
    let events = create_times(&mut store, "second".to_string());
    assert!(matches!(&events[0], SelectEvent::AddTimes(t, 1) if t.id == 1 && t.title == "second"));
    assert_eq!(store.len(), 2);
    assert_eq!(store.tstore(1).pstore().next_pid(), 0);
    assert_eq!(store.tstore(1).tdstore().next_tdid(), 0);
}

#[test]
fn times_model_takes_requests_in_order() {
    let mut m = TimesModel::new();
    m.handle_async_event(AsyncEvent::AddPost(Post {
        id: 1,
        post: "a".to_string(),
        created_at: DateTime::from_timestamp(0, 0).unwrap(),
        updated_at: None,
        file: None,
        tag: None,
    }));
    m.handle_async_event(AsyncEvent::AddPost(Post {
        id: 2,
        post: "b".to_string(),
        created_at: DateTime::from_timestamp(0, 0).unwrap(),
        updated_at: None,
        file: None,
        tag: None,
    }));
    let mut areq: Vec<AppRequest> = vec![];
    let jobs = m.handle_ureqs(
        vec![
            UIRequest::TodoWithDetail("task".to_string(), "".to_string()),
            UIRequest::Sort(true),
            UIRequest::Close,
            UIRequest::Tag("x".to_string()),
            UIRequest::Close,
        ],
        &mut areq,
    );
    assert_eq!(jobs.len(), 5);
    assert!(matches!(&jobs[0], Some(TimesJob::CreateTodoWithDetail(c, d)) if c == "task" && d.is_empty()));
    assert!(jobs[1].is_none() && jobs[2].is_none() && jobs[4].is_none());
    assert!(matches!(&jobs[3], Some(TimesJob::CreateTag(n)) if n == "x"));
    assert_eq!(areq.len(), 2);
    assert!(areq.iter().all(|a| matches!(a, AppRequest::Back)));
    assert_eq!(m.posts_ref().iter().map(|p| p.id).collect::<Vec<_>>(), vec![2, 1]);

    let mut ts = fresh_store();
    if let Some(job) = jobs.into_iter().next().unwrap() {
        run_job(&mut ts, job);
    }
    assert_eq!(ts.tdstore().get().unwrap()[0].detail, Some("".to_string()));
    assert_eq!(ts.pstore().get_all().unwrap()[0].post, "todo (task) is created");
}
