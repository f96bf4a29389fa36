use timesman::bstore::StoreType;
use timesman::client::app::{ModelStack, StateChange};
use timesman::client::pane::log::LogPane;
use timesman::client::pane::test::TestUI;
use timesman::client::pane::times_ui::UIResponse as PaneResponse;
use timesman::client::req::Requester;
use timesman::client::select::{
    day_title_string, get_times, not_found_message, AsyncEvent as SelectEvent, SelectAppRequest, SelectKeys, SelectModel,
    SelectRequest, SelectStep, SelectUI, Sort, UIRequest as SelectUIRequest, UIResponse as SelectResponse,
};
use timesman::client::side_panel::{SidePanel, SidePanelType};
use timesman::client::start::{StartKeys, StartUI, StoreKind, UIRequest as StartRequest, UIResponse as StartResponse};
use timesman::client::times::{
    failure_message, sort_posts, todo_created_post, todo_not_found, todo_status_post, todo_with_detail_post, AppRequest,
    AsyncEvent, DumpData, Failure, TimesJob, TimesModel, UIRequest, UIResponse,
};
use timesman::client::times_ui::{TimesKeys, TimesUI, UIState};
use timesman::client::AppResponse;
use timesman::time::{CivilDateTime, DateTime};
use timesman::types::{File, FileType, Post, Tag, Times, Todo};

fn at(secs: i64) -> DateTime {
    DateTime::from_timestamp(secs, 0).unwrap()
}

fn post(id: u64, text: &str) -> Post {
    Post { id, post: text.to_string(), created_at: at(0), updated_at: None, file: None, tag: None }
}

fn todo(id: u64, content: &str) -> Todo {
    Todo { id, content: content.to_string(), detail: None, created_at: at(0), done_at: None }
}

fn times(id: u64, title: &str) -> Times {
    Times { id, title: title.to_string(), created_at: at(0), updated_at: None }
}

#[test]
fn test_example() {}

#[test]
fn posts_are_sorted_both_ways() {
    let v = vec![post(3, "c"), post(1, "a"), post(2, "b"), post(1, "a2")];
    let up = sort_posts(v.clone(), false);
    let ids: Vec<u64> = up.iter().map(|p| p.id).collect();
    assert_eq!(ids, vec![1, 1, 2, 3]);
    assert_eq!(up[0].post, "a");
    assert_eq!(up[1].post, "a2");
    let down = sort_posts(v, true);
    let ids: Vec<u64> = down.iter().map(|p| p.id).collect();
    assert_eq!(ids, vec![3, 2, 1, 1]);
}

#[test]
fn times_model_takes_answers_in() {
    let mut m = TimesModel::new();
    assert!(m.handle_async_event(AsyncEvent::AddPost(post(2, "b"))).is_none());
    assert!(m.handle_async_event(AsyncEvent::AddPost(post(1, "a"))).is_none());
    assert_eq!(m.posts_ref().iter().map(|p| p.id).collect::<Vec<_>>(), vec![1, 2]);
    m.handle_async_event(AsyncEvent::UpdatePost(post(2, "B")));
    assert_eq!(m.posts_ref()[1].post, "B");
    m.handle_async_event(AsyncEvent::AddTodo(todo(0, "t")));
    let mut done = todo(0, "t");
    done.done_at = Some(at(5));
    m.handle_async_event(AsyncEvent::UpdateTodo(done));
    assert!(m.todos_ref()[0].done_at.is_some());
    m.handle_async_event(AsyncEvent::AddTag(Tag { id: 4, name: "x".to_string() }));
    m.handle_async_event(AsyncEvent::AddTag(Tag { id: 4, name: "y".to_string() }));
    assert_eq!(m.tags_ref().len(), 1);
    assert_eq!(m.tags_ref()[0].name, "y");
    match m.handle_async_event(AsyncEvent::Error("boom".to_string())) {
        Some(AppRequest::Error(e)) => assert_eq!(e, "boom"),
        _ => panic!("an error is handed on"),
    }
}

#[test]
fn times_model_plans_store_work() {
    let mut m = TimesModel::new();
    m.handle_async_event(AsyncEvent::AddTodo(todo(7, "t")));
    match m.handle_ureq(UIRequest::UpdateTodoDetail(7, "d".to_string())) {
        (Some(TimesJob::UpdateTodo(t)), None) => {
            assert_eq!(t.id, 7);
            assert_eq!(t.detail, Some("d".to_string()));
        }
        _ => panic!("the todo is updated"),
    }
    match m.handle_ureq(UIRequest::UpdateTodoDetail(8, "d".to_string())) {
        (Some(TimesJob::Fail(msg)), None) => assert_eq!(msg, "Todo with ID 8 not found"),
        _ => panic!("a missing todo is reported"),
    }
    assert!(matches!(m.handle_ureq(UIRequest::Close), (None, Some(AppRequest::Back))));
    m.handle_async_event(AsyncEvent::AddPost(post(1, "a")));
    m.handle_async_event(AsyncEvent::AddPost(post(2, "b")));
    assert!(matches!(m.handle_ureq(UIRequest::Sort(true)), (None, None)));
    assert_eq!(m.posts_ref()[0].id, 2);
    match m.handle_ureq(UIRequest::Dump("/tmp/x.json".to_string())) {
        (Some(TimesJob::Dump(path, posts, tags)), None) => {
            assert_eq!(path, "/tmp/x.json");
            assert_eq!(posts.len(), 2);
            assert!(tags.is_empty());
        }
        _ => panic!("a dump is planned"),
    }
    let resp = m.handle_app_resp(&vec![AppResponse::Error("e".to_string()), AppResponse::FileDropped("/f".to_string())]);
    assert_eq!(resp.len(), 1);
    assert!(matches!(&resp[0], UIResponse::FileDropped(p) if p == "/f"));
}

#[test]
fn times_messages() {
    assert_eq!(todo_created_post("buy"), "todo (buy) is created");
    assert_eq!(todo_with_detail_post("buy", ""), "todo (buy) is created");
    assert_eq!(todo_with_detail_post("buy", "milk"), "todo (buy) is created with detail");
    assert_eq!(todo_status_post("buy", true), "todo (buy) is done");
    assert_eq!(todo_status_post("buy", false), "todo (buy) is undone");
    assert_eq!(failure_message(Failure::CreateTodo, "x"), "Failed to create todo: x");
    assert_eq!(failure_message(Failure::CreatePostForTodoStatus, "y"), "Failed to create post for todo status: y");
    assert_eq!(todo_not_found(3), "Todo with ID 3 not found");
}

#[test]
fn dump_drops_files() {
    let mut p = post(1, "a");
    p.file = Some(File { name: "f".to_string(), ftype: FileType::Text("t".to_string()) });
    let d = DumpData::build(times(1, "t"), vec![p], vec![]);
    assert!(d.posts[0].file.is_none());
    assert_eq!(d.posts[0].post, "a");
}

#[test]
fn times_ui_keys_and_posting() {
    let mut ui = TimesUI::new("today".to_string());
    assert!(ui.post().is_none());
    ui.post_text_mut().push_str("hello");
    match ui.post() {
        Some(UIRequest::Post(t, None)) => assert_eq!(t, "hello"),
        _ => panic!("the text is posted"),
    }
    let none = TimesKeys { post: false, dump: false, todo: false, todo_detail: false, tag: false, assign: false, escape: false };
    let out = ui.on_keys(TimesKeys { assign: true, ..none });
    assert!(out.requests.is_empty());
    let out = ui.on_keys(TimesKeys { escape: true, ..none });
    assert!(out.requests.is_empty());
    let out = ui.on_keys(TimesKeys { escape: true, ..none });
    assert!(matches!(out.requests[0], UIRequest::Close));
    assert!(ui.on_keys(TimesKeys { dump: true, ..none }).open_dump_dialog);
    assert!(ui.handle_ui_resp(UIResponse::ClearText).is_none());
    assert!(ui.post().is_none());
    assert_eq!(ui.handle_ui_resp(UIResponse::FileDropped("/a".to_string())), Some("/a".to_string()));
    assert!(ui.assign_tag(&post(1, "a")).is_none());
    let _ = UIState::Normal;
}

#[test]
fn side_panel_requests() {
    let mut sp = SidePanel::new();
    assert!(sp.submit_todo().is_none());
    sp.new_text_mut().push_str("buy");
    assert!(matches!(sp.submit_todo(), Some(UIRequest::Todo(c)) if c == "buy"));
    sp.new_detail_mut().push_str("milk");
    assert!(matches!(sp.submit_todo(), Some(UIRequest::TodoWithDetail(c, d)) if c == "buy" && d == "milk"));
    assert!(matches!(sp.submit_tag(), Some(UIRequest::Tag(n)) if n == "buy"));
    sp.clear_inputs();
    assert!(sp.submit_todo().is_none());
    sp.open_detail(&todo(3, "t"));
    assert_eq!(sp.panel(), Some(SidePanelType::TodoDetail));
    sp.start_edit("old");
    assert!(sp.is_editing_detail());
    assert!(matches!(sp.save_detail(), Some(UIRequest::UpdateTodoDetail(3, d)) if d == "old"));
    assert!(!sp.is_editing_detail());
    sp.back();
    assert_eq!(sp.panel(), Some(SidePanelType::Todo));
    let tags = vec![Tag { id: 0, name: "a".to_string() }, Tag { id: 5, name: "b".to_string() }];
    assert_eq!(sp.selected_tag_text(&tags), "a");
    sp.choose_tag(9);
    assert_eq!(sp.selected_tag_text(&tags), "Select a tag");
    sp.choose_tag(5);
    assert_eq!(sp.selected_tag_text(&tags), "b");
    assert_eq!(sp.selected_tag_ref().as_ref().unwrap().id, 5);
}

#[test]
fn select_ui_opens_and_creates() {
    let list = vec![times(1, "20240101"), times(2, "x")];
    let ui = SelectUI::new();
    assert!(matches!(ui.select_today_titled("20240101".to_string(), &list), SelectUIRequest::SelectTimes(1)));
    assert!(matches!(ui.select_today_titled("20240102".to_string(), &list), SelectUIRequest::CreateTimes(t) if t == "20240102"));
    assert_eq!(get_times("x", &list).unwrap().id, 2);
    assert!(get_times("y", &list).is_none());

    let mut ui = SelectUI::new();
    let none = SelectKeys { escape: false, today: false, new: false, open: false };
    ui.on_keys(SelectKeys { open: true, ..none }, &list);
    assert!(ui.open_shown());
    ui.open_id_mut().push_str("12x");
    assert!(ui.submit_open().is_none());
    assert_eq!(ui.open_err().as_deref(), Some("Invalid input. please check it"));
    ui.open_id_mut().clear();
    ui.open_id_mut().push_str("+12");
    assert!(matches!(ui.submit_open(), Some(SelectUIRequest::SelectTimes(12))));
    ui.handle_ui_resp(&vec![SelectResponse::SelectOk]);
    assert!(!ui.open_shown());
    assert!(ui.open_err().is_none());
    let reqs = ui.on_keys(SelectKeys { escape: true, ..none }, &list);
    assert!(matches!(reqs[0], SelectUIRequest::Close));
    ui.on_keys(SelectKeys { new: true, ..none }, &list);
    ui.new_title_mut().push_str("new one");
    assert!(matches!(ui.submit_new(), SelectUIRequest::CreateTimes(t) if t == "new one"));
    assert!(!ui.new_shown());
}

#[test]
fn day_titles_follow_the_calendar() {
    let c = CivilDateTime { year: 2024, month: 3, day: 7, hour: 0, minute: 0, second: 0 };
    assert_eq!(day_title_string(c), "20240307");
    let far = CivilDateTime { year: 12345, month: 12, day: 31, hour: 0, minute: 0, second: 0 };
    assert_eq!(day_title_string(far), "+123451231");
    let early = CivilDateTime { year: 33, month: 1, day: 2, hour: 0, minute: 0, second: 0 };
    assert_eq!(day_title_string(early), "00330102");
}

#[test]
fn select_model_finds_times() {
    let mut m: SelectModel<u8> = SelectModel::new();
    m.handle_async_event(SelectEvent::AddTimes(times(5, "a"), 50));
    m.handle_async_event(SelectEvent::AddTimes(times(3, "b"), 30));
    assert!(matches!(m.handle_async_event(SelectEvent::SelectTimes(3)), Some(SelectAppRequest::ToTimes(1))));
    assert!(m.handle_async_event(SelectEvent::SelectTimes(9)).is_none());
    let resp = m.take_responses();
    assert!(matches!(resp[0], SelectResponse::SelectOk));
    assert!(matches!(&resp[1], SelectResponse::SelectErr(e) if e == "id(9) is not found"));
    assert!(m.handle_ureq(SelectRequest::Sort(Sort::ID, false)).is_none());
    assert_eq!(m.packs_ref()[0].times.id, 3);
    assert_eq!(m.packs_ref()[0].tstore, 30);
    assert!(matches!(m.handle_ureq(SelectRequest::Ui(SelectUIRequest::Close)), Some(SelectStep::Send(SelectEvent::Close))));
    assert!(matches!(m.handle_async_event(SelectEvent::Close), Some(SelectAppRequest::Back)));
    assert_eq!(not_found_message(1), "id(1) is not found");
}

#[test]
fn start_ui_starts_the_chosen_store() {
    let mut ui = StartUI::new();
    assert!(matches!(ui.start(), Some(StartRequest::Start(StoreType::Memory, None))));
    ui.pick(StoreKind::Local);
    assert!(ui.start().is_none());
    assert_eq!(ui.error_ref().as_deref(), Some("db file or path is not specified"));
    ui.use_default(Some("/data/timesman/unqlite.db".to_string()));
    assert!(matches!(ui.start(), Some(StartRequest::Start(StoreType::Local(p), None)) if p == "/data/timesman/unqlite.db"));
    assert!(ui.error_ref().is_none());
    ui.pick(StoreKind::Grpc);
    ui.use_default(None);
    assert!(matches!(ui.start(), Some(StartRequest::Start(StoreType::Grpc(p), None)) if p == "http://127.0.0.1:8080"));
    ui.handle_ui_response(&vec![StartResponse::Error("e1".to_string()), StartResponse::Error("e2".to_string())]);
    assert_eq!(ui.error_ref().as_deref(), Some("e2"));
    let keys = StartKeys { escape: true, memory: true, local: false, grpc: false, default: false, start: true };
    let reqs = ui.on_keys(keys, None);
    assert_eq!(reqs.len(), 2);
    assert!(matches!(reqs[0], StartRequest::Close));
    assert_eq!(ui.kind(), StoreKind::Memory);
}

#[test]
fn test_ui_counts() {
    let mut t = TestUI::new();
    assert_eq!(t.text, "hello");
    assert_eq!(t.get_test_label(), "hello world 0");
    t.incr();
    t.incr();
    assert_eq!(t.get_test_label(), "hello world 2");
    t.reset();
    assert_eq!(t.test_val, 0);
}

#[test]
fn log_pane_keeps_its_records() {
    let p = LogPane::new(vec!["a".to_string()]);
    assert_eq!(p.logs_ref().len(), 1);
    let _ = PaneResponse::PostSuccess;
}

#[test]
fn requester_urls_and_answers() {
    let r = Requester::new(&"http://s".to_string());
    assert_eq!(r.server, "http://s");
    assert_eq!(r.times_url(), "http://s/times");
    assert_eq!(r.times_id_url(-4), "http://s/times/-4");
    assert_eq!(r.delete_times(1, "no").unwrap_err(), "request error: no");
    assert!(r.delete_times(0, "Ok").is_ok());
    let p = r.post_post(2, &"x".to_string(), 0, "Ok", 9).unwrap();
    assert_eq!((p.times_id, p.id), (2, 9));
    assert_eq!(r.post_post(2, &"x".to_string(), 3, "bad", 9).unwrap_err(), "request error: bad");
}

#[test]
fn screens_stack_up_and_go_back() {
    let mut s = ModelStack::new("start");
    s.apply(StateChange::ToSelect("select"));
    s.apply(StateChange::ToTimes("times"));
    assert_eq!(*s.front_mut().unwrap(), "times");
    s.apply(StateChange::Back);
    assert_eq!(*s.front_mut().unwrap(), "select");
    s.apply(StateChange::Back);
    s.apply(StateChange::Back);
    assert!(s.is_empty());
    assert!(s.front_mut().is_none());
}
