use timesman::bstore::local::post::{get_pmeta_path, get_post_path, get_tag_meta_path, get_tag_path, LocalPostStore, PostMeta, TagMeta};
use timesman::bstore::local::times::{get_times_meta_path, LocalTimesStore};
use timesman::bstore::local::todo::{get_meta_path, get_todo_path, LocalTodoStore, TodoMeta};
use timesman::bstore::local::{LocalStore, RootMeta, TimesMeta};
use timesman::bstore::ram::RamStore;
use timesman::bstore::remote::{GrpcPostStore, GrpcTimesStore, GrpcTodoStore, TodoUpdate};
use timesman::time::DateTime;
use timesman::types::{Post, Times, Todo};

fn at(secs: i64) -> DateTime {
    DateTime::from_timestamp(secs, 0).unwrap()
}

#[test]
fn test_path_consistency() {
    let tid = 123;
    let pid = 456;
    let tagid = 789;

    assert_eq!(get_pmeta_path(tid), "123/posts/meta.data");
    assert_eq!(get_post_path(tid, pid), "123/posts/456");

    assert_eq!(get_tag_meta_path(tid), "123/tags/meta.data");
    assert_eq!(get_tag_path(tid, tagid), "123/tags/789");

    assert!(!get_post_path(tid, pid).contains('$'));
    assert!(!get_tag_path(tid, tagid).contains('$'));
}

#[test]
fn test_todo_path_consistency() {
    let tid = 123;
    let tdid = 456;

    assert_eq!(get_meta_path(tid), "123/todos/meta.data");
    assert_eq!(get_todo_path(tid, tdid), "123/todos/456");

    assert!(get_meta_path(tid).ends_with("/meta.data"));
    assert!(get_todo_path(tid, tdid).starts_with(&format!("{tid}/todos/")));
}

#[test]
fn test_times_ram_store() {
    let mut store = RamStore::new();
    let title = "Test Times".to_string();
    store.create(title.clone()).unwrap();

    let times_list = store.get().unwrap();
    assert_eq!(times_list.len(), 1);
    assert_eq!(times_list[0].title, title);

    let tid = times_list[0].id;
    store.delete(tid).unwrap();
    let times_list = store.get().unwrap();
    assert!(times_list.is_empty());
}

#[test]
fn test_post_ram_store() {
    let mut store = RamStore::new();
    store.create("post test".to_string()).unwrap();
    let pstore = store.tstore_mut(0).pstore_mut();

    let posts = pstore.get_all().unwrap();
    assert!(posts.len() == 0);

    let text = "hello".to_string();
    let post = pstore.post(text.clone(), None).unwrap();
    assert_eq!(post.post, text);

    let posts = pstore.get_all().unwrap();
    assert!(posts.len() == 1);
}

#[test]
fn test_recreate_ram_pstore() {
    let mut store = RamStore::new();
    store.create("post test".to_string()).unwrap();
    {
        let pstore = store.tstore_mut(0).pstore_mut();
        let posts = pstore.get_all().unwrap();
        assert!(posts.len() == 0);
        let text = "hello".to_string();
        let post = pstore.post(text.clone(), None).unwrap();
        assert_eq!(post.post, text);
    }
    {
        let pstore = store.tstore(0).pstore();
        let posts = pstore.get_all().unwrap();
        assert!(posts.len() == 1);
    }
}

#[test]
fn ram_times_ids_count_up_and_delete_refuses_unknown() {
    let mut store = RamStore::new();
    let a = store.create("a".to_string()).unwrap();
    let b = store.create("b".to_string()).unwrap();
    assert_eq!(a.id, 0);
    assert_eq!(b.id, 1);
    assert_eq!(store.delete(7), Err("invalid tid".to_string()));
    store.delete(0).unwrap();
    let c = store.create("c".to_string()).unwrap();
    assert_eq!(c.id, 2);
}

#[test]
fn ram_post_then_get_delete_then_get() {
    let mut store = RamStore::new();
    store.create("t".to_string()).unwrap();
    let pstore = store.tstore_mut(0).pstore_mut();
    let p = pstore.post("one".to_string(), None).unwrap();
    assert_eq!(pstore.get(p.id).unwrap().post, "one");
    let mut q = p.clone();
    q.post = "two".to_string();
    pstore.update(q).unwrap();
    assert_eq!(pstore.get(p.id).unwrap().post, "two");
    pstore.delete(p.id).unwrap();
    assert_eq!(pstore.get(p.id), Err("invalid pid".to_string()));
}

#[test]
fn ram_todo_done_twice_is_refused() {
    let mut store = RamStore::new();
    store.create("t".to_string()).unwrap();
    let tds = store.tstore_mut(0).tdstore_mut();
    let t = tds.new_todo("work".to_string()).unwrap();
    assert!(tds.done(t.id, true).unwrap().done_at.is_some());
    assert_eq!(tds.done(t.id, true), Err("invalid state".to_string()));
    assert!(tds.done(t.id, false).unwrap().done_at.is_none());
    assert_eq!(tds.done(99, true), Err("invalid tid".to_string()));
}

#[test]
fn post_meta_append_keeps_next_above_every_id() {
    let mut m = PostMeta::default();
    m.append(5);
    assert_eq!(m.npid, 6);
    m.append(2);
    assert_eq!(m.pids, vec![5, 2]);
    assert_eq!(m.npid, 6);
    m.append(9);
    assert_eq!(m.npid, 10);
}

#[test]
fn tag_meta_append_counts_up() {
    let mut m = TagMeta::default();
    m.append(0);
    m.append(7);
    assert_eq!(m.tagids, vec![0, 7]);
    assert_eq!(m.ntagid, 2);
}

#[test]
fn local_post_store_hands_out_ids_and_keys() {
    let mut s = LocalPostStore::new(3, None, None);
    let (p, key) = s.post("hi".to_string(), None);
    assert_eq!(p.id, 0);
    assert_eq!(key, "3/posts/0");
    let (p2, key2) = s.post("again".to_string(), None);
    assert_eq!(p2.id, 1);
    assert_eq!(key2, "3/posts/1");
    assert_eq!(s.post_keys(), vec!["3/posts/0".to_string(), "3/posts/1".to_string()]);
    let (tag, tkey) = s.create_tag("red".to_string());
    assert_eq!(tag.id, 0);
    assert_eq!(tkey, "3/tags/0");
    assert_eq!(s.tag_meta().ntagid, 1);
    assert_eq!(s.tag_keys(), vec!["3/tags/0".to_string()]);
    let (_, ukey) = s.update(p2);
    assert_eq!(ukey, "3/posts/1");
}

#[test]
fn local_post_store_resumes_from_meta() {
    let meta = PostMeta { npid: 4, pids: vec![1, 3] };
    let mut s = LocalPostStore::new(1, Some(meta), None);
    let (p, _) = s.post("x".to_string(), None);
    assert_eq!(p.id, 4);
    assert_eq!(s.post_meta().pids, vec![1, 3, 4]);
}

#[test]
fn local_todo_store_decisions() {
    let mut s = LocalTodoStore::new(1, None);
    let (t, key) = s.new_todo("Test todo".to_string());
    assert_eq!(t.id, 0);
    assert_eq!(t.content, "Test todo");
    assert_eq!(key, "1/todos/0");
    assert!(t.detail.is_none());
    assert!(t.done_at.is_none());

    assert_eq!(s.done(0, true, None).unwrap_err(), "invalid tid");
    let (done, dkey) = s.done(0, true, Some(t.clone())).unwrap();
    assert!(done.done_at.is_some());
    assert_eq!(dkey, "1/todos/0");
    assert_eq!(s.done(0, true, Some(done.clone())).unwrap_err(), "invalid state");
    let (undone, _) = s.done(0, false, Some(done)).unwrap();
    assert!(undone.done_at.is_none());

    assert_eq!(s.update(t.clone(), false).unwrap_err(), "Todo not found");
    let (u, ukey) = s.update(t.clone(), true).unwrap();
    assert_eq!(u, t);
    assert_eq!(ukey, "1/todos/0");

    assert_eq!(s.delete(999).unwrap_err(), "Todo not found");
    assert_eq!(s.delete(0).unwrap(), "1/todos/0");
    assert!(s.meta().tdids.is_empty());
    assert_eq!(s.meta().ntdid, 1);
}

#[test]
fn local_store_creates_times_and_refuses_taken_titles() {
    let mut store = LocalStore::new(RootMeta::empty(), vec![]);
    assert_eq!(store.create("t".to_string(), true).unwrap_err(), "Already exists");
    let (times, meta) = store.create("t".to_string(), false).unwrap();
    assert_eq!(times.id, 0);
    assert_eq!(meta.title, "t");
    assert_eq!(store.root_meta().ntid, 1);
    assert_eq!(store.root_meta().tids, vec![0]);
    assert_eq!(store.get().unwrap().len(), 1);
    assert_eq!(get_times_meta_path(0), "0/meta.data");
}

#[test]
fn local_store_loads_its_times() {
    let meta = RootMeta { ntid: 8, tids: vec![2, 7] };
    let tmetas = vec![
        TimesMeta { title: "a".to_string(), created_at: at(0), updated_at: None },
        TimesMeta { title: "b".to_string(), created_at: at(60), updated_at: Some(at(120)) },
    ];
    let mut store = LocalStore::new(meta, tmetas);
    let all = store.get().unwrap();
    assert_eq!(all[0].id, 2);
    assert_eq!(all[1].id, 7);
    assert_eq!(all[1].title, "b");
    let ts = store.tstore_mut(1);
    let t = Times { id: 7, title: "c".to_string(), created_at: at(60), updated_at: None };
    let (_, key) = ts.update(t);
    assert_eq!(key, "7/meta.data");
    assert_eq!(store.tstore(1).get().unwrap().title, "c");
    let lt = LocalTimesStore::new(Times { id: 1, title: "x".to_string(), created_at: at(0), updated_at: None });
    assert_eq!(lt.get().unwrap().id, 1);
}

#[test]
fn grpc_client_stores_build_requests() {
    let ps = GrpcPostStore::new(4);
    assert_eq!(ps.get_all_request().id, 4);
    let req = ps.post_request("hello".to_string());
    assert_eq!(req.id, 4);
    assert_eq!(req.text, "hello");
    let d = ps.delete_request(9);
    assert_eq!((d.tid, d.pid), (4, 9));
    let posts = vec![
        Post { id: 1, post: "a".to_string(), created_at: at(0), updated_at: None, file: None, tag: None },
        Post { id: 2, post: "b".to_string(), created_at: at(0), updated_at: None, file: None, tag: None },
    ];
    assert_eq!(ps.get(2, posts.clone()).unwrap().post, "b");
    assert_eq!(ps.get(3, posts).unwrap_err(), "Post with id 3 not found");

    let ts = GrpcTodoStore::new(4);
    let todo = Todo { id: 5, content: "c".to_string(), detail: Some("d".to_string()), created_at: at(0), done_at: None };
    match ts.update(todo.clone()) {
        TodoUpdate::Send(p) => {
            assert_eq!((p.tid, p.tdid), (4, 5));
            assert_eq!(p.detail, "d");
        }
        TodoUpdate::Keep(_) => panic!("a todo with a detail is sent"),
    }
    let mut plain = todo;
    plain.detail = None;
    assert!(matches!(ts.update(plain), TodoUpdate::Keep(_)));
    assert_eq!(ts.delete(5).unwrap_err(), "Todo delete not supported via gRPC");
    let n = ts.new_request("x".to_string());
    assert_eq!(n.tid, 4);
    assert!(n.detail.is_none());

    let times = GrpcTimesStore::new(Times { id: 3, title: "t".to_string(), created_at: at(0), updated_at: None });
    assert_eq!(times.get().unwrap().id, 3);
    assert_eq!(times.pstore().get_all_request().id, 3);
}

#[test]
fn todo_meta_is_plain_data() {
    let m = TodoMeta { ntdid: 2, tdids: vec![0, 1] };
    let s = LocalTodoStore::new(9, Some(m));
    assert_eq!(s.todo_keys(), vec!["9/todos/0".to_string(), "9/todos/1".to_string()]);
    assert_eq!(s.todo_path(1), "9/todos/1");
}

#[test]
fn keys_of_different_records_differ() {
    assert_ne!(get_post_path(1, 23), get_post_path(12, 3));
    assert_ne!(get_tag_path(1, 23), get_tag_path(12, 3));
    assert_ne!(get_todo_path(1, 23), get_todo_path(12, 3));
    assert_eq!(get_post_path(0, 0), "0/posts/0");
}

/// A key/value database kept in memory, standing for the database file.
struct MemKv {
    posts: std::collections::HashMap<String, Post>,
    pmetas: std::collections::HashMap<String, (u64, Vec<u64>)>,
}

impl MemKv {
    fn new() -> Self {
        MemKv { posts: std::collections::HashMap::new(), pmetas: std::collections::HashMap::new() }
    }

    fn pstore(&mut self, tid: u64) -> LocalPostStore {
        let key = get_pmeta_path(tid);
        let meta = self.pmetas.get(&key).map(|(npid, pids)| PostMeta { npid: *npid, pids: pids.clone() });
        if meta.is_none() {
            self.pmetas.insert(key, (0, vec![]));
        }
        LocalPostStore::new(tid, meta, None)
    }

    fn get_all(&self, ps: &LocalPostStore) -> Vec<Post> {
        ps.post_keys().iter().map(|k| self.posts[k].clone()).collect()
    }

    fn post(&mut self, tid: u64, ps: &mut LocalPostStore, text: String) -> Post {
        let (p, key) = ps.post(text, None);
        self.posts.insert(key, p.clone());
        let m = ps.post_meta();
        self.pmetas.insert(get_pmeta_path(tid), (m.npid, m.pids.clone()));
        p
    }
}

#[test]
fn test_post_local_store() {
    let mut kv = MemKv::new();
    let mut store = LocalStore::new(RootMeta::empty(), vec![]);
    let (times, _) = store.create("post test".to_string(), false).unwrap();
    let mut pstore = kv.pstore(times.id);

    let posts = kv.get_all(&pstore);
    assert!(posts.len() == 0);

    let text = "hello".to_string();
    let post = kv.post(times.id, &mut pstore, text.clone());
    assert_eq!(post.post, text);

    let posts = kv.get_all(&pstore);
    assert!(posts.len() == 1);
}

#[test]
fn test_recreate_local_pstore() {
    let mut kv = MemKv::new();
    let mut store = LocalStore::new(RootMeta::empty(), vec![]);
    let (times, _) = store.create("post test".to_string(), false).unwrap();
    {
        let mut pstore = kv.pstore(times.id);
        let posts = kv.get_all(&pstore);
        assert!(posts.len() == 0);
        let text = "hello".to_string();
        let post = kv.post(times.id, &mut pstore, text.clone());
        assert_eq!(post.post, text);
    }
    {
        let pstore = kv.pstore(times.id);
        let posts = kv.get_all(&pstore);
        assert!(posts.len() == 1);
    }
}

/// The todos of one times over a key/value map standing for the database.
struct TodoKv {
    todos: std::collections::HashMap<String, Todo>,
    store: LocalTodoStore,
}

impl TodoKv {
    fn open(tid: u64) -> Self {
        TodoKv { todos: std::collections::HashMap::new(), store: LocalTodoStore::new(tid, None) }
    }

    fn new(&mut self, content: String) -> Result<Todo, String> {
        let (t, key) = self.store.new_todo(content);
        self.todos.insert(key, t.clone());
        Ok(t)
    }

    fn get(&self) -> Result<Vec<Todo>, String> {
        Ok(self.store.todo_keys().iter().filter_map(|k| self.todos.get(k).cloned()).collect())
    }

    fn update(&mut self, todo: Todo) -> Result<Todo, String> {
        let exists = self.todos.contains_key(&self.store.todo_path(todo.id));
        let (t, key) = self.store.update(todo, exists)?;
        self.todos.insert(key, t.clone());
        Ok(t)
    }

    fn done(&mut self, tdid: u64, done: bool) -> Result<Todo, String> {
        let stored = self.todos.get(&self.store.todo_path(tdid)).cloned();
        let (t, key) = self.store.done(tdid, done, stored)?;
        self.todos.insert(key, t.clone());
        Ok(t)
    }

    fn delete(&mut self, tdid: u64) -> Result<(), String> {
        let key = self.store.delete(tdid)?;
        self.todos.remove(&key);
        Ok(())
    }
}

#[test]
fn test_todo_crud_operations() {
    let mut todo_store = TodoKv::open(1);

    let todo = todo_store.new("Test todo".to_string()).unwrap();
    assert_eq!(todo.content, "Test todo");
    assert_eq!(todo.id, 0);
    assert!(todo.detail.is_none());
    assert!(todo.done_at.is_none());

    let todos = todo_store.get().unwrap();
    assert_eq!(todos.len(), 1);
    assert_eq!(todos[0].content, "Test todo");

    let mut updated_todo = todo.clone();
    updated_todo.detail = Some("Detailed description".to_string());
    let result = todo_store.update(updated_todo).unwrap();
    assert_eq!(result.detail, Some("Detailed description".to_string()));

    let done_todo = todo_store.done(todo.id, true).unwrap();
    assert!(done_todo.done_at.is_some());

    let undone_todo = todo_store.done(todo.id, false).unwrap();
    assert!(undone_todo.done_at.is_none());

    todo_store.delete(todo.id).unwrap();
    let todos = todo_store.get().unwrap();
    assert_eq!(todos.len(), 0);
}

#[test]
fn test_todo_error_cases() {
    let mut todo_store = TodoKv::open(1);

    let fake_todo = Todo { id: 999, content: "Fake".to_string(), detail: None, created_at: at(0), done_at: None };
    assert!(todo_store.update(fake_todo).is_err());

    assert!(todo_store.delete(999).is_err());

    let todo = todo_store.new("Test".to_string()).unwrap();

    todo_store.done(todo.id, true).unwrap();
    assert!(todo_store.done(todo.id, true).is_err());
}
