use timesman::grpc;
use timesman::time::DateTime;
use timesman::types;

fn parse(s: &str) -> DateTime {
    let n = chrono::NaiveDateTime::parse_from_str(s, "%Y-%m-%d %H:%M:%S").unwrap();
    let u = n.and_utc();
    DateTime::from_timestamp(u.timestamp(), u.timestamp_subsec_nanos()).unwrap()
}

#[test]
fn test_todo_grpc_conversion_with_detail() {
    let created = parse("2023-01-01 10:00:00");
    let done = parse("2023-01-01 11:00:00");

    let original_todo = types::Todo {
        id: 1,
        content: "Test task".to_string(),
        detail: Some("This is a detailed description\nwith multiple lines\nand special chars: ñáéíóú 🚀".to_string()),
        created_at: created,
        done_at: Some(done),
    };

    let grpc_todo = grpc::Todo::from_model(original_todo.clone());
    assert_eq!(grpc_todo.id, 1);
    assert_eq!(grpc_todo.content, "Test task");
    assert_eq!(grpc_todo.detail, Some("This is a detailed description\nwith multiple lines\nand special chars: ñáéíóú 🚀".to_string()));
    assert!(grpc_todo.created_at.is_some());
    assert!(grpc_todo.done_at.is_some());

    let roundtrip_todo = grpc_todo.into_model();
    assert_eq!(roundtrip_todo.id, original_todo.id);
    assert_eq!(roundtrip_todo.content, original_todo.content);
    assert_eq!(roundtrip_todo.detail, original_todo.detail);
    assert_eq!(roundtrip_todo.created_at, original_todo.created_at);
    assert_eq!(roundtrip_todo.done_at, original_todo.done_at);
}

#[test]
fn test_todo_grpc_conversion_without_detail() {
    let created = parse("2023-01-01 10:00:00");

    let original_todo = types::Todo {
        id: 2,
        content: "Simple task".to_string(),
        detail: None,
        created_at: created,
        done_at: None,
    };

    let grpc_todo = grpc::Todo::from_model(original_todo.clone());
    assert_eq!(grpc_todo.id, 2);
    assert_eq!(grpc_todo.content, "Simple task");
    assert_eq!(grpc_todo.detail, None);
    assert!(grpc_todo.created_at.is_some());
    assert!(grpc_todo.done_at.is_none());

    let roundtrip_todo = grpc_todo.into_model();
    assert_eq!(roundtrip_todo, original_todo);
}

#[test]
fn test_grpc_message_validation() {
    let created = parse("2023-01-01 10:00:00");

    let todo_empty_detail = types::Todo {
        id: 3,
        content: "Task".to_string(),
        detail: Some("".to_string()),
        created_at: created,
        done_at: None,
    };
    let grpc_todo = grpc::Todo::from_model(todo_empty_detail);
    assert_eq!(grpc_todo.detail, Some("".to_string()));

    let todo_none_detail = types::Todo {
        id: 4,
        content: "Task".to_string(),
        detail: None,
        created_at: created,
        done_at: None,
    };
    let grpc_todo = grpc::Todo::from_model(todo_none_detail);
    assert_eq!(grpc_todo.detail, None);

    let long_detail = "x".repeat(5000);
    let todo_long_detail = types::Todo {
        id: 5,
        content: "Task".to_string(),
        detail: Some(long_detail.clone()),
        created_at: created,
        done_at: None,
    };
    let grpc_todo = grpc::Todo::from_model(todo_long_detail);
    assert_eq!(grpc_todo.detail, Some(long_detail));

    let special_detail = "Special chars: \n\r\t \"quotes\" 'apostrophes' \\backslashes\\ ñáéíóú 中文 العربية 🚀🎉".to_string();
    let todo_special = types::Todo {
        id: 6,
        content: "Special task".to_string(),
        detail: Some(special_detail.clone()),
        created_at: created,
        done_at: None,
    };
    let grpc_todo = grpc::Todo::from_model(todo_special);
    assert_eq!(grpc_todo.detail, Some(special_detail));
}

#[test]
fn test_times_grpc_conversion() {
    let created = parse("2023-01-01 10:00:00");
    let updated = parse("2023-01-01 11:00:00");

    let original_times = types::Times {
        id: 1,
        title: "Test Times".to_string(),
        created_at: created,
        updated_at: Some(updated),
    };

    let grpc_times = grpc::Times::from_model(original_times.clone());
    assert_eq!(grpc_times.id, 1);
    assert_eq!(grpc_times.title, "Test Times");
    assert!(grpc_times.created_at.is_some());
    assert!(grpc_times.updated_at.is_some());

    let roundtrip_times = grpc_times.into_model();
    assert_eq!(roundtrip_times.id, original_times.id);
    assert_eq!(roundtrip_times.title, original_times.title);
    assert_eq!(roundtrip_times.created_at, original_times.created_at);
    assert_eq!(roundtrip_times.updated_at, original_times.updated_at);
}

#[test]
fn test_post_grpc_conversion() {
    let created = parse("2023-01-01 10:00:00");

    let original_post = types::Post {
        id: 1,
        post: "Test post content".to_string(),
        created_at: created,
        updated_at: None,
        file: None,
        tag: Some(42),
    };

    let grpc_post = grpc::Post::from_model(original_post.clone());
    assert_eq!(grpc_post.id, 1);
    assert_eq!(grpc_post.post, "Test post content");
    assert!(grpc_post.created_at.is_some());
    assert!(grpc_post.updated_at.is_none());
    assert_eq!(grpc_post.tagid, Some(42));

    let roundtrip_post = grpc_post.into_model();
    assert_eq!(roundtrip_post.id, original_post.id);
    assert_eq!(roundtrip_post.post, original_post.post);
    assert_eq!(roundtrip_post.created_at, original_post.created_at);
    assert_eq!(roundtrip_post.updated_at, original_post.updated_at);
    assert_eq!(roundtrip_post.tag, original_post.tag);
}

#[test]
fn test_timestamp_conversion_edge_cases() {
    let min_date = parse("1970-01-01 00:00:00");
    let max_date = parse("2038-01-19 03:14:07");

    let todo_min = types::Todo {
        id: 1,
        content: "Min date task".to_string(),
        detail: Some("Task with minimum timestamp".to_string()),
        created_at: min_date,
        done_at: None,
    };
    let grpc_todo = grpc::Todo::from_model(todo_min.clone());
    let roundtrip_todo = grpc_todo.into_model();
    assert_eq!(roundtrip_todo.created_at, todo_min.created_at);

    let todo_max = types::Todo {
        id: 2,
        content: "Max date task".to_string(),
        detail: Some("Task with maximum timestamp".to_string()),
        created_at: max_date,
        done_at: Some(max_date),
    };
    let grpc_todo = grpc::Todo::from_model(todo_max.clone());
    let roundtrip_todo = grpc_todo.into_model();
    assert_eq!(roundtrip_todo.created_at, todo_max.created_at);
    assert_eq!(roundtrip_todo.done_at, todo_max.done_at);
}

#[test]
fn timestamps_carry_the_seconds_of_the_time() {
    let t = grpc::to_timestamp(parse("2023-01-01 10:00:00"));
    assert_eq!(t.seconds, 1_672_567_200);
    assert_eq!(t.nanos, 0);
    let back = grpc::from_timestamp(t);
    assert_eq!(back.secs(), 1_672_567_200);
}

#[test]
fn unreadable_timestamps_are_not_converted() {
    let m = grpc::Todo { id: 1, content: "c".to_string(), detail: None, created_at: None, done_at: None };
    assert!(m.try_into_model().is_none());
}
