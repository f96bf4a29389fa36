use timesman::bstore::StoreType;
use timesman::grpc;
use timesman::server::auth::{claims_from_decoded, AuthError, AuthService};
use timesman::server::config::{Config, FrontType, StoreConfig};
use timesman::server::grpc::{Code, TMServer};
use timesman::server::http::answer;
use timesman::types::{LoginRequest, RegisterRequest, UserRole};

fn setup_test_server() -> TMServer {
    TMServer::new_memory()
}

fn create_test_times(server: &mut TMServer) -> u64 {
    let response = server.create_times(grpc::TimesTitle { title: "Test Times".to_string() }).unwrap();
    response.id
}

#[test]
fn test_get_todo_detail_endpoint() {
    let mut server = setup_test_server();
    let tid = create_test_times(&mut server);

    let todo = server
        .create_todo(grpc::CreateTodoParams {
            tid,
            content: "Test todo".to_string(),
            detail: Some("This is a detailed description\nwith multiple lines".to_string()),
        })
        .unwrap();
    let tdid = todo.id;

    let retrieved_todo = server.get_todo_detail(grpc::TodoDetailParams { tid, tdid }).unwrap();

    assert_eq!(retrieved_todo.id, tdid);
    assert_eq!(retrieved_todo.content, "Test todo");
    assert_eq!(retrieved_todo.detail, Some("This is a detailed description\nwith multiple lines".to_string()));
    assert!(retrieved_todo.created_at.is_some());
    assert!(retrieved_todo.done_at.is_none());
}

#[test]
fn test_update_todo_detail_endpoint() {
    let mut server = setup_test_server();
    let tid = create_test_times(&mut server);

    let todo = server
        .create_todo(grpc::CreateTodoParams { tid, content: "Test todo".to_string(), detail: None })
        .unwrap();
    let tdid = todo.id;

    let updated_todo = server
        .update_todo_detail(grpc::UpdateTodoDetailParams {
            tid,
            tdid,
            detail: "This is a new detailed description with Unicode: ñáéíóú 🚀".to_string(),
        })
        .unwrap();

    assert_eq!(updated_todo.id, tdid);
    assert_eq!(updated_todo.content, "Test todo");
    assert_eq!(updated_todo.detail, Some("This is a new detailed description with Unicode: ñáéíóú 🚀".to_string()));

    let retrieved_todo = server.get_todo_detail(grpc::TodoDetailParams { tid, tdid }).unwrap();
    assert_eq!(retrieved_todo.detail, Some("This is a new detailed description with Unicode: ñáéíóú 🚀".to_string()));
}

#[test]
fn test_create_todo_with_detail() {
    let mut server = setup_test_server();
    let tid = create_test_times(&mut server);

    let todo = server
        .create_todo(grpc::CreateTodoParams {
            tid,
            content: "Todo with detail".to_string(),
            detail: Some("Initial detail text\nwith newlines and special chars: \"quotes\" & symbols".to_string()),
        })
        .unwrap();
    assert_eq!(todo.content, "Todo with detail");
    assert_eq!(todo.detail, Some("Initial detail text\nwith newlines and special chars: \"quotes\" & symbols".to_string()));
    assert!(todo.created_at.is_some());
    assert!(todo.done_at.is_none());

    let todo = server
        .create_todo(grpc::CreateTodoParams { tid, content: "Simple todo".to_string(), detail: None })
        .unwrap();
    assert_eq!(todo.content, "Simple todo");
    assert_eq!(todo.detail, None);

    let todo = server
        .create_todo(grpc::CreateTodoParams { tid, content: "Empty detail todo".to_string(), detail: Some("".to_string()) })
        .unwrap();
    assert_eq!(todo.content, "Empty detail todo");
    assert_eq!(todo.detail, Some("".to_string()));
}

#[test]
fn test_todo_detail_error_handling() {
    let mut server = setup_test_server();
    let tid = create_test_times(&mut server);

    let get_result = server.get_todo_detail(grpc::TodoDetailParams { tid: 99999, tdid: 1 });
    assert!(get_result.is_err());
    assert_eq!(get_result.unwrap_err().code(), Code::NotFound);

    let get_result = server.get_todo_detail(grpc::TodoDetailParams { tid, tdid: 99999 });
    assert!(get_result.is_err());
    assert_eq!(get_result.unwrap_err().code(), Code::NotFound);

    let update_result = server.update_todo_detail(grpc::UpdateTodoDetailParams {
        tid: 99999,
        tdid: 1,
        detail: "New detail".to_string(),
    });
    assert!(update_result.is_err());
    assert_eq!(update_result.unwrap_err().code(), Code::NotFound);

    let update_result = server.update_todo_detail(grpc::UpdateTodoDetailParams {
        tid,
        tdid: 99999,
        detail: "New detail".to_string(),
    });
    assert!(update_result.is_err());
    assert_eq!(update_result.unwrap_err().code(), Code::NotFound);

    let create_result = server.create_todo(grpc::CreateTodoParams { tid: 99999, content: "Test".to_string(), detail: None });
    assert!(create_result.is_err());
    assert_eq!(create_result.unwrap_err().code(), Code::NotFound);
}

#[test]
fn test_get_todos_includes_details() {
    let mut server = setup_test_server();
    let tid = create_test_times(&mut server);

    let todos_data: Vec<(&str, Option<&str>)> = vec![
        ("Todo 1", Some("Detail 1")),
        ("Todo 2", None),
        ("Todo 3", Some("Detail 3 with\nmultiple lines")),
        ("Todo 4", Some("")),
    ];

    let mut created_todo_ids = Vec::new();
    for (content, detail) in todos_data.iter() {
        let created = server
            .create_todo(grpc::CreateTodoParams { tid, content: content.to_string(), detail: detail.map(|d| d.to_string()) })
            .unwrap();
        created_todo_ids.push(created.id);
    }

    let todos = server.get_todos(grpc::TimesId { id: tid }).unwrap().todos;
    assert_eq!(todos.len(), 4);

    for (i, todo) in todos.iter().enumerate() {
        let expected_detail = todos_data[i].1.map(|d| d.to_string());
        assert_eq!(todo.content, todos_data[i].0);
        assert_eq!(todo.detail, expected_detail);
        assert!(created_todo_ids.contains(&todo.id));
    }
}

#[test]
fn test_todo_detail_persistence() {
    let mut server = setup_test_server();
    let tid = create_test_times(&mut server);

    let tdid = server
        .create_todo(grpc::CreateTodoParams {
            tid,
            content: "Persistent todo".to_string(),
            detail: Some("Original detail".to_string()),
        })
        .unwrap()
        .id;

    let details = vec![
        "First update",
        "Second update with special chars: ñáéíóú",
        "Third update\nwith\nmultiple\nlines",
        "",
    ];

    for detail in details.iter() {
        let updated_todo = server
            .update_todo_detail(grpc::UpdateTodoDetailParams { tid, tdid, detail: detail.to_string() })
            .unwrap();
        assert_eq!(updated_todo.detail, Some(detail.to_string()));

        let retrieved_todo = server.get_todo_detail(grpc::TodoDetailParams { tid, tdid }).unwrap();
        assert_eq!(retrieved_todo.detail, Some(detail.to_string()));
    }
}

#[test]
fn test_todo_detail_with_done_status() {
    let mut server = setup_test_server();
    let tid = create_test_times(&mut server);

    let todo = server
        .create_todo(grpc::CreateTodoParams {
            tid,
            content: "Todo to be done".to_string(),
            detail: Some("This todo will be marked as done".to_string()),
        })
        .unwrap();
    let tdid = todo.id;

    let done_todo = server.done_todo(grpc::DoneTodoParams { tid, tdid, done: true }).unwrap();
    assert_eq!(done_todo.detail, Some("This todo will be marked as done".to_string()));
    assert!(done_todo.done_at.is_some());

    let updated_todo = server
        .update_todo_detail(grpc::UpdateTodoDetailParams { tid, tdid, detail: "Updated detail for done todo".to_string() })
        .unwrap();
    assert_eq!(updated_todo.detail, Some("Updated detail for done todo".to_string()));
    assert!(updated_todo.done_at.is_some());

    let undone_todo = server.done_todo(grpc::DoneTodoParams { tid, tdid, done: false }).unwrap();
    assert_eq!(undone_todo.detail, Some("Updated detail for done todo".to_string()));
    assert!(undone_todo.done_at.is_none());
}

#[test]
fn test_todo_detail_edge_cases() {
    let mut server = setup_test_server();
    let tid = create_test_times(&mut server);

    let long_detail = "x".repeat(10000);
    let todo = server
        .create_todo(grpc::CreateTodoParams { tid, content: "Long detail todo".to_string(), detail: Some(long_detail.clone()) })
        .unwrap();
    assert_eq!(todo.detail, Some(long_detail));

    let whitespace_detail = "   \n\t\r\n   ".to_string();
    let todo = server
        .create_todo(grpc::CreateTodoParams {
            tid,
            content: "Whitespace detail todo".to_string(),
            detail: Some(whitespace_detail.clone()),
        })
        .unwrap();
    assert_eq!(todo.detail, Some(whitespace_detail));

    let control_detail = "Detail with control chars: \u{0001}\u{0002}\u{001F}".to_string();
    let todo = server
        .create_todo(grpc::CreateTodoParams { tid, content: "Control chars todo".to_string(), detail: Some(control_detail.clone()) })
        .unwrap();
    assert_eq!(todo.detail, Some(control_detail));
}

#[test]
fn server_posts_and_times_round_trip() {
    let mut server = setup_test_server();
    let tid = create_test_times(&mut server);
    let p = server.create_post(grpc::CreatePostPrams { id: tid, text: "hello".to_string() }).unwrap();
    assert_eq!(p.post, "hello");
    let posts = server.get_posts(grpc::TimesId { id: tid }).unwrap().posts;
    assert_eq!(posts.len(), 1);
    assert_eq!(server.update_post(grpc::UpdatePostParam { tid, post: None }).unwrap_err().message, "Post data is required");
    server.delete_post(grpc::DeletePostParam { tid, pid: p.id }).unwrap();
    assert!(server.get_posts(grpc::TimesId { id: tid }).unwrap().posts.is_empty());
    assert_eq!(server.get_times().unwrap().timeses.len(), 1);
    server.delete_times(grpc::TimesId { id: tid }).unwrap();
    assert!(server.get_times().unwrap().timeses.is_empty());
    assert_eq!(server.get_posts(grpc::TimesId { id: tid }).unwrap_err().code(), Code::NotFound);
}

#[test]
fn done_twice_is_aborted() {
    let mut server = setup_test_server();
    let tid = create_test_times(&mut server);
    let t = server.create_todo(grpc::CreateTodoParams { tid, content: "t".to_string(), detail: None }).unwrap();
    server.done_todo(grpc::DoneTodoParams { tid, tdid: t.id, done: true }).unwrap();
    let again = server.done_todo(grpc::DoneTodoParams { tid, tdid: t.id, done: true });
    assert!(again.is_err());
}

#[test]
fn test_register_and_login() {
    let mut auth_service = AuthService::new("test-secret-key");

    let register_request = RegisterRequest {
        username: "testuser".to_string(),
        email: "test@example.com".to_string(),
        password: "testpassword".to_string(),
    };

    let auth_response = auth_service.register(register_request).unwrap();
    assert_eq!(auth_response.user.username, "testuser");
    assert_eq!(auth_response.user.email, "test@example.com");
    assert_eq!(auth_response.user.role, UserRole::User);
    assert!(!auth_response.access_token.is_empty());

    let login_request = LoginRequest { username: "testuser".to_string(), password: "testpassword".to_string() };

    let login_response = auth_service.login(login_request).unwrap();
    assert_eq!(login_response.user.username, "testuser");
    assert!(!login_response.access_token.is_empty());

    let claims = auth_service.validate_token(&login_response.access_token).unwrap();
    assert_eq!(claims.username, "testuser");
    assert_eq!(claims.role, UserRole::User);
}

#[test]
fn test_duplicate_registration() {
    let mut auth_service = AuthService::new("test-secret-key");

    let register_request = RegisterRequest {
        username: "testuser".to_string(),
        email: "test@example.com".to_string(),
        password: "testpassword".to_string(),
    };

    auth_service.register(register_request.clone()).unwrap();

    let result = auth_service.register(register_request);
    assert!(matches!(result, Err(AuthError::UserAlreadyExists)));
}

#[test]
fn test_invalid_login() {
    let auth_service = AuthService::new("test-secret-key");

    let login_request = LoginRequest { username: "nonexistent".to_string(), password: "password".to_string() };

    let result = auth_service.login(login_request);
    assert!(matches!(result, Err(AuthError::InvalidCredentials)));
}

#[test]
fn test_create_admin_user() {
    let mut auth_service = AuthService::new("test-secret-key");

    auth_service.create_admin_user("admin", "admin@example.com", "adminpass").unwrap();

    let login_request = LoginRequest { username: "admin".to_string(), password: "adminpass".to_string() };

    let login_response = auth_service.login(login_request).unwrap();
    assert_eq!(login_response.user.role, UserRole::Admin);
}

#[test]
fn wrong_password_and_bad_token_are_refused() {
    let mut auth_service = AuthService::new("k");
    auth_service
        .register(RegisterRequest { username: "u".to_string(), email: "e".to_string(), password: "p".to_string() })
        .unwrap();
    let bad = auth_service.login(LoginRequest { username: "u".to_string(), password: "q".to_string() });
    assert!(matches!(bad, Err(AuthError::InvalidCredentials)));
    assert!(matches!(auth_service.validate_token("not a token"), Err(AuthError::InvalidToken)));
    assert_eq!(AuthError::UserAlreadyExists.message(), "User already exists");
}

#[test]
fn store_config_names_the_store() {
    let memory = StoreConfig { store_type: "Memory".to_string(), path: None, create: None };
    assert_eq!(memory.to_store_type(None), Ok(StoreType::Memory));
    let local = StoreConfig { store_type: "Local".to_string(), path: Some("~/db".to_string()), create: None };
    assert_eq!(local.to_store_type(Some("/home/me")), Ok(StoreType::Local("/home/me/db".to_string())));
    assert_eq!(local.to_store_type(None), Ok(StoreType::Local("~/db".to_string())));
    let missing = StoreConfig { store_type: "Local".to_string(), path: None, create: None };
    assert_eq!(missing.to_store_type(None), Err("Local store requires path parameter".to_string()));
    let other = StoreConfig { store_type: "Json".to_string(), path: None, create: None };
    assert_eq!(other.to_store_type(None), Err("Unknown store type: Json".to_string()));
    assert_eq!(StoreConfig::expand_path("/abs/~/x", Some("/h")), "/abs/~/x");
    let c = Config::default();
    assert_eq!(c.listen, "localhost:8080");
    assert_eq!(c.front_type, FrontType::Grpc);
}

#[test]
fn http_answers_carry_a_status() {
    let (base, v) = answer::<u64>(Ok(5));
    assert_eq!(base.status, 0);
    assert_eq!(base.text, "Ok");
    assert_eq!(v, Some(5));
    let (base, v) = answer::<u64>(Err("bad".to_string()));
    assert_eq!(base.status, 1);
    assert_eq!(base.text, "bad");
    assert_eq!(v, None);
}

#[test]
fn token_claims_name_the_user() {
    let mut auth_service = AuthService::new("k");
    let resp = auth_service
        .register(RegisterRequest { username: "ann".to_string(), email: "a@x".to_string(), password: "pw".to_string() })
        .unwrap();
    let claims = auth_service.validate_token(&resp.access_token).unwrap();
    assert_eq!(claims.sub, uuid::Uuid::from_u128(resp.user.id).to_string());
    assert_eq!(claims.iss, "timesman-server");
    assert_eq!(claims.exp, claims.iat + 24 * 3600);
    assert_eq!(resp.token_type, "Bearer");
    assert_eq!(resp.expires_in, 24 * 3600);
    let other = AuthService::new("other secret");
    assert!(matches!(other.validate_token(&resp.access_token), Err(AuthError::InvalidToken)));
}

fn claims_object(role: &str, exp: u64) -> serde_json::Map<String, serde_json::Value> {
    let mut m = serde_json::Map::new();
    m.insert("sub".to_string(), serde_json::Value::String("id".to_string()));
    m.insert("username".to_string(), serde_json::Value::String("ann".to_string()));
    m.insert("role".to_string(), serde_json::Value::String(role.to_string()));
    m.insert("exp".to_string(), serde_json::Value::from(exp));
    m.insert("iat".to_string(), serde_json::Value::from(100u64));
    m.insert("iss".to_string(), serde_json::Value::String("timesman-server".to_string()));
    m
}

#[test]
fn decoded_claims_are_checked() {
    let c = claims_from_decoded(Ok(claims_object("Admin", 500)), 400).unwrap();
    assert_eq!(c.sub, "id");
    assert_eq!(c.username, "ann");
    assert_eq!(c.role, UserRole::Admin);
    assert_eq!(c.exp, 500);
    assert_eq!(c.iat, 100);
    assert_eq!(c.iss, "timesman-server");
    assert_eq!(claims_from_decoded(Ok(claims_object("User", 500)), 500).unwrap().role, UserRole::User);
    assert_eq!(claims_from_decoded(Ok(claims_object("User", 500)), 501), Err(AuthError::TokenExpired));
    assert_eq!(claims_from_decoded(Ok(claims_object("Guest", 500)), 400), Err(AuthError::InvalidToken));
    let mut missing = claims_object("User", 500);
    missing.remove("iss");
    assert_eq!(claims_from_decoded(Ok(missing), 400), Err(AuthError::InvalidToken));
    let mut textual = claims_object("User", 500);
    textual.insert("exp".to_string(), serde_json::Value::String("500".to_string()));
    assert_eq!(claims_from_decoded(Ok(textual), 400), Err(AuthError::InvalidToken));
    assert_eq!(claims_from_decoded(Err("bad signature".to_string()), 400), Err(AuthError::InvalidToken));
}

#[test]
fn register_and_admin_succeed_for_free_names() {
    let mut auth_service = AuthService::new("s");
    let resp = auth_service
        .register(RegisterRequest { username: "bo".to_string(), email: "b@x".to_string(), password: "".to_string() })
        .unwrap();
    assert_eq!(resp.user.role, UserRole::User);
    let login = auth_service.login(LoginRequest { username: "bo".to_string(), password: "".to_string() }).unwrap();
    assert_eq!(login.user.id, resp.user.id);
    assert_eq!(login.token_type, "Bearer");
    assert_eq!(auth_service.create_admin_user("root", "r@x", "pw"), Ok(()));
    assert_eq!(auth_service.create_admin_user("root", "r@x", "pw"), Err(AuthError::UserAlreadyExists));
    assert_eq!(auth_service.create_admin_user("bo", "r@x", "pw"), Err(AuthError::UserAlreadyExists));
    let admin = auth_service.login(LoginRequest { username: "root".to_string(), password: "pw".to_string() }).unwrap();
    assert_eq!(admin.user.role, UserRole::Admin);
    let claims = auth_service.validate_token(&admin.access_token).unwrap();
    assert_eq!(claims.username, "root");
    assert_eq!(claims.role, UserRole::Admin);
}

#[test]
fn unreadable_messages_are_refused() {
    let mut server = setup_test_server();
    let tid = create_test_times(&mut server);
    let good = grpc::Timestamp { seconds: 100, nanos: 0 };
    let bad = grpc::Timestamp { seconds: i64::MAX, nanos: 0 };
    let r = server.update_times_checked(grpc::Times { id: tid, title: "x".to_string(), created_at: Some(bad), updated_at: None });
    assert_eq!(r.unwrap_err().message, "Invalid timestamp");
    let r = server.update_times_checked(grpc::Times { id: tid, title: "x".to_string(), created_at: None, updated_at: None });
    assert_eq!(r.unwrap_err().code(), Code::InvalidArgument);
    let r = server.update_times_checked(grpc::Times { id: tid, title: "renamed".to_string(), created_at: Some(good), updated_at: None });
    assert_eq!(r.unwrap().title, "renamed");

    let p = server.create_post(grpc::CreatePostPrams { id: tid, text: "hello".to_string() }).unwrap();
    let bad_post = grpc::Post { id: p.id, post: "b".to_string(), created_at: Some(bad), updated_at: None, tagid: None };
    let r = server.update_post_checked(grpc::UpdatePostParam { tid, post: Some(bad_post.clone()) });
    assert_eq!(r.unwrap_err().message, "Invalid timestamp");
    let r = server.update_post_checked(grpc::UpdatePostParam { tid: tid + 1, post: Some(bad_post) });
    assert_eq!(r.unwrap_err().code(), Code::NotFound);
    let good_post = grpc::Post { id: p.id, post: "b".to_string(), created_at: Some(good), updated_at: None, tagid: None };
    let r = server.update_post_checked(grpc::UpdatePostParam { tid, post: Some(good_post) });
    assert_eq!(r.unwrap().post, "b");
}
