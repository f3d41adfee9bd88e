use todo_api::config::{parse_port, Config, ConfigError};
use todo_api::error::AppError;
use todo_api::handler::{
    create_todo, created_reply, delete_todo, deleted_reply, found_reply, get_todo, get_todos,
    health_check, id_from_parsed, listed_reply, parse_todo_id, update_todo,
};
use todo_api::model::{CreateTodo, PaginationQuery, Todo};
use todo_api::response::ApiResponse;
use todo_api::store::TodoStore;

const ID_A: u128 = 0x550e8400_e29b_41d4_a716_446655440000;
const ID_B: u128 = 0x550e8400_e29b_41d4_a716_446655440001;
const ID_C: u128 = 0x550e8400_e29b_41d4_a716_446655440002;

fn body(title: &str, completed: Option<bool>) -> CreateTodo {
    CreateTodo::new(title.to_string(), completed)
}

fn assert_error(status: u16, resp: &ApiResponse<impl Sized>, want_status: u16, msg: &str) {
    assert_eq!(status, want_status);
    assert_eq!(resp.status, "error");
    assert!(resp.data.is_none());
    assert_eq!(resp.error.as_deref(), Some(msg));
}

#[test]
fn envelope_success_and_error() {
    let s = ApiResponse::success(7u32);
    assert_eq!(s.status, "success");
    assert_eq!(s.data, Some(7));
    assert!(s.error.is_none());
    let e = ApiResponse::<u32>::error("boom");
    assert_eq!(e.status, "error");
    assert!(e.data.is_none());
    assert_eq!(e.error.as_deref(), Some("boom"));
}

#[test]
fn health_check_reports_healthy() {
    let r = health_check();
    assert_eq!(r.status, 200);
    assert_eq!(r.body.status, "success");
    assert_eq!(r.body.data.as_deref(), Some("Service is healthy"));
}

#[test]
fn error_mapping() {
    let cases = vec![
        (AppError::Database("connection reset".to_string()), 500, "Database error occurred"),
        (AppError::NotFound, 404, "Resource not found"),
        (AppError::ValidationError("bad title".to_string()), 400, "bad title"),
        (AppError::InternalError("oops".to_string()), 500, "Internal server error"),
    ];
    for (e, status, msg) in cases {
        let r = e.into_reply::<Todo>();
        assert_error(r.status, &r.body, status, msg);
    }
}

#[test]
fn create_defaults_completed_and_stamps() {
    let mut store = TodoStore::new();
    let r = create_todo(&mut store, body("Buy milk", None), ID_A, 1_000);
    assert_eq!(r.status, 201);
    let t = r.body.data.unwrap();
    assert_eq!(t.id, ID_A);
    assert_eq!(t.title, "Buy milk");
    assert!(!t.completed);
    assert_eq!(t.created_at, 1_000);
    assert_eq!(t.updated_at, t.created_at);
    let r2 = create_todo(&mut store, body("Walk dog", Some(true)), ID_B, 1_001);
    assert!(r2.body.data.unwrap().completed);
    assert_eq!(store.len(), 2);
}

#[test]
fn create_with_taken_id_is_store_error() {
    let mut store = TodoStore::new();
    create_todo(&mut store, body("a", None), ID_A, 1);
    let r = create_todo(&mut store, body("b", None), ID_A, 2);
    assert_error(r.status, &r.body, 500, "Database error occurred");
    assert_eq!(store.len(), 1);
}

#[test]
fn missing_ids_give_not_found() {
    let mut store = TodoStore::new();
    create_todo(&mut store, body("a", None), ID_A, 1);
    let g = get_todo(&store, ID_B);
    assert_error(g.status, &g.body, 404, "Resource not found");
    let u = update_todo(&mut store, ID_B, body("x", None), 5);
    assert_error(u.status, &u.body, 404, "Resource not found");
    let d = delete_todo(&mut store, ID_B);
    assert_error(d.status, &d.body, 404, "Resource not found");
    assert_eq!(store.len(), 1);
}

#[test]
fn bad_titles_are_rejected() {
    let msg = "Validation failed: title: Title must be between 1 and 255 characters";
    let mut store = TodoStore::new();
    let long = "x".repeat(256);
    for title in ["", long.as_str()] {
        let c = create_todo(&mut store, body(title, None), ID_A, 1);
        assert_error(c.status, &c.body, 400, msg);
    }
    assert_eq!(store.len(), 0);
    create_todo(&mut store, body("ok", None), ID_A, 1);
    for title in ["", long.as_str()] {
        let u = update_todo(&mut store, ID_A, body(title, Some(true)), 2);
        assert_error(u.status, &u.body, 400, msg);
    }
    assert_eq!(get_todo(&store, ID_A).body.data.unwrap().title, "ok");
}

#[test]
fn title_length_counts_characters() {
    let mut store = TodoStore::new();
    let edge = "x".repeat(255);
    assert_eq!(create_todo(&mut store, body(&edge, None), ID_A, 1).status, 201);
    let wide = "é".repeat(255);
    assert_eq!(create_todo(&mut store, body(&wide, None), ID_B, 1).status, 201);
    let one = create_todo(&mut store, body("a", None), ID_C, 1);
    assert_eq!(one.status, 201);
}

#[test]
fn pagination_is_clamped() {
    let q = PaginationQuery::new(None, None);
    assert_eq!((q.page_number(), q.page_size(), q.offset()), (1, 10, 0));
    let q = PaginationQuery::new(Some(0), Some(0));
    assert_eq!((q.page_number(), q.page_size(), q.offset()), (1, 1, 0));
    let q = PaginationQuery::new(Some(3), Some(500));
    assert_eq!((q.page_number(), q.page_size(), q.offset()), (3, 100, 200));
    let q = PaginationQuery::new(Some(u32::MAX), Some(100));
    assert_eq!(q.offset(), (u32::MAX as u64 - 1) * 100);
}

#[test]
fn listing_clamps_like_explicit_bounds() {
    let mut store = TodoStore::new();
    for i in 0..120u32 {
        create_todo(&mut store, body(&format!("t{}", i), None), i as u128 + 1, i as i64);
    }
    let big = get_todos(&store, PaginationQuery::new(Some(1), Some(1000)));
    assert_eq!(big.body.data.unwrap().len(), 100);
    let zero = get_todos(&store, PaginationQuery::new(Some(0), Some(0)));
    let one = get_todos(&store, PaginationQuery::new(Some(1), Some(1)));
    let z: Vec<u128> = zero.body.data.unwrap().iter().map(|t| t.id).collect();
    let o: Vec<u128> = one.body.data.unwrap().iter().map(|t| t.id).collect();
    assert_eq!(z, o);
    assert_eq!(z, vec![120]);
    let past = get_todos(&store, PaginationQuery::new(Some(50), Some(10)));
    assert_eq!(past.status, 200);
    assert!(past.body.data.unwrap().is_empty());
    let second = get_todos(&store, PaginationQuery::new(Some(2), Some(100)));
    assert_eq!(second.body.data.unwrap().len(), 20);
}

#[test]
fn listing_is_newest_first() {
    let mut store = TodoStore::new();
    create_todo(&mut store, body("middle", None), ID_B, 20);
    create_todo(&mut store, body("newest", None), ID_C, 30);
    create_todo(&mut store, body("oldest", None), ID_A, 10);
    let r = get_todos(&store, PaginationQuery::new(None, None));
    assert_eq!(r.status, 200);
    let titles: Vec<String> = r.body.data.unwrap().into_iter().map(|t| t.title).collect();
    assert_eq!(titles, vec!["newest", "middle", "oldest"]);
}

#[test]
fn update_keeps_identity_and_creation() {
    let mut store = TodoStore::new();
    let created = create_todo(&mut store, body("a", None), ID_A, 100).body.data.unwrap();
    let u = update_todo(&mut store, ID_A, body("b", Some(true)), 150);
    assert_eq!(u.status, 200);
    let t = u.body.data.unwrap();
    assert_eq!(t.id, created.id);
    assert_eq!(t.created_at, created.created_at);
    assert_eq!(t.title, "b");
    assert!(t.completed);
    assert_eq!(t.updated_at, 150);
    let back = update_todo(&mut store, ID_A, body("c", None), 120).body.data.unwrap();
    assert_eq!(back.updated_at, 150);
    assert!(!back.completed);
}

#[test]
fn create_then_get_round_trips() {
    let mut store = TodoStore::new();
    let created = create_todo(&mut store, body("round", Some(true)), ID_A, 42).body.data.unwrap();
    let got = get_todo(&store, ID_A);
    assert_eq!(got.status, 200);
    let g = got.body.data.unwrap();
    assert_eq!(
        (g.id, g.title, g.completed, g.created_at, g.updated_at),
        (created.id, created.title, created.completed, created.created_at, created.updated_at)
    );
}

#[test]
fn delete_twice_gives_ok_then_not_found() {
    let mut store = TodoStore::new();
    create_todo(&mut store, body("gone", None), ID_A, 1);
    let first = delete_todo(&mut store, ID_A);
    assert_eq!(first.status, 200);
    assert_eq!(first.body.data.as_deref(), Some("Todo deleted successfully"));
    let second = delete_todo(&mut store, ID_A);
    assert_error(second.status, &second.body, 404, "Resource not found");
}

#[test]
fn buy_milk_scenario() {
    let mut store = TodoStore::new();
    let c = create_todo(&mut store, body("Buy milk", None), ID_A, 1);
    assert_eq!(c.status, 201);
    let id = c.body.data.unwrap().id;
    assert!(!get_todo(&store, id).body.data.unwrap().completed);
    let g = get_todo(&store, id);
    assert_eq!(g.status, 200);
    assert_eq!(g.body.data.unwrap().title, "Buy milk");
    let u = update_todo(&mut store, id, body("Buy milk and eggs", Some(true)), 2);
    assert_eq!(u.status, 200);
    assert!(u.body.data.unwrap().completed);
    assert_eq!(delete_todo(&mut store, id).status, 200);
    assert_eq!(get_todo(&store, id).status, 404);
}

#[test]
fn reply_builders_follow_the_store_outcome() {
    let t = Todo { id: ID_A, title: "x".to_string(), completed: false, created_at: 1, updated_at: 1 };
    assert_eq!(created_reply(Ok(t.clone())).status, 201);
    let e = created_reply(Err(AppError::Database("down".to_string())));
    assert_error(e.status, &e.body, 500, "Database error occurred");
    assert_eq!(listed_reply(Ok(vec![t.clone()])).body.data.unwrap().len(), 1);
    assert_eq!(found_reply(Ok(Some(t))).status, 200);
    assert_eq!(found_reply(Ok(None)).status, 404);
    assert_eq!(deleted_reply(Ok(1)).status, 200);
    assert_eq!(deleted_reply(Ok(0)).status, 404);
    assert_eq!(deleted_reply(Err(AppError::Database("down".to_string()))).status, 500);
}

#[test]
fn todo_ids_parse_as_uuids() {
    assert_eq!(parse_todo_id("550e8400-e29b-41d4-a716-446655440000").unwrap(), ID_A);
    assert_eq!(parse_todo_id("550E8400E29B41D4A716446655440001").unwrap(), ID_B);
    match parse_todo_id("not-a-uuid") {
        Err(AppError::ValidationError(m)) => assert_eq!(m, "Invalid todo id"),
        other => panic!("unexpected {:?}", other),
    }
    assert!(parse_todo_id("").is_err());
    assert_eq!(id_from_parsed(Some(5)).unwrap(), 5);
    assert!(id_from_parsed(None).is_err());
}

#[test]
fn ports_parse_like_u16() {
    assert_eq!(parse_port("8080"), Some(8080));
    assert_eq!(parse_port("+80"), Some(80));
    assert_eq!(parse_port("0"), Some(0));
    assert_eq!(parse_port("65535"), Some(65535));
    assert_eq!(parse_port("65536"), None);
    assert_eq!(parse_port("99999999999"), None);
    assert_eq!(parse_port(""), None);
    assert_eq!(parse_port("+"), None);
    assert_eq!(parse_port("-1"), None);
    assert_eq!(parse_port("80a"), None);
    assert_eq!(parse_port(" 80"), None);
}

#[test]
fn config_from_settings() {
    let c = Config::from_settings(Some("postgres://db".to_string()), None, None).unwrap();
    assert_eq!(c.database_url, "postgres://db");
    assert_eq!(c.server_host, "localhost");
    assert_eq!(c.server_port, 8080);
    let c = Config::from_settings(
        Some("postgres://db".to_string()),
        Some("0.0.0.0".to_string()),
        Some("3000".to_string()),
    )
    .unwrap();
    assert_eq!((c.server_host.as_str(), c.server_port), ("0.0.0.0", 3000));
    let missing = Config::from_settings(None, None, None).unwrap_err();
    assert_eq!(missing, ConfigError::MissingDatabaseUrl);
    assert_eq!(missing.message(), "DATABASE_URL must be set in .env file");
    let bad = Config::from_settings(Some("u".to_string()), None, Some("http".to_string()));
    assert_eq!(bad.unwrap_err().message(), "SERVER_PORT must be a valid number");
}
