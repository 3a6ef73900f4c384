use user_api::{
    start, step, Action, CreateUser, Event, Failure, Method, MetricsCollector, MetricsStats,
    Payload, Reply, StoreError, User,
};

fn alice(id: i32) -> User {
    User {
        id,
        name: "Alice".to_string(),
        email: "a@example.com".to_string(),
        created_at: chrono::NaiveDate::from_ymd_opt(2024, 1, 2)
            .and_then(|d| d.and_hms_opt(3, 4, 5)),
    }
}

fn reply(a: Action) -> Reply {
    match a {
        Action::Respond(r) => r,
        _ => panic!("expected a reply"),
    }
}

fn failed(r: &Reply) -> Failure {
    match r.payload {
        Payload::Failed(f) => f,
        _ => panic!("expected a failure"),
    }
}

#[test]
fn failure_statuses_and_messages() {
    let table = [
        (Failure::InvalidUserId, 400, "Invalid user ID", false),
        (Failure::UserNotFound, 404, "User not found", false),
        (Failure::RouteNotFound, 404, "Not found", false),
        (Failure::PayloadTooLarge, 413, "Payload too large", false),
        (Failure::InvalidJson, 400, "Invalid JSON format", false),
        (Failure::FetchUsersFailed, 500, "Failed to fetch users", true),
        (Failure::DatabaseError, 500, "Database error", true),
        (Failure::CreateUserFailed, 500, "Failed to create user", true),
        (Failure::DeleteUserFailed, 500, "Failed to delete user", true),
    ];
    for (f, status, message, counts) in table {
        assert_eq!(f.status(), status);
        assert_eq!(f.message(), message);
        let r = user_api::failure_reply(f);
        assert_eq!(r.status, status);
        assert_eq!(r.counts_error, counts);
        assert_eq!(failed(&r), f);
    }
}

#[test]
fn missing_user_is_not_found() {
    let mut m = MetricsCollector::new();
    match start(&mut m, Method::Get, "/users/12345") {
        Action::FetchOne(id) => assert_eq!(id, 12345),
        _ => panic!("expected a fetch"),
    }
    let r = reply(step(&mut m, Event::FetchedOne(Err(StoreError::NotFound))));
    assert_eq!(r.status, 404);
    assert_eq!(failed(&r), Failure::UserNotFound);
    assert_eq!(m.get_stats(), MetricsStats { requests: 1, error: 0 });
}

#[test]
fn bad_user_id_answers_400() {
    let mut m = MetricsCollector::new();
    for method in [Method::Get, Method::Delete] {
        let r = reply(start(&mut m, method, "/users/abc"));
        assert_eq!(r.status, 400);
        assert_eq!(failed(&r), Failure::InvalidUserId);
    }
    assert_eq!(m.get_stats(), MetricsStats { requests: 2, error: 0 });
}

#[test]
fn create_then_fetch_round_trip() {
    let mut m = MetricsCollector::new();
    assert!(matches!(start(&mut m, Method::Post, "/users"), Action::ReadBody));
    let input = CreateUser { name: "Alice".to_string(), email: "a@example.com".to_string() };
    let insert = step(&mut m, Event::BodyDecoded(input));
    match &insert {
        Action::Insert(c) => {
            assert_eq!(c.name, "Alice");
            assert_eq!(c.email, "a@example.com");
        }
        _ => panic!("expected an insert"),
    }
    let created = reply(step(&mut m, Event::Inserted(Ok(alice(1)))));
    assert_eq!(created.status, 201);
    let fetched = reply(step(&mut m, Event::FetchedOne(Ok(alice(1)))));
    assert_eq!(fetched.status, 200);
    match (&created.payload, &fetched.payload) {
        (Payload::OneUser(a), Payload::OneUser(b)) => {
            assert_eq!(a.id, 1);
            assert_eq!((a.id, &a.name, &a.email, a.created_at), (b.id, &b.name, &b.email, b.created_at));
            assert!(a.created_at.is_some());
        }
        _ => panic!("expected users"),
    }
}

#[test]
fn delete_twice() {
    let mut m = MetricsCollector::new();
    assert!(matches!(start(&mut m, Method::Delete, "/users/1"), Action::Remove(1)));
    let first = reply(step(&mut m, Event::Removed(Ok(true))));
    assert_eq!(first.status, 204);
    assert!(matches!(first.payload, Payload::Deleted));
    let second = reply(step(&mut m, Event::Removed(Ok(false))));
    assert_eq!(second.status, 404);
    assert_eq!(failed(&second), Failure::UserNotFound);
}

#[test]
fn empty_table_lists_no_users() {
    let mut m = MetricsCollector::new();
    assert!(matches!(start(&mut m, Method::Get, "/users"), Action::FetchAll));
    let r = reply(step(&mut m, Event::FetchedAll(Ok(Vec::new()))));
    assert_eq!(r.status, 200);
    assert!(!r.counts_error);
    match r.payload {
        Payload::Users(us) => assert!(us.is_empty()),
        _ => panic!("expected a list"),
    }
}

#[test]
fn listing_keeps_the_rows() {
    let mut m = MetricsCollector::new();
    let r = reply(step(&mut m, Event::FetchedAll(Ok(vec![alice(1), alice(2)]))));
    match r.payload {
        Payload::Users(us) => assert_eq!(us.iter().map(|u| u.id).collect::<Vec<_>>(), vec![1, 2]),
        _ => panic!("expected a list"),
    }
}

#[test]
fn oversized_and_malformed_bodies() {
    let mut m = MetricsCollector::new();
    let r = reply(step(&mut m, Event::BodyTooLarge));
    assert_eq!(r.status, 413);
    assert_eq!(failed(&r), Failure::PayloadTooLarge);
    let r = reply(step(&mut m, Event::BodyMalformed));
    assert_eq!(r.status, 400);
    assert_eq!(failed(&r), Failure::InvalidJson);
    assert_eq!(m.get_stats().error, 0);
    assert_eq!(user_api::handler::MAX_BODY_BYTES, 65536);
}

#[test]
fn store_failures_count_as_errors() {
    let mut m = MetricsCollector::new();
    let cases = [
        (Event::StoreChecked(false), 503),
        (Event::FetchedAll(Err(StoreError::Failure)), 500),
        (Event::FetchedOne(Err(StoreError::Failure)), 500),
        (Event::Inserted(Err(StoreError::Failure)), 500),
        (Event::Removed(Err(StoreError::Failure)), 500),
    ];
    let mut n: u64 = 0;
    for (e, status) in cases {
        let r = reply(step(&mut m, e));
        assert_eq!(r.status, status);
        assert!(r.counts_error);
        n += 1;
        assert_eq!(m.get_stats().error, n);
    }
}

#[test]
fn health_replies() {
    let mut m = MetricsCollector::new();
    assert!(matches!(start(&mut m, Method::Get, "/health"), Action::CheckStore));
    let ok = reply(step(&mut m, Event::StoreChecked(true)));
    assert_eq!(ok.status, 200);
    assert!(matches!(ok.payload, Payload::Healthy));
    let down = reply(step(&mut m, Event::StoreChecked(false)));
    assert_eq!(down.status, 503);
    assert!(matches!(down.payload, Payload::Unhealthy));
    assert_eq!(m.get_stats(), MetricsStats { requests: 1, error: 1 });
}

#[test]
fn unknown_route_answers_404() {
    let mut m = MetricsCollector::new();
    let r = reply(start(&mut m, Method::Get, "/nothing"));
    assert_eq!(r.status, 404);
    assert_eq!(failed(&r), Failure::RouteNotFound);
    assert!(!r.counts_error);
}

#[test]
fn metrics_after_successes_and_errors() {
    let mut m = MetricsCollector::new();
    // three successful requests
    for _ in 0..3 {
        start(&mut m, Method::Get, "/users");
        step(&mut m, Event::FetchedAll(Ok(Vec::new())));
    }
    // two requests that end in a store failure
    for _ in 0..2 {
        start(&mut m, Method::Get, "/users/1");
        step(&mut m, Event::FetchedOne(Err(StoreError::Failure)));
    }
    let r = reply(start(&mut m, Method::Get, "/metrics"));
    assert_eq!(r.status, 200);
    match r.payload {
        Payload::Stats(s) => assert_eq!(s, MetricsStats { requests: 6, error: 2 }),
        _ => panic!("expected stats"),
    }
}

#[test]
fn counters_start_at_zero_and_count() {
    let mut m = MetricsCollector::new();
    assert_eq!(m.get_stats(), MetricsStats { requests: 0, error: 0 });
    m.record_request();
    m.record_request();
    m.record_error();
    assert_eq!(m.get_stats(), MetricsStats { requests: 2, error: 1 });
}
