use user_api::path::{parse_i32, same_bytes, starts_with_bytes};
use user_api::{route, Method, Route};

#[test]
fn routes_fixed_paths() {
    assert_eq!(route(Method::Get, "/health"), Route::Health);
    assert_eq!(route(Method::Get, "/users"), Route::ListUsers);
    assert_eq!(route(Method::Post, "/users"), Route::CreateUser);
    assert_eq!(route(Method::Get, "/metrics"), Route::Metrics);
}

#[test]
fn routes_user_ids() {
    assert_eq!(route(Method::Get, "/users/42"), Route::GetUser(42));
    assert_eq!(route(Method::Delete, "/users/7"), Route::DeleteUser(7));
    assert_eq!(route(Method::Get, "/users/-3"), Route::GetUser(-3));
    assert_eq!(route(Method::Get, "/users/+8"), Route::GetUser(8));
}

#[test]
fn non_numeric_ids_are_rejected() {
    for x in ["abc", "", "12a", "-", "+", " 1", "1.5", "2147483648", "/users/1"] {
        let path = format!("/users/{}", x);
        assert_eq!(route(Method::Get, &path), Route::BadUserId, "GET {}", path);
        assert_eq!(route(Method::Delete, &path), Route::BadUserId, "DELETE {}", path);
    }
}

#[test]
fn unknown_routes() {
    assert_eq!(route(Method::Post, "/health"), Route::Unknown);
    assert_eq!(route(Method::Delete, "/users"), Route::Unknown);
    assert_eq!(route(Method::Other, "/users"), Route::Unknown);
    assert_eq!(route(Method::Get, "/"), Route::Unknown);
    assert_eq!(route(Method::Get, "/healthz"), Route::Unknown);
    assert_eq!(route(Method::Post, "/users/1"), Route::Unknown);
    assert_eq!(route(Method::Get, "/metrics/"), Route::Unknown);
}

#[test]
fn parses_i32_like_std() {
    let cases = [
        "0", "7", "-7", "+7", "007", "2147483647", "-2147483648", "2147483648",
        "-2147483649", "99999999999999999999", "", "-", "+", "--1", "1-", "a", "１",
    ];
    for s in cases {
        assert_eq!(parse_i32(s.as_bytes()), s.parse::<i32>().ok(), "{:?}", s);
    }
    assert_eq!(parse_i32(b"2147483647"), Some(i32::MAX));
    assert_eq!(parse_i32(b"-2147483648"), Some(i32::MIN));
    assert_eq!(parse_i32(b"2147483648"), None);
}

#[test]
fn byte_comparisons() {
    assert!(same_bytes(b"abc", b"abc"));
    assert!(!same_bytes(b"abc", b"abd"));
    assert!(!same_bytes(b"abc", b"ab"));
    assert!(starts_with_bytes(b"abc", b"ab"));
    assert!(starts_with_bytes(b"abc", b""));
    assert!(!starts_with_bytes(b"ab", b"abc"));
    assert!(!starts_with_bytes(b"abc", b"b"));
}
