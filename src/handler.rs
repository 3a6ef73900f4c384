use vstd::prelude::*;
use vstd::string::StringSliceAdditionalSpecFns;

use crate::metric::{bump, MetricsCollector, MetricsStats};
use crate::model::{CreateUser, StoreError, User};
use crate::path::{i32_of, parse_i32_from, same_bytes, starts_with_bytes};

verus! {

pub const STATUS_OK: u16 = 200;
pub const STATUS_CREATED: u16 = 201;
pub const STATUS_NO_CONTENT: u16 = 204;
pub const STATUS_BAD_REQUEST: u16 = 400;
pub const STATUS_NOT_FOUND: u16 = 404;
pub const STATUS_PAYLOAD_TOO_LARGE: u16 = 413;
pub const STATUS_INTERNAL_ERROR: u16 = 500;
pub const STATUS_UNAVAILABLE: u16 = 503;

/// The largest request body accepted when creating a user, in bytes.
pub const MAX_BODY_BYTES: usize = 65536;

/// How many requests may be processed at once.
pub const MAX_IN_FLIGHT: usize = 100;

/// How long one request may take, in seconds.
pub const REQUEST_TIMEOUT_SECS: u64 = 30;

/// How long shutdown waits for open connections, in seconds.
pub const SHUTDOWN_GRACE_SECS: u64 = 10;

/// The request methods that the service tells apart.
#[derive(Clone, Copy, Debug, PartialEq, Eq, Structural)]
pub enum Method {
    Get,
    Post,
    Delete,
    Other,
}

/// What a request asks for, as read from its method and path.
#[derive(Clone, Copy, Debug, PartialEq, Eq, Structural)]
pub enum Route {
    Health,
    ListUsers,
    GetUser(i32),
    CreateUser,
    DeleteUser(i32),
    Metrics,
    BadUserId,
    Unknown,
}

/// `/health`
pub open spec fn health_path() -> Seq<u8> {
    seq![47u8, 104u8, 101u8, 97u8, 108u8, 116u8, 104u8]
}

/// `/users`
pub open spec fn users_path() -> Seq<u8> {
    seq![47u8, 117u8, 115u8, 101u8, 114u8, 115u8]
}

/// `/users/`, the prefix of a path that names one user.
pub open spec fn user_prefix() -> Seq<u8> {
    users_path().push(47u8)
}

/// `/metrics`
pub open spec fn metrics_path() -> Seq<u8> {
    seq![47u8, 109u8, 101u8, 116u8, 114u8, 105u8, 99u8, 115u8]
}

/// The route of a path under `/users/`: the rest must be an `i32`.
pub open spec fn user_route(p: Seq<u8>, delete: bool) -> Route {
    match i32_of(p.subrange(user_prefix().len() as int, p.len() as int)) {
        Some(id) => if delete {
            Route::DeleteUser(id)
        } else {
            Route::GetUser(id)
        },
        None => Route::BadUserId,
    }
}

/// The route of a request with method `m` and path bytes `p`.
pub open spec fn route_of(m: Method, p: Seq<u8>) -> Route {
    match m {
        Method::Get => if p == health_path() {
            Route::Health
        } else if p == users_path() {
            Route::ListUsers
        } else if user_prefix().is_prefix_of(p) {
            user_route(p, false)
        } else if p == metrics_path() {
            Route::Metrics
        } else {
            Route::Unknown
        },
        Method::Post => if p == users_path() {
            Route::CreateUser
        } else {
            Route::Unknown
        },
        Method::Delete => if user_prefix().is_prefix_of(p) {
            user_route(p, true)
        } else {
            Route::Unknown
        },
        Method::Other => Route::Unknown,
    }
}

/// Reads the route of a request from its method and path.
pub fn route(method: Method, path: &str) -> (r: Route)
    ensures
        r == route_of(method, path.spec_bytes()),
{
    let p = path.as_bytes();
    let health: [u8; 7] = [47u8, 104u8, 101u8, 97u8, 108u8, 116u8, 104u8];
    let users: [u8; 6] = [47u8, 117u8, 115u8, 101u8, 114u8, 115u8];
    let prefix: [u8; 7] = [47u8, 117u8, 115u8, 101u8, 114u8, 115u8, 47u8];
    let metrics: [u8; 8] = [47u8, 109u8, 101u8, 116u8, 114u8, 105u8, 99u8, 115u8];
    assert(health@ == health_path());
    assert(users@ == users_path());
    assert(prefix@ == user_prefix());
    assert(metrics@ == metrics_path());
    match method {
        Method::Get => {
            if same_bytes(p, health.as_slice()) {
                Route::Health
            } else if same_bytes(p, users.as_slice()) {
                Route::ListUsers
            } else if starts_with_bytes(p, prefix.as_slice()) {
                match parse_i32_from(p, 7) {
                    Some(id) => Route::GetUser(id),
                    None => Route::BadUserId,
                }
            } else if same_bytes(p, metrics.as_slice()) {
                Route::Metrics
            } else {
                Route::Unknown
            }
        },
        Method::Post => {
            if same_bytes(p, users.as_slice()) {
                Route::CreateUser
            } else {
                Route::Unknown
            }
        },
        Method::Delete => {
            if starts_with_bytes(p, prefix.as_slice()) {
                match parse_i32_from(p, 7) {
                    Some(id) => Route::DeleteUser(id),
                    None => Route::BadUserId,
                }
            } else {
                Route::Unknown
            }
        },
        Method::Other => Route::Unknown,
    }
}

/// The ways a request can fail, each with its status and message.
#[derive(Clone, Copy, Debug, PartialEq, Eq, Structural)]
pub enum Failure {
    InvalidUserId,
    UserNotFound,
    RouteNotFound,
    PayloadTooLarge,
    InvalidJson,
    FetchUsersFailed,
    DatabaseError,
    CreateUserFailed,
    DeleteUserFailed,
}

impl Failure {
    pub open spec fn status_spec(self) -> u16 {
        match self {
            Failure::InvalidUserId => STATUS_BAD_REQUEST,
            Failure::UserNotFound => STATUS_NOT_FOUND,
            Failure::RouteNotFound => STATUS_NOT_FOUND,
            Failure::PayloadTooLarge => STATUS_PAYLOAD_TOO_LARGE,
            Failure::InvalidJson => STATUS_BAD_REQUEST,
            Failure::FetchUsersFailed => STATUS_INTERNAL_ERROR,
            Failure::DatabaseError => STATUS_INTERNAL_ERROR,
            Failure::CreateUserFailed => STATUS_INTERNAL_ERROR,
            Failure::DeleteUserFailed => STATUS_INTERNAL_ERROR,
        }
    }

    /// Whether the failure comes from the store, and so counts as an error.
    pub open spec fn is_store_failure(self) -> bool {
        match self {
            Failure::FetchUsersFailed => true,
            Failure::DatabaseError => true,
            Failure::CreateUserFailed => true,
            Failure::DeleteUserFailed => true,
            _ => false,
        }
    }

    pub open spec fn message_spec(self) -> Seq<char> {
        match self {
            Failure::InvalidUserId => "Invalid user ID"@,
            Failure::UserNotFound => "User not found"@,
            Failure::RouteNotFound => "Not found"@,
            Failure::PayloadTooLarge => "Payload too large"@,
            Failure::InvalidJson => "Invalid JSON format"@,
            Failure::FetchUsersFailed => "Failed to fetch users"@,
            Failure::DatabaseError => "Database error"@,
            Failure::CreateUserFailed => "Failed to create user"@,
            Failure::DeleteUserFailed => "Failed to delete user"@,
        }
    }

    /// The HTTP status of a reply that reports this failure.
    pub fn status(&self) -> (r: u16)
        ensures
            r == self.status_spec(),
    {
        match self {
            Failure::InvalidUserId => STATUS_BAD_REQUEST,
            Failure::UserNotFound => STATUS_NOT_FOUND,
            Failure::RouteNotFound => STATUS_NOT_FOUND,
            Failure::PayloadTooLarge => STATUS_PAYLOAD_TOO_LARGE,
            Failure::InvalidJson => STATUS_BAD_REQUEST,
            Failure::FetchUsersFailed => STATUS_INTERNAL_ERROR,
            Failure::DatabaseError => STATUS_INTERNAL_ERROR,
            Failure::CreateUserFailed => STATUS_INTERNAL_ERROR,
            Failure::DeleteUserFailed => STATUS_INTERNAL_ERROR,
        }
    }

    /// The text that the reply's `error` field carries.
    pub fn message(&self) -> (r: &'static str)
        ensures
            r@ == self.message_spec(),
    {
        match self {
            Failure::InvalidUserId => "Invalid user ID",
            Failure::UserNotFound => "User not found",
            Failure::RouteNotFound => "Not found",
            Failure::PayloadTooLarge => "Payload too large",
            Failure::InvalidJson => "Invalid JSON format",
            Failure::FetchUsersFailed => "Failed to fetch users",
            Failure::DatabaseError => "Database error",
            Failure::CreateUserFailed => "Failed to create user",
            Failure::DeleteUserFailed => "Failed to delete user",
        }
    }
}

/// What a reply carries, before it is written out as JSON.
pub enum Payload {
    /// `{"status":"healthy","database":"connected"}`
    Healthy,
    /// `{"status":"unhealthy","database":"disconnected"}`
    Unhealthy,
    /// `{"error":"<message>"}`
    Failed(Failure),
    Users(Vec<User>),
    OneUser(User),
    Stats(MetricsStats),
    /// A removed user: the reply has no meaningful body.
    Deleted,
}

/// A reply: its status, what it carries, and whether it counts as an error.
pub struct Reply {
    pub status: u16,
    pub payload: Payload,
    pub counts_error: bool,
}

/// The next thing to do for a request: answer it, or perform one operation
/// on the store or the connection and report back with an `Event`.
pub enum Action {
    Respond(Reply),
    /// Run a trivial query to see whether the store answers.
    CheckStore,
    FetchAll,
    FetchOne(i32),
    /// Read the request body, at most `MAX_BODY_BYTES` of it, and decode it.
    ReadBody,
    Insert(CreateUser),
    Remove(i32),
}

/// What came of the operation that an `Action` asked for.
pub enum Event {
    StoreChecked(bool),
    FetchedAll(Result<Vec<User>, StoreError>),
    FetchedOne(Result<User, StoreError>),
    /// The body was longer than `MAX_BODY_BYTES`, or could not be read.
    BodyTooLarge,
    /// The body was not a JSON object with a `name` and an `email`.
    BodyMalformed,
    BodyDecoded(CreateUser),
    Inserted(Result<User, StoreError>),
    Removed(Result<bool, StoreError>),
}

pub open spec fn reply_spec(status: u16, payload: Payload) -> Reply {
    Reply { status, payload, counts_error: false }
}

pub open spec fn failure_reply_spec(f: Failure) -> Reply {
    Reply { status: f.status_spec(), payload: Payload::Failed(f), counts_error: f.is_store_failure() }
}

/// The action that starts a request on `route`, given the counters once the
/// request itself is counted.
pub open spec fn first_action(route: Route, stats: MetricsStats) -> Action {
    match route {
        Route::Health => Action::CheckStore,
        Route::ListUsers => Action::FetchAll,
        Route::GetUser(id) => Action::FetchOne(id),
        Route::CreateUser => Action::ReadBody,
        Route::DeleteUser(id) => Action::Remove(id),
        Route::Metrics => Action::Respond(reply_spec(STATUS_OK, Payload::Stats(stats))),
        Route::BadUserId => Action::Respond(failure_reply_spec(Failure::InvalidUserId)),
        Route::Unknown => Action::Respond(failure_reply_spec(Failure::RouteNotFound)),
    }
}

/// The action that follows `e`.
pub open spec fn next_action(e: Event) -> Action {
    match e {
        Event::StoreChecked(true) => Action::Respond(
            Reply { status: STATUS_OK, payload: Payload::Healthy, counts_error: false },
        ),
        Event::StoreChecked(false) => Action::Respond(
            Reply { status: STATUS_UNAVAILABLE, payload: Payload::Unhealthy, counts_error: true },
        ),
        Event::FetchedAll(Ok(users)) => Action::Respond(reply_spec(STATUS_OK, Payload::Users(users))),
        Event::FetchedAll(Err(_)) => Action::Respond(failure_reply_spec(Failure::FetchUsersFailed)),
        Event::FetchedOne(Ok(u)) => Action::Respond(reply_spec(STATUS_OK, Payload::OneUser(u))),
        Event::FetchedOne(Err(StoreError::NotFound)) => Action::Respond(
            failure_reply_spec(Failure::UserNotFound),
        ),
        Event::FetchedOne(Err(StoreError::Failure)) => Action::Respond(
            failure_reply_spec(Failure::DatabaseError),
        ),
        Event::BodyTooLarge => Action::Respond(failure_reply_spec(Failure::PayloadTooLarge)),
        Event::BodyMalformed => Action::Respond(failure_reply_spec(Failure::InvalidJson)),
        Event::BodyDecoded(c) => Action::Insert(c),
        Event::Inserted(Ok(u)) => Action::Respond(reply_spec(STATUS_CREATED, Payload::OneUser(u))),
        Event::Inserted(Err(_)) => Action::Respond(failure_reply_spec(Failure::CreateUserFailed)),
        Event::Removed(Ok(true)) => Action::Respond(reply_spec(STATUS_NO_CONTENT, Payload::Deleted)),
        Event::Removed(Ok(false)) => Action::Respond(failure_reply_spec(Failure::UserNotFound)),
        Event::Removed(Err(_)) => Action::Respond(failure_reply_spec(Failure::DeleteUserFailed)),
    }
}

/// The counters once a request has been counted.
pub open spec fn counted_request(s: MetricsStats) -> MetricsStats {
    MetricsStats { requests: bump(s.requests), error: s.error }
}

/// The counters once action `a` is taken: a reply that counts as an error
/// adds one error.
pub open spec fn counted_action(s: MetricsStats, a: Action) -> MetricsStats {
    match a {
        Action::Respond(r) => if r.counts_error {
            MetricsStats { requests: s.requests, error: bump(s.error) }
        } else {
            s
        },
        _ => s,
    }
}

/// A reply that reports `f`.
pub fn failure_reply(f: Failure) -> (r: Reply)
    ensures
        r == failure_reply_spec(f),
{
    let counts_error = match f {
        Failure::FetchUsersFailed | Failure::DatabaseError | Failure::CreateUserFailed
        | Failure::DeleteUserFailed => true,
        _ => false,
    };
    Reply { status: f.status(), payload: Payload::Failed(f), counts_error }
}

/// Counts a new request on `metrics` and says what to do first for it.
pub fn start(metrics: &mut MetricsCollector, method: Method, path: &str) -> (r: Action)
    ensures
        final(metrics)@ == counted_request(old(metrics)@),
        r == first_action(route_of(method, path.spec_bytes()), final(metrics)@),
{
    metrics.record_request();
    match route(method, path) {
        Route::Health => Action::CheckStore,
        Route::ListUsers => Action::FetchAll,
        Route::GetUser(id) => Action::FetchOne(id),
        Route::CreateUser => Action::ReadBody,
        Route::DeleteUser(id) => Action::Remove(id),
        Route::Metrics => Action::Respond(
            Reply { status: STATUS_OK, payload: Payload::Stats(metrics.get_stats()), counts_error: false },
        ),
        Route::BadUserId => Action::Respond(failure_reply(Failure::InvalidUserId)),
        Route::Unknown => Action::Respond(failure_reply(Failure::RouteNotFound)),
    }
}

/// Says what to do after `event`, and counts an error on `metrics` where the
/// reply reports a store failure.
pub fn step(metrics: &mut MetricsCollector, event: Event) -> (r: Action)
    ensures
        r == next_action(event),
        final(metrics)@ == counted_action(old(metrics)@, r),
{
    let r = match event {
        Event::StoreChecked(ok) => {
            if ok {
                Action::Respond(Reply { status: STATUS_OK, payload: Payload::Healthy, counts_error: false })
            } else {
                Action::Respond(
                    Reply { status: STATUS_UNAVAILABLE, payload: Payload::Unhealthy, counts_error: true },
                )
            }
        },
        Event::FetchedAll(Ok(users)) => Action::Respond(
            Reply { status: STATUS_OK, payload: Payload::Users(users), counts_error: false },
        ),
        Event::FetchedAll(Err(_)) => Action::Respond(failure_reply(Failure::FetchUsersFailed)),
        Event::FetchedOne(Ok(u)) => Action::Respond(
            Reply { status: STATUS_OK, payload: Payload::OneUser(u), counts_error: false },
        ),
        Event::FetchedOne(Err(StoreError::NotFound)) => Action::Respond(
            failure_reply(Failure::UserNotFound),
        ),
        Event::FetchedOne(Err(StoreError::Failure)) => Action::Respond(
            failure_reply(Failure::DatabaseError),
        ),
        Event::BodyTooLarge => Action::Respond(failure_reply(Failure::PayloadTooLarge)),
        Event::BodyMalformed => Action::Respond(failure_reply(Failure::InvalidJson)),
        Event::BodyDecoded(c) => Action::Insert(c),
        Event::Inserted(Ok(u)) => Action::Respond(
            Reply { status: STATUS_CREATED, payload: Payload::OneUser(u), counts_error: false },
        ),
        Event::Inserted(Err(_)) => Action::Respond(failure_reply(Failure::CreateUserFailed)),
        Event::Removed(Ok(removed)) => {
            if removed {
                Action::Respond(
                    Reply { status: STATUS_NO_CONTENT, payload: Payload::Deleted, counts_error: false },
                )
            } else {
                Action::Respond(failure_reply(Failure::UserNotFound))
            }
        },
        Event::Removed(Err(_)) => Action::Respond(failure_reply(Failure::DeleteUserFailed)),
    };
    let counts = match &r {
        Action::Respond(reply) => reply.counts_error,
        _ => false,
    };
    if counts {
        metrics.record_error();
    }
    r
}

} // verus!
