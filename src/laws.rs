//! Properties that hold across routing, the store's operations and the
//! counters, proved from the contracts of the functions involved.

use vstd::prelude::*;

use crate::handler::{
    counted_action, counted_request, failure_reply_spec, first_action, next_action, reply_spec,
    route_of, user_prefix, Action, Event, Failure, Method, Payload, Reply, Route, STATUS_CREATED,
    STATUS_NO_CONTENT, STATUS_OK,
};
use crate::metric::MetricsStats;
use crate::model::{after_delete, after_insert, delete_outcome, fetch_one, CreateUser, Table, User};
use crate::path::i32_of;

verus! {

proof fn lemma_user_path_shape(seg: Seq<u8>)
    ensures
        ({
            let p = user_prefix() + seg;
            &&& user_prefix().is_prefix_of(p)
            &&& p.subrange(user_prefix().len() as int, p.len() as int) == seg
            &&& p != crate::handler::health_path()
            &&& p != crate::handler::users_path()
            &&& p != crate::handler::metrics_path()
        }),
{
    let p = user_prefix() + seg;
    assert(p.subrange(0, user_prefix().len() as int) == user_prefix());
    assert(p.subrange(user_prefix().len() as int, p.len() as int) == seg);
    assert(p[1] == 117u8);
    assert(crate::handler::health_path()[1] == 104u8);
    assert(crate::handler::metrics_path()[1] == 109u8);
    assert(p.len() >= 7);
}

/// A GET of `/users/<id>`, where `<id>` is an `i32` that the table does not
/// hold, fetches that id and answers 404 with "User not found".
pub proof fn law_missing_user_not_found(t: Table, seg: Seq<u8>, id: i32, s: MetricsStats)
    requires
        i32_of(seg) == Some(id),
        !t.contains_key(id),
    ensures
        first_action(route_of(Method::Get, user_prefix() + seg), s) == Action::FetchOne(id),
        next_action(Event::FetchedOne(fetch_one(t, id))) == Action::Respond(
            failure_reply_spec(Failure::UserNotFound),
        ),
        failure_reply_spec(Failure::UserNotFound).status == 404,
        Failure::UserNotFound.message_spec() == "User not found"@,
{
    lemma_user_path_shape(seg);
}

/// A GET or a DELETE of `/users/<x>`, where `<x>` is not an `i32`, answers
/// 400 with "Invalid user ID" and touches no store.
pub proof fn law_bad_user_id(seg: Seq<u8>, s: MetricsStats)
    requires
        i32_of(seg) is None,
    ensures
        route_of(Method::Get, user_prefix() + seg) == Route::BadUserId,
        route_of(Method::Delete, user_prefix() + seg) == Route::BadUserId,
        first_action(Route::BadUserId, s) == Action::Respond(
            failure_reply_spec(Failure::InvalidUserId),
        ),
        failure_reply_spec(Failure::InvalidUserId).status == 400,
        Failure::InvalidUserId.message_spec() == "Invalid user ID"@,
{
    lemma_user_path_shape(seg);
}

/// Creating a user hands the decoded input to the store and answers 201 with
/// the stored row; fetching that row's id afterwards answers 200 with the
/// same row.
pub proof fn law_create_then_fetch(t: Table, input: CreateUser, u: User)
    ensures
        next_action(Event::BodyDecoded(input)) == Action::Insert(input),
        next_action(Event::Inserted(Ok(u))) == Action::Respond(
            reply_spec(STATUS_CREATED, Payload::OneUser(u)),
        ),
        next_action(Event::FetchedOne(fetch_one(after_insert(t, u), u.id))) == Action::Respond(
            reply_spec(STATUS_OK, Payload::OneUser(u)),
        ),
{
}

/// Deleting a user that exists answers 204; deleting it again answers 404.
pub proof fn law_delete_twice(t: Table, id: i32)
    requires
        t.contains_key(id),
    ensures
        next_action(Event::Removed(delete_outcome(t, id))) == Action::Respond(
            reply_spec(STATUS_NO_CONTENT, Payload::Deleted),
        ),
        next_action(Event::Removed(delete_outcome(after_delete(t, id), id))) == Action::Respond(
            failure_reply_spec(Failure::UserNotFound),
        ),
{
}

/// An oversized body answers 413 and a malformed one 400, with no store
/// operation asked for and no error counted.
pub proof fn law_body_rejected_before_store()
    ensures
        next_action(Event::BodyTooLarge) == Action::Respond(
            failure_reply_spec(Failure::PayloadTooLarge),
        ),
        failure_reply_spec(Failure::PayloadTooLarge).status == 413,
        !failure_reply_spec(Failure::PayloadTooLarge).counts_error,
        next_action(Event::BodyMalformed) == Action::Respond(
            failure_reply_spec(Failure::InvalidJson),
        ),
        failure_reply_spec(Failure::InvalidJson).status == 400,
        !failure_reply_spec(Failure::InvalidJson).counts_error,
{
}

/// The counters after one request that ended with reply `r`.
pub open spec fn served(s: MetricsStats, r: Reply) -> MetricsStats {
    counted_action(counted_request(s), Action::Respond(r))
}

/// The counters after requests that ended with `replies`, in order.
pub open spec fn served_all(s: MetricsStats, replies: Seq<Reply>) -> MetricsStats
    decreases replies.len(),
{
    if replies.len() == 0 {
        s
    } else {
        served(served_all(s, replies.drop_last()), replies.last())
    }
}

/// How many of `replies` count as errors.
pub open spec fn errors_in(replies: Seq<Reply>) -> nat
    decreases replies.len(),
{
    if replies.len() == 0 {
        0
    } else {
        errors_in(replies.drop_last()) + if replies.last().counts_error {
            1nat
        } else {
            0nat
        }
    }
}

proof fn lemma_served_all_counts(replies: Seq<Reply>)
    requires
        replies.len() < u64::MAX,
    ensures
        served_all(MetricsStats { requests: 0, error: 0 }, replies) == (MetricsStats {
            requests: replies.len() as u64,
            error: errors_in(replies) as u64,
        }),
        errors_in(replies) <= replies.len(),
    decreases replies.len(),
{
    if replies.len() > 0 {
        lemma_served_all_counts(replies.drop_last());
    }
}

/// From fresh counters, after requests that ended with `replies`, a request
/// for the metrics answers 200 with one more request than `replies` holds
/// (it counts itself) and as many errors as those replies that count as one.
pub proof fn law_metrics_after_requests(replies: Seq<Reply>)
    requires
        replies.len() + 1 < u64::MAX,
    ensures
        first_action(
            Route::Metrics,
            counted_request(served_all(MetricsStats { requests: 0, error: 0 }, replies)),
        ) == Action::Respond(
            reply_spec(
                STATUS_OK,
                Payload::Stats(
                    MetricsStats {
                        requests: (replies.len() + 1) as u64,
                        error: errors_in(replies) as u64,
                    },
                ),
            ),
        ),
{
    lemma_served_all_counts(replies);
}

} // verus!
