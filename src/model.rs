use vstd::prelude::*;

verus! {

/// chrono's `NaiveDateTime`, declared so that a row's creation time can be
/// carried through as an opaque value; nothing here reads inside it.
#[verifier::external_type_specification]
#[verifier::external_body]
pub struct ExNaiveDateTime(chrono::NaiveDateTime);

/// A stored user: the id and the timestamp are assigned by the store.
pub struct User {
    pub id: i32,
    pub name: String,
    pub email: String,
    pub created_at: Option<chrono::NaiveDateTime>,
}

/// The fields a client sends to create a user.
pub struct CreateUser {
    pub name: String,
    pub email: String,
}

/// How a store operation failed: no row matched, or anything else
/// (connectivity, a query error, a violated constraint).
#[derive(Clone, Copy, Debug, PartialEq, Eq, Structural)]
pub enum StoreError {
    NotFound,
    Failure,
}

/// The users table as a map from id to row.
pub type Table = Map<i32, User>;

/// What fetching one user from `t` gives.
pub open spec fn fetch_one(t: Table, id: i32) -> Result<User, StoreError> {
    if t.contains_key(id) {
        Ok(t[id])
    } else {
        Err(StoreError::NotFound)
    }
}

/// The table after deleting the row with `id`.
pub open spec fn after_delete(t: Table, id: i32) -> Table {
    t.remove(id)
}

/// What deleting the row with `id` from `t` reports: whether a row went.
pub open spec fn delete_outcome(t: Table, id: i32) -> Result<bool, StoreError> {
    Ok(t.contains_key(id))
}

/// The table after the store kept `u`, a row it returned from an insert.
pub open spec fn after_insert(t: Table, u: User) -> Table {
    t.insert(u.id, u)
}

} // verus!
