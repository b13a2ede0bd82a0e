//! What the SQLite user repository makes of its queries' outcomes. The
//! queries themselves run where the database connection lives; they hand
//! back what they read, or the text of the database error.
use vstd::prelude::*;
use crate::error::{Error, ErrorView};
use crate::models::{User, UserView};
use crate::store::{user_answer, views};
use crate::user_id::{self, hyphenated};

verus! {

/// The error for a lookup whose query found no row for `id`.
pub open spec fn missing_row(id: u128) -> ErrorView {
    ErrorView::NotFound("User "@ + hyphenated(id) + " not found"@)
}

/// The error for a write (`action` is `insert`, `update` or `delete`) that
/// the database refused with the text `detail`.
pub open spec fn write_failed(action: Seq<char>, detail: Seq<char>) -> ErrorView {
    ErrorView::NotFound("Failed to "@ + action + " user: "@ + detail)
}

fn failure(action: &str, detail: String) -> (e: Error)
    ensures
        e@ == write_failed(action@, detail@),
{
    let mut text = "Failed to ".to_owned();
    text.append(action);
    text.append(" user: ");
    text.append(detail.as_str());
    Error::NotFound(text)
}

/// The answer to a lookup of `user_id`: the user that the query read, or
/// `NotFound("User <id> not found")` where it read none (or failed).
pub fn fetched_user(user_id: u128, row: Option<User>) -> (r: Result<User, Error>)
    ensures
        match row {
            Some(u) => r matches Ok(v) && v@ == u@,
            None => r matches Err(e) && e@ == missing_row(user_id),
        },
{
    match row {
        Some(user) => Ok(user),
        None => Err(Error::NotFound(user_id::id_in_text("User ", user_id, " not found"))),
    }
}

/// The answer to a listing: the users read, in the order of the rows, or
/// `NotFound("No users found")` where the query failed.
pub fn fetched_users(rows: Option<Vec<User>>) -> (r: Result<Vec<User>, Error>)
    ensures
        match rows {
            Some(users) => r matches Ok(v) && views(v@) == views(users@),
            None => r matches Err(e) && e@ == ErrorView::NotFound("No users found"@),
        },
{
    match rows {
        Some(users) => Ok(users),
        None => Err(Error::NotFound("No users found".to_owned())),
    }
}

/// The answer to an insertion of `user` (made by `User::from_new_user`):
/// `user` itself, or `NotFound("Failed to insert user: <detail>")` where the
/// database refused it.
pub fn added_user(user: User, refusal: Option<String>) -> (r: Result<User, Error>)
    ensures
        match refusal {
            None => user_answer(r) == Ok::<UserView, ErrorView>(user@),
            Some(detail) => r matches Err(e) && e@ == write_failed("insert"@, detail@),
        },
{
    match refusal {
        None => Ok(user),
        Some(detail) => Err(failure("insert", detail)),
    }
}

/// The answer to an update with `user`: `user` itself, or
/// `NotFound("Failed to update user: <detail>")` where the database refused it.
pub fn updated_user(user: User, refusal: Option<String>) -> (r: Result<User, Error>)
    ensures
        match refusal {
            None => user_answer(r) == Ok::<UserView, ErrorView>(user@),
            Some(detail) => r matches Err(e) && e@ == write_failed("update"@, detail@),
        },
{
    match refusal {
        None => Ok(user),
        Some(detail) => Err(failure("update", detail)),
    }
}

/// The answer to a deletion: done, or
/// `NotFound("Failed to delete user: <detail>")` where the database refused it.
pub fn deleted_user(refusal: Option<String>) -> (r: Result<(), Error>)
    ensures
        match refusal {
            None => r is Ok,
            Some(detail) => r matches Err(e) && e@ == write_failed("delete"@, detail@),
        },
{
    match refusal {
        None => Ok(()),
        Some(detail) => Err(failure("delete", detail)),
    }
}

} // verus!
