//! What the HTTP handlers decide: how a path id is read, how a payload
//! becomes the user to update, and which status and body answer an outcome.
use vstd::prelude::*;
use crate::error::{status_of, text_of, Error, ErrorView};
use crate::models::{NewUser, User, UserView, user_with_id};
use crate::store::{delete_answer, fetched, unit_answer, update_answer, user_answer, views};
use crate::user_id::{self, has_uuid_length, hyphenated, uuid_parse};

verus! {

/// The body of a reply.
pub enum ReplyBody {
    /// A JSON array of users.
    Users(Vec<User>),
    /// A JSON user.
    User(User),
    /// Plain text.
    Text(String),
    /// No body.
    Empty,
}

/// A reply: an HTTP status code and a body.
pub struct Reply {
    pub status: u16,
    pub body: ReplyBody,
}

/// A reply body as mathematical values.
pub enum ReplyBodyView {
    Users(Seq<UserView>),
    User(UserView),
    Text(Seq<char>),
    Empty,
}

/// A reply as mathematical values.
pub struct ReplyView {
    pub status: u16,
    pub body: ReplyBodyView,
}

impl View for Reply {
    type V = ReplyView;

    open spec fn view(&self) -> ReplyView {
        ReplyView {
            status: self.status,
            body: match &self.body {
                ReplyBody::Users(users) => ReplyBodyView::Users(views(users@)),
                ReplyBody::User(user) => ReplyBodyView::User(user@),
                ReplyBody::Text(text) => ReplyBodyView::Text(text@),
                ReplyBody::Empty => ReplyBodyView::Empty,
            },
        }
    }
}

/// The reply to an error: its status code and its text.
pub open spec fn error_reply(e: ErrorView) -> ReplyView {
    ReplyView { status: status_of(e), body: ReplyBodyView::Text(text_of(e)) }
}

/// The reply to an outcome that carries a user: `status` with the user, or the error's reply.
pub open spec fn user_reply_view(outcome: Result<UserView, ErrorView>, status: u16) -> ReplyView {
    match outcome {
        Ok(u) => ReplyView { status: status, body: ReplyBodyView::User(u) },
        Err(e) => error_reply(e),
    }
}

/// The reply to an outcome that carries nothing: 204 with no body, or the error's reply.
pub open spec fn deleted_reply_view(outcome: Result<(), ErrorView>) -> ReplyView {
    match outcome {
        Ok(()) => ReplyView { status: 204, body: ReplyBodyView::Empty },
        Err(e) => error_reply(e),
    }
}

/// The error for a path id that is not a UUID.
pub open spec fn invalid_id() -> ErrorView {
    ErrorView::InvalidInput("Invalid UUID format"@)
}

impl Error {
    /// The reply that carries this error: its status code and its text.
    pub fn into_reply(self) -> (reply: Reply)
        ensures
            reply@ == error_reply(self@),
    {
        let status = self.status_code();
        let text = self.to_string();
        Reply { status, body: ReplyBody::Text(text) }
    }
}

/// Reads the id in a request path: the UUID it spells, or
/// `InvalidInput("Invalid UUID format")`.
pub fn parse_user_id(user_id: &str) -> (r: Result<u128, Error>)
    ensures
        match uuid_parse(user_id@) {
            Some(id) => r matches Ok(v) && v == id,
            None => r matches Err(e) && e@ == invalid_id(),
        },
        forall|id: u128| user_id@ == hyphenated(id) ==> (r matches Ok(v) && v == id),
        !has_uuid_length(user_id@) ==> (r matches Err(e) && e@ == invalid_id()),
{
    match user_id::parse_uuid(user_id) {
        Some(id) => Ok(id),
        None => Err(Error::InvalidInput("Invalid UUID format".to_owned())),
    }
}

/// The user that an update request asks for: the id of the path with the
/// names and email of the payload; the path's error where it is no UUID.
pub fn update_request(user_id: &str, payload: NewUser) -> (r: Result<User, Error>)
    ensures
        match uuid_parse(user_id@) {
            Some(id) => r matches Ok(u) && u@ == user_with_id(id, payload@),
            None => r matches Err(e) && e@ == invalid_id(),
        },
        forall|id: u128|
            user_id@ == hyphenated(id) ==> (r matches Ok(u) && u@ == user_with_id(id, payload@)),
        !has_uuid_length(user_id@) ==> (r matches Err(e) && e@ == invalid_id()),
{
    let id = parse_user_id(user_id)?;
    Ok(User::with_id(id, payload))
}

/// The reply to a listing: 200 with the users, or the error's reply.
pub fn users_reply(outcome: Result<Vec<User>, Error>) -> (reply: Reply)
    ensures
        match outcome {
            Ok(users) => reply@ == ReplyView {
                status: 200,
                body: ReplyBodyView::Users(views(users@)),
            },
            Err(e) => reply@ == error_reply(e@),
        },
{
    match outcome {
        Ok(users) => Reply { status: 200, body: ReplyBody::Users(users) },
        Err(e) => e.into_reply(),
    }
}

/// The reply to a lookup or an update: 200 with the user, or the error's reply.
pub fn user_reply(outcome: Result<User, Error>) -> (reply: Reply)
    ensures
        reply@ == user_reply_view(user_answer(outcome), 200),
        outcome matches Ok(u) ==> reply.status == 200 && (reply.body matches ReplyBody::User(v)
            && v@ == u@),
        outcome matches Err(e) ==> (e is NotFound ==> reply.status == 404) && (e is InvalidInput
            ==> reply.status == 400) && (e is InternalServerError ==> reply.status == 500),
{
    match outcome {
        Ok(user) => Reply { status: 200, body: ReplyBody::User(user) },
        Err(e) => e.into_reply(),
    }
}

/// The reply to a creation: 201 with the new user, or the error's reply.
pub fn created_reply(outcome: Result<User, Error>) -> (reply: Reply)
    ensures
        reply@ == user_reply_view(user_answer(outcome), 201),
        outcome matches Ok(u) ==> reply.status == 201 && (reply.body matches ReplyBody::User(v)
            && v@ == u@),
        outcome matches Err(e) ==> (e is NotFound ==> reply.status == 404) && (e is InvalidInput
            ==> reply.status == 400) && (e is InternalServerError ==> reply.status == 500),
{
    match outcome {
        Ok(user) => Reply { status: 201, body: ReplyBody::User(user) },
        Err(e) => e.into_reply(),
    }
}

/// The reply to a deletion: 204 with no body, or the error's reply.
pub fn deleted_reply(outcome: Result<(), Error>) -> (reply: Reply)
    ensures
        reply@ == deleted_reply_view(unit_answer(outcome)),
        outcome is Ok ==> reply.status == 204 && reply.body is Empty,
        outcome matches Err(e) ==> (e is NotFound ==> reply.status == 404) && (e is InvalidInput
            ==> reply.status == 400) && (e is InternalServerError ==> reply.status == 500),
{
    match outcome {
        Ok(()) => Reply { status: 204, body: ReplyBody::Empty },
        Err(e) => e.into_reply(),
    }
}

/// Every error is answered with 400, 404 or 500.
pub proof fn law_error_statuses(e: ErrorView)
    ensures
        error_reply(e).status == 400 || error_reply(e).status == 404 || error_reply(e).status
            == 500,
        e is InvalidInput ==> error_reply(e).status == 400,
        e is NotFound ==> error_reply(e).status == 404,
        e is InternalServerError ==> error_reply(e).status == 500,
{
}

/// A lookup, an update or a deletion in a store that refuses unknown ids with
/// `NotFound` is answered 404 exactly when the id is not stored; otherwise
/// 200 with the stored (lookup) or new (update) user, or 204 (deletion).
pub proof fn law_replies_follow_the_store(
    m: Map<u128, UserView>,
    id: u128,
    user: UserView,
    missing: ErrorView,
)
    requires
        missing is NotFound,
    ensures
        user_reply_view(fetched(m, id, missing), 200) == (if m.contains_key(id) {
            ReplyView { status: 200, body: ReplyBodyView::User(m[id]) }
        } else {
            error_reply(missing)
        }),
        user_reply_view(update_answer(m, user, missing), 200).status == (if m.contains_key(user.id) {
            200u16
        } else {
            404u16
        }),
        deleted_reply_view(delete_answer(m, id, missing)).status == (if m.contains_key(id) {
            204u16
        } else {
            404u16
        }),
{
}

} // verus!
