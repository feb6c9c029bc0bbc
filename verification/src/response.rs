//! The HTTP answer to each operation: a status and a body.

use crate::service::{ServiceError, ServiceErrorView};
use crate::outcome::seen;
use crate::user::{User, UserView};
use vstd::prelude::*;
use vstd::string::*;

verus! {

/// The operation was carried out.
pub const OK: u16 = 200;

/// No record has the username that was asked for.
pub const NOT_FOUND: u16 = 404;

/// The username is taken.
pub const CONFLICT: u16 = 409;

/// The store failed.
pub const INTERNAL_SERVER_ERROR: u16 = 500;

/// What a response carries.
#[derive(Debug)]
pub enum Body {
    /// Plain text.
    Text(String),
    /// One record, to be sent as a JSON object.
    Record(User),
    /// Records, to be sent as a JSON array.
    Records(Vec<User>),
}

/// What a body is.
pub enum BodyView {
    Text(Seq<char>),
    Record(UserView),
    Records(Seq<UserView>),
}

/// An HTTP response, before it is put on the wire.
#[derive(Debug)]
pub struct Response {
    pub status: u16,
    pub body: Body,
}

/// What a response is.
pub struct ResponseView {
    pub status: u16,
    pub body: BodyView,
}

impl DeepView for Body {
    type V = BodyView;

    open spec fn deep_view(&self) -> BodyView {
        match self {
            Body::Text(text) => BodyView::Text(text@),
            Body::Record(user) => BodyView::Record(user@),
            Body::Records(users) => BodyView::Records(users.deep_view()),
        }
    }
}

impl DeepView for Response {
    type V = ResponseView;

    open spec fn deep_view(&self) -> ResponseView {
        ResponseView { status: self.status, body: self.body.deep_view() }
    }
}

/// A response of plain text.
pub open spec fn text(status: u16, text: Seq<char>) -> ResponseView {
    ResponseView { status, body: BodyView::Text(text) }
}

/// The status that reports an error: 404 where nothing was found, 409 where
/// the username is taken, 500 for every failure of the store.
pub open spec fn status_of(error: ServiceErrorView) -> u16 {
    match error {
        ServiceErrorView::NotFound { .. } => NOT_FOUND,
        ServiceErrorView::DuplicateKey { .. } => CONFLICT,
        ServiceErrorView::StoreUnavailable { .. } => INTERNAL_SERVER_ERROR,
        ServiceErrorView::Incomplete { .. } => INTERNAL_SERVER_ERROR,
        ServiceErrorView::BootstrapFailure { .. } => INTERNAL_SERVER_ERROR,
    }
}

/// The text that describes an error to the caller.
pub open spec fn description_of(error: ServiceErrorView) -> Seq<char> {
    match error {
        ServiceErrorView::NotFound { username } => "No user found with username "@ + username,
        ServiceErrorView::DuplicateKey { message } => message,
        ServiceErrorView::StoreUnavailable { message } => message,
        ServiceErrorView::Incomplete { message } => message,
        ServiceErrorView::BootstrapFailure { message } => message,
    }
}

/// The response that reports an error.
pub open spec fn failure(error: ServiceErrorView) -> ResponseView {
    text(status_of(error), description_of(error))
}

/// The response to a creation.
pub open spec fn creation_response(outcome: Result<(), ServiceErrorView>) -> ResponseView {
    match outcome {
        Ok(_) => text(OK, "user added"@),
        Err(error) => failure(error),
    }
}

/// The response to a lookup: the record itself where it was found.
pub open spec fn lookup_response(outcome: Result<UserView, ServiceErrorView>) -> ResponseView {
    match outcome {
        Ok(user) => ResponseView { status: OK, body: BodyView::Record(user) },
        Err(error) => failure(error),
    }
}

/// The response to a listing: the records themselves.
pub open spec fn listing_response(outcome: Result<Seq<UserView>, ServiceErrorView>) -> ResponseView {
    match outcome {
        Ok(users) => ResponseView { status: OK, body: BodyView::Records(users) },
        Err(error) => failure(error),
    }
}

/// The response to an update.
pub open spec fn update_response(outcome: Result<(), ServiceErrorView>) -> ResponseView {
    match outcome {
        Ok(_) => text(OK, "user updated"@),
        Err(error) => failure(error),
    }
}

/// The response to a delete.
pub open spec fn delete_response(outcome: Result<(), ServiceErrorView>) -> ResponseView {
    match outcome {
        Ok(_) => text(OK, "User successfully deleted"@),
        Err(error) => failure(error),
    }
}

/// The response to a request for the root: the service is there.
pub open spec fn probe_response() -> ResponseView {
    text(OK, "Connected"@)
}

/// The status under which an error is reported.
pub fn status(error: &ServiceError) -> (code: u16)
    ensures
        code == status_of(error@),
{
    match error {
        ServiceError::NotFound { .. } => NOT_FOUND,
        ServiceError::DuplicateKey { .. } => CONFLICT,
        ServiceError::StoreUnavailable { .. } => INTERNAL_SERVER_ERROR,
        ServiceError::Incomplete { .. } => INTERNAL_SERVER_ERROR,
        ServiceError::BootstrapFailure { .. } => INTERNAL_SERVER_ERROR,
    }
}

/// The text with which an error is reported.
pub fn describe(error: ServiceError) -> (description: String)
    ensures
        description@ == description_of(error@),
{
    match error {
        ServiceError::NotFound { username } => {
            let mut description = String::from_str("No user found with username ");
            description.append(username.as_str());
            description
        },
        ServiceError::DuplicateKey { message } => message,
        ServiceError::StoreUnavailable { message } => message,
        ServiceError::Incomplete { message } => message,
        ServiceError::BootstrapFailure { message } => message,
    }
}

/// The response that reports an error.
pub fn respond_failure(error: ServiceError) -> (response: Response)
    ensures
        response.deep_view() == failure(error@),
{
    let code = status(&error);
    Response { status: code, body: Body::Text(describe(error)) }
}

/// The response to `create`: 200 and `user added`, or the failure.
pub fn respond_created(outcome: Result<(), ServiceError>) -> (response: Response)
    ensures
        response.deep_view() == creation_response(seen(outcome)),
{
    match outcome {
        Ok(_) => Response { status: OK, body: Body::Text(String::from_str("user added")) },
        Err(error) => respond_failure(error),
    }
}

/// The response to `get_by_username`: 200 and the record, or the failure.
pub fn respond_found(outcome: Result<User, ServiceError>) -> (response: Response)
    ensures
        response.deep_view() == lookup_response(seen(outcome)),
{
    match outcome {
        Ok(user) => Response { status: OK, body: Body::Record(user) },
        Err(error) => respond_failure(error),
    }
}

/// The response to `list_all`: 200 and the records, or the failure.
pub fn respond_listed(outcome: Result<Vec<User>, ServiceError>) -> (response: Response)
    ensures
        response.deep_view() == listing_response(seen(outcome)),
{
    match outcome {
        Ok(users) => Response { status: OK, body: Body::Records(users) },
        Err(error) => respond_failure(error),
    }
}

/// The response to `update`: 200 and `user updated`, or the failure.
pub fn respond_updated(outcome: Result<(), ServiceError>) -> (response: Response)
    ensures
        response.deep_view() == update_response(seen(outcome)),
{
    match outcome {
        Ok(_) => Response { status: OK, body: Body::Text(String::from_str("user updated")) },
        Err(error) => respond_failure(error),
    }
}

/// The response to `delete`: 200 and `User successfully deleted`, or the
/// failure.
pub fn respond_deleted(outcome: Result<(), ServiceError>) -> (response: Response)
    ensures
        response.deep_view() == delete_response(seen(outcome)),
{
    match outcome {
        Ok(_) => Response {
            status: OK,
            body: Body::Text(String::from_str("User successfully deleted")),
        },
        Err(error) => respond_failure(error),
    }
}

/// The response to a request for the root: 200 and `Connected`.
pub fn respond_probe() -> (response: Response)
    ensures
        response.deep_view() == probe_response(),
{
    Response { status: OK, body: Body::Text(String::from_str("Connected")) }
}

} // verus!
