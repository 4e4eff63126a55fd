//! The handlers: what each request is answered with.

use vstd::prelude::*;

use crate::http::{Body, Response, Status};
use crate::models::error::{ApiError, ApiErrorCode, ApiErrorWithDetail};
use crate::services::token_authentication::AuthorizedUser;
use crate::validation::ValidationErrors;

pub mod auth_controller;
pub mod post_controller;
pub mod user_controller;

verus! {

/// Whether a reply is the reply that carries an error of the kind and with
/// the sentence given.
pub open spec fn is_error_reply(response: Response, code: ApiErrorCode, message: Seq<char>) -> bool {
    &&& response.status == code.status()
    &&& response.challenge == code.challenge()
    &&& response.body matches Body::Error(error)
    &&& error.says(code, message)
}

/// Whether a reply says that the input fails the rules listed in `detail`.
pub open spec fn is_invalid_reply(response: Response, detail: ValidationErrors) -> bool {
    &&& response.status == Status::BadRequest
    &&& response.challenge is None
    &&& response.body matches Body::Invalid(error)
    &&& error.code == ApiErrorCode::InvalidRequest
    &&& error.message@ == "Invalid parameter."@
    &&& error.detail == detail
}

/// The reply that carries an error of the kind and with the sentence given.
pub fn error_reply(code: ApiErrorCode, message: &str) -> (response: Response)
    ensures
        is_error_reply(response, code, message@),
{
    ApiError::new(code, message).error_response()
}

/// The reply to an input that fails the rules listed in `detail`.
pub fn invalid_reply(detail: ValidationErrors) -> (response: Response)
    ensures
        is_invalid_reply(response, detail),
{
    let error: ApiErrorWithDetail<ValidationErrors> = ApiError::new_with_detail(
        ApiErrorCode::InvalidRequest,
        "Invalid parameter.",
        detail,
    );
    Response { status: Status::BadRequest, challenge: None, body: Body::Invalid(error) }
}

/// The reply to a path that holds no identifier.
pub fn invalid_uuid_response() -> (response: Response)
    ensures
        is_error_reply(response, ApiErrorCode::InvalidRequest, "Invalid uuid."@),
{
    error_reply(ApiErrorCode::InvalidRequest, "Invalid uuid.")
}

/// The reply to a body that cannot be read.
pub fn parse_error_response() -> (response: Response)
    ensures
        is_error_reply(response, ApiErrorCode::InvalidRequest, "Failed to parse request."@),
{
    error_reply(ApiErrorCode::InvalidRequest, "Failed to parse request.")
}

/// Tells whether the one who asks has a profile.
pub fn is_created_user(authorized_user: &AuthorizedUser) -> (created: bool)
    ensures
        created == authorized_user.user is Some,
{
    authorized_user.user.is_some()
}

} // verus!
