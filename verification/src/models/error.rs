//! The errors that a caller is told of, and the reply that carries each.

use vstd::prelude::*;

use crate::http::{Body, Challenge, Response, Status};

verus! {

/// The kind of an error, as the caller's program reads it.
#[derive(Clone, Copy, Debug, PartialEq, Eq, Structural)]
pub enum ApiErrorCode {
    InvalidRequest,
    NotFound,
    NotAllowed,
    AuthFailed,
    InvalidToken,
    ServerError,
}

/// An error: its kind, and a sentence for a human reader.
#[derive(Debug, PartialEq, Eq)]
pub struct ApiError {
    pub code: ApiErrorCode,
    pub message: String,
}

/// An error that says in `detail` what was wrong with the input.
#[derive(Debug, PartialEq, Eq)]
pub struct ApiErrorWithDetail<T> {
    pub code: ApiErrorCode,
    pub message: String,
    pub detail: T,
}

impl ApiErrorCode {
    /// The name of a kind in an error body.
    pub open spec fn label(self) -> Seq<char> {
        match self {
            ApiErrorCode::InvalidRequest => "invalid_request"@,
            ApiErrorCode::NotFound => "not_found"@,
            ApiErrorCode::NotAllowed => "not_allowed"@,
            ApiErrorCode::AuthFailed => "auth_failed"@,
            ApiErrorCode::InvalidToken => "invalid_token"@,
            ApiErrorCode::ServerError => "server_error"@,
        }
    }

    /// The status of the reply that carries an error of this kind.
    pub open spec fn status(self) -> Status {
        match self {
            ApiErrorCode::InvalidRequest => Status::BadRequest,
            ApiErrorCode::NotFound => Status::NotFound,
            ApiErrorCode::NotAllowed => Status::MethodNotAllowed,
            ApiErrorCode::AuthFailed => Status::Unauthorized,
            ApiErrorCode::InvalidToken => Status::Unauthorized,
            ApiErrorCode::ServerError => Status::InternalServerError,
        }
    }

    /// The challenge that goes with an error of this kind: the two kinds that
    /// are answered with status 401 have one, and they differ in it.
    pub open spec fn challenge(self) -> Option<Challenge> {
        match self {
            ApiErrorCode::AuthFailed => Some(Challenge::Bearer),
            ApiErrorCode::InvalidToken => Some(Challenge::InvalidToken),
            _ => None,
        }
    }

    /// The name of this kind in an error body.
    pub fn as_str(&self) -> (name: &'static str)
        ensures
            name@ == self.label(),
    {
        match self {
            ApiErrorCode::InvalidRequest => "invalid_request",
            ApiErrorCode::NotFound => "not_found",
            ApiErrorCode::NotAllowed => "not_allowed",
            ApiErrorCode::AuthFailed => "auth_failed",
            ApiErrorCode::InvalidToken => "invalid_token",
            ApiErrorCode::ServerError => "server_error",
        }
    }
}

impl ApiError {
    /// Whether this error has the given kind and sentence.
    pub open spec fn says(self, code: ApiErrorCode, message: Seq<char>) -> bool {
        self.code == code && self.message@ == message
    }

    /// An error of the given kind with the given sentence.
    pub fn new(code: ApiErrorCode, message: &str) -> (error: Self)
        ensures
            error.says(code, message@),
    {
        Self { code, message: message.to_owned() }
    }

    /// An error of the given kind with the given sentence and detail.
    pub fn new_with_detail<T>(code: ApiErrorCode, message: &str, detail: T) -> (error:
        ApiErrorWithDetail<T>)
        ensures
            error.code == code,
            error.message@ == message@,
            error.detail == detail,
    {
        ApiErrorWithDetail::<T> { code, message: message.to_owned(), detail }
    }

    /// The reply that carries this error: the status and the challenge of its
    /// kind, and the error itself as the body.
    pub fn error_response(&self) -> (response: Response)
        ensures
            response.status == self.code.status(),
            response.challenge == self.code.challenge(),
            response.body matches Body::Error(e) && e.says(self.code, self.message@),
    {
        let status = match self.code {
            ApiErrorCode::InvalidRequest => Status::BadRequest,
            ApiErrorCode::NotFound => Status::NotFound,
            ApiErrorCode::NotAllowed => Status::MethodNotAllowed,
            ApiErrorCode::AuthFailed => Status::Unauthorized,
            ApiErrorCode::InvalidToken => Status::Unauthorized,
            ApiErrorCode::ServerError => Status::InternalServerError,
        };
        let challenge = match self.code {
            ApiErrorCode::AuthFailed => Some(Challenge::Bearer),
            ApiErrorCode::InvalidToken => Some(Challenge::InvalidToken),
            _ => None,
        };
        Response {
            status,
            challenge,
            body: Body::Error(ApiError { code: self.code, message: self.message.clone() }),
        }
    }
}

} // verus!
