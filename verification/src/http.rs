//! What a handler answers: a status, an authentication challenge where one is
//! due, and a body. Turning the value into bytes on the wire is left to the
//! server around the library.

use vstd::prelude::*;

use crate::models::error::{ApiError, ApiErrorWithDetail};
use crate::models::post::{PostTagged, PostWithUser};
use crate::models::user::FilteredUser;
use crate::models::user_credential::ShownCredential;
use crate::validation::ValidationErrors;

verus! {

/// The statuses that the handlers answer with.
#[derive(Clone, Copy, Debug, PartialEq, Eq, Structural)]
pub enum Status {
    Success,
    Created,
    NoContent,
    BadRequest,
    Unauthorized,
    NotFound,
    MethodNotAllowed,
    InternalServerError,
}

/// What the caller is told to authenticate with, in the `WWW-Authenticate`
/// header of a reply.
#[derive(Clone, Copy, Debug, PartialEq, Eq, Structural)]
pub enum Challenge {
    /// No credentials were presented where they are needed.
    Bearer,
    /// A bearer token was presented and is not valid.
    InvalidToken,
}

/// The body of a reply.
#[derive(Debug, PartialEq, Eq)]
pub enum Body {
    /// No body at all.
    Empty,
    /// A line of plain text.
    Text(String),
    /// An error, under the key `error`.
    Error(ApiError),
    /// An error with the list of what the input fails, under the key `error`.
    Invalid(ApiErrorWithDetail<ValidationErrors>),
    /// A bearer token, under the key `token`.
    Token(String),
    /// A credential, under the key `credential`.
    Credential(ShownCredential),
    /// A profile, under the key `user`.
    User(FilteredUser),
    /// A post and its author, under the keys `post` and `user`.
    Post(PostWithUser),
    /// A list of posts with their authors, under the key `posts`.
    Posts(PostTagged),
    /// The identifier of a post that was made, under the keys `post` and `id`.
    PostId(String),
}

/// A reply to one request.
#[derive(Debug, PartialEq, Eq)]
pub struct Response {
    pub status: Status,
    pub challenge: Option<Challenge>,
    pub body: Body,
}

impl Status {
    /// The number that stands for a status on the wire.
    pub open spec fn number(self) -> u16 {
        match self {
            Status::Success => 200,
            Status::Created => 201,
            Status::NoContent => 204,
            Status::BadRequest => 400,
            Status::Unauthorized => 401,
            Status::NotFound => 404,
            Status::MethodNotAllowed => 405,
            Status::InternalServerError => 500,
        }
    }

    /// The number that stands for this status on the wire.
    pub fn code(&self) -> (code: u16)
        ensures
            code == self.number(),
    {
        match self {
            Status::Success => 200,
            Status::Created => 201,
            Status::NoContent => 204,
            Status::BadRequest => 400,
            Status::Unauthorized => 401,
            Status::NotFound => 404,
            Status::MethodNotAllowed => 405,
            Status::InternalServerError => 500,
        }
    }
}

impl Challenge {
    /// The text of the header that carries a challenge.
    pub open spec fn text(self) -> Seq<char> {
        match self {
            Challenge::Bearer => "Bearer"@,
            Challenge::InvalidToken => "Bearer error=\"invalid_token\""@,
        }
    }

    /// The value of the `WWW-Authenticate` header for this challenge.
    pub fn header_value(&self) -> (value: &'static str)
        ensures
            value@ == self.text(),
    {
        match self {
            Challenge::Bearer => "Bearer",
            Challenge::InvalidToken => "Bearer error=\"invalid_token\"",
        }
    }
}

impl Response {
    /// A reply with a status and nothing else.
    pub fn empty(status: Status) -> (response: Response)
        ensures
            response.status == status,
            response.challenge is None,
            response.body is Empty,
    {
        Response { status, challenge: None, body: Body::Empty }
    }

    /// A reply with status 200 and one line of plain text.
    pub fn text(line: &str) -> (response: Response)
        ensures
            response.status == Status::Success,
            response.challenge is None,
            response.body matches Body::Text(t) && t@ == line@,
    {
        Response { status: Status::Success, challenge: None, body: Body::Text(line.to_owned()) }
    }
}

} // verus!
