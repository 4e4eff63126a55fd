//! The guard in front of the handlers: it reads the bearer token of a
//! request, finds out whose it is, and lets the request pass or refuses it.
//! It changes no table.

use vstd::prelude::*;

use crate::models::error::{ApiError, ApiErrorCode};
use crate::models::user::{user_by_id, User};
use crate::models::user_credential::{credential_by_id, UserCredential};
use crate::models::user_token::{valid_token, UserToken};
use crate::models::{get_now_naive_date_time, text_of, Timestamp};
use crate::schema::Database;

verus! {

/// Whether a route asks for a bearer token or only takes one.
pub struct TokenAuthentication {
    auth_required: bool,
}

/// A service behind the guard.
pub struct TokenAuthenticationMiddleware<S> {
    service: S,
    auth_required: bool,
}

/// Who is asking: the token that was presented, the credential it belongs
/// to, and the profile of that credential if it has one.
#[derive(Debug, PartialEq, Eq)]
pub struct AuthorizedUser {
    pub token: String,
    pub credential: UserCredential,
    pub user: Option<User>,
}

impl Clone for AuthorizedUser {
    fn clone(&self) -> (copy: Self)
        ensures
            copy == *self,
    {
        AuthorizedUser {
            token: self.token.clone(),
            credential: self.credential.clone(),
            user: match &self.user {
                Some(user) => Some(user.clone()),
                None => None,
            },
        }
    }
}

/// Whether a character may stand in the text of a header: the tab and the
/// visible characters of ASCII, the space among them.
pub open spec fn is_header_char(c: char) -> bool {
    c == '\t' || (' ' <= c && c <= '~')
}

/// The bearer token that an `Authorization` header carries: what follows
/// `Bearer` and one space, in a header of eight characters or more that
/// holds no character outside [`is_header_char`].
pub open spec fn bearer_token(header: Seq<char>) -> Option<Seq<char>> {
    if header.len() >= 8 && header.subrange(0, 7) == "Bearer "@ && forall|i: int|
        0 <= i < header.len() ==> is_header_char(#[trigger] header[i]) {
        Some(header.subrange(7, header.len() as int))
    } else {
        None
    }
}

/// The bearer token that a request presents: that of its `Authorization`
/// header, if it has the header and the header carries one.
pub open spec fn presented_token(authorization: Option<Seq<char>>) -> Option<Seq<char>> {
    match authorization {
        Some(header) => bearer_token(header),
        None => None,
    }
}

/// Makes a header value of a text with `HeaderValue::from_str` and reads the
/// bearer token from it with `Bearer::parse`. The first refuses a text with
/// a control character other than the tab, the second a header of fewer than
/// eight bytes, one with a byte outside visible ASCII and the tab, and one
/// whose text up to the first space is not `Bearer`; the token is the rest.
/// The contract says the same in [`bearer_token`].
#[verifier::external_body]
fn parse_bearer(header: &str) -> (token: Option<String>)
    ensures
        text_of(token) == bearer_token(header@),
{
    let value = actix_web::http::HeaderValue::from_str(header).ok()?;
    let bearer = <actix_web_httpauth::headers::authorization::Bearer as actix_web_httpauth::headers::authorization::Scheme>::parse(
        &value,
    ).ok()?;
    Some(bearer.token().to_string())
}

/// The identity behind a token row: its credential, which must be there, and
/// its profile, which need not.
pub open spec fn identity_outcome(
    db: Database,
    row: UserToken,
    resolved: Result<AuthorizedUser, ApiError>,
) -> bool {
    match credential_by_id(db.user_credentials@, row.user_id@) {
        Some(credential) => {
            &&& resolved matches Ok(who)
            &&& who.token == row.token
            &&& who.credential == credential
            &&& who.user == user_by_id(db.users@, row.user_id@)
        },
        None => resolved matches Err(error) && error.says(
            ApiErrorCode::ServerError,
            "Token without a credential."@,
        ),
    }
}

/// What the guard decides at `now` for a request with the `Authorization`
/// header given. Without a bearer token a request passes as nobody's where
/// the route only takes a token, and is refused where it asks for one. With
/// one, the request passes as the owner's if the token is valid, and is
/// refused if it is not, whatever the route asks for.
pub open spec fn guard_outcome(
    auth_required: bool,
    authorization: Option<Seq<char>>,
    db: Database,
    now: Timestamp,
    passed: Result<Option<AuthorizedUser>, ApiError>,
) -> bool {
    match presented_token(authorization) {
        None => if auth_required {
            passed matches Err(error) && error.says(
                ApiErrorCode::AuthFailed,
                "Authorization required."@,
            )
        } else {
            passed matches Ok(None)
        },
        Some(token) => match valid_token(db.user_tokens@, token, now) {
            None => passed matches Err(error) && error.says(
                ApiErrorCode::InvalidToken,
                "Invalid token."@,
            ),
            Some(row) => match passed {
                Ok(Some(who)) => identity_outcome(db, row, Ok(who)),
                Ok(None) => false,
                Err(error) => identity_outcome(db, row, Err(error)),
            },
        },
    }
}

impl TokenAuthentication {
    /// Whether the route asks for a bearer token.
    pub closed spec fn asks(self) -> bool {
        self.auth_required
    }

    /// The guard of a route that asks for a bearer token.
    pub fn required() -> (guard: Self)
        ensures
            guard.asks(),
    {
        Self { auth_required: true }
    }

    /// The guard of a route that takes a bearer token and does without.
    pub fn unnecessary() -> (guard: Self)
        ensures
            !guard.asks(),
    {
        Self { auth_required: false }
    }

    /// Tells whether the route asks for a bearer token.
    pub fn is_required(&self) -> (asks: bool)
        ensures
            asks == self.asks(),
    {
        self.auth_required
    }

    /// Puts `service` behind this guard.
    pub fn new_transform<S>(&self, service: S) -> (guarded: TokenAuthenticationMiddleware<S>)
        ensures
            guarded.asks() == self.asks(),
            guarded.inner() == service,
    {
        TokenAuthenticationMiddleware { service, auth_required: self.auth_required }
    }
}

impl<S> TokenAuthenticationMiddleware<S> {
    /// Whether the route asks for a bearer token.
    pub closed spec fn asks(self) -> bool {
        self.auth_required
    }

    /// The service behind the guard.
    pub closed spec fn inner(self) -> S {
        self.service
    }

    /// The service behind the guard.
    pub fn service(&self) -> (service: &S)
        ensures
            *service == self.inner(),
    {
        &self.service
    }

    /// The service behind the guard, to be called or changed.
    pub fn service_mut(&mut self) -> (service: &mut S)
        ensures
            *service == old(self).inner(),
            final(self).inner() == *final(service),
            final(self).asks() == old(self).asks(),
    {
        &mut self.service
    }

    /// Decides on a request at the time that the clock shows.
    /// `authorization` is the text of its `Authorization` header, if it has
    /// one. `Ok` lets the request pass to the service, with the identity
    /// found; an error is to be answered with its reply.
    pub fn call(&self, authorization: Option<&str>, db: &Database) -> (passed: Result<
        Option<AuthorizedUser>,
        ApiError,
    >)
        ensures
            exists|now: Timestamp| #[trigger]
                now.wf() && guard_outcome(
                    self.asks(),
                    match authorization {
                        Some(header) => Some(header@),
                        None => None,
                    },
                    *db,
                    now,
                    passed,
                ),
    {
        let now = get_now_naive_date_time();
        let passed = self.call_at(authorization, db, &now);
        assert(now.wf() && guard_outcome(
            self.asks(),
            match authorization {
                Some(header) => Some(header@),
                None => None,
            },
            *db,
            now,
            passed,
        ));
        passed
    }

    /// Decides on a request at `now`.
    pub fn call_at(&self, authorization: Option<&str>, db: &Database, now: &Timestamp) -> (passed:
        Result<Option<AuthorizedUser>, ApiError>)
        ensures
            guard_outcome(
                self.asks(),
                match authorization {
                    Some(header) => Some(header@),
                    None => None,
                },
                *db,
                *now,
                passed,
            ),
    {
        let presented = match authorization {
            Some(header) => parse_bearer(header),
            None => None,
        };
        match presented {
            Some(token) => {
                match validate_token(db, token, now) {
                    Ok(who) => Ok(Some(who)),
                    Err(error) => Err(error),
                }
            },
            None => {
                if !self.auth_required {
                    Ok(None)
                } else {
                    Err(ApiError::new(ApiErrorCode::AuthFailed, "Authorization required."))
                }
            },
        }
    }
}

/// Finds out at `now` whose token `t` is.
pub fn validate_token(db: &Database, t: String, now: &Timestamp) -> (resolved: Result<
    AuthorizedUser,
    ApiError,
>)
    ensures
        match valid_token(db.user_tokens@, t@, *now) {
            Some(row) => identity_outcome(*db, row, resolved),
            None => resolved matches Err(error) && error.says(
                ApiErrorCode::InvalidToken,
                "Invalid token."@,
            ),
        },
{
    match UserToken::verify_token_at(&t, db, now) {
        Ok(row) => resolve_identity(db, row),
        Err(error) => Err(error),
    }
}

/// Loads the credential and the profile behind a token row.
pub fn resolve_identity(db: &Database, row: UserToken) -> (resolved: Result<AuthorizedUser, ApiError>)
    ensures
        identity_outcome(*db, row, resolved),
{
    match UserCredential::fetch_by_id(&row.user_id, db) {
        Some(credential) => {
            let user = User::fetch_by_id(&row.user_id, db);
            Ok(AuthorizedUser { token: row.token, credential, user })
        },
        None => Err(ApiError::new(ApiErrorCode::ServerError, "Token without a credential.")),
    }
}

/// A request without a bearer token is refused on a route that asks for
/// one, with status 401 and the code `auth_failed`; a request with a bearer
/// token that is not valid is refused on every route, with status 401 and
/// the code `invalid_token`; and the two refusals differ in their challenge.
pub proof fn lemma_guard_refuses_with_status_401(
    auth_required: bool,
    authorization: Option<Seq<char>>,
    db: Database,
    now: Timestamp,
    passed: Result<Option<AuthorizedUser>, ApiError>,
)
    requires
        guard_outcome(auth_required, authorization, db, now, passed),
    ensures
        presented_token(authorization) is None && auth_required ==> (passed matches Err(error)
            && error.code == ApiErrorCode::AuthFailed && error.code.status().number() == 401
            && error.code.challenge() == Some(crate::http::Challenge::Bearer)),
        presented_token(authorization) is None && !auth_required ==> passed == Ok::<
            Option<AuthorizedUser>,
            ApiError,
        >(None),
        (presented_token(authorization) matches Some(token) && valid_token(
            db.user_tokens@,
            token,
            now,
        ) is None) ==> (passed matches Err(error) && error.code == ApiErrorCode::InvalidToken
            && error.code.status().number() == 401 && error.code.challenge() == Some(
            crate::http::Challenge::InvalidToken,
        )),
        passed matches Ok(Some(who)) ==> (presented_token(authorization) == Some(who.token@)
            && valid_token(db.user_tokens@, who.token@, now) is Some),
{
    if let Some(token) = presented_token(authorization) {
        crate::schema::lemma_first_row_is_wanted(
            db.user_tokens@,
            crate::models::user_token::answering(token, now),
        );
    }
}

} // verus!
