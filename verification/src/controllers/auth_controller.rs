//! Logging in and out, and registering.

use vstd::prelude::*;

use crate::controllers::{
    error_reply, invalid_reply, is_error_reply, is_invalid_reply, parse_error_response,
};
use crate::http::{Body, Response, Status};
use crate::models::error::{ApiError, ApiErrorCode};
use crate::models::user_credential::{
    checked_credential, credential_stored, insert_outcome,
    lemma_inserting_a_credential_keeps_the_keys_unique, password_matches, AuthFailure,
    InputUserCredential, UserCredential, DELAY_MAX_MILLIS, DELAY_MIN_MILLIS,
};
use crate::models::user_token::{
    issue_outcome, lemma_issuing_keeps_the_keys_unique, lemma_revoking_keeps_the_keys_unique,
    revoke_outcome, UserToken,
};
use crate::models::{get_now_naive_date_time, is_uuid_text, new_uuid_text, text_of, Timestamp};
use crate::schema::Database;
use crate::services::token_authentication::AuthorizedUser;
use crate::validation::{Field, FieldError, Rule, ValidationErrors};

verus! {

/// The reply to a login, and the milliseconds for which it is to be held
/// back before it is sent: none for a login that succeeds.
#[derive(Debug, PartialEq, Eq)]
pub struct LoginReply {
    pub response: Response,
    pub delay_millis: u64,
}

/// What a login at `now` does, where `token` is the token drawn and `delay`
/// the delay of a refusal. A body that cannot be read is answered as such.
/// An email and a password that open a credential are answered with a token
/// for it, which is recorded; if it cannot be recorded, with a server error
/// and no token. Any other email and password are answered with the one
/// refusal, after the delay, and nothing is recorded.
pub open spec fn login_outcome(
    before: Database,
    after: Database,
    credential: Option<InputUserCredential>,
    token: Seq<char>,
    now: Timestamp,
    delay: u64,
    reply: LoginReply,
) -> bool {
    match credential {
        None => {
            &&& after == before
            &&& reply.delay_millis == 0
            &&& is_error_reply(
                reply.response,
                ApiErrorCode::InvalidRequest,
                "Failed to parse request."@,
            )
        },
        Some(input) => match checked_credential(
            before.user_credentials@,
            input.email@,
            input.raw_password@,
        ) {
            None => {
                &&& after == before
                &&& reply.delay_millis == delay
                &&& is_error_reply(
                    reply.response,
                    ApiErrorCode::AuthFailed,
                    "Invalid credentials."@,
                )
            },
            Some(owner) => {
                &&& reply.delay_millis == 0
                &&& match reply.response.body {
                    Body::Token(issued) => {
                        &&& reply.response.status == Status::Success
                        &&& reply.response.challenge is None
                        &&& issue_outcome(before, after, owner.id@, token, now, Some(issued))
                    },
                    _ => {
                        &&& is_error_reply(
                            reply.response,
                            ApiErrorCode::ServerError,
                            "Failed to issue token."@,
                        )
                        &&& issue_outcome(before, after, owner.id@, token, now, None)
                    },
                }
            },
        },
    }
}

/// Answers a login. `credential` is the body of the request, if it could be
/// read.
pub fn login(credential: Option<InputUserCredential>, db: &mut Database) -> (reply: LoginReply)
    ensures
        exists|token: Seq<char>, now: Timestamp, delay: u64| #[trigger]
            login_outcome(*old(db), *final(db), credential, token, now, delay, reply) && is_uuid_text(
                token,
            ) && now.wf() && DELAY_MIN_MILLIS <= delay < DELAY_MAX_MILLIS,
{
    let token = new_uuid_text();
    let now = get_now_naive_date_time();
    let ghost drawn = token@;
    let user = match &credential {
        Some(input) => Some(UserCredential::verify_with_input(input, db)),
        None => None,
    };
    let ghost delay = match user {
        Some(Err(refusal)) => refusal.delay_millis,
        _ => DELAY_MIN_MILLIS,
    };
    let reply = login_decision(user, db, token, now);
    assert(login_outcome(*old(db), *db, credential, drawn, now, delay, reply) && is_uuid_text(drawn)
        && now.wf() && DELAY_MIN_MILLIS <= delay < DELAY_MAX_MILLIS);
    reply
}

/// Answers a login at `now`, with `token` as the token to be issued and
/// `delay_millis` as the delay of a refusal.
pub fn login_with(
    credential: Option<InputUserCredential>,
    db: &mut Database,
    token: String,
    now: Timestamp,
    delay_millis: u64,
) -> (reply: LoginReply)
    requires
        now.wf(),
    ensures
        login_outcome(*old(db), *final(db), credential, token@, now, delay_millis, reply),
{
    let user = match &credential {
        Some(input) => Some(UserCredential::verify_with_delay(input, db, delay_millis)),
        None => None,
    };
    login_decision(user, db, token, now)
}

/// The reply to a login, given what the check of the email and the password
/// gave: `None` says that the body could not be read.
fn login_decision(
    user: Option<Result<UserCredential, AuthFailure>>,
    db: &mut Database,
    token: String,
    now: Timestamp,
) -> (reply: LoginReply)
    requires
        now.wf(),
    ensures
        match user {
            None => {
                &&& *final(db) == *old(db)
                &&& reply.delay_millis == 0
                &&& is_error_reply(
                    reply.response,
                    ApiErrorCode::InvalidRequest,
                    "Failed to parse request."@,
                )
            },
            Some(Err(refusal)) => {
                &&& *final(db) == *old(db)
                &&& reply.delay_millis == refusal.delay_millis
                &&& is_error_reply(
                    reply.response,
                    ApiErrorCode::AuthFailed,
                    "Invalid credentials."@,
                )
            },
            Some(Ok(owner)) => {
                &&& reply.delay_millis == 0
                &&& match reply.response.body {
                    Body::Token(issued) => {
                        &&& reply.response.status == Status::Success
                        &&& reply.response.challenge is None
                        &&& issue_outcome(*old(db), *final(db), owner.id@, token@, now, Some(issued))
                    },
                    _ => {
                        &&& is_error_reply(
                            reply.response,
                            ApiErrorCode::ServerError,
                            "Failed to issue token."@,
                        )
                        &&& issue_outcome(*old(db), *final(db), owner.id@, token@, now, None)
                    },
                }
            },
        },
{
    match user {
        None => LoginReply { response: parse_error_response(), delay_millis: 0 },
        Some(Ok(u)) => {
            let response = match issue_user_token(&u.id, db, token, now) {
                Some(issued) => Response {
                    status: Status::Success,
                    challenge: None,
                    body: Body::Token(issued),
                },
                None => error_reply(ApiErrorCode::ServerError, "Failed to issue token."),
            };
            LoginReply { response, delay_millis: 0 }
        },
        Some(Err(refusal)) => LoginReply {
            response: error_reply(ApiErrorCode::AuthFailed, "Invalid credentials."),
            delay_millis: refusal.delay_millis,
        },
    }
}

/// What registering does, given what inserting the credential gave: a
/// credential that was inserted is answered with status 201, an input that
/// fails a rule with the list of what it fails, and an email that is in use
/// as an invalid request.
pub open spec fn register_reply(
    inserted: Option<Result<Option<String>, ValidationErrors>>,
    response: Response,
) -> bool {
    match inserted {
        None => is_error_reply(
            response,
            ApiErrorCode::InvalidRequest,
            "Failed to parse request."@,
        ),
        Some(Ok(Some(_))) => response.status == Status::Created && response.challenge is None
            && response.body is Empty,
        Some(Ok(None)) => is_error_reply(
            response,
            ApiErrorCode::InvalidRequest,
            "Already in use."@,
        ),
        Some(Err(list)) => is_invalid_reply(response, list),
    }
}

/// Answers a registration. `new_credential` is the body of the request, if
/// it could be read.
pub fn register(new_credential: Option<InputUserCredential>, db: &mut Database) -> (response:
    Response)
    ensures
        new_credential is None ==> *final(db) == *old(db) && register_reply(None, response),
        new_credential matches Some(input) ==> exists|
            inserted: Result<Option<String>, ValidationErrors>,
        | #[trigger]
            register_reply(Some(inserted), response) && registered(
                *old(db),
                *final(db),
                input,
                inserted,
            ),
{
    match new_credential {
        Some(input) => {
            let inserted = UserCredential::insert(input, db);
            let ghost seen = inserted;
            let response = register_decision(Some(inserted));
            assert(register_reply(Some(seen), response) && registered(*old(db), *db, input, seen));
            response
        },
        None => register_decision(None),
    }
}

/// What [`UserCredential::insert`] promises of registering `input`.
pub open spec fn registered(
    before: Database,
    after: Database,
    input: InputUserCredential,
    inserted: Result<Option<String>, ValidationErrors>,
) -> bool {
    match inserted {
        Ok(stored) => {
            &&& input.is_valid()
            &&& exists|id: Seq<char>, hash: Seq<char>, now: Timestamp| #[trigger]
                credential_stored(
                    before,
                    after,
                    id,
                    hash,
                    input.email@,
                    now,
                    stored,
                ) && is_uuid_text(id) && password_matches(
                    input.raw_password@,
                    hash,
                ) && now.wf()
        },
        Err(list) => after == before && list.errors@ == if input.is_valid() {
            seq![FieldError { field: Field::RawPassword, rule: Rule::Hash }]
        } else {
            input.violations()
        },
    }
}

/// Answers a registration with the identifier `id`, the hash `hash` and the
/// time `now`.
pub fn register_with(
    new_credential: Option<InputUserCredential>,
    db: &mut Database,
    id: String,
    hash: Option<String>,
    now: Timestamp,
) -> (response: Response)
    ensures
        new_credential is None ==> *final(db) == *old(db) && register_reply(None, response),
        new_credential matches Some(input) ==> exists|
            inserted: Result<Option<String>, ValidationErrors>,
        | #[trigger]
            register_reply(Some(inserted), response)
                && insert_outcome(
                *old(db),
                *final(db),
                input,
                id@,
                text_of(hash),
                now,
                inserted,
            ),
{
    match new_credential {
        Some(input) => {
            let inserted = UserCredential::insert_with(input, db, id, hash, now);
            let ghost seen = inserted;
            let response = register_decision(Some(inserted));
            assert(register_reply(Some(seen), response)
                && insert_outcome(
                *old(db),
                *db,
                input,
                id@,
                text_of(hash),
                now,
                seen,
            ));
            response
        },
        None => register_decision(None),
    }
}

/// The reply to a registration, given what inserting the credential gave:
/// `None` says that the body could not be read.
pub fn register_decision(inserted: Option<Result<Option<String>, ValidationErrors>>) -> (response:
    Response)
    ensures
        register_reply(inserted, response),
{
    match inserted {
        None => parse_error_response(),
        Some(Ok(Some(_))) => Response::empty(Status::Created),
        Some(Err(e)) => invalid_reply(e),
        Some(Ok(None)) => error_reply(ApiErrorCode::InvalidRequest, "Already in use."),
    }
}

/// Shows the one who asks their credential, without the password hash.
pub fn show_me(authorized_user: &AuthorizedUser) -> (response: Response)
    ensures
        response.status == Status::Success,
        response.challenge is None,
        response.body matches Body::Credential(shown) && shown.shows(authorized_user.credential),
{
    Response {
        status: Status::Success,
        challenge: None,
        body: Body::Credential(authorized_user.credential.shown()),
    }
}

/// What logging out at `now` does: the token that was presented is taken
/// back and the reply has status 204; where the token is not valid, nothing
/// changes and the reply says that it was not found.
pub open spec fn logout_outcome(
    before: Database,
    after: Database,
    token: Seq<char>,
    now: Timestamp,
    response: Response,
) -> bool {
    if response.status == Status::NoContent {
        &&& response.challenge is None
        &&& response.body is Empty
        &&& revoke_outcome(before, after, token, now, Ok(()))
    } else {
        &&& is_error_reply(response, ApiErrorCode::NotFound, "Token not found."@)
        &&& exists|error: ApiError| #[trigger]
            revoke_outcome(before, after, token, now, Err(error))
    }
}

/// Logs out the one who asks, at the time that the clock shows.
pub fn logout(authorized_user: &AuthorizedUser, db: &mut Database) -> (response: Response)
    ensures
        exists|now: Timestamp| #[trigger]
            now.wf() && logout_outcome(*old(db), *final(db), authorized_user.token@, now, response),
{
    let now = get_now_naive_date_time();
    let response = logout_at(authorized_user, db, &now);
    assert(now.wf() && logout_outcome(*old(db), *db, authorized_user.token@, now, response));
    response
}

/// Logs out the one who asks, at `now`.
pub fn logout_at(authorized_user: &AuthorizedUser, db: &mut Database, now: &Timestamp) -> (response:
    Response)
    ensures
        logout_outcome(*old(db), *final(db), authorized_user.token@, *now, response),
{
    match UserToken::revoke_at(&authorized_user.token, db, now) {
        Ok(_) => Response::empty(Status::NoContent),
        Err(e) => {
            let response = e.error_response();
            assert(revoke_outcome(*old(db), *db, authorized_user.token@, *now, Err(e)));
            response
        },
    }
}

/// Records `token` as a token for `user_id`, made at `now`.
fn issue_user_token(user_id: &String, db: &mut Database, token: String, now: Timestamp) -> (issued:
    Option<String>)
    requires
        now.wf(),
    ensures
        issue_outcome(*old(db), *final(db), user_id@, token@, now, issued),
{
    UserToken::issue_with(user_id, db, token, now)
}

/// Logging in keeps the keys of every table unique.
pub proof fn lemma_login_keeps_the_keys_unique(
    before: Database,
    after: Database,
    credential: Option<InputUserCredential>,
    token: Seq<char>,
    now: Timestamp,
    delay: u64,
    reply: LoginReply,
)
    requires
        before.keys_are_unique(),
        login_outcome(before, after, credential, token, now, delay, reply),
    ensures
        after.keys_are_unique(),
{
    if let Some(input) = credential {
        if let Some(owner) = checked_credential(
            before.user_credentials@,
            input.email@,
            input.raw_password@,
        ) {
            match reply.response.body {
                Body::Token(issued) => {
                    lemma_issuing_keeps_the_keys_unique(
                        before,
                        after,
                        owner.id@,
                        token,
                        now,
                        Some(issued),
                    );
                },
                _ => {
                    lemma_issuing_keeps_the_keys_unique(
                        before,
                        after,
                        owner.id@,
                        token,
                        now,
                        None,
                    );
                },
            }
        }
    }
}

/// Registering keeps the keys of every table unique.
pub proof fn lemma_registering_keeps_the_keys_unique(
    before: Database,
    after: Database,
    input: InputUserCredential,
    inserted: Result<Option<String>, ValidationErrors>,
)
    requires
        before.keys_are_unique(),
        registered(before, after, input, inserted),
    ensures
        after.keys_are_unique(),
{
    if let Ok(stored) = inserted {
        let (id, hash, at) = choose|id: Seq<char>, hash: Seq<char>, at: Timestamp| #[trigger]
            credential_stored(
                before,
                after,
                id,
                hash,
                input.email@,
                at,
                stored,
            ) && is_uuid_text(id) && password_matches(
                input.raw_password@,
                hash,
            ) && at.wf();
        lemma_inserting_a_credential_keeps_the_keys_unique(
            before,
            after,
            id,
            hash,
            input.email@,
            at,
            stored,
        );
    }
}

/// Logging out keeps the keys of every table unique.
pub proof fn lemma_logout_keeps_the_keys_unique(
    before: Database,
    after: Database,
    token: Seq<char>,
    now: Timestamp,
    response: Response,
)
    requires
        before.keys_are_unique(),
        logout_outcome(before, after, token, now, response),
    ensures
        after.keys_are_unique(),
{
    if response.status == Status::NoContent {
        lemma_revoking_keeps_the_keys_unique(
            before,
            after,
            token,
            now,
            Ok(()),
        );
    } else {
        let error = choose|error: ApiError| #[trigger]
            revoke_outcome(before, after, token, now, Err(error));
        lemma_revoking_keeps_the_keys_unique(
            before,
            after,
            token,
            now,
            Err(error),
        );
    }
}

} // verus!
