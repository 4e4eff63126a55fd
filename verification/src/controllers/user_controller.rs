//! Profiles: showing one, and signing up.

use vstd::prelude::*;

use crate::controllers::{
    error_reply, invalid_reply, invalid_uuid_response, is_error_reply, is_invalid_reply,
    parse_error_response,
};
use crate::http::{Body, Response, Status};
use crate::models::error::ApiErrorCode;
use crate::models::user::{insert_outcome, user_by_id, InputUser, User};
use crate::models::{get_now_naive_date_time, Timestamp};
use crate::schema::Database;
use crate::services::token_authentication::AuthorizedUser;
use crate::validation::ValidationErrors;

verus! {

/// Whether a reply shows the profile `user` as others may see it.
pub open spec fn shows_user(response: Response, user: User) -> bool {
    &&& response.status == Status::Success
    &&& response.challenge is None
    &&& response.body matches Body::User(shown)
    &&& shown@ == user.outward()
}

/// The reply that shows the profile `user` as others may see it.
pub fn user_reply(user: &User) -> (response: Response)
    ensures
        shows_user(response, *user),
{
    Response {
        status: Status::Success,
        challenge: None,
        body: Body::User(user.filter_for_response()),
    }
}

/// Shows the profile with the identifier `user_id`, as others may see it.
/// `user_id` is the identifier in the path, if the path held one.
pub fn show(user_id: Option<String>, db: &Database) -> (response: Response)
    ensures
        match user_id {
            None => is_error_reply(response, ApiErrorCode::InvalidRequest, "Invalid uuid."@),
            Some(id) => match user_by_id(db.users@, id@) {
                Some(user) => shows_user(response, user),
                None => is_error_reply(response, ApiErrorCode::NotFound, "User does not exist."@),
            },
        },
{
    let user_id = match user_id {
        None => return invalid_uuid_response(),
        Some(u) => u,
    };
    match User::fetch_by_id(&user_id, db) {
        Some(user) => user_reply(&user),
        None => error_reply(ApiErrorCode::NotFound, "User does not exist."),
    }
}

/// The reply to signing up, given what inserting the profile gave: a
/// profile that was inserted is shown as others may see it, an input that
/// fails a rule is answered with the list of what it fails, and one that the
/// table refuses as an invalid request.
pub open spec fn create_reply(
    after: Database,
    inserted: Result<Option<String>, ValidationErrors>,
    response: Response,
) -> bool {
    match inserted {
        Ok(Some(id)) => match user_by_id(after.users@, id@) {
            Some(user) => shows_user(response, user),
            None => is_error_reply(response, ApiErrorCode::ServerError, "Failed to create user."@),
        },
        Ok(None) => is_error_reply(response, ApiErrorCode::InvalidRequest, "Already in use."@),
        Err(list) => is_invalid_reply(response, list),
    }
}

/// What signing up at `now` does. Nobody's request is refused, and so is
/// that of one who has a profile; a body that cannot be read is answered as
/// such. Else the profile is inserted under the identifier of the
/// credential, and the reply is as [`create_reply`] says.
pub open spec fn create_outcome(
    before: Database,
    after: Database,
    new_user: Option<InputUser>,
    authorized_user: Option<AuthorizedUser>,
    now: Timestamp,
    response: Response,
) -> bool {
    match authorized_user {
        None => after == before && is_error_reply(
            response,
            ApiErrorCode::AuthFailed,
            "Authorization required."@,
        ),
        Some(who) => if who.user is Some {
            after == before && is_error_reply(
                response,
                ApiErrorCode::InvalidRequest,
                "User already created."@,
            )
        } else {
            match new_user {
                None => after == before && is_error_reply(
                    response,
                    ApiErrorCode::InvalidRequest,
                    "Failed to parse request."@,
                ),
                Some(input) => exists|inserted: Result<Option<String>, ValidationErrors>| #[trigger]
                    insert_outcome(before, after, input, who.credential.id@, now, inserted)
                        && create_reply(after, inserted, response),
            }
        },
    }
}

/// Signs the one who asks up, at the time that the clock shows. `new_user`
/// is the body of the request, if it could be read.
pub fn create(
    new_user: Option<InputUser>,
    authorized_user: Option<&AuthorizedUser>,
    db: &mut Database,
) -> (response: Response)
    ensures
        exists|now: Timestamp| #[trigger]
            now.wf() && create_outcome(
                *old(db),
                *final(db),
                new_user,
                match authorized_user {
                    Some(who) => Some(*who),
                    None => None,
                },
                now,
                response,
            ),
{
    let now = get_now_naive_date_time();
    let response = create_at(new_user, authorized_user, db, now);
    assert(now.wf() && create_outcome(
        *old(db),
        *db,
        new_user,
        match authorized_user {
            Some(who) => Some(*who),
            None => None,
        },
        now,
        response,
    ));
    response
}

/// Signs the one who asks up, at `now`.
pub fn create_at(
    new_user: Option<InputUser>,
    authorized_user: Option<&AuthorizedUser>,
    db: &mut Database,
    now: Timestamp,
) -> (response: Response)
    ensures
        create_outcome(
            *old(db),
            *final(db),
            new_user,
            match authorized_user {
                Some(who) => Some(*who),
                None => None,
            },
            now,
            response,
        ),
{
    let authorized_user = match authorized_user {
        None => return error_reply(ApiErrorCode::AuthFailed, "Authorization required."),
        Some(u) => {
            if let Some(_) = u.user {
                return error_reply(ApiErrorCode::InvalidRequest, "User already created.");
            }
            u
        },
    };
    let new_user = match new_user {
        None => return parse_error_response(),
        Some(u) => u,
    };
    let inserted = User::insert_at(new_user, authorized_user.credential.id.clone(), db, now);
    let ghost seen = inserted;
    let response = match inserted {
        Ok(Some(id)) => {
            match User::fetch_by_id(&id, db) {
                Some(created_user) => user_reply(&created_user),
                None => error_reply(ApiErrorCode::ServerError, "Failed to create user."),
            }
        },
        Err(e) => invalid_reply(e),
        Ok(None) => error_reply(ApiErrorCode::InvalidRequest, "Already in use."),
    };
    assert(insert_outcome(*old(db), *db, new_user, authorized_user.credential.id@, now, seen));
    response
}

/// Shows the one who asks their profile, as others may see it; one without
/// a profile is told to sign up first.
pub fn show_me(authorized_user: &AuthorizedUser) -> (response: Response)
    ensures
        match authorized_user.user {
            Some(user) => shows_user(response, user),
            None => is_error_reply(response, ApiErrorCode::NotFound, "Create user first."@),
        },
{
    match &authorized_user.user {
        Some(u) => user_reply(u),
        None => error_reply(ApiErrorCode::NotFound, "Create user first."),
    }
}

/// Signing up keeps the keys of every table unique: no credential gets a
/// second profile, and no handle a second owner.
pub proof fn lemma_signing_up_keeps_the_keys_unique(
    before: Database,
    after: Database,
    new_user: Option<InputUser>,
    authorized_user: Option<AuthorizedUser>,
    now: Timestamp,
    response: Response,
)
    requires
        before.keys_are_unique(),
        create_outcome(before, after, new_user, authorized_user, now, response),
    ensures
        after.keys_are_unique(),
{
    if let Some(who) = authorized_user {
        if who.user is None {
            if let Some(input) = new_user {
                let inserted = choose|inserted: Result<Option<String>, ValidationErrors>| #[trigger]
                    insert_outcome(before, after, input, who.credential.id@, now, inserted)
                        && create_reply(after, inserted, response);
                if let Ok(stored) = inserted {
                    let row = choose|row: crate::models::user::InsertableUser| #[trigger]
                        row.is_made_of(input, who.credential.id@)
                            && crate::models::user::user_stored(before, after, row, now, stored);
                    crate::models::user::lemma_inserting_a_profile_keeps_the_keys_unique(
                        before,
                        after,
                        row,
                        now,
                        stored,
                    );
                }
            }
        }
    }
}

} // verus!
