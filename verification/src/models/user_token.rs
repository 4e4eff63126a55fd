//! Bearer tokens: issuing one, checking one, and taking one back.

use vstd::prelude::*;

use crate::models::error::{ApiError, ApiErrorCode};
use crate::models::{get_now_naive_date_time, is_uuid_text, new_uuid_text, Timestamp};
use crate::schema::{
    first_row, lemma_first_row_found, lemma_first_row_missing, none_is, rows_without, unwanted,
    Database,
};

verus! {

/// The days for which a token is good.
pub const TOKEN_VALIDITY_DAYS: i32 = 30;

/// Whom a token is to be made for, and for how long.
struct NewUserToken {
    user_id: String,
    validity_days: i32,
}

/// A token row that is ready to be inserted.
#[derive(Debug, PartialEq, Eq)]
pub struct InsertableUserToken {
    pub token: String,
    pub user_id: String,
    pub expired_at: Timestamp,
    pub created_at: Timestamp,
}

/// A row of the token table.
#[derive(Debug, PartialEq, Eq)]
pub struct UserToken {
    pub token: String,
    pub user_id: String,
    pub expired_at: Timestamp,
    pub created_at: Timestamp,
    pub updated_at: Timestamp,
    pub deleted_at: Option<Timestamp>,
}

impl Clone for UserToken {
    fn clone(&self) -> (copy: Self)
        ensures
            copy == *self,
    {
        UserToken {
            token: self.token.clone(),
            user_id: self.user_id.clone(),
            expired_at: self.expired_at,
            created_at: self.created_at,
            updated_at: self.updated_at,
            deleted_at: self.deleted_at,
        }
    }
}

impl InsertableUserToken {
    /// Whether this is the row for `token`, made at `now` for `user_id` and
    /// good for `days` days.
    pub open spec fn is_made_of(self, token: Seq<char>, user_id: Seq<char>, now: Timestamp, days: int) -> bool {
        &&& self.token@ == token
        &&& self.user_id@ == user_id
        &&& self.expired_at == now.later_by_days(days)
        &&& self.created_at == now
    }

    /// A row with a token drawn at random, made at the time that the clock
    /// shows.
    fn new(new_token: &NewUserToken) -> (row: Self)
        requires
            0 <= new_token.validity_days <= crate::models::DAY_LIMIT,
        ensures
            is_uuid_text(row.token@),
            exists|now: Timestamp| #[trigger]
                now.wf() && row.is_made_of(row.token@, new_token.user_id@, now, new_token.validity_days as int),
    {
        let now = get_now_naive_date_time();
        let row = Self::at(new_token, new_uuid_text(), now);
        assert(now.wf() && row.is_made_of(row.token@, new_token.user_id@, now, new_token.validity_days as int));
        row
    }

    /// The row for `token`, made at `now`.
    fn at(new_token: &NewUserToken, token: String, now: Timestamp) -> (row: Self)
        requires
            now.wf(),
            0 <= new_token.validity_days <= crate::models::DAY_LIMIT,
        ensures
            row.is_made_of(token@, new_token.user_id@, now, new_token.validity_days as int),
    {
        Self {
            token,
            user_id: new_token.user_id.clone(),
            expired_at: now.plus_days(new_token.validity_days),
            created_at: now,
        }
    }
}

impl UserToken {
    /// A token is valid at `now` if it was not taken back and `now` lies
    /// before the instant at which it expires.
    pub open spec fn is_valid_at(self, now: Timestamp) -> bool {
        self.deleted_at is None && now.precedes(self.expired_at)
    }

    /// Whether this row makes `token` a valid token at `now`.
    pub open spec fn answers(self, token: Seq<char>, now: Timestamp) -> bool {
        self.token@ == token && self.is_valid_at(now)
    }

    /// Whether this is the row that `row` becomes when it is inserted.
    pub open spec fn is_stored(self, row: InsertableUserToken) -> bool {
        &&& self.token@ == row.token@
        &&& self.user_id@ == row.user_id@
        &&& self.expired_at == row.expired_at
        &&& self.created_at == row.created_at
        &&& self.updated_at == row.created_at
        &&& self.deleted_at is None
    }

    /// Tells whether this token is valid at `now`.
    pub fn valid_at(&self, now: &Timestamp) -> (valid: bool)
        ensures
            valid == self.is_valid_at(*now),
    {
        self.deleted_at.is_none() && now.is_before(&self.expired_at)
    }

    /// Makes a token for `user_id` that is good for thirty days from now, and
    /// records it. The token is returned only if its row was inserted.
    pub fn issue(user_id: &String, db: &mut Database) -> (issued: Option<String>)
        ensures
            exists|token: Seq<char>, now: Timestamp| #[trigger]
                issue_outcome(*old(db), *final(db), user_id@, token, now, issued) && is_uuid_text(
                    token,
                ) && now.wf(),
    {
        let user = NewUserToken { user_id: user_id.clone(), validity_days: TOKEN_VALIDITY_DAYS };
        let row = InsertableUserToken::new(&user);
        let ghost token = row.token@;
        let ghost now = row.created_at;
        let issued = Self::store(row, db);
        assert(issue_outcome(*old(db), *db, user_id@, token, now, issued) && is_uuid_text(token)
            && now.wf());
        issued
    }

    /// Records `token` as a token for `user_id` that was made at `now` and is
    /// good for thirty days. The token table takes no token twice: where it
    /// holds `token` already nothing is recorded and nothing returned.
    pub fn issue_with(user_id: &String, db: &mut Database, token: String, now: Timestamp) -> (issued:
        Option<String>)
        requires
            now.wf(),
        ensures
            issue_outcome(*old(db), *final(db), user_id@, token@, now, issued),
    {
        let user = NewUserToken { user_id: user_id.clone(), validity_days: TOKEN_VALIDITY_DAYS };
        Self::store(InsertableUserToken::at(&user, token, now), db)
    }

    /// Inserts `row`, unless the table holds its token already.
    fn store(row: InsertableUserToken, db: &mut Database) -> (issued: Option<String>)
        ensures
            match issued {
                Some(t) => {
                    &&& t@ == row.token@
                    &&& !holds_token(old(db).user_tokens@, row.token@)
                    &&& final(db).user_tokens@.len() == old(db).user_tokens@.len() + 1
                    &&& final(db).user_tokens@.drop_last() == old(db).user_tokens@
                    &&& final(db).user_tokens@.last().is_stored(row)
                },
                None => holds_token(old(db).user_tokens@, row.token@) && final(db).user_tokens@
                    == old(db).user_tokens@,
            },
            final(db).posts == old(db).posts,
            final(db).user_credentials == old(db).user_credentials,
            final(db).users == old(db).users,
    {
        let mut i: usize = 0;
        while i < db.user_tokens.len()
            invariant
                i <= db.user_tokens@.len(),
                *db == *old(db),
                forall|j: int| 0 <= j < i ==> db.user_tokens@[j].token@ != row.token@,
            decreases db.user_tokens@.len() - i,
        {
            if db.user_tokens[i].token == row.token {
                return None;
            }
            i += 1;
        }
        let token = row.token.clone();
        db.user_tokens.push(
            UserToken {
                token: row.token,
                user_id: row.user_id,
                expired_at: row.expired_at,
                created_at: row.created_at,
                updated_at: row.created_at,
                deleted_at: None,
            },
        );
        assert(db.user_tokens@.drop_last() =~= old(db).user_tokens@);
        Some(token)
    }

    /// Looks `token` up at the time that the clock shows.
    pub fn verify_token(token: &String, db: &Database) -> (found: Result<Self, ApiError>)
        ensures
            exists|now: Timestamp| #[trigger] verify_outcome(db.user_tokens@, token@, now, found) && now.wf(),
    {
        let now = get_now_naive_date_time();
        let found = Self::verify_token_at(token, db, &now);
        assert(verify_outcome(db.user_tokens@, token@, now, found) && now.wf());
        found
    }

    /// Looks `token` up at `now`: the row that makes it valid is returned, and
    /// where there is none (the token is unknown, was taken back or has
    /// expired) the error is the same every time.
    pub fn verify_token_at(token: &String, db: &Database, now: &Timestamp) -> (found: Result<
        Self,
        ApiError,
    >)
        ensures
            verify_outcome(db.user_tokens@, token@, *now, found),
    {
        let mut i: usize = 0;
        while i < db.user_tokens.len()
            invariant
                i <= db.user_tokens@.len(),
                forall|j: int| 0 <= j < i ==> !answering(token@, *now)(#[trigger] db.user_tokens@[j]),
            decreases db.user_tokens@.len() - i,
        {
            let row = &db.user_tokens[i];
            if row.token == *token && row.valid_at(now) {
                proof {
                    lemma_first_row_found(db.user_tokens@, answering(token@, *now), i as int);
                }
                return Ok(row.clone());
            }
            i += 1;
        }
        proof {
            lemma_first_row_missing(db.user_tokens@, answering(token@, *now));
        }
        Err(ApiError::new(ApiErrorCode::InvalidToken, "Invalid token."))
    }

    /// Takes `token` back at the time that the clock shows.
    pub fn revoke(token: &String, db: &mut Database) -> (done: Result<(), ApiError>)
        ensures
            exists|now: Timestamp| #[trigger]
                revoke_outcome(*old(db), *final(db), token@, now, done) && now.wf(),
    {
        let now = get_now_naive_date_time();
        let done = Self::revoke_at(token, db, &now);
        assert(revoke_outcome(*old(db), *db, token@, now, done) && now.wf());
        done
    }

    /// Takes `token` back at `now`: every row that makes it valid is deleted.
    /// Where there is none, nothing changes and the error says so.
    pub fn revoke_at(token: &String, db: &mut Database, now: &Timestamp) -> (done: Result<
        (),
        ApiError,
    >)
        ensures
            revoke_outcome(*old(db), *final(db), token@, *now, done),
    {
        let ghost wanted = answering(token@, *now);
        let ghost unwanted = unwanted(wanted);
        let mut kept: Vec<UserToken> = Vec::new();
        let mut i: usize = 0;
        while i < db.user_tokens.len()
            invariant
                i <= db.user_tokens@.len(),
                *db == *old(db),
                wanted == answering(token@, *now),
                unwanted == crate::schema::unwanted(wanted),
                kept@ == db.user_tokens@.take(i as int).filter(unwanted),
                kept@.len() == i <==> none_is(db.user_tokens@.take(i as int), wanted),
                kept@.len() <= i,
            decreases db.user_tokens@.len() - i,
        {
            let row = &db.user_tokens[i];
            proof {
                let before = db.user_tokens@.take(i as int);
                assert(db.user_tokens@.take(i + 1) =~= before.push(*row));
                before.lemma_filter_push(*row, unwanted);
                if none_is(before.push(*row), wanted) {
                    assert forall|j: int| 0 <= j < before.len() implies !wanted(#[trigger] before[j]) by {
                        assert(before[j] == before.push(*row)[j]);
                    }
                    assert(before.push(*row)[i as int] == *row);
                }
            }
            if !(row.token == *token && row.valid_at(now)) {
                kept.push(row.clone());
            }
            i += 1;
        }
        proof {
            assert(db.user_tokens@.take(i as int) =~= db.user_tokens@);
            lemma_first_row_missing(db.user_tokens@, wanted);
        }
        if kept.len() == db.user_tokens.len() {
            Err(ApiError::new(ApiErrorCode::NotFound, "Token not found."))
        } else {
            db.user_tokens = kept;
            Ok(())
        }
    }
}

/// The rows that make `token` a valid token at `now`.
pub open spec fn answering(token: Seq<char>, now: Timestamp) -> spec_fn(UserToken) -> bool {
    |row: UserToken| row.answers(token, now)
}

/// Whether some row holds `token`, valid or not.
pub open spec fn holds_token(rows: Seq<UserToken>, token: Seq<char>) -> bool {
    exists|j: int| 0 <= j < rows.len() && (#[trigger] rows[j]).token@ == token
}

/// The row that makes `token` a valid token at `now`, if there is one.
pub open spec fn valid_token(rows: Seq<UserToken>, token: Seq<char>, now: Timestamp) -> Option<
    UserToken,
> {
    first_row(rows, answering(token, now))
}

/// Whether `after` is the token table `before` with one more row at its end:
/// the row of `token`, made at `now` for `user_id`, good for thirty days and
/// not taken back.
pub open spec fn token_added(
    before: Seq<UserToken>,
    after: Seq<UserToken>,
    user_id: Seq<char>,
    token: Seq<char>,
    now: Timestamp,
) -> bool {
    &&& after.len() == before.len() + 1
    &&& after.drop_last() == before
    &&& after.last().token@ == token
    &&& after.last().user_id@ == user_id
    &&& after.last().expired_at == now.later_by_days(TOKEN_VALIDITY_DAYS as int)
    &&& after.last().created_at == now
    &&& after.last().updated_at == now
    &&& after.last().deleted_at is None
}

/// What issuing `token` at `now` does: where the table holds the token
/// already, nothing; else the row is added and the token returned. No other
/// table changes.
pub open spec fn issue_outcome(
    before: Database,
    after: Database,
    user_id: Seq<char>,
    token: Seq<char>,
    now: Timestamp,
    issued: Option<String>,
) -> bool {
    &&& after.posts == before.posts
    &&& after.user_credentials == before.user_credentials
    &&& after.users == before.users
    &&& if holds_token(before.user_tokens@, token) {
        issued is None && after.user_tokens@ == before.user_tokens@
    } else {
        &&& issued matches Some(t)
        &&& t@ == token
        &&& token_added(before.user_tokens@, after.user_tokens@, user_id, token, now)
    }
}

/// What a lookup of `token` at `now` returns: the row that makes the token
/// valid, or else the one error that stands for every way of not being valid.
pub open spec fn verify_outcome(
    rows: Seq<UserToken>,
    token: Seq<char>,
    now: Timestamp,
    found: Result<UserToken, ApiError>,
) -> bool {
    match found {
        Ok(row) => valid_token(rows, token, now) == Some(row),
        Err(error) => valid_token(rows, token, now) is None && error.says(
            ApiErrorCode::InvalidToken,
            "Invalid token."@,
        ),
    }
}

/// What taking `token` back at `now` does: where a row makes the token valid,
/// all such rows are deleted; else nothing changes and the error says that no
/// such token was found. No other table changes.
pub open spec fn revoke_outcome(
    before: Database,
    after: Database,
    token: Seq<char>,
    now: Timestamp,
    done: Result<(), ApiError>,
) -> bool {
    &&& after.posts == before.posts
    &&& after.user_credentials == before.user_credentials
    &&& after.users == before.users
    &&& match done {
        Ok(_) => {
            &&& valid_token(before.user_tokens@, token, now) is Some
            &&& after.user_tokens@ == rows_without(before.user_tokens@, answering(token, now))
        },
        Err(error) => {
            &&& valid_token(before.user_tokens@, token, now) is None
            &&& after.user_tokens@ == before.user_tokens@
            &&& error.says(ApiErrorCode::NotFound, "Token not found."@)
        },
    }
}

/// A token that was issued at `now` is valid at `now` and at every instant
/// before it expires, thirty days later, and answers then for the user it was
/// issued for; at the instant of expiry and ever after it is refused as an
/// invalid token.
pub proof fn lemma_issued_token_is_valid_until_it_expires(
    before: Database,
    after: Database,
    user_id: Seq<char>,
    token: Seq<char>,
    now: Timestamp,
    issued: Option<String>,
    at: Timestamp,
    found: Result<UserToken, ApiError>,
)
    requires
        now.wf(),
        issue_outcome(before, after, user_id, token, now, issued),
        issued is Some,
        verify_outcome(after.user_tokens@, token, at, found),
    ensures
        at == now || at.precedes(now.later_by_days(TOKEN_VALIDITY_DAYS as int)) ==> (found matches Ok(
            row,
        ) && row.token@ == token && row.user_id@ == user_id),
        now.later_by_days(TOKEN_VALIDITY_DAYS as int).not_after(at) ==> (found matches Err(error)
            && error.code == ApiErrorCode::InvalidToken),
{
    let rows = after.user_tokens@;
    let last = rows.len() - 1;
    let wanted = answering(token, at);
    assert forall|j: int| 0 <= j < last implies (#[trigger] rows[j]).token@ != token by {
        assert(rows[j] == before.user_tokens@[j]);
    }
    if rows[last].answers(token, at) {
        lemma_first_row_found(rows, wanted, last);
    } else {
        lemma_first_row_missing(rows, wanted);
    }
}

/// Once a token was taken back at `now`, it is refused as an invalid token
/// at `now` and at every later instant, and taking it back once more finds
/// nothing and changes nothing.
pub proof fn lemma_revoked_token_stays_invalid(
    before: Database,
    after: Database,
    token: Seq<char>,
    now: Timestamp,
    done: Result<(), ApiError>,
    at: Timestamp,
    found: Result<UserToken, ApiError>,
    later: Database,
    again: Result<(), ApiError>,
)
    requires
        revoke_outcome(before, after, token, now, done),
        now.not_after(at),
        verify_outcome(after.user_tokens@, token, at, found),
        revoke_outcome(after, later, token, at, again),
    ensures
        found matches Err(error) && error.says(ApiErrorCode::InvalidToken, "Invalid token."@),
        again matches Err(error) && error.says(ApiErrorCode::NotFound, "Token not found."@),
        later.user_tokens@ == after.user_tokens@,
{
    let rows = after.user_tokens@;
    lemma_first_row_missing(before.user_tokens@, answering(token, now));
    assert forall|j: int| 0 <= j < rows.len() implies !answering(token, now)(#[trigger] rows[j]) by {
        if done is Ok {
            before.user_tokens@.lemma_filter_pred(unwanted(answering(token, now)), j);
        }
    }
    assert forall|j: int| 0 <= j < rows.len() implies !answering(token, at)(#[trigger] rows[j]) by {
        assert(!answering(token, now)(rows[j]));
    }
    lemma_first_row_missing(rows, answering(token, at));
}

/// Two token rows are apart if their tokens differ.
pub open spec fn apart() -> spec_fn(UserToken, UserToken) -> bool {
    |a: UserToken, b: UserToken| a.token@ != b.token@
}

/// Issuing a token keeps the keys of every table unique.
pub proof fn lemma_issuing_keeps_the_keys_unique(
    before: Database,
    after: Database,
    user_id: Seq<char>,
    token: Seq<char>,
    now: Timestamp,
    issued: Option<String>,
)
    requires
        before.keys_are_unique(),
        issue_outcome(before, after, user_id, token, now, issued),
    ensures
        after.keys_are_unique(),
{
    let rows = before.user_tokens@;
    let next = after.user_tokens@;
    if !holds_token(rows, token) {
        assert forall|i: int, j: int| 0 <= i < j < next.len() implies apart()(
            #[trigger] next[i],
            #[trigger] next[j],
        ) by {
            assert(next[i] == rows[i]);
            if j < rows.len() {
                assert(next[j] == rows[j]);
            }
        }
    }
}

/// Taking a token back keeps the keys of every table unique.
pub proof fn lemma_revoking_keeps_the_keys_unique(
    before: Database,
    after: Database,
    token: Seq<char>,
    now: Timestamp,
    done: Result<(), ApiError>,
)
    requires
        before.keys_are_unique(),
        revoke_outcome(before, after, token, now, done),
    ensures
        after.keys_are_unique(),
{
    if done is Ok {
        crate::schema::lemma_deleting_keeps_pairwise(
            before.user_tokens@,
            apart(),
            unwanted(answering(token, now)),
        );
    }
}

} // verus!
