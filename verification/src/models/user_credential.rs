//! Credentials: the email and the password hash that an account is opened
//! with, and the check of a password against them.

use vstd::prelude::*;

use crate::models::{get_now_naive_date_time, is_uuid_text, new_uuid_text, text_of, Timestamp};
use crate::schema::{first_row, lemma_first_row_found, lemma_first_row_missing, Database};
use crate::validation::{
    email_is_valid, failure_if, validate_email, validate_length, Field, FieldError, Rule,
    ValidationErrors,
};

verus! {

/// The least number of characters of a password.
pub const PASSWORD_MIN_LENGTH: u64 = 8;

/// The memory that hashing a password takes, in kibibytes.
pub const HASH_MEMORY_COST: u32 = 37888;

/// The passes that hashing a password makes over that memory.
pub const HASH_TIME_COST: u32 = 1;

/// The lanes that hashing a password computes side by side.
pub const HASH_PARALLELISM: u32 = 1;

/// A hash of no password in particular, made with the costs above. A
/// password that comes with an unknown email is held against it, so that
/// refusing an unknown email takes the work that refusing a wrong password
/// takes.
pub const UNKNOWN_EMAIL_HASH: &'static str =
    "$argon2id$v=19$m=37888,t=1,p=1$AAAAAAAAAAAAAAAAAAAAAA$AAAAAAAAAAAAAAAAAAAAAAAAAAAAAAAAAAAAAAAAAAA";

/// The least delay of a refusal, in milliseconds.
pub const DELAY_MIN_MILLIS: u64 = 5;

/// The bound that the delay of a refusal stays under, in milliseconds.
pub const DELAY_MAX_MILLIS: u64 = 50;

/// An email and a password, as a caller sends them.
#[derive(Debug, PartialEq, Eq)]
pub struct InputUserCredential {
    pub raw_password: String,
    pub email: String,
}

/// A credential row that is ready to be inserted.
#[derive(Debug, PartialEq, Eq)]
pub struct InsertableUserCredential {
    pub id: String,
    pub password_hash: String,
    pub email: String,
}

/// A row of the credential table.
#[derive(Debug, PartialEq, Eq)]
pub struct UserCredential {
    pub id: String,
    pub password_hash: String,
    pub email: String,
    pub created_at: Timestamp,
    pub updated_at: Timestamp,
    pub deleted_at: Option<Timestamp>,
}

/// A credential as its owner is shown it: without the password hash.
#[derive(Debug, PartialEq, Eq)]
pub struct ShownCredential {
    pub id: String,
    pub email: String,
    pub created_at: Timestamp,
    pub updated_at: Timestamp,
}

/// The one answer to a login that does not succeed, whatever the reason. The
/// caller is to be kept waiting for `delay_millis` milliseconds before it is
/// told.
#[derive(Clone, Copy, Debug, PartialEq, Eq, Structural)]
pub struct AuthFailure {
    pub delay_millis: u64,
}

impl Clone for UserCredential {
    fn clone(&self) -> (copy: Self)
        ensures
            copy == *self,
    {
        UserCredential {
            id: self.id.clone(),
            password_hash: self.password_hash.clone(),
            email: self.email.clone(),
            created_at: self.created_at,
            updated_at: self.updated_at,
            deleted_at: self.deleted_at,
        }
    }
}

/// What `Argon2::verify_password` says of a password and an encoded hash,
/// where the hasher was made for Argon2id in version 0x13 with the three
/// costs given, and without a secret key.
pub uninterp spec fn argon2_verifies(
    memory_cost: u32,
    time_cost: u32,
    parallelism: u32,
    password: Seq<char>,
    encoded: Seq<char>,
) -> bool;

/// Whether `hash` is a hash of `password`.
pub open spec fn password_matches(password: Seq<char>, hash: Seq<char>) -> bool {
    argon2_verifies(HASH_MEMORY_COST, HASH_TIME_COST, HASH_PARALLELISM, password, hash)
}

/// Hashes a password with a salt that `SaltString::generate` draws from the
/// system's random source, through `Argon2::hash_password`, and writes the
/// hash out in PHC form. Which hash comes depends on the salt, and the call
/// may fail. The contract claims of a hash that was returned only that
/// `verify_password` accepts it for the same password, as the crate documents.
#[verifier::external_body]
fn argon2_hash(memory_cost: u32, time_cost: u32, parallelism: u32, password: &str) -> (encoded:
    Option<String>)
    ensures
        encoded matches Some(hash) ==> argon2_verifies(
            memory_cost,
            time_cost,
            parallelism,
            password@,
            hash@,
        ),
{
    let params = argon2::Params::new(memory_cost, time_cost, parallelism, None).ok()?;
    let hasher = argon2::Argon2::new(argon2::Algorithm::Argon2id, argon2::Version::V0x13, params);
    let salt = argon2::password_hash::SaltString::generate(
        &mut argon2::password_hash::rand_core::OsRng,
    );
    match argon2::PasswordHasher::hash_password(&hasher, password.as_bytes(), &salt) {
        Ok(hash) => Some(hash.to_string()),
        Err(_) => None,
    }
}

/// Parses an encoded hash with `PasswordHash::new` and checks a password
/// against it with `Argon2::verify_password`. A hash that does not parse is a
/// hash that does not match. The answer depends on the arguments alone; the
/// contract gives it a name.
#[verifier::external_body]
fn argon2_verify(
    memory_cost: u32,
    time_cost: u32,
    parallelism: u32,
    password: &str,
    encoded: &str,
) -> (ok: bool)
    ensures
        ok == argon2_verifies(memory_cost, time_cost, parallelism, password@, encoded@),
{
    let Ok(params) = argon2::Params::new(memory_cost, time_cost, parallelism, None) else {
        return false;
    };
    let hasher = argon2::Argon2::new(argon2::Algorithm::Argon2id, argon2::Version::V0x13, params);
    match argon2::PasswordHash::new(encoded) {
        Ok(parsed) => argon2::PasswordVerifier::verify_password(
            &hasher,
            password.as_bytes(),
            &parsed,
        ).is_ok(),
        Err(_) => false,
    }
}

/// Draws a number from `min` up to, and not including, `max` with
/// `rand::Rng::gen_range` on the thread's generator.
#[verifier::external_body]
fn random_in_range(min: u64, max: u64) -> (drawn: u64)
    requires
        min < max,
    ensures
        min <= drawn < max,
{
    rand::Rng::gen_range(&mut rand::thread_rng(), min..max)
}

/// A hash of `password` under a fresh random salt, if it can be hashed.
fn hash_password(password: &String) -> (hash: Option<String>)
    ensures
        hash matches Some(h) ==> password_matches(password@, h@),
{
    argon2_hash(HASH_MEMORY_COST, HASH_TIME_COST, HASH_PARALLELISM, password.as_str())
}

impl InputUserCredential {
    /// What this input fails: a password of fewer than eight characters, and
    /// an email that is no email address.
    pub open spec fn violations(self) -> Seq<FieldError> {
        failure_if(self.raw_password@.len() < PASSWORD_MIN_LENGTH, Field::RawPassword, Rule::Length)
            + failure_if(!email_is_valid(self.email@), Field::Email, Rule::Email)
    }

    /// Whether this input fails nothing.
    pub open spec fn is_valid(self) -> bool {
        self.raw_password@.len() >= PASSWORD_MIN_LENGTH && email_is_valid(self.email@)
    }

    /// Checks the password's length and the email's form.
    pub fn validate(&self) -> (checked: Result<(), ValidationErrors>)
        ensures
            match checked {
                Ok(_) => self.is_valid(),
                Err(list) => !self.is_valid() && list.errors@ == self.violations(),
            },
    {
        let mut list = ValidationErrors::new();
        let long_enough = validate_length(self.raw_password.as_str(), Some(PASSWORD_MIN_LENGTH), None);
        list.add_if(!long_enough, Field::RawPassword, Rule::Length);
        let well_formed = validate_email(self.email.as_str());
        list.add_if(!well_formed, Field::Email, Rule::Email);
        assert(list.errors@ =~= self.violations());
        list.into_result()
    }
}

/// What making a row of an input gives, where `id` is the identifier drawn
/// and `hash` what hashing the password gave: the list of what the input
/// fails; for an input that fails nothing, the row; and where the password
/// of such an input could not be hashed, that as the one failure.
pub open spec fn build_outcome(
    input: InputUserCredential,
    id: Seq<char>,
    hash: Option<Seq<char>>,
    built: Result<InsertableUserCredential, ValidationErrors>,
) -> bool {
    if !input.is_valid() {
        built matches Err(list) && list.errors@ == input.violations()
    } else {
        match hash {
            Some(h) => {
                &&& built matches Ok(row)
                &&& row.id@ == id
                &&& row.password_hash@ == h
                &&& row.email@ == input.email@
            },
            None => built matches Err(list) && list.errors@ == seq![
                FieldError { field: Field::RawPassword, rule: Rule::Hash },
            ],
        }
    }
}

impl InsertableUserCredential {
    /// The row for an input: a fresh random identifier, a hash of the
    /// password under a fresh random salt, and the email. An input that fails
    /// a rule gives the list of what it fails, and nothing is hashed.
    pub fn new(new_credential: InputUserCredential) -> (built: Result<Self, ValidationErrors>)
        ensures
            match built {
                Ok(row) => {
                    &&& new_credential.is_valid()
                    &&& is_uuid_text(row.id@)
                    &&& password_matches(new_credential.raw_password@, row.password_hash@)
                    &&& row.email@ == new_credential.email@
                },
                Err(list) => list.errors@ == if new_credential.is_valid() {
                    seq![FieldError { field: Field::RawPassword, rule: Rule::Hash }]
                } else {
                    new_credential.violations()
                },
            },
    {
        if let Err(list) = new_credential.validate() {
            return Err(list);
        }
        let id = new_uuid_text();
        let hash = hash_password(&new_credential.raw_password);
        Self::finish(new_credential, id, hash)
    }

    /// The row for an input, with the identifier `id` and the hash `hash`;
    /// `None` says that the password could not be hashed.
    pub fn build(new_credential: InputUserCredential, id: String, hash: Option<String>) -> (built:
        Result<Self, ValidationErrors>)
        ensures
            build_outcome(
                new_credential,
                id@,
                text_of(hash),
                built,
            ),
    {
        if let Err(list) = new_credential.validate() {
            return Err(list);
        }
        Self::finish(new_credential, id, hash)
    }

    /// The row for an input that fails nothing.
    fn finish(new_credential: InputUserCredential, id: String, hash: Option<String>) -> (built:
        Result<Self, ValidationErrors>)
        requires
            new_credential.is_valid(),
        ensures
            build_outcome(
                new_credential,
                id@,
                text_of(hash),
                built,
            ),
    {
        match hash {
            Some(password_hash) => Ok(Self { id, password_hash, email: new_credential.email }),
            None => {
                let mut list = ValidationErrors::new();
                list.add_if(true, Field::RawPassword, Rule::Hash);
                assert(list.errors@ =~= seq![FieldError { field: Field::RawPassword, rule: Rule::Hash }]);
                Err(list)
            },
        }
    }
}

/// The rows that are not deleted and have the email `email`.
pub open spec fn with_email(email: Seq<char>) -> spec_fn(UserCredential) -> bool {
    |row: UserCredential| row.deleted_at is None && row.email@ == email
}

/// The rows that are not deleted and have the identifier `id`.
pub open spec fn with_id(id: Seq<char>) -> spec_fn(UserCredential) -> bool {
    |row: UserCredential| row.deleted_at is None && row.id@ == id
}

/// The credential with the email `email`, if there is one.
pub open spec fn credential_by_email(rows: Seq<UserCredential>, email: Seq<char>) -> Option<
    UserCredential,
> {
    first_row(rows, with_email(email))
}

/// The credential with the identifier `id`, if there is one.
pub open spec fn credential_by_id(rows: Seq<UserCredential>, id: Seq<char>) -> Option<
    UserCredential,
> {
    first_row(rows, with_id(id))
}

/// The credential that `email` and `password` open: the one with that email,
/// if the password matches its hash.
pub open spec fn checked_credential(
    rows: Seq<UserCredential>,
    email: Seq<char>,
    password: Seq<char>,
) -> Option<UserCredential> {
    match credential_by_email(rows, email) {
        Some(row) => if password_matches(password, row.password_hash@) {
            Some(row)
        } else {
            None
        },
        None => None,
    }
}

/// Whether the table refuses a row with this identifier and email: no two
/// rows have one identifier, and no two rows that are not deleted have one
/// email.
pub open spec fn credential_conflicts(rows: Seq<UserCredential>, id: Seq<char>, email: Seq<char>) -> bool {
    exists|j: int|
        0 <= j < rows.len() && ((#[trigger] rows[j]).id@ == id || (rows[j].deleted_at is None
            && rows[j].email@ == email))
}

/// Whether `after` is the credential table `before` with one more row at its
/// end, which holds the identifier, hash and email given, was made at `now`
/// and is not deleted.
pub open spec fn credential_added(
    before: Seq<UserCredential>,
    after: Seq<UserCredential>,
    id: Seq<char>,
    hash: Seq<char>,
    email: Seq<char>,
    now: Timestamp,
) -> bool {
    &&& after.len() == before.len() + 1
    &&& after.drop_last() == before
    &&& after.last().id@ == id
    &&& after.last().password_hash@ == hash
    &&& after.last().email@ == email
    &&& after.last().created_at == now
    &&& after.last().updated_at == now
    &&& after.last().deleted_at is None
}

/// What inserting a credential row at `now` does: where the table refuses
/// it, nothing; else the row is added and its identifier returned. No other
/// table changes.
pub open spec fn credential_stored(
    before: Database,
    after: Database,
    id: Seq<char>,
    hash: Seq<char>,
    email: Seq<char>,
    now: Timestamp,
    stored: Option<String>,
) -> bool {
    &&& after.posts == before.posts
    &&& after.user_tokens == before.user_tokens
    &&& after.users == before.users
    &&& if credential_conflicts(before.user_credentials@, id, email) {
        stored is None && after.user_credentials@ == before.user_credentials@
    } else {
        &&& stored matches Some(s)
        &&& s@ == id
        &&& credential_added(before.user_credentials@, after.user_credentials@, id, hash, email, now)
    }
}

/// What registering an input does, where `id` is the identifier drawn,
/// `hash` what hashing the password gave and `now` the time: an input that
/// fails a rule, or whose password cannot be hashed, changes nothing and
/// gives the list of failures; any other is inserted as
/// [`credential_stored`] says.
pub open spec fn insert_outcome(
    before: Database,
    after: Database,
    input: InputUserCredential,
    id: Seq<char>,
    hash: Option<Seq<char>>,
    now: Timestamp,
    inserted: Result<Option<String>, ValidationErrors>,
) -> bool {
    if !input.is_valid() {
        inserted matches Err(list) && list.errors@ == input.violations() && after == before
    } else {
        match hash {
            Some(h) => inserted matches Ok(stored) && credential_stored(
                before,
                after,
                id,
                h,
                input.email@,
                now,
                stored,
            ),
            None => inserted matches Err(list) && list.errors@ == seq![
                FieldError { field: Field::RawPassword, rule: Rule::Hash },
            ] && after == before,
        }
    }
}

/// What a login with `email` and `password` gives: the credential that they
/// open, or else the one refusal that stands for an unknown email and for a
/// wrong password alike, with a delay within the bounds.
pub open spec fn login_outcome(
    rows: Seq<UserCredential>,
    email: Seq<char>,
    password: Seq<char>,
    checked: Result<UserCredential, AuthFailure>,
) -> bool {
    match checked {
        Ok(row) => checked_credential(rows, email, password) == Some(row),
        Err(refusal) => checked_credential(rows, email, password) is None && DELAY_MIN_MILLIS
            <= refusal.delay_millis < DELAY_MAX_MILLIS,
    }
}

impl ShownCredential {
    /// Whether this shows `credential`.
    pub open spec fn shows(self, credential: UserCredential) -> bool {
        &&& self.id@ == credential.id@
        &&& self.email@ == credential.email@
        &&& self.created_at == credential.created_at
        &&& self.updated_at == credential.updated_at
    }
}

impl UserCredential {
    /// This credential as its owner is shown it.
    pub fn shown(&self) -> (shown: ShownCredential)
        ensures
            shown.shows(*self),
    {
        ShownCredential {
            id: self.id.clone(),
            email: self.email.clone(),
            created_at: self.created_at,
            updated_at: self.updated_at,
        }
    }

    /// Registers an input: makes its row, with a fresh identifier and a hash
    /// of the password, and inserts it at the time that the clock shows.
    /// `Ok(None)` says that the table refused the row, because the email is
    /// in use.
    pub fn insert(user: InputUserCredential, db: &mut Database) -> (inserted: Result<
        Option<String>,
        ValidationErrors,
    >)
        ensures
            match inserted {
                Ok(stored) => {
                    &&& user.is_valid()
                    &&& exists|id: Seq<char>, hash: Seq<char>, now: Timestamp| #[trigger]
                        credential_stored(*old(db), *final(db), id, hash, user.email@, now, stored)
                            && is_uuid_text(id) && password_matches(user.raw_password@, hash)
                            && now.wf()
                },
                Err(list) => *final(db) == *old(db) && list.errors@ == if user.is_valid() {
                    seq![FieldError { field: Field::RawPassword, rule: Rule::Hash }]
                } else {
                    user.violations()
                },
            },
    {
        let ghost email = user.email@;
        match InsertableUserCredential::new(user) {
            Ok(row) => {
                let now = get_now_naive_date_time();
                let ghost id = row.id@;
                let ghost hash = row.password_hash@;
                let stored = Self::store(row, db, now);
                assert(credential_stored(*old(db), *db, id, hash, email, now, stored) && is_uuid_text(id)
                    && password_matches(user.raw_password@, hash) && now.wf());
                Ok(stored)
            },
            Err(list) => Err(list),
        }
    }

    /// Registers an input with the identifier `id`, the hash `hash` and the
    /// time `now`; `None` for the hash says that the password could not be
    /// hashed.
    pub fn insert_with(
        user: InputUserCredential,
        db: &mut Database,
        id: String,
        hash: Option<String>,
        now: Timestamp,
    ) -> (inserted: Result<Option<String>, ValidationErrors>)
        ensures
            insert_outcome(*old(db), *final(db), user, id@, text_of(hash), now, inserted),
    {
        match InsertableUserCredential::build(user, id, hash) {
            Ok(row) => Ok(Self::store(row, db, now)),
            Err(list) => Err(list),
        }
    }

    /// Inserts `row` at `now`, unless the table refuses it.
    pub fn store(row: InsertableUserCredential, db: &mut Database, now: Timestamp) -> (stored:
        Option<String>)
        ensures
            credential_stored(
                *old(db),
                *final(db),
                row.id@,
                row.password_hash@,
                row.email@,
                now,
                stored,
            ),
    {
        let mut i: usize = 0;
        while i < db.user_credentials.len()
            invariant
                i <= db.user_credentials@.len(),
                *db == *old(db),
                forall|j: int|
                    0 <= j < i ==> !((#[trigger] db.user_credentials@[j]).id@ == row.id@ || (
                    db.user_credentials@[j].deleted_at is None && db.user_credentials@[j].email@
                        == row.email@)),
            decreases db.user_credentials@.len() - i,
        {
            let held = &db.user_credentials[i];
            if held.id == row.id || (held.deleted_at.is_none() && held.email == row.email) {
                return None;
            }
            i += 1;
        }
        let id = row.id.clone();
        db.user_credentials.push(
            UserCredential {
                id: row.id,
                password_hash: row.password_hash,
                email: row.email,
                created_at: now,
                updated_at: now,
                deleted_at: None,
            },
        );
        assert(db.user_credentials@.drop_last() =~= old(db).user_credentials@);
        Some(id)
    }

    /// The credential with the identifier `user_id`, if there is one.
    pub fn fetch_by_id(user_id: &String, db: &Database) -> (found: Option<Self>)
        ensures
            found == credential_by_id(db.user_credentials@, user_id@),
    {
        let mut i: usize = 0;
        while i < db.user_credentials.len()
            invariant
                i <= db.user_credentials@.len(),
                forall|j: int| 0 <= j < i ==> !with_id(user_id@)(#[trigger] db.user_credentials@[j]),
            decreases db.user_credentials@.len() - i,
        {
            let row = &db.user_credentials[i];
            if row.deleted_at.is_none() && row.id == *user_id {
                proof {
                    lemma_first_row_found(db.user_credentials@, with_id(user_id@), i as int);
                }
                return Some(row.clone());
            }
            i += 1;
        }
        proof {
            lemma_first_row_missing(db.user_credentials@, with_id(user_id@));
        }
        None
    }

    /// The credential with the email `email`, if there is one.
    pub fn fetch_by_email(email: &String, db: &Database) -> (found: Option<Self>)
        ensures
            found == credential_by_email(db.user_credentials@, email@),
    {
        let mut i: usize = 0;
        while i < db.user_credentials.len()
            invariant
                i <= db.user_credentials@.len(),
                forall|j: int| 0 <= j < i ==> !with_email(email@)(#[trigger] db.user_credentials@[j]),
            decreases db.user_credentials@.len() - i,
        {
            let row = &db.user_credentials[i];
            if row.deleted_at.is_none() && row.email == *email {
                proof {
                    lemma_first_row_found(db.user_credentials@, with_email(email@), i as int);
                }
                return Some(row.clone());
            }
            i += 1;
        }
        proof {
            lemma_first_row_missing(db.user_credentials@, with_email(email@));
        }
        None
    }

    /// Checks an email and a password: the credential that they open is
    /// returned. An unknown email and a wrong password are refused in one and
    /// the same way, and each refusal carries a delay drawn at random from
    /// five up to, and not including, fifty milliseconds.
    pub fn verify_with_input(input_credential: &InputUserCredential, db: &Database) -> (checked:
        Result<Self, AuthFailure>)
        ensures
            login_outcome(
                db.user_credentials@,
                input_credential.email@,
                input_credential.raw_password@,
                checked,
            ),
    {
        match Self::verify_with_delay(input_credential, db, DELAY_MIN_MILLIS) {
            Ok(row) => Ok(row),
            Err(_) => Err(
                AuthFailure { delay_millis: random_in_range(DELAY_MIN_MILLIS, DELAY_MAX_MILLIS) },
            ),
        }
    }

    /// Checks an email and a password as [`UserCredential::verify_with_input`]
    /// does, with `delay_millis` as the delay of a refusal. The password is
    /// hashed once whether the email is known or not.
    pub fn verify_with_delay(
        input_credential: &InputUserCredential,
        db: &Database,
        delay_millis: u64,
    ) -> (checked: Result<Self, AuthFailure>)
        ensures
            match checked {
                Ok(row) => checked_credential(
                    db.user_credentials@,
                    input_credential.email@,
                    input_credential.raw_password@,
                ) == Some(row),
                Err(refusal) => checked_credential(
                    db.user_credentials@,
                    input_credential.email@,
                    input_credential.raw_password@,
                ) is None && refusal.delay_millis == delay_millis,
            },
    {
        let found = Self::fetch_by_email(&input_credential.email, db);
        let accepted = argon2_verify(
            HASH_MEMORY_COST,
            HASH_TIME_COST,
            HASH_PARALLELISM,
            input_credential.raw_password.as_str(),
            match &found {
                Some(row) => row.password_hash.as_str(),
                None => UNKNOWN_EMAIL_HASH,
            },
        );
        Self::decide(found, accepted, delay_millis)
    }

    /// What a login is answered with, given the credential that was found
    /// under the email, if one was, and whether its hash accepted the
    /// password: the credential if both hold, and else the one refusal, with
    /// `delay_millis` as its delay.
    pub fn decide(found: Option<Self>, accepted: bool, delay_millis: u64) -> (checked: Result<
        Self,
        AuthFailure,
    >)
        ensures
            match found {
                Some(row) => if accepted {
                    checked == Ok::<Self, AuthFailure>(row)
                } else {
                    checked == Err::<Self, AuthFailure>(AuthFailure { delay_millis })
                },
                None => checked == Err::<Self, AuthFailure>(AuthFailure { delay_millis }),
            },
    {
        match found {
            Some(row) => {
                if accepted {
                    Ok(row)
                } else {
                    Err(AuthFailure { delay_millis })
                }
            },
            None => Err(AuthFailure { delay_millis }),
        }
    }
}

/// A credential that was registered with an email and a password is opened
/// by that email and any password that its hash matches, the one it was
/// registered with among them, and the credential returned has the
/// identifier that registering returned.
pub proof fn lemma_registered_credential_verifies(
    before: Database,
    after: Database,
    id: Seq<char>,
    hash: Seq<char>,
    email: Seq<char>,
    password: Seq<char>,
    now: Timestamp,
    stored: Option<String>,
    checked: Result<UserCredential, AuthFailure>,
)
    requires
        credential_stored(before, after, id, hash, email, now, stored),
        stored is Some,
        password_matches(password, hash),
        login_outcome(after.user_credentials@, email, password, checked),
    ensures
        checked matches Ok(row) && row.id@ == stored->0@ && row.email@ == email,
{
    let rows = after.user_credentials@;
    let last = rows.len() - 1;
    assert forall|j: int| 0 <= j < last implies !with_email(email)(#[trigger] rows[j]) by {
        assert(rows[j] == before.user_credentials@[j]);
    }
    lemma_first_row_found(rows, with_email(email), last);
}

/// Two credential rows are apart if their identifiers differ and, unless one
/// of them is deleted, their emails.
pub open spec fn apart() -> spec_fn(UserCredential, UserCredential) -> bool {
    |a: UserCredential, b: UserCredential|
        a.id@ != b.id@ && (a.deleted_at is None && b.deleted_at is None ==> a.email@ != b.email@)
}

/// Inserting a credential keeps the keys of every table unique.
pub proof fn lemma_inserting_a_credential_keeps_the_keys_unique(
    before: Database,
    after: Database,
    id: Seq<char>,
    hash: Seq<char>,
    email: Seq<char>,
    now: Timestamp,
    stored: Option<String>,
)
    requires
        before.keys_are_unique(),
        credential_stored(before, after, id, hash, email, now, stored),
    ensures
        after.keys_are_unique(),
{
    let rows = before.user_credentials@;
    let next = after.user_credentials@;
    if !credential_conflicts(rows, id, email) {
        assert forall|i: int, j: int| 0 <= i < j < next.len() implies apart()(
            #[trigger] next[i],
            #[trigger] next[j],
        ) by {
            assert(next[i] == rows[i]);
            if j < rows.len() {
                assert(next[j] == rows[j]);
            }
        }
    }
}

} // verus!
