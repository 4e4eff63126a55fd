//! Profiles: what a user shows of themselves once they have signed up.

use vstd::prelude::*;

use crate::models::error::{ApiError, ApiErrorCode};
use crate::models::{get_now_naive_date_time, Date, Timestamp};
use crate::schema::{first_row, is_first, lemma_first_row_found, lemma_first_row_missing, Database};
use crate::validation::{
    failure_if, length_is_within, url_is_valid, validate_length, validate_url, Field, FieldError,
    Rule, ValidationErrors,
};

verus! {

/// The least and the greatest number of characters of a handle.
pub const ID_NAME_MIN_LENGTH: u64 = 3;

pub const ID_NAME_MAX_LENGTH: u64 = 20;

/// The least and the greatest number of characters of a display name.
pub const DISPLAY_NAME_MIN_LENGTH: u64 = 1;

pub const DISPLAY_NAME_MAX_LENGTH: u64 = 100;

/// The greatest number of characters of a description.
pub const DESCRIPTION_MAX_LENGTH: u64 = 300;

/// The greatest number of characters of a website address.
pub const WEBSITE_MAX_LENGTH: u64 = 100;

/// A profile, as a caller sends it to sign up.
#[derive(Debug, PartialEq, Eq)]
pub struct InputUser {
    pub id_name: String,
    pub display_name: String,
    pub description: String,
    pub birthday: Option<Date>,
    pub website: String,
    pub is_private: bool,
}

/// The changes to a profile, as a caller sends them. A field that is `None`
/// stays as it is.
#[derive(Debug, PartialEq, Eq)]
pub struct InputPatchUser {
    pub display_name: Option<String>,
    pub description: Option<String>,
    pub birthday: Option<Date>,
    pub website: String,
    pub is_private: bool,
}

/// A profile row that is ready to be inserted.
#[derive(Debug, PartialEq, Eq)]
pub struct InsertableUser {
    pub id: String,
    pub id_name: String,
    pub display_name: String,
    pub description: String,
    pub birthday: Option<Date>,
    pub website: String,
    pub is_private: bool,
}

/// A row of the profile table. Its `id` is the id of the credential that
/// the profile belongs to.
#[derive(Debug, PartialEq, Eq)]
pub struct User {
    pub id: String,
    pub id_name: String,
    pub display_name: String,
    pub description: String,
    pub birthday: Option<Date>,
    pub website: String,
    pub is_private: bool,
    pub created_at: Timestamp,
    pub updated_at: Timestamp,
    pub deleted_at: Option<Timestamp>,
}

/// A profile as others may see it: the only form in which a profile leaves
/// the library. The birthday of a private profile is not in it.
#[derive(Debug, PartialEq, Eq)]
pub struct FilteredUser(User);

/// A profile as others may see it, under the key `user`.
#[derive(Debug, PartialEq, Eq)]
pub enum UserTagged {
    User(FilteredUser),
}

impl Clone for User {
    fn clone(&self) -> (copy: Self)
        ensures
            copy == *self,
    {
        User {
            id: self.id.clone(),
            id_name: self.id_name.clone(),
            display_name: self.display_name.clone(),
            description: self.description.clone(),
            birthday: self.birthday,
            website: self.website.clone(),
            is_private: self.is_private,
            created_at: self.created_at,
            updated_at: self.updated_at,
            deleted_at: self.deleted_at,
        }
    }
}

/// Whether a birthday is refused on the day `today`: it is if it lies after
/// that day.
pub open spec fn birthday_is_refused(birthday: Option<Date>, today: Date) -> bool {
    birthday matches Some(date) && date.follows(today)
}

/// Whether a website address is refused: it is if it is not empty and is no
/// URL.
pub open spec fn website_is_refused(website: Seq<char>) -> bool {
    website.len() > 0 && !url_is_valid(website)
}

/// Whether a text that may be missing is there and has a length outside the
/// bounds.
pub open spec fn length_is_refused(text: Option<String>, min: Option<u64>, max: Option<u64>) -> bool {
    text matches Some(t) && !length_is_within(t@.len(), min, max)
}

/// Checks that a birthday does not lie after the day that the clock shows.
pub fn validate_birthday(birthday: &Date) -> (checked: Result<(), Rule>)
    ensures
        checked matches Err(rule) ==> rule == Rule::FutureBirthday,
        exists|now: Timestamp| #[trigger]
            now.wf() && (checked is Err <==> birthday.follows(now.calendar_date())),
{
    let now = get_now_naive_date_time();
    let checked = validate_birthday_on(birthday, &now.date());
    assert(now.wf() && (checked is Err <==> birthday.follows(now.calendar_date())));
    checked
}

/// Checks that a birthday does not lie after the day `today`.
pub fn validate_birthday_on(birthday: &Date, today: &Date) -> (checked: Result<(), Rule>)
    ensures
        match checked {
            Ok(_) => !birthday.follows(*today),
            Err(rule) => birthday.follows(*today) && rule == Rule::FutureBirthday,
        },
{
    if birthday.is_after(today) {
        return Err(Rule::FutureBirthday);
    }
    Ok(())
}

/// Checks that a website address is empty or a URL.
pub fn validate_website(website: &String) -> (checked: Result<(), Rule>)
    ensures
        match checked {
            Ok(_) => !website_is_refused(website@),
            Err(rule) => website_is_refused(website@) && rule == Rule::Url,
        },
{
    if website.as_str().is_empty() {
        return Ok(());
    }
    match validate_url(website.as_str()) {
        true => Ok(()),
        false => Err(Rule::Url),
    }
}

impl InputUser {
    /// What this input fails on the day `today`, field by field.
    pub open spec fn violations(self, today: Date) -> Seq<FieldError> {
        failure_if(
            !length_is_within(
                self.id_name@.len(),
                Some(ID_NAME_MIN_LENGTH),
                Some(ID_NAME_MAX_LENGTH),
            ),
            Field::IdName,
            Rule::Length,
        ) + failure_if(
            !length_is_within(
                self.display_name@.len(),
                Some(DISPLAY_NAME_MIN_LENGTH),
                Some(DISPLAY_NAME_MAX_LENGTH),
            ),
            Field::DisplayName,
            Rule::Length,
        ) + failure_if(
            !length_is_within(self.description@.len(), None, Some(DESCRIPTION_MAX_LENGTH)),
            Field::Description,
            Rule::Length,
        ) + failure_if(
            birthday_is_refused(self.birthday, today),
            Field::Birthday,
            Rule::FutureBirthday,
        ) + failure_if(website_is_refused(self.website@), Field::Website, Rule::Url) + failure_if(
            !length_is_within(self.website@.len(), None, Some(WEBSITE_MAX_LENGTH)),
            Field::Website,
            Rule::Length,
        )
    }

    /// Whether this input fails nothing on the day `today`.
    pub open spec fn is_valid(self, today: Date) -> bool {
        self.violations(today).len() == 0
    }

    /// Checks every field, with the day that the clock shows as today.
    pub fn validate(&self) -> (checked: Result<(), ValidationErrors>)
        ensures
            exists|now: Timestamp| #[trigger]
                now.wf() && (match checked {
                    Ok(_) => self.is_valid(now.calendar_date()),
                    Err(list) => !self.is_valid(now.calendar_date()) && list.errors@
                        == self.violations(now.calendar_date()),
                }),
    {
        let now = get_now_naive_date_time();
        let checked = self.validate_on(&now.date());
        assert(now.wf() && (match checked {
            Ok(_) => self.is_valid(now.calendar_date()),
            Err(list) => !self.is_valid(now.calendar_date()) && list.errors@ == self.violations(
                now.calendar_date(),
            ),
        }));
        checked
    }

    /// Checks every field, with `today` as today.
    pub fn validate_on(&self, today: &Date) -> (checked: Result<(), ValidationErrors>)
        ensures
            match checked {
                Ok(_) => self.is_valid(*today),
                Err(list) => !self.is_valid(*today) && list.errors@ == self.violations(*today),
            },
    {
        let mut list = ValidationErrors::new();
        let id_name_fits = validate_length(
            self.id_name.as_str(),
            Some(ID_NAME_MIN_LENGTH),
            Some(ID_NAME_MAX_LENGTH),
        );
        list.add_if(!id_name_fits, Field::IdName, Rule::Length);
        let display_name_fits = validate_length(
            self.display_name.as_str(),
            Some(DISPLAY_NAME_MIN_LENGTH),
            Some(DISPLAY_NAME_MAX_LENGTH),
        );
        list.add_if(!display_name_fits, Field::DisplayName, Rule::Length);
        let description_fits = validate_length(
            self.description.as_str(),
            None,
            Some(DESCRIPTION_MAX_LENGTH),
        );
        list.add_if(!description_fits, Field::Description, Rule::Length);
        let birthday_refused = match &self.birthday {
            Some(date) => validate_birthday_on(date, today).is_err(),
            None => false,
        };
        list.add_if(birthday_refused, Field::Birthday, Rule::FutureBirthday);
        let website_refused = validate_website(&self.website).is_err();
        list.add_if(website_refused, Field::Website, Rule::Url);
        let website_fits = validate_length(self.website.as_str(), None, Some(WEBSITE_MAX_LENGTH));
        list.add_if(!website_fits, Field::Website, Rule::Length);
        assert(list.errors@ =~= self.violations(*today));
        list.into_result()
    }
}

impl InputPatchUser {
    /// What this input fails on the day `today`, field by field. A field that
    /// is `None` fails nothing.
    pub open spec fn violations(self, today: Date) -> Seq<FieldError> {
        failure_if(
            length_is_refused(
                self.display_name,
                Some(DISPLAY_NAME_MIN_LENGTH),
                Some(DISPLAY_NAME_MAX_LENGTH),
            ),
            Field::DisplayName,
            Rule::Length,
        ) + failure_if(
            length_is_refused(self.description, None, Some(DESCRIPTION_MAX_LENGTH)),
            Field::Description,
            Rule::Length,
        ) + failure_if(
            birthday_is_refused(self.birthday, today),
            Field::Birthday,
            Rule::FutureBirthday,
        ) + failure_if(website_is_refused(self.website@), Field::Website, Rule::Url) + failure_if(
            !length_is_within(self.website@.len(), None, Some(WEBSITE_MAX_LENGTH)),
            Field::Website,
            Rule::Length,
        )
    }

    /// Whether this input fails nothing on the day `today`.
    pub open spec fn is_valid(self, today: Date) -> bool {
        self.violations(today).len() == 0
    }

    /// Checks every field that is there, with the day that the clock shows
    /// as today.
    pub fn validate(&self) -> (checked: Result<(), ValidationErrors>)
        ensures
            exists|now: Timestamp| #[trigger]
                now.wf() && (match checked {
                    Ok(_) => self.is_valid(now.calendar_date()),
                    Err(list) => !self.is_valid(now.calendar_date()) && list.errors@
                        == self.violations(now.calendar_date()),
                }),
    {
        let now = get_now_naive_date_time();
        let checked = self.validate_on(&now.date());
        assert(now.wf() && (match checked {
            Ok(_) => self.is_valid(now.calendar_date()),
            Err(list) => !self.is_valid(now.calendar_date()) && list.errors@ == self.violations(
                now.calendar_date(),
            ),
        }));
        checked
    }

    /// Checks every field that is there, with `today` as today.
    pub fn validate_on(&self, today: &Date) -> (checked: Result<(), ValidationErrors>)
        ensures
            match checked {
                Ok(_) => self.is_valid(*today),
                Err(list) => !self.is_valid(*today) && list.errors@ == self.violations(*today),
            },
    {
        let mut list = ValidationErrors::new();
        let display_name_refused = match &self.display_name {
            Some(name) => !validate_length(
                name.as_str(),
                Some(DISPLAY_NAME_MIN_LENGTH),
                Some(DISPLAY_NAME_MAX_LENGTH),
            ),
            None => false,
        };
        list.add_if(display_name_refused, Field::DisplayName, Rule::Length);
        let description_refused = match &self.description {
            Some(text) => !validate_length(text.as_str(), None, Some(DESCRIPTION_MAX_LENGTH)),
            None => false,
        };
        list.add_if(description_refused, Field::Description, Rule::Length);
        let birthday_refused = match &self.birthday {
            Some(date) => validate_birthday_on(date, today).is_err(),
            None => false,
        };
        list.add_if(birthday_refused, Field::Birthday, Rule::FutureBirthday);
        let website_refused = validate_website(&self.website).is_err();
        list.add_if(website_refused, Field::Website, Rule::Url);
        let website_fits = validate_length(self.website.as_str(), None, Some(WEBSITE_MAX_LENGTH));
        list.add_if(!website_fits, Field::Website, Rule::Length);
        assert(list.errors@ =~= self.violations(*today));
        list.into_result()
    }
}

impl InsertableUser {
    /// Whether this row holds what `input` holds, under the identifier `id`.
    pub open spec fn is_made_of(self, input: InputUser, id: Seq<char>) -> bool {
        &&& self.id@ == id
        &&& self.id_name@ == input.id_name@
        &&& self.display_name@ == input.display_name@
        &&& self.description@ == input.description@
        &&& self.birthday == input.birthday
        &&& self.website@ == input.website@
        &&& self.is_private == input.is_private
    }

    /// The row for an input that fails nothing on the day that the clock
    /// shows; else the list of what it fails.
    pub fn new(new_user: InputUser, user_id: String) -> (built: Result<Self, ValidationErrors>)
        ensures
            exists|now: Timestamp| #[trigger]
                now.wf() && Self::build_outcome(new_user, user_id@, now.calendar_date(), built),
    {
        let now = get_now_naive_date_time();
        let built = Self::new_on(new_user, user_id, &now.date());
        assert(now.wf() && Self::build_outcome(new_user, user_id@, now.calendar_date(), built));
        built
    }

    /// What making a row gives on the day `today`.
    pub open spec fn build_outcome(
        input: InputUser,
        id: Seq<char>,
        today: Date,
        built: Result<Self, ValidationErrors>,
    ) -> bool {
        match built {
            Ok(row) => input.is_valid(today) && row.is_made_of(input, id),
            Err(list) => !input.is_valid(today) && list.errors@ == input.violations(today),
        }
    }

    /// The row for an input that fails nothing on the day `today`; else the
    /// list of what it fails.
    pub fn new_on(new_user: InputUser, user_id: String, today: &Date) -> (built: Result<
        Self,
        ValidationErrors,
    >)
        ensures
            Self::build_outcome(new_user, user_id@, *today, built),
    {
        if let Err(list) = new_user.validate_on(today) {
            return Err(list);
        }
        Ok(
            Self {
                id: user_id,
                id_name: new_user.id_name,
                display_name: new_user.display_name,
                description: new_user.description,
                birthday: new_user.birthday,
                website: new_user.website,
                is_private: new_user.is_private,
            },
        )
    }
}

impl View for FilteredUser {
    type V = User;

    /// The profile as it is shown.
    closed spec fn view(&self) -> User {
        self.0
    }
}

impl FilteredUser {
    #[verifier::type_invariant]
    spec fn birthday_is_hidden(self) -> bool {
        self.0.is_private ==> self.0.birthday is None
    }

    /// The profile as it is shown. Whoever reads it learns that a private
    /// profile shows no birthday.
    pub fn user(&self) -> (shown: &User)
        ensures
            *shown == self@,
            shown.is_private ==> shown.birthday is None,
    {
        proof {
            use_type_invariant(self);
        }
        &self.0
    }
}

impl Clone for FilteredUser {
    fn clone(&self) -> (copy: Self)
        ensures
            copy@ == self@,
    {
        proof {
            use_type_invariant(self);
        }
        FilteredUser(self.0.clone())
    }
}

impl UserTagged {
    /// The profile under the key.
    pub open spec fn shown(self) -> User {
        match self {
            UserTagged::User(filtered) => filtered@,
        }
    }
}

/// The rows that are not deleted and have the identifier `id`.
pub open spec fn with_id(id: Seq<char>) -> spec_fn(User) -> bool {
    |row: User| row.deleted_at is None && row.id@ == id
}

/// The profile with the identifier `id`, if there is one.
pub open spec fn user_by_id(rows: Seq<User>, id: Seq<char>) -> Option<User> {
    first_row(rows, with_id(id))
}

/// Whether the table refuses a row with this identifier and handle: no two
/// rows have one identifier, and no two rows that are not deleted have one
/// handle.
pub open spec fn user_conflicts(rows: Seq<User>, id: Seq<char>, id_name: Seq<char>) -> bool {
    exists|j: int|
        0 <= j < rows.len() && ((#[trigger] rows[j]).id@ == id || (rows[j].deleted_at is None
            && rows[j].id_name@ == id_name))
}

impl User {
    /// This profile as others may see it: without the birthday if the
    /// profile is private, and with every other field as it is.
    pub open spec fn outward(self) -> User {
        User {
            birthday: if self.is_private {
                None
            } else {
                self.birthday
            },
            ..self
        }
    }

    /// Whether this is the row that `row` becomes when it is inserted at
    /// `now`.
    pub open spec fn is_stored(self, row: InsertableUser, now: Timestamp) -> bool {
        &&& self.id@ == row.id@
        &&& self.id_name@ == row.id_name@
        &&& self.display_name@ == row.display_name@
        &&& self.description@ == row.description@
        &&& self.birthday == row.birthday
        &&& self.website@ == row.website@
        &&& self.is_private == row.is_private
        &&& self.created_at == now
        &&& self.updated_at == now
        &&& self.deleted_at is None
    }

    /// Whether this is the row that `before` becomes when `patch` is applied
    /// to it at `now`: the display name, the description and the birthday
    /// change where the patch holds one, the website and the privacy flag
    /// change always, and the identifier and the handle never.
    pub open spec fn is_patched(self, before: User, patch: InputPatchUser, now: Timestamp) -> bool {
        &&& self.id == before.id
        &&& self.id_name == before.id_name
        &&& self.display_name@ == match patch.display_name {
            Some(name) => name@,
            None => before.display_name@,
        }
        &&& self.description@ == match patch.description {
            Some(text) => text@,
            None => before.description@,
        }
        &&& self.birthday == match patch.birthday {
            Some(date) => Some(date),
            None => before.birthday,
        }
        &&& self.website@ == patch.website@
        &&& self.is_private == patch.is_private
        &&& self.created_at == before.created_at
        &&& self.updated_at == now
        &&& self.deleted_at == before.deleted_at
    }

    /// This profile as others may see it, under the key `user`.
    pub fn wrap_tagged(self) -> (tagged: UserTagged)
        ensures
            tagged.shown() == self.outward(),
    {
        UserTagged::User(self.filter_for_response())
    }

    /// This profile as others may see it.
    pub fn filter_for_response(&self) -> (filtered: FilteredUser)
        ensures
            filtered@ == self.outward(),
    {
        let mut user = self.clone();
        if !user.is_private {
            return FilteredUser(user);
        }
        user.birthday = None;

        FilteredUser(user)
    }

    /// Signs a profile up for the credential `user_id`, at the time that the
    /// clock shows. `Ok(None)` says that the table refused the row, because
    /// the credential has a profile or the handle is in use.
    pub fn insert(user: InputUser, user_id: String, db: &mut Database) -> (inserted: Result<
        Option<String>,
        ValidationErrors,
    >)
        ensures
            exists|now: Timestamp| #[trigger]
                now.wf() && insert_outcome(*old(db), *final(db), user, user_id@, now, inserted),
    {
        let now = get_now_naive_date_time();
        let inserted = Self::insert_at(user, user_id, db, now);
        assert(now.wf() && insert_outcome(*old(db), *db, user, user_id@, now, inserted));
        inserted
    }

    /// Signs a profile up for the credential `user_id` at `now`.
    pub fn insert_at(user: InputUser, user_id: String, db: &mut Database, now: Timestamp) -> (inserted:
        Result<Option<String>, ValidationErrors>)
        ensures
            insert_outcome(*old(db), *final(db), user, user_id@, now, inserted),
    {
        match InsertableUser::new_on(user, user_id, &now.date()) {
            Ok(row) => Ok(Self::store(row, db, now)),
            Err(list) => Err(list),
        }
    }

    /// Inserts `row` at `now`, unless the table refuses it.
    pub fn store(row: InsertableUser, db: &mut Database, now: Timestamp) -> (stored: Option<String>)
        ensures
            user_stored(*old(db), *final(db), row, now, stored),
    {
        let mut i: usize = 0;
        while i < db.users.len()
            invariant
                i <= db.users@.len(),
                *db == *old(db),
                forall|j: int|
                    0 <= j < i ==> !((#[trigger] db.users@[j]).id@ == row.id@ || (
                    db.users@[j].deleted_at is None && db.users@[j].id_name@ == row.id_name@)),
            decreases db.users@.len() - i,
        {
            let held = &db.users[i];
            if held.id == row.id || (held.deleted_at.is_none() && held.id_name == row.id_name) {
                return None;
            }
            i += 1;
        }
        let id = row.id.clone();
        db.users.push(
            User {
                id: row.id,
                id_name: row.id_name,
                display_name: row.display_name,
                description: row.description,
                birthday: row.birthday,
                website: row.website,
                is_private: row.is_private,
                created_at: now,
                updated_at: now,
                deleted_at: None,
            },
        );
        assert(db.users@.drop_last() =~= old(db).users@);
        Some(id)
    }

    /// Changes the profile with the identifier `user_id` as `user` says, at
    /// the time that the clock shows, and returns it as it then is.
    pub fn update(user: InputPatchUser, user_id: &String, db: &mut Database) -> (updated: Result<
        User,
        ApiError,
    >)
        ensures
            exists|now: Timestamp| #[trigger]
                now.wf() && update_outcome(*old(db), *final(db), user, user_id@, now, updated),
    {
        let now = get_now_naive_date_time();
        let updated = Self::update_at(user, user_id, db, now);
        assert(now.wf() && update_outcome(*old(db), *db, user, user_id@, now, updated));
        updated
    }

    /// Changes the profile with the identifier `user_id` as `user` says, at
    /// `now`, and returns it as it then is. A patch that fails a rule and an
    /// identifier that no profile has change nothing.
    pub fn update_at(user: InputPatchUser, user_id: &String, db: &mut Database, now: Timestamp) -> (updated:
        Result<User, ApiError>)
        ensures
            update_outcome(*old(db), *final(db), user, user_id@, now, updated),
    {
        if let Err(_) = user.validate_on(&now.date()) {
            return Err(ApiError::new(ApiErrorCode::InvalidRequest, "Invalid parameter."));
        }
        let ghost wanted = with_id(user_id@);
        let mut rows: Vec<User> = Vec::new();
        let mut first: Option<User> = None;
        let ghost mut at: int = 0;
        let mut i: usize = 0;
        while i < db.users.len()
            invariant
                i <= db.users@.len(),
                *db == *old(db),
                wanted == with_id(user_id@),
                rows@.len() == i,
                forall|j: int|
                    0 <= j < i ==> if wanted(db.users@[j]) {
                        (#[trigger] rows@[j]).is_patched(db.users@[j], user, now)
                    } else {
                        rows@[j] == db.users@[j]
                    },
                match first {
                    Some(row) => 0 <= at < i && is_first(db.users@, wanted, at) && rows@[at] == row,
                    None => forall|j: int| 0 <= j < i ==> !wanted(#[trigger] db.users@[j]),
                },
            decreases db.users@.len() - i,
        {
            let row = &db.users[i];
            if row.deleted_at.is_none() && row.id == *user_id {
                let patched = User {
                    id: row.id.clone(),
                    id_name: row.id_name.clone(),
                    display_name: match &user.display_name {
                        Some(name) => name.clone(),
                        None => row.display_name.clone(),
                    },
                    description: match &user.description {
                        Some(text) => text.clone(),
                        None => row.description.clone(),
                    },
                    birthday: match user.birthday {
                        Some(date) => Some(date),
                        None => row.birthday,
                    },
                    website: user.website.clone(),
                    is_private: user.is_private,
                    created_at: row.created_at,
                    updated_at: now,
                    deleted_at: row.deleted_at,
                };
                if first.is_none() {
                    first = Some(patched.clone());
                    proof {
                        at = i as int;
                    }
                }
                rows.push(patched);
            } else {
                rows.push(row.clone());
            }
            i += 1;
        }
        match first {
            Some(row) => {
                proof {
                    assert forall|j: int| 0 <= j < at implies !wanted(#[trigger] rows@[j]) by {
                        assert(!wanted(db.users@[j]));
                    }
                    lemma_first_row_found(db.users@, wanted, at);
                    lemma_first_row_found(rows@, wanted, at);
                }
                db.users = rows;
                Ok(row)
            },
            None => {
                proof {
                    lemma_first_row_missing(db.users@, wanted);
                }
                Err(ApiError::new(ApiErrorCode::NotFound, "User does not exist."))
            },
        }
    }

    /// The profile with the identifier `user_id`, if there is one.
    pub fn fetch_by_id(user_id: &String, db: &Database) -> (found: Option<User>)
        ensures
            found == user_by_id(db.users@, user_id@),
    {
        let mut i: usize = 0;
        while i < db.users.len()
            invariant
                i <= db.users@.len(),
                forall|j: int| 0 <= j < i ==> !with_id(user_id@)(#[trigger] db.users@[j]),
            decreases db.users@.len() - i,
        {
            let row = &db.users[i];
            if row.deleted_at.is_none() && row.id == *user_id {
                proof {
                    lemma_first_row_found(db.users@, with_id(user_id@), i as int);
                }
                return Some(row.clone());
            }
            i += 1;
        }
        proof {
            lemma_first_row_missing(db.users@, with_id(user_id@));
        }
        None
    }
}

/// What inserting a profile row at `now` does: where the table refuses it,
/// nothing; else the row is added and its identifier returned. No other
/// table changes.
pub open spec fn user_stored(
    before: Database,
    after: Database,
    row: InsertableUser,
    now: Timestamp,
    stored: Option<String>,
) -> bool {
    &&& after.posts == before.posts
    &&& after.user_credentials == before.user_credentials
    &&& after.user_tokens == before.user_tokens
    &&& if user_conflicts(before.users@, row.id@, row.id_name@) {
        stored is None && after.users@ == before.users@
    } else {
        &&& stored matches Some(s)
        &&& s@ == row.id@
        &&& after.users@.len() == before.users@.len() + 1
        &&& after.users@.drop_last() == before.users@
        &&& after.users@.last().is_stored(row, now)
    }
}

/// What signing a profile up at `now` does: an input that fails a rule on
/// the day of `now` changes nothing and gives the list of what it fails; any
/// other is inserted as [`user_stored`] says.
pub open spec fn insert_outcome(
    before: Database,
    after: Database,
    input: InputUser,
    id: Seq<char>,
    now: Timestamp,
    inserted: Result<Option<String>, ValidationErrors>,
) -> bool {
    match inserted {
        Ok(stored) => input.is_valid(now.calendar_date()) && exists|row: InsertableUser| #[trigger]
            row.is_made_of(input, id) && user_stored(before, after, row, now, stored),
        Err(list) => !input.is_valid(now.calendar_date()) && list.errors@ == input.violations(
            now.calendar_date(),
        ) && after == before,
    }
}

/// Whether `after` is the profile table `before` with `patch` applied at
/// `now` to every row that is not deleted and has the identifier `id`.
pub open spec fn users_patched(
    before: Seq<User>,
    after: Seq<User>,
    patch: InputPatchUser,
    id: Seq<char>,
    now: Timestamp,
) -> bool {
    &&& after.len() == before.len()
    &&& forall|j: int|
        0 <= j < before.len() ==> if with_id(id)(before[j]) {
            (#[trigger] after[j]).is_patched(before[j], patch, now)
        } else {
            after[j] == before[j]
        }
}

/// What changing a profile at `now` does: a patch that fails a rule on the
/// day of `now` is refused as an invalid request, and an identifier that no
/// profile has as not found, both without a change; else the patch is
/// applied and the profile returned as it then is. No other table changes.
pub open spec fn update_outcome(
    before: Database,
    after: Database,
    patch: InputPatchUser,
    id: Seq<char>,
    now: Timestamp,
    updated: Result<User, ApiError>,
) -> bool {
    &&& after.posts == before.posts
    &&& after.user_credentials == before.user_credentials
    &&& after.user_tokens == before.user_tokens
    &&& if !patch.is_valid(now.calendar_date()) {
        &&& updated matches Err(error)
        &&& error.says(ApiErrorCode::InvalidRequest, "Invalid parameter."@)
        &&& after.users@ == before.users@
    } else if user_by_id(before.users@, id) is None {
        &&& updated matches Err(error)
        &&& error.says(ApiErrorCode::NotFound, "User does not exist."@)
        &&& after.users@ == before.users@
    } else {
        &&& updated matches Ok(row)
        &&& users_patched(before.users@, after.users@, patch, id, now)
        &&& user_by_id(after.users@, id) == Some(row)
        &&& row.is_patched(user_by_id(before.users@, id)->0, patch, now)
    }
}

/// A profile as others may see it shows no birthday if it is private, and
/// the birthday it has if it is not; nothing else of it is changed.
pub proof fn lemma_outward_hides_the_birthday_of_a_private_profile(user: User)
    ensures
        user.is_private ==> user.outward().birthday is None,
        !user.is_private ==> user.outward() == user,
        user.outward().id == user.id,
        user.outward().id_name == user.id_name,
        user.outward().display_name == user.display_name,
        user.outward().description == user.description,
        user.outward().website == user.website,
        user.outward().is_private == user.is_private,
        user.outward().created_at == user.created_at,
        user.outward().updated_at == user.updated_at,
        user.outward().deleted_at == user.deleted_at,
        user.outward().outward() == user.outward(),
{
}

/// Two profile rows are apart if their identifiers differ and, unless one of
/// them is deleted, their handles.
pub open spec fn apart() -> spec_fn(User, User) -> bool {
    |a: User, b: User|
        a.id@ != b.id@ && (a.deleted_at is None && b.deleted_at is None ==> a.id_name@
            != b.id_name@)
}

/// Inserting a profile keeps the keys of every table unique.
pub proof fn lemma_inserting_a_profile_keeps_the_keys_unique(
    before: Database,
    after: Database,
    row: InsertableUser,
    now: Timestamp,
    stored: Option<String>,
)
    requires
        before.keys_are_unique(),
        user_stored(before, after, row, now, stored),
    ensures
        after.keys_are_unique(),
{
    let rows = before.users@;
    let next = after.users@;
    if !user_conflicts(rows, row.id@, row.id_name@) {
        assert forall|i: int, j: int| 0 <= i < j < next.len() implies apart()(
            #[trigger] next[i],
            #[trigger] next[j],
        ) by {
            assert(next[i] == rows[i]);
            if j < rows.len() {
                assert(next[j] == rows[j]);
            }
        }
    }
}

/// Changing a profile keeps the keys of every table unique: a patch changes
/// neither an identifier nor a handle.
pub proof fn lemma_changing_a_profile_keeps_the_keys_unique(
    before: Database,
    after: Database,
    patch: InputPatchUser,
    id: Seq<char>,
    now: Timestamp,
    updated: Result<User, ApiError>,
)
    requires
        before.keys_are_unique(),
        update_outcome(before, after, patch, id, now, updated),
    ensures
        after.keys_are_unique(),
{
    let rows = before.users@;
    let next = after.users@;
    if updated is Ok {
        assert forall|i: int, j: int| 0 <= i < j < next.len() implies apart()(
            #[trigger] next[i],
            #[trigger] next[j],
        ) by {
            assert(apart()(rows[i], rows[j]));
        }
    }
}

} // verus!
