use social_backend::models::error::ApiErrorCode;
use social_backend::models::user::{
    validate_birthday, validate_birthday_on, validate_website, InputPatchUser, InputUser,
    InsertableUser, User, UserTagged,
};
use social_backend::models::{Date, Timestamp};
use social_backend::schema::Database;
use social_backend::validation::{Field, FieldError, Rule};

fn text(s: &str) -> String {
    s.to_string()
}

fn today() -> Date {
    Date { day: 738_000 }
}

fn noon() -> Timestamp {
    Timestamp { day: 738_000, secs: 43_200, nanos: 0 }
}

fn ann() -> InputUser {
    InputUser {
        id_name: text("ann"),
        display_name: text("Ann"),
        description: text("Hello."),
        birthday: Some(Date { day: 730_000 }),
        website: text("https://ann.example.com"),
        is_private: false,
    }
}

fn patch() -> InputPatchUser {
    InputPatchUser {
        display_name: None,
        description: None,
        birthday: None,
        website: text(""),
        is_private: false,
    }
}

fn row(is_private: bool, birthday: Option<Date>) -> User {
    User {
        id: text("user-1"),
        id_name: text("ann"),
        display_name: text("Ann"),
        description: text("Hello."),
        birthday,
        website: text("https://ann.example.com"),
        is_private,
        created_at: noon(),
        updated_at: noon(),
        deleted_at: None,
    }
}

fn one(field: Field, rule: Rule) -> Vec<FieldError> {
    vec![FieldError { field, rule }]
}

#[test]
fn private_profile_never_shows_its_birthday() {
    let user = row(true, Some(Date { day: 730_000 }));
    let shown = user.filter_for_response();
    assert_eq!(shown.user().birthday, None);
    assert_eq!(*shown.user(), row(true, None));
    match user.wrap_tagged() {
        UserTagged::User(tagged) => assert_eq!(*tagged.user(), row(true, None)),
    }
}

#[test]
fn public_profile_always_shows_its_birthday() {
    let user = row(false, Some(Date { day: 730_000 }));
    let shown = user.filter_for_response();
    assert_eq!(shown.user().birthday, Some(Date { day: 730_000 }));
    assert_eq!(*shown.user(), user);
    assert_eq!(*shown.clone().user(), user);
}

#[test]
fn profile_without_a_birthday_shows_none() {
    assert_eq!(*row(false, None).filter_for_response().user(), row(false, None));
    assert_eq!(*row(true, None).filter_for_response().user(), row(true, None));
}

#[test]
fn valid_input_fails_nothing() {
    assert_eq!(ann().validate_on(&today()), Ok(()));
    assert_eq!(ann().validate(), Ok(()));
}

#[test]
fn handle_has_three_to_twenty_characters() {
    for (handle, valid) in [
        ("an", false),
        ("ann", true),
        ("a234567890b234567890", true),
        ("a234567890b234567890c", false),
        ("", false),
    ] {
        let mut input = ann();
        input.id_name = text(handle);
        let checked = input.validate_on(&today());
        if valid {
            assert_eq!(checked, Ok(()));
        } else {
            assert_eq!(checked.unwrap_err().errors, one(Field::IdName, Rule::Length));
        }
    }
}

#[test]
fn display_name_has_one_to_a_hundred_characters() {
    for (length, valid) in [(0, false), (1, true), (100, true), (101, false)] {
        let mut input = ann();
        input.display_name = "n".repeat(length);
        let checked = input.validate_on(&today());
        if valid {
            assert_eq!(checked, Ok(()));
        } else {
            assert_eq!(checked.unwrap_err().errors, one(Field::DisplayName, Rule::Length));
        }
    }
}

#[test]
fn description_has_at_most_three_hundred_characters() {
    for (length, valid) in [(0, true), (300, true), (301, false)] {
        let mut input = ann();
        input.description = "d".repeat(length);
        let checked = input.validate_on(&today());
        if valid {
            assert_eq!(checked, Ok(()));
        } else {
            assert_eq!(checked.unwrap_err().errors, one(Field::Description, Rule::Length));
        }
    }
}

#[test]
fn birthday_may_be_today_and_not_tomorrow() {
    assert_eq!(validate_birthday_on(&Date { day: 738_000 }, &today()), Ok(()));
    assert_eq!(validate_birthday_on(&Date { day: 737_999 }, &today()), Ok(()));
    assert_eq!(validate_birthday_on(&Date { day: 738_001 }, &today()), Err(Rule::FutureBirthday));
    let mut input = ann();
    input.birthday = Some(Date { day: 738_001 });
    assert_eq!(
        input.validate_on(&today()).unwrap_err().errors,
        one(Field::Birthday, Rule::FutureBirthday)
    );
    input.birthday = None;
    assert_eq!(input.validate_on(&today()), Ok(()));
}

#[test]
fn birthday_is_held_against_the_clock() {
    assert_eq!(validate_birthday(&Date { day: 700_000 }), Ok(()));
    assert_eq!(validate_birthday(&Date { day: 900_000 }), Err(Rule::FutureBirthday));
    let mut input = ann();
    input.birthday = Some(Date { day: 900_000 });
    assert_eq!(input.validate().unwrap_err().errors, one(Field::Birthday, Rule::FutureBirthday));
    let mut change = patch();
    change.birthday = Some(Date { day: 900_000 });
    assert_eq!(change.validate().unwrap_err().errors, one(Field::Birthday, Rule::FutureBirthday));
    assert_eq!(patch().validate(), Ok(()));
}

#[test]
fn website_is_empty_or_a_url() {
    assert_eq!(validate_website(&text("")), Ok(()));
    assert_eq!(validate_website(&text("https://ann.example.com")), Ok(()));
    assert_eq!(validate_website(&text("ftp://localhost:80")), Ok(()));
    assert_eq!(validate_website(&text("http")), Err(Rule::Url));
    assert_eq!(validate_website(&text("ann.example.com")), Err(Rule::Url));
}

#[test]
fn website_has_at_most_a_hundred_characters() {
    let mut input = ann();
    input.website = format!("https://example.com/{}", "w".repeat(80));
    assert_eq!(input.website.chars().count(), 100);
    assert_eq!(input.validate_on(&today()), Ok(()));
    input.website.push('w');
    assert_eq!(input.validate_on(&today()).unwrap_err().errors, one(Field::Website, Rule::Length));
}

#[test]
fn website_can_fail_both_of_its_rules() {
    let mut input = ann();
    input.website = "w".repeat(101);
    assert_eq!(
        input.validate_on(&today()).unwrap_err().errors,
        vec![
            FieldError { field: Field::Website, rule: Rule::Url },
            FieldError { field: Field::Website, rule: Rule::Length },
        ]
    );
}

#[test]
fn every_failure_of_an_input_is_listed_in_the_order_of_the_fields() {
    let input = InputUser {
        id_name: text("a"),
        display_name: text(""),
        description: "d".repeat(301),
        birthday: Some(Date { day: 738_001 }),
        website: text("nowhere"),
        is_private: true,
    };
    assert_eq!(
        input.validate_on(&today()).unwrap_err().errors,
        vec![
            FieldError { field: Field::IdName, rule: Rule::Length },
            FieldError { field: Field::DisplayName, rule: Rule::Length },
            FieldError { field: Field::Description, rule: Rule::Length },
            FieldError { field: Field::Birthday, rule: Rule::FutureBirthday },
            FieldError { field: Field::Website, rule: Rule::Url },
        ]
    );
}

#[test]
fn patch_checks_only_what_it_holds() {
    assert_eq!(patch().validate_on(&today()), Ok(()));
    let change = InputPatchUser {
        display_name: Some(text("")),
        description: Some("d".repeat(301)),
        birthday: Some(Date { day: 738_001 }),
        website: text("nowhere"),
        is_private: false,
    };
    assert_eq!(
        change.validate_on(&today()).unwrap_err().errors,
        vec![
            FieldError { field: Field::DisplayName, rule: Rule::Length },
            FieldError { field: Field::Description, rule: Rule::Length },
            FieldError { field: Field::Birthday, rule: Rule::FutureBirthday },
            FieldError { field: Field::Website, rule: Rule::Url },
        ]
    );
}

#[test]
fn insertable_row_holds_the_input_under_the_identifier() {
    let built = InsertableUser::new_on(ann(), text("user-1"), &today()).unwrap();
    assert_eq!(
        built,
        InsertableUser {
            id: text("user-1"),
            id_name: text("ann"),
            display_name: text("Ann"),
            description: text("Hello."),
            birthday: Some(Date { day: 730_000 }),
            website: text("https://ann.example.com"),
            is_private: false,
        }
    );
    assert_eq!(InsertableUser::new(ann(), text("user-1")).unwrap(), built);
    let mut bad = ann();
    bad.id_name = text("a");
    assert_eq!(
        InsertableUser::new_on(bad, text("user-1"), &today()).unwrap_err().errors,
        one(Field::IdName, Rule::Length)
    );
}

#[test]
fn inserted_profile_is_found_by_its_identifier() {
    let mut db = Database::new();
    assert_eq!(User::insert_at(ann(), text("user-1"), &mut db, noon()), Ok(Some(text("user-1"))));
    assert_eq!(
        User::fetch_by_id(&text("user-1"), &db),
        Some(row(false, Some(Date { day: 730_000 })))
    );
    assert_eq!(User::fetch_by_id(&text("user-2"), &db), None);
}

#[test]
fn profile_inserted_by_the_clock_is_found() {
    let mut db = Database::new();
    assert_eq!(User::insert(ann(), text("user-1"), &mut db), Ok(Some(text("user-1"))));
    let found = User::fetch_by_id(&text("user-1"), &db).unwrap();
    assert_eq!(found.id_name, "ann");
    assert_eq!(found.created_at, found.updated_at);
    assert!(found.created_at.day > 730_000);
}

#[test]
fn second_profile_of_a_credential_is_refused() {
    let mut db = Database::new();
    User::insert_at(ann(), text("user-1"), &mut db, noon()).unwrap();
    let mut other = ann();
    other.id_name = text("anna");
    assert_eq!(User::insert_at(other, text("user-1"), &mut db, noon()), Ok(None));
    assert_eq!(db.users.len(), 1);
}

#[test]
fn handle_in_use_is_refused() {
    let mut db = Database::new();
    User::insert_at(ann(), text("user-1"), &mut db, noon()).unwrap();
    assert_eq!(User::insert_at(ann(), text("user-2"), &mut db, noon()), Ok(None));
    assert_eq!(db.users.len(), 1);
}

#[test]
fn invalid_profile_is_not_inserted() {
    let mut db = Database::new();
    let mut bad = ann();
    bad.birthday = Some(Date { day: 738_001 });
    assert_eq!(
        User::insert_at(bad, text("user-1"), &mut db, noon()).unwrap_err().errors,
        one(Field::Birthday, Rule::FutureBirthday)
    );
    assert!(db.users.is_empty());
}

#[test]
fn deleted_profile_is_not_found() {
    let mut db = Database::new();
    User::insert_at(ann(), text("user-1"), &mut db, noon()).unwrap();
    db.users[0].deleted_at = Some(noon());
    assert_eq!(User::fetch_by_id(&text("user-1"), &db), None);
}

#[test]
fn patch_changes_what_it_holds_and_keeps_the_rest() {
    let mut db = Database::new();
    User::insert_at(ann(), text("user-1"), &mut db, noon()).unwrap();
    let later = Timestamp { day: 738_005, secs: 1, nanos: 2 };
    let change = InputPatchUser {
        display_name: Some(text("Ann B.")),
        description: None,
        birthday: None,
        website: text(""),
        is_private: true,
    };
    let updated = User::update_at(change, &text("user-1"), &mut db, later).unwrap();
    let expected = User {
        id: text("user-1"),
        id_name: text("ann"),
        display_name: text("Ann B."),
        description: text("Hello."),
        birthday: Some(Date { day: 730_000 }),
        website: text(""),
        is_private: true,
        created_at: noon(),
        updated_at: later,
        deleted_at: None,
    };
    assert_eq!(updated, expected);
    assert_eq!(db.users, vec![expected]);
}

#[test]
fn patch_can_change_description_and_birthday() {
    let mut db = Database::new();
    User::insert_at(ann(), text("user-1"), &mut db, noon()).unwrap();
    let change = InputPatchUser {
        display_name: None,
        description: Some(text("Bye.")),
        birthday: Some(Date { day: 731_000 }),
        website: text("https://b.example.com"),
        is_private: false,
    };
    let updated = User::update_at(change, &text("user-1"), &mut db, noon()).unwrap();
    assert_eq!(updated.display_name, "Ann");
    assert_eq!(updated.description, "Bye.");
    assert_eq!(updated.birthday, Some(Date { day: 731_000 }));
    assert_eq!(updated.website, "https://b.example.com");
}

#[test]
fn patch_leaves_other_profiles_alone() {
    let mut db = Database::new();
    User::insert_at(ann(), text("user-1"), &mut db, noon()).unwrap();
    let mut bob = ann();
    bob.id_name = text("bob");
    User::insert_at(bob, text("user-2"), &mut db, noon()).unwrap();
    let before = db.users[0].clone();
    let mut change = patch();
    change.display_name = Some(text("Robert"));
    User::update_at(change, &text("user-2"), &mut db, noon()).unwrap();
    assert_eq!(db.users[0], before);
    assert_eq!(db.users[1].display_name, "Robert");
    assert_eq!(db.users[1].id_name, "bob");
}

#[test]
fn patch_of_an_unknown_profile_is_not_found() {
    let mut db = Database::new();
    User::insert_at(ann(), text("user-1"), &mut db, noon()).unwrap();
    let error = User::update_at(patch(), &text("user-2"), &mut db, noon()).unwrap_err();
    assert_eq!(error.code, ApiErrorCode::NotFound);
    assert_eq!(error.message, "User does not exist.");
    assert_eq!(db.users[0], row(false, Some(Date { day: 730_000 })));
}

#[test]
fn invalid_patch_is_an_invalid_request() {
    let mut db = Database::new();
    User::insert_at(ann(), text("user-1"), &mut db, noon()).unwrap();
    let mut change = patch();
    change.website = text("nowhere");
    let error = User::update_at(change, &text("user-1"), &mut db, noon()).unwrap_err();
    assert_eq!(error.code, ApiErrorCode::InvalidRequest);
    assert_eq!(error.message, "Invalid parameter.");
    assert_eq!(db.users[0], row(false, Some(Date { day: 730_000 })));
}

#[test]
fn patch_by_the_clock_stamps_the_row() {
    let mut db = Database::new();
    User::insert_at(ann(), text("user-1"), &mut db, noon()).unwrap();
    let updated = User::update(patch(), &text("user-1"), &mut db).unwrap();
    assert_eq!(updated.created_at, noon());
    assert!(noon().is_before(&updated.updated_at));
    assert_eq!(updated.website, "");
}
