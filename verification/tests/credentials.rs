use social_backend::models::user_credential::{
    InputUserCredential, InsertableUserCredential, UserCredential, DELAY_MAX_MILLIS,
    DELAY_MIN_MILLIS, UNKNOWN_EMAIL_HASH,
};
use social_backend::models::Timestamp;
use social_backend::schema::Database;
use social_backend::validation::{Field, FieldError, Rule};

fn input(email: &str, password: &str) -> InputUserCredential {
    InputUserCredential { raw_password: password.to_string(), email: email.to_string() }
}

fn noon() -> Timestamp {
    Timestamp { day: 738_000, secs: 43_200, nanos: 0 }
}

fn is_uuid_text(text: &str) -> bool {
    text.len() == 36
        && text.chars().enumerate().all(|(i, c)| {
            if i == 8 || i == 13 || i == 18 || i == 23 {
                c == '-'
            } else {
                c.is_ascii_digit() || ('a'..='f').contains(&c)
            }
        })
}

#[test]
fn password_of_seven_characters_is_too_short() {
    let checked = input("ann@example.com", "1234567").validate();
    assert_eq!(
        checked.unwrap_err().errors,
        vec![FieldError { field: Field::RawPassword, rule: Rule::Length }]
    );
}

#[test]
fn password_of_eight_characters_is_long_enough() {
    assert!(input("ann@example.com", "12345678").validate().is_ok());
}

#[test]
fn password_length_counts_characters_not_bytes() {
    // Seven characters in fourteen bytes.
    let checked = input("ann@example.com", "äöüäöüä").validate();
    assert_eq!(
        checked.unwrap_err().errors,
        vec![FieldError { field: Field::RawPassword, rule: Rule::Length }]
    );
    // Eight characters.
    assert!(input("ann@example.com", "äöüäöüäö").validate().is_ok());
}

#[test]
fn email_without_an_at_sign_is_refused() {
    let checked = input("ann.example.com", "12345678").validate();
    assert_eq!(
        checked.unwrap_err().errors,
        vec![FieldError { field: Field::Email, rule: Rule::Email }]
    );
}

#[test]
fn empty_email_is_refused() {
    let checked = input("", "12345678").validate();
    assert_eq!(
        checked.unwrap_err().errors,
        vec![FieldError { field: Field::Email, rule: Rule::Email }]
    );
}

#[test]
fn failures_are_listed_in_the_order_of_the_fields() {
    let checked = input("nobody", "short").validate();
    assert_eq!(
        checked.unwrap_err().errors,
        vec![
            FieldError { field: Field::RawPassword, rule: Rule::Length },
            FieldError { field: Field::Email, rule: Rule::Email },
        ]
    );
}

#[test]
fn new_row_has_a_fresh_identifier_and_an_argon2id_hash() {
    let row = InsertableUserCredential::new(input("ann@example.com", "correct horse")).unwrap();
    assert!(is_uuid_text(&row.id));
    assert_eq!(row.email, "ann@example.com");
    assert!(row.password_hash.starts_with("$argon2id$v=19$m=37888,t=1,p=1$"));
    assert_ne!(row.password_hash, "correct horse");
}

#[test]
fn new_row_of_an_invalid_input_lists_the_failures() {
    let built = InsertableUserCredential::new(input("nobody", "12345678"));
    assert_eq!(
        built.unwrap_err().errors,
        vec![FieldError { field: Field::Email, rule: Rule::Email }]
    );
}

#[test]
fn build_takes_identifier_and_hash_as_given() {
    let row = InsertableUserCredential::build(
        input("ann@example.com", "correct horse"),
        "id-1".to_string(),
        Some("hash-1".to_string()),
    )
    .unwrap();
    assert_eq!(row.id, "id-1");
    assert_eq!(row.password_hash, "hash-1");
    assert_eq!(row.email, "ann@example.com");
}

#[test]
fn build_without_a_hash_reports_the_password() {
    let built = InsertableUserCredential::build(
        input("ann@example.com", "correct horse"),
        "id-1".to_string(),
        None,
    );
    assert_eq!(
        built.unwrap_err().errors,
        vec![FieldError { field: Field::RawPassword, rule: Rule::Hash }]
    );
}

#[test]
fn build_checks_the_input_before_the_hash() {
    let built = InsertableUserCredential::build(input("nobody", "short"), "id-1".to_string(), None);
    assert_eq!(
        built.unwrap_err().errors,
        vec![
            FieldError { field: Field::RawPassword, rule: Rule::Length },
            FieldError { field: Field::Email, rule: Rule::Email },
        ]
    );
}

#[test]
fn registered_credential_verifies_with_its_password() {
    let mut db = Database::new();
    let id = UserCredential::insert(input("ann@example.com", "correct horse"), &mut db)
        .unwrap()
        .unwrap();
    assert!(is_uuid_text(&id));
    assert_eq!(db.user_credentials.len(), 1);
    let found = UserCredential::verify_with_input(&input("ann@example.com", "correct horse"), &db)
        .unwrap();
    assert_eq!(found.id, id);
    assert_eq!(found.email, "ann@example.com");
}

#[test]
fn wrong_password_is_refused_with_a_delay_within_the_bounds() {
    let mut db = Database::new();
    UserCredential::insert(input("ann@example.com", "correct horse"), &mut db).unwrap().unwrap();
    let refusal = UserCredential::verify_with_input(&input("ann@example.com", "wrong horse!"), &db)
        .unwrap_err();
    assert!(DELAY_MIN_MILLIS <= refusal.delay_millis && refusal.delay_millis < DELAY_MAX_MILLIS);
    assert_eq!(DELAY_MIN_MILLIS, 5);
    assert_eq!(DELAY_MAX_MILLIS, 50);
}

#[test]
fn unknown_email_is_refused_like_a_wrong_password() {
    let mut db = Database::new();
    UserCredential::insert(input("ann@example.com", "correct horse"), &mut db).unwrap().unwrap();
    let unknown = UserCredential::verify_with_delay(&input("bob@example.com", "correct horse"), &db, 17);
    let wrong = UserCredential::verify_with_delay(&input("ann@example.com", "wrong horse!"), &db, 17);
    assert_eq!(unknown, wrong);
    assert_eq!(unknown.unwrap_err().delay_millis, 17);
    let drawn = UserCredential::verify_with_input(&input("bob@example.com", "correct horse"), &db)
        .unwrap_err();
    assert!(DELAY_MIN_MILLIS <= drawn.delay_millis && drawn.delay_millis < DELAY_MAX_MILLIS);
}

#[test]
fn hash_that_does_not_parse_matches_no_password() {
    let mut db = Database::new();
    let stored = UserCredential::insert_with(
        input("ann@example.com", "correct horse"),
        &mut db,
        "id-1".to_string(),
        Some("correct horse".to_string()),
        noon(),
    );
    assert_eq!(stored, Ok(Some("id-1".to_string())));
    let checked = UserCredential::verify_with_delay(&input("ann@example.com", "correct horse"), &db, 5);
    assert_eq!(checked.unwrap_err().delay_millis, 5);
}

#[test]
fn email_in_use_is_refused_by_the_table() {
    let mut db = Database::new();
    let hash = Some("hash".to_string());
    let first = UserCredential::insert_with(
        input("ann@example.com", "correct horse"),
        &mut db,
        "id-1".to_string(),
        hash.clone(),
        noon(),
    );
    assert_eq!(first, Ok(Some("id-1".to_string())));
    let second = UserCredential::insert_with(
        input("ann@example.com", "another horse"),
        &mut db,
        "id-2".to_string(),
        hash,
        noon(),
    );
    assert_eq!(second, Ok(None));
    assert_eq!(db.user_credentials.len(), 1);
}

#[test]
fn identifier_in_use_is_refused_by_the_table() {
    let mut db = Database::new();
    let hash = Some("hash".to_string());
    UserCredential::insert_with(
        input("ann@example.com", "correct horse"),
        &mut db,
        "id-1".to_string(),
        hash.clone(),
        noon(),
    )
    .unwrap();
    let second = UserCredential::insert_with(
        input("bob@example.com", "another horse"),
        &mut db,
        "id-1".to_string(),
        hash,
        noon(),
    );
    assert_eq!(second, Ok(None));
    assert_eq!(db.user_credentials.len(), 1);
}

#[test]
fn email_of_a_deleted_credential_is_free_again() {
    let mut db = Database::new();
    let hash = Some("hash".to_string());
    UserCredential::insert_with(
        input("ann@example.com", "correct horse"),
        &mut db,
        "id-1".to_string(),
        hash.clone(),
        noon(),
    )
    .unwrap();
    db.user_credentials[0].deleted_at = Some(noon());
    assert_eq!(UserCredential::fetch_by_email(&"ann@example.com".to_string(), &db), None);
    assert_eq!(UserCredential::fetch_by_id(&"id-1".to_string(), &db), None);
    let second = UserCredential::insert_with(
        input("ann@example.com", "another horse"),
        &mut db,
        "id-2".to_string(),
        hash,
        noon(),
    );
    assert_eq!(second, Ok(Some("id-2".to_string())));
    let found = UserCredential::fetch_by_email(&"ann@example.com".to_string(), &db).unwrap();
    assert_eq!(found.id, "id-2");
}

#[test]
fn inserted_row_holds_what_was_given() {
    let mut db = Database::new();
    UserCredential::insert_with(
        input("ann@example.com", "correct horse"),
        &mut db,
        "id-1".to_string(),
        Some("hash-1".to_string()),
        noon(),
    )
    .unwrap();
    let row = UserCredential::fetch_by_id(&"id-1".to_string(), &db).unwrap();
    assert_eq!(
        row,
        UserCredential {
            id: "id-1".to_string(),
            password_hash: "hash-1".to_string(),
            email: "ann@example.com".to_string(),
            created_at: noon(),
            updated_at: noon(),
            deleted_at: None,
        }
    );
    let shown = row.shown();
    assert_eq!(shown.id, "id-1");
    assert_eq!(shown.email, "ann@example.com");
    assert_eq!(shown.created_at, noon());
    assert_eq!(shown.updated_at, noon());
}

#[test]
fn invalid_input_changes_no_table() {
    let mut db = Database::new();
    let inserted = UserCredential::insert(input("nobody", "short"), &mut db);
    assert_eq!(
        inserted.unwrap_err().errors,
        vec![
            FieldError { field: Field::RawPassword, rule: Rule::Length },
            FieldError { field: Field::Email, rule: Rule::Email },
        ]
    );
    assert!(db.user_credentials.is_empty());
}

#[test]
fn decision_asks_for_a_credential_and_an_accepted_password() {
    let row = || UserCredential {
        id: "id-1".to_string(),
        password_hash: "hash-1".to_string(),
        email: "ann@example.com".to_string(),
        created_at: noon(),
        updated_at: noon(),
        deleted_at: None,
    };
    assert_eq!(UserCredential::decide(Some(row()), true, 9), Ok(row()));
    assert_eq!(UserCredential::decide(Some(row()), false, 9).unwrap_err().delay_millis, 9);
    assert_eq!(UserCredential::decide(None, true, 9).unwrap_err().delay_millis, 9);
    assert_eq!(UserCredential::decide(None, false, 49).unwrap_err().delay_millis, 49);
}

#[test]
fn unknown_email_takes_the_work_of_a_wrong_password() {
    let mut db = Database::new();
    UserCredential::insert(input("ann@example.com", "correct horse"), &mut db).unwrap().unwrap();
    let rounds = 3;
    let mut wrong = std::time::Duration::from_secs(0);
    let mut unknown = std::time::Duration::from_secs(0);
    for _ in 0..rounds {
        let start = std::time::Instant::now();
        assert!(UserCredential::verify_with_delay(&input("ann@example.com", "wrong horse!"), &db, 5)
            .is_err());
        wrong += start.elapsed();
        let start = std::time::Instant::now();
        assert!(UserCredential::verify_with_delay(&input("bob@example.com", "wrong horse!"), &db, 5)
            .is_err());
        unknown += start.elapsed();
    }
    assert!(unknown * 4 >= wrong, "unknown {:?}, wrong {:?}", unknown, wrong);
    assert!(wrong * 4 >= unknown, "unknown {:?}, wrong {:?}", unknown, wrong);
}

#[test]
fn hash_for_unknown_emails_is_made_with_the_costs_of_every_hash() {
    let row = InsertableUserCredential::new(input("ann@example.com", "correct horse")).unwrap();
    let parts: Vec<&str> = UNKNOWN_EMAIL_HASH.split('$').collect();
    let real: Vec<&str> = row.password_hash.split('$').collect();
    assert_eq!(parts.len(), real.len());
    assert_eq!(parts[..4], real[..4]);
    assert_eq!(parts[4].len(), real[4].len());
    assert_eq!(parts[5].len(), real[5].len());
}
