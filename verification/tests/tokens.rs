use social_backend::models::error::ApiErrorCode;
use social_backend::models::user_token::{UserToken, TOKEN_VALIDITY_DAYS};
use social_backend::models::Timestamp;
use social_backend::schema::Database;

fn at(day: i32, secs: u32, nanos: u32) -> Timestamp {
    Timestamp { day, secs, nanos }
}

fn text(s: &str) -> String {
    s.to_string()
}

fn issued_db() -> Database {
    let mut db = Database::new();
    let issued = UserToken::issue_with(&text("user-1"), &mut db, text("token-1"), at(738_000, 100, 7));
    assert_eq!(issued, Some(text("token-1")));
    db
}

#[test]
fn issued_row_expires_thirty_days_later() {
    let db = issued_db();
    assert_eq!(TOKEN_VALIDITY_DAYS, 30);
    assert_eq!(
        db.user_tokens,
        vec![UserToken {
            token: text("token-1"),
            user_id: text("user-1"),
            expired_at: at(738_030, 100, 7),
            created_at: at(738_000, 100, 7),
            updated_at: at(738_000, 100, 7),
            deleted_at: None,
        }]
    );
}

#[test]
fn issued_token_verifies_at_once() {
    let db = issued_db();
    let row = UserToken::verify_token_at(&text("token-1"), &db, &at(738_000, 100, 7)).unwrap();
    assert_eq!(row.token, "token-1");
    assert_eq!(row.user_id, "user-1");
}

#[test]
fn issued_token_verifies_until_the_nanosecond_before_expiry() {
    let db = issued_db();
    assert!(UserToken::verify_token_at(&text("token-1"), &db, &at(738_030, 100, 6)).is_ok());
    assert!(UserToken::verify_token_at(&text("token-1"), &db, &at(738_030, 99, 999_999_999)).is_ok());
    assert!(UserToken::verify_token_at(&text("token-1"), &db, &at(738_029, 86_399, 0)).is_ok());
}

#[test]
fn issued_token_fails_at_the_instant_of_expiry() {
    let db = issued_db();
    let error = UserToken::verify_token_at(&text("token-1"), &db, &at(738_030, 100, 7)).unwrap_err();
    assert_eq!(error.code, ApiErrorCode::InvalidToken);
    assert_eq!(error.message, "Invalid token.");
}

#[test]
fn issued_token_fails_after_expiry() {
    let db = issued_db();
    for now in [at(738_030, 100, 8), at(738_030, 101, 0), at(738_031, 0, 0), at(800_000, 0, 0)] {
        let error = UserToken::verify_token_at(&text("token-1"), &db, &now).unwrap_err();
        assert_eq!(error.code, ApiErrorCode::InvalidToken);
    }
}

#[test]
fn unknown_token_fails_like_an_expired_one() {
    let db = issued_db();
    let unknown = UserToken::verify_token_at(&text("token-2"), &db, &at(738_000, 100, 7)).unwrap_err();
    let expired = UserToken::verify_token_at(&text("token-1"), &db, &at(738_031, 0, 0)).unwrap_err();
    assert_eq!(unknown, expired);
}

#[test]
fn deleted_token_fails_like_an_unknown_one() {
    let mut db = issued_db();
    db.user_tokens[0].deleted_at = Some(at(738_001, 0, 0));
    let deleted = UserToken::verify_token_at(&text("token-1"), &db, &at(738_002, 0, 0)).unwrap_err();
    assert_eq!(deleted.code, ApiErrorCode::InvalidToken);
    assert_eq!(deleted.message, "Invalid token.");
}

#[test]
fn token_is_not_recorded_twice() {
    let mut db = issued_db();
    let again = UserToken::issue_with(&text("user-2"), &mut db, text("token-1"), at(738_001, 0, 0));
    assert_eq!(again, None);
    assert_eq!(db.user_tokens.len(), 1);
    assert_eq!(db.user_tokens[0].user_id, "user-1");
}

#[test]
fn revoked_token_fails_and_cannot_be_revoked_again() {
    let mut db = issued_db();
    let now = at(738_010, 0, 0);
    assert_eq!(UserToken::revoke_at(&text("token-1"), &mut db, &now), Ok(()));
    assert!(db.user_tokens.is_empty());
    let error = UserToken::verify_token_at(&text("token-1"), &db, &now).unwrap_err();
    assert_eq!(error.code, ApiErrorCode::InvalidToken);
    let again = UserToken::revoke_at(&text("token-1"), &mut db, &now).unwrap_err();
    assert_eq!(again.code, ApiErrorCode::NotFound);
    assert_eq!(again.message, "Token not found.");
}

#[test]
fn revoking_leaves_other_tokens_alone() {
    let mut db = issued_db();
    UserToken::issue_with(&text("user-1"), &mut db, text("token-2"), at(738_001, 0, 0)).unwrap();
    UserToken::issue_with(&text("user-2"), &mut db, text("token-3"), at(738_002, 0, 0)).unwrap();
    assert_eq!(UserToken::revoke_at(&text("token-2"), &mut db, &at(738_003, 0, 0)), Ok(()));
    let left: Vec<&str> = db.user_tokens.iter().map(|row| row.token.as_str()).collect();
    assert_eq!(left, vec!["token-1", "token-3"]);
    assert!(UserToken::verify_token_at(&text("token-1"), &db, &at(738_003, 0, 0)).is_ok());
    assert!(UserToken::verify_token_at(&text("token-3"), &db, &at(738_003, 0, 0)).is_ok());
}

#[test]
fn expired_token_cannot_be_revoked() {
    let mut db = issued_db();
    let error = UserToken::revoke_at(&text("token-1"), &mut db, &at(738_030, 100, 7)).unwrap_err();
    assert_eq!(error.code, ApiErrorCode::NotFound);
    assert_eq!(db.user_tokens.len(), 1);
}

#[test]
fn unknown_token_cannot_be_revoked() {
    let mut db = issued_db();
    let error = UserToken::revoke_at(&text("token-9"), &mut db, &at(738_000, 100, 7)).unwrap_err();
    assert_eq!(error.code, ApiErrorCode::NotFound);
    assert_eq!(db.user_tokens.len(), 1);
}

#[test]
fn valid_at_asks_for_no_deletion_and_a_later_expiry() {
    let db = issued_db();
    let row = &db.user_tokens[0];
    assert!(row.valid_at(&at(738_000, 0, 0)));
    assert!(row.valid_at(&at(738_030, 100, 6)));
    assert!(!row.valid_at(&at(738_030, 100, 7)));
    let mut deleted = row.clone();
    deleted.deleted_at = Some(at(738_000, 0, 0));
    assert!(!deleted.valid_at(&at(738_000, 0, 0)));
}

#[test]
fn token_issued_by_the_clock_is_a_fresh_identifier_and_verifies() {
    let mut db = Database::new();
    let first = UserToken::issue(&text("user-1"), &mut db).unwrap();
    let second = UserToken::issue(&text("user-1"), &mut db).unwrap();
    assert_ne!(first, second);
    for token in [&first, &second] {
        assert_eq!(token.len(), 36);
        for (i, c) in token.chars().enumerate() {
            if i == 8 || i == 13 || i == 18 || i == 23 {
                assert_eq!(c, '-');
            } else {
                assert!(c.is_ascii_digit() || ('a'..='f').contains(&c));
            }
        }
    }
    let row = UserToken::verify_token(&first, &db).unwrap();
    assert_eq!(row.token, first);
    assert_eq!(row.user_id, "user-1");
    assert_eq!(row.expired_at.day, row.created_at.day + 30);
    assert_eq!(row.expired_at.secs, row.created_at.secs);
    assert_eq!(row.expired_at.nanos, row.created_at.nanos);
    // The clock shows a day of this century, and a time of day.
    assert!(730_000 < row.created_at.day && row.created_at.day < 780_000);
    assert!(row.created_at.secs < 86_400);
    assert!(row.created_at.nanos < 2_000_000_000);
}

#[test]
fn token_revoked_by_the_clock_is_gone() {
    let mut db = Database::new();
    let token = UserToken::issue(&text("user-1"), &mut db).unwrap();
    assert_eq!(UserToken::revoke(&token, &mut db), Ok(()));
    assert_eq!(UserToken::verify_token(&token, &db).unwrap_err().code, ApiErrorCode::InvalidToken);
    assert_eq!(UserToken::revoke(&token, &mut db).unwrap_err().code, ApiErrorCode::NotFound);
}
