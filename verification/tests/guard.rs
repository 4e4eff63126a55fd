use social_backend::http::{Challenge, Status};
use social_backend::models::error::{ApiError, ApiErrorCode};
use social_backend::models::user::{InputUser, User};
use social_backend::models::user_credential::{InputUserCredential, UserCredential};
use social_backend::models::user_token::UserToken;
use social_backend::models::Timestamp;
use social_backend::schema::Database;
use social_backend::services::token_authentication::{
    resolve_identity, validate_token, AuthorizedUser, TokenAuthentication,
};

fn text(s: &str) -> String {
    s.to_string()
}

fn now() -> Timestamp {
    Timestamp { day: 738_000, secs: 43_200, nanos: 0 }
}

const TOKEN: &str = "0f8fad5b-d9cb-469f-a165-70867728950e";

fn registered() -> Database {
    let mut db = Database::new();
    let input = InputUserCredential { raw_password: text("correct horse"), email: text("ann@example.com") };
    UserCredential::insert_with(input, &mut db, text("user-1"), Some(text("hash")), now()).unwrap();
    UserToken::issue_with(&text("user-1"), &mut db, text(TOKEN), now()).unwrap();
    db
}

fn onboarded() -> Database {
    let mut db = registered();
    let input = InputUser {
        id_name: text("ann"),
        display_name: text("Ann"),
        description: text(""),
        birthday: None,
        website: text(""),
        is_private: false,
    };
    User::insert_at(input, text("user-1"), &mut db, now()).unwrap();
    db
}

fn refusal(passed: Result<Option<AuthorizedUser>, ApiError>) -> ApiError {
    passed.unwrap_err()
}

#[test]
fn required_and_unnecessary_differ_in_what_they_ask() {
    assert!(TokenAuthentication::required().is_required());
    assert!(!TokenAuthentication::unnecessary().is_required());
    let guarded = TokenAuthentication::required().new_transform(7u8);
    assert_eq!(*guarded.service(), 7);
}

#[test]
fn missing_token_on_a_required_route_is_401_auth_failed() {
    let db = registered();
    let guard = TokenAuthentication::required().new_transform(());
    let error = refusal(guard.call_at(None, &db, &now()));
    assert_eq!(error.code, ApiErrorCode::AuthFailed);
    assert_eq!(error.message, "Authorization required.");
    let reply = error.error_response();
    assert_eq!(reply.status.code(), 401);
    assert_eq!(reply.challenge, Some(Challenge::Bearer));
    assert_eq!(reply.challenge.unwrap().header_value(), "Bearer");
    assert_eq!(error.code.as_str(), "auth_failed");
    assert_eq!(refusal(guard.call(None, &db)).code, ApiErrorCode::AuthFailed);
}

#[test]
fn missing_token_on_an_optional_route_passes_as_nobody() {
    let db = registered();
    let guard = TokenAuthentication::unnecessary().new_transform(());
    assert_eq!(guard.call_at(None, &db, &now()), Ok(None));
    assert_eq!(guard.call(None, &db), Ok(None));
}

#[test]
fn unknown_token_is_401_invalid_token_on_every_route() {
    let db = registered();
    let header = "Bearer 11111111-2222-3333-4444-555555555555";
    for guard in [TokenAuthentication::required(), TokenAuthentication::unnecessary()] {
        let error = refusal(guard.new_transform(()).call_at(Some(header), &db, &now()));
        assert_eq!(error.code, ApiErrorCode::InvalidToken);
        assert_eq!(error.message, "Invalid token.");
        let reply = error.error_response();
        assert_eq!(reply.status, Status::Unauthorized);
        assert_eq!(reply.status.code(), 401);
        assert_eq!(reply.challenge.unwrap().header_value(), "Bearer error=\"invalid_token\"");
        assert_eq!(error.code.as_str(), "invalid_token");
    }
}

#[test]
fn expired_token_is_refused_on_an_optional_route_too() {
    let db = registered();
    let header = format!("Bearer {}", TOKEN);
    let expiry = Timestamp { day: 738_030, secs: 43_200, nanos: 0 };
    let guard = TokenAuthentication::unnecessary().new_transform(());
    assert!(guard.call_at(Some(&header), &db, &Timestamp { day: 738_030, secs: 43_199, nanos: 0 }).is_ok());
    assert_eq!(refusal(guard.call_at(Some(&header), &db, &expiry)).code, ApiErrorCode::InvalidToken);
}

#[test]
fn valid_token_of_a_credential_without_a_profile_passes() {
    let db = registered();
    let header = format!("Bearer {}", TOKEN);
    let guard = TokenAuthentication::required().new_transform(());
    let who = guard.call_at(Some(&header), &db, &now()).unwrap().unwrap();
    assert_eq!(who.token, TOKEN);
    assert_eq!(who.credential.id, "user-1");
    assert_eq!(who.credential.email, "ann@example.com");
    assert_eq!(who.user, None);
    assert_eq!(who.clone(), who);
    let by_clock = guard.call(Some(&header), &db).unwrap_err();
    assert_eq!(by_clock.code, ApiErrorCode::InvalidToken);
}

#[test]
fn valid_token_of_a_credential_with_a_profile_passes_with_the_profile() {
    let db = onboarded();
    let header = format!("Bearer {}", TOKEN);
    for guard in [TokenAuthentication::required(), TokenAuthentication::unnecessary()] {
        let who = guard.new_transform(()).call_at(Some(&header), &db, &now()).unwrap().unwrap();
        assert_eq!(who.credential.id, "user-1");
        assert_eq!(who.user.unwrap().id_name, "ann");
    }
}

#[test]
fn token_issued_by_the_clock_passes_by_the_clock() {
    let mut db = registered();
    let token = UserToken::issue(&text("user-1"), &mut db).unwrap();
    let header = format!("Bearer {}", token);
    let guard = TokenAuthentication::required().new_transform(());
    let who = guard.call(Some(&header), &db).unwrap().unwrap();
    assert_eq!(who.token, token);
}

#[test]
fn header_that_carries_no_bearer_token_counts_as_missing() {
    let db = registered();
    let required = TokenAuthentication::required().new_transform(());
    let optional = TokenAuthentication::unnecessary().new_transform(());
    let lower = format!("bearer {}", TOKEN);
    let tabbed = format!("Bearer\t{}", TOKEN);
    let unspaced = format!("Bearer{}", TOKEN);
    let control = format!("Bearer {}\n", TOKEN);
    let foreign = format!("Bearer {}é", TOKEN);
    for header in [
        "",
        "Bearer",
        "Bearer ",
        "Basic QWxhZGRpbjpvcGVuIHNlc2FtZQ==",
        TOKEN,
        lower.as_str(),
        tabbed.as_str(),
        unspaced.as_str(),
        control.as_str(),
        foreign.as_str(),
    ] {
        assert_eq!(
            refusal(required.call_at(Some(header), &db, &now())).code,
            ApiErrorCode::AuthFailed,
            "{:?}",
            header
        );
        assert_eq!(optional.call_at(Some(header), &db, &now()), Ok(None), "{:?}", header);
    }
}

#[test]
fn token_is_all_that_follows_the_first_space() {
    let mut db = registered();
    UserToken::issue_with(&text("user-1"), &mut db, text("a b"), now()).unwrap();
    UserToken::issue_with(&text("user-1"), &mut db, text(" "), now()).unwrap();
    UserToken::issue_with(&text("user-1"), &mut db, text("x"), now()).unwrap();
    let guard = TokenAuthentication::required().new_transform(());
    assert_eq!(guard.call_at(Some("Bearer a b"), &db, &now()).unwrap().unwrap().token, "a b");
    assert_eq!(guard.call_at(Some("Bearer  "), &db, &now()).unwrap().unwrap().token, " ");
    assert_eq!(guard.call_at(Some("Bearer x"), &db, &now()).unwrap().unwrap().token, "x");
    assert_eq!(
        refusal(guard.call_at(Some("Bearer  x"), &db, &now())).code,
        ApiErrorCode::InvalidToken
    );
}

#[test]
fn token_without_a_credential_is_a_server_error() {
    let mut db = registered();
    db.user_credentials[0].deleted_at = Some(now());
    let header = format!("Bearer {}", TOKEN);
    let guard = TokenAuthentication::required().new_transform(());
    let error = refusal(guard.call_at(Some(&header), &db, &now()));
    assert_eq!(error.code, ApiErrorCode::ServerError);
    assert_eq!(error.message, "Token without a credential.");
    assert_eq!(error.error_response().status.code(), 500);
}

#[test]
fn validate_token_resolves_the_identity_behind_a_token() {
    let db = onboarded();
    let who = validate_token(&db, text(TOKEN), &now()).unwrap();
    assert_eq!(who.token, TOKEN);
    assert_eq!(who.credential.id, "user-1");
    assert_eq!(who.user.unwrap().id, "user-1");
    let error = validate_token(&db, text("nothing"), &now()).unwrap_err();
    assert_eq!(error.code, ApiErrorCode::InvalidToken);
    let row = db.user_tokens[0].clone();
    assert_eq!(resolve_identity(&db, row).unwrap().credential.email, "ann@example.com");
}

#[test]
fn guard_changes_no_table() {
    let db = onboarded();
    let header = format!("Bearer {}", TOKEN);
    let guard = TokenAuthentication::required().new_transform(());
    let _ = guard.call_at(Some(&header), &db, &now());
    let _ = guard.call_at(Some("Bearer nothing-at-all"), &db, &now());
    let _ = guard.call_at(None, &db, &now());
    let same = onboarded();
    assert_eq!(db.user_tokens, same.user_tokens);
    assert_eq!(db.user_credentials, same.user_credentials);
    assert_eq!(db.users, same.users);
    assert_eq!(db.posts, same.posts);
}
