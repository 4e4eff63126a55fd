use social_backend::http::{Body, Challenge, Response, Status};
use social_backend::models::error::{ApiError, ApiErrorCode};
use social_backend::models::{Date, Timestamp};
use social_backend::validation::{Field, FieldError, Rule, ValidationErrors};

fn at(day: i32, secs: u32, nanos: u32) -> Timestamp {
    Timestamp { day, secs, nanos }
}

#[test]
fn instants_are_ordered_by_day_then_seconds_then_nanoseconds() {
    assert!(at(1, 86_399, 999).is_before(&at(2, 0, 0)));
    assert!(at(2, 5, 999).is_before(&at(2, 6, 0)));
    assert!(at(2, 5, 6).is_before(&at(2, 5, 7)));
    assert!(!at(2, 5, 7).is_before(&at(2, 5, 7)));
    assert!(!at(2, 5, 8).is_before(&at(2, 5, 7)));
    assert!(!at(3, 0, 0).is_before(&at(2, 86_399, 999_999_999)));
    assert!(at(-5, 0, 0).is_before(&at(-4, 0, 0)));
}

#[test]
fn not_after_admits_the_same_instant() {
    assert!(at(2, 5, 7).is_not_after(&at(2, 5, 7)));
    assert!(at(2, 5, 6).is_not_after(&at(2, 5, 7)));
    assert!(!at(2, 5, 8).is_not_after(&at(2, 5, 7)));
}

#[test]
fn plus_days_keeps_the_time_of_day() {
    assert_eq!(at(738_000, 100, 7).plus_days(30), at(738_030, 100, 7));
    assert_eq!(at(738_000, 100, 7).plus_days(0), at(738_000, 100, 7));
    assert_eq!(at(-10, 86_399, 1_500_000_000).plus_days(10), at(0, 86_399, 1_500_000_000));
}

#[test]
fn date_of_an_instant_is_its_day() {
    assert_eq!(at(738_000, 100, 7).date(), Date { day: 738_000 });
    assert!(Date { day: 738_001 }.is_after(&Date { day: 738_000 }));
    assert!(!Date { day: 738_000 }.is_after(&Date { day: 738_000 }));
    assert!(!Date { day: 737_999 }.is_after(&Date { day: 738_000 }));
}

#[test]
fn statuses_have_their_numbers() {
    assert_eq!(Status::Success.code(), 200);
    assert_eq!(Status::Created.code(), 201);
    assert_eq!(Status::NoContent.code(), 204);
    assert_eq!(Status::BadRequest.code(), 400);
    assert_eq!(Status::Unauthorized.code(), 401);
    assert_eq!(Status::NotFound.code(), 404);
    assert_eq!(Status::MethodNotAllowed.code(), 405);
    assert_eq!(Status::InternalServerError.code(), 500);
}

#[test]
fn challenges_have_their_header_values() {
    assert_eq!(Challenge::Bearer.header_value(), "Bearer");
    assert_eq!(Challenge::InvalidToken.header_value(), "Bearer error=\"invalid_token\"");
}

#[test]
fn error_codes_are_written_in_snake_case() {
    assert_eq!(ApiErrorCode::InvalidRequest.as_str(), "invalid_request");
    assert_eq!(ApiErrorCode::NotFound.as_str(), "not_found");
    assert_eq!(ApiErrorCode::NotAllowed.as_str(), "not_allowed");
    assert_eq!(ApiErrorCode::AuthFailed.as_str(), "auth_failed");
    assert_eq!(ApiErrorCode::InvalidToken.as_str(), "invalid_token");
    assert_eq!(ApiErrorCode::ServerError.as_str(), "server_error");
}

fn reply_of(code: ApiErrorCode) -> Response {
    ApiError::new(code, "Something.").error_response()
}

#[test]
fn error_keeps_code_and_message() {
    let error = ApiError::new(ApiErrorCode::NotFound, "Token not found.");
    assert_eq!(error.code, ApiErrorCode::NotFound);
    assert_eq!(error.message, "Token not found.");
}

#[test]
fn error_with_detail_keeps_the_detail() {
    let error = ApiError::new_with_detail(ApiErrorCode::InvalidRequest, "Invalid parameter.", 42u8);
    assert_eq!(error.code, ApiErrorCode::InvalidRequest);
    assert_eq!(error.message, "Invalid parameter.");
    assert_eq!(error.detail, 42);
}

#[test]
fn each_error_code_has_its_status() {
    assert_eq!(reply_of(ApiErrorCode::InvalidRequest).status, Status::BadRequest);
    assert_eq!(reply_of(ApiErrorCode::NotFound).status, Status::NotFound);
    assert_eq!(reply_of(ApiErrorCode::NotAllowed).status, Status::MethodNotAllowed);
    assert_eq!(reply_of(ApiErrorCode::AuthFailed).status, Status::Unauthorized);
    assert_eq!(reply_of(ApiErrorCode::InvalidToken).status, Status::Unauthorized);
    assert_eq!(reply_of(ApiErrorCode::ServerError).status, Status::InternalServerError);
}

#[test]
fn only_the_two_refusals_carry_a_challenge() {
    assert_eq!(reply_of(ApiErrorCode::InvalidRequest).challenge, None);
    assert_eq!(reply_of(ApiErrorCode::NotFound).challenge, None);
    assert_eq!(reply_of(ApiErrorCode::NotAllowed).challenge, None);
    assert_eq!(reply_of(ApiErrorCode::AuthFailed).challenge, Some(Challenge::Bearer));
    assert_eq!(reply_of(ApiErrorCode::InvalidToken).challenge, Some(Challenge::InvalidToken));
    assert_eq!(reply_of(ApiErrorCode::ServerError).challenge, None);
}

#[test]
fn error_reply_carries_the_error_as_its_body() {
    let reply = ApiError::new(ApiErrorCode::InvalidToken, "Invalid token.").error_response();
    assert_eq!(
        reply,
        Response {
            status: Status::Unauthorized,
            challenge: Some(Challenge::InvalidToken),
            body: Body::Error(ApiError {
                code: ApiErrorCode::InvalidToken,
                message: "Invalid token.".to_string(),
            }),
        }
    );
}

#[test]
fn plain_replies_hold_what_they_are_given() {
    assert_eq!(
        Response::empty(Status::NoContent),
        Response { status: Status::NoContent, challenge: None, body: Body::Empty }
    );
    assert_eq!(
        Response::text("index"),
        Response { status: Status::Success, challenge: None, body: Body::Text("index".to_string()) }
    );
}

#[test]
fn fields_and_rules_have_their_names() {
    assert_eq!(Field::RawPassword.name(), "raw_password");
    assert_eq!(Field::Email.name(), "email");
    assert_eq!(Field::IdName.name(), "id_name");
    assert_eq!(Field::DisplayName.name(), "display_name");
    assert_eq!(Field::Description.name(), "description");
    assert_eq!(Field::Birthday.name(), "birthday");
    assert_eq!(Field::Website.name(), "website");
    assert_eq!(Field::Content.name(), "content");
    assert_eq!(Rule::Length.code(), "length");
    assert_eq!(Rule::Email.code(), "email");
    assert_eq!(Rule::Url.code(), "url");
    assert_eq!(Rule::FutureBirthday.code(), "future_birthday");
    assert_eq!(Rule::Hash.code(), "hash");
}

#[test]
fn list_of_failures_grows_only_by_what_failed() {
    let mut list = ValidationErrors::new();
    assert!(list.is_empty());
    list.add_if(false, Field::Email, Rule::Email);
    assert!(list.is_empty());
    assert!(!list.has(Field::Email, Rule::Email));
    list.add_if(true, Field::Website, Rule::Url);
    list.add_if(true, Field::Website, Rule::Length);
    assert_eq!(
        list.errors,
        vec![
            FieldError { field: Field::Website, rule: Rule::Url },
            FieldError { field: Field::Website, rule: Rule::Length },
        ]
    );
    assert!(list.has(Field::Website, Rule::Length));
    assert!(!list.has(Field::Website, Rule::Email));
    assert!(!list.has(Field::Email, Rule::Length));
    assert!(list.into_result().is_err());
    assert_eq!(ValidationErrors::new().into_result(), Ok(()));
}
