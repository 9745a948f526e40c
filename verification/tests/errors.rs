use bulletin::configuration::Environment;
use bulletin::domain::ValidationError;
use bulletin::error::{unclassified_response, HttpError};
use bulletin::store::StoreError;
use bulletin::token::generate_subscription_token;

#[test]
fn every_kind_maps_to_its_status_and_code() {
    let table = [
        (HttpError::ValidationError(ValidationError::InvalidEmail), 400, "VALIDATION_ERROR"),
        (HttpError::DatabaseError(StoreError::DuplicateToken), 500, "SERVICE_ERROR"),
        (HttpError::AuthorizationError, 401, "AUTHORIZATION_ERROR"),
        (HttpError::NotFound, 404, "NOT_FOUND"),
        (HttpError::Conflict, 409, "CONFLICT"),
        (HttpError::UnexpectedError, 500, "SERVICE_ERROR"),
    ];
    for (kind, status, code) in table {
        assert_eq!(kind.status(), status);
        assert_eq!(kind.code(), code);
        let response = kind.response();
        assert_eq!(response.status, status);
        assert_eq!(response.body, format!("{{\"error\":{{\"type\":\"{code}\"}}}}"));
    }
}

#[test]
fn an_unclassified_failure_degrades_to_the_service_code() {
    let response = unclassified_response();
    assert_eq!(response.status, 500);
    assert_eq!(response.body, "{\"error\":{\"type\":\"SERVICE_ERROR\"}}");
}

#[test]
fn tokens_are_25_alphanumeric_characters() {
    for _ in 0..20 {
        let token = generate_subscription_token();
        assert_eq!(token.chars().count(), 25);
        assert!(token.chars().all(|c| c.is_ascii_alphanumeric()));
    }
}

#[test]
fn environment_names_round_trip() {
    assert_eq!(Environment::parse("local").unwrap(), Environment::Local);
    assert_eq!(Environment::parse("LOCAL").unwrap(), Environment::Local);
    assert_eq!(Environment::parse("Production").unwrap(), Environment::Production);
    assert_eq!(Environment::Local.as_str(), "local");
    assert_eq!(Environment::Production.as_str(), "production");
}

#[test]
fn an_unknown_environment_is_named_in_the_message() {
    let err = Environment::parse("staging").unwrap_err();
    assert_eq!(
        err,
        "`staging` is not a supported environment. Use either `local`, `production` or `staging`."
    );
}
