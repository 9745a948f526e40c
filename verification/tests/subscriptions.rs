use bulletin::domain::ValidationError;
use bulletin::error::HttpError;
use bulletin::form::FormError;
use bulletin::store::{Store, StoreError, SubscriberStatus};
use bulletin::subscriptions::{
    build_confirmation_email, handle_subscription, notification_outcome, post_subscriptions,
    SubscribeError,
};

const TOKEN_A: &str = "ABCDEFGHIJKLMNOPQRSTUVWXY";
const TOKEN_B: &str = "0123456789012345678901234";
const BASE_URL: &str = "http://127.0.0.1";
const GOOD_BODY: &[u8] = b"name=le%20guin&email=ursula_le_guin%40gmail.com";

#[test]
fn subscribe_returns_a_200_for_valid_form_data() {
    let mut store = Store::new();
    let email = handle_subscription(&mut store, GOOD_BODY, 7, TOKEN_A.to_string(), 42, BASE_URL)
        .unwrap();

    assert_eq!(store.subscribers.len(), 1);
    let saved = &store.subscribers[0];
    assert_eq!(saved.email.as_str(), "ursula_le_guin@gmail.com");
    assert_eq!(saved.name.as_str(), "le guin");
    assert_eq!(saved.status, SubscriberStatus::PendingConfirmation);
    assert_eq!(saved.id, 7);
    assert_eq!(saved.subscribed_at, 42);

    assert_eq!(store.tokens.len(), 1);
    assert_eq!(store.tokens[0].token, TOKEN_A);
    assert_eq!(store.tokens[0].subscriber_id, 7);

    assert_eq!(email.to.as_str(), "ursula_le_guin@gmail.com");
    assert_eq!(email.subject, "Welcome!");
}

#[test]
fn subscribe_returns_a_422_when_data_is_missing() {
    let test_cases = [
        (b"name=le%20guin".as_slice(), FormError::MissingEmail, "missing the email"),
        (b"email=ursula_le_guin%40gmail.com".as_slice(), FormError::MissingName, "missing the name"),
        (b"".as_slice(), FormError::MissingEmail, "missing both name and email"),
    ];
    for (body, expected, description) in test_cases {
        let mut store = Store::new();
        let outcome =
            handle_subscription(&mut store, body, 1, TOKEN_A.to_string(), 0, BASE_URL);
        assert_eq!(
            outcome.unwrap_err(),
            SubscribeError::BadForm(expected),
            "wrong error when the payload was {description}",
        );
        assert_eq!(store.subscribers.len(), 0, "rows persisted when {description}");
        assert_eq!(store.tokens.len(), 0);
    }
}

#[test]
fn subscribe_returns_a_200_when_fields_are_present_but_invalid() {
    let test_cases = [
        (
            b"name=&email=ursula_le_guin%40gmail.com".as_slice(),
            ValidationError::InvalidName,
            "empty name",
        ),
        (b"name=Ursula&email=".as_slice(), ValidationError::InvalidEmail, "empty email"),
        (
            b"name=Ursula&email=definitely-not-an-email".as_slice(),
            ValidationError::InvalidEmail,
            "invalid email",
        ),
    ];
    for (body, expected, description) in test_cases {
        let mut store = Store::new();
        let outcome =
            handle_subscription(&mut store, body, 1, TOKEN_A.to_string(), 0, BASE_URL);
        let err = outcome.unwrap_err();
        assert_eq!(
            err,
            SubscribeError::Rejected(HttpError::ValidationError(expected)),
            "wrong error when the payload was {description}",
        );
        assert_eq!(store.subscribers.len(), 0, "rows persisted when {description}");
        if let SubscribeError::Rejected(http) = err {
            assert_eq!(http.response().status, 400);
        }
    }
}

#[test]
fn a_token_collision_rolls_the_whole_pair_back() {
    let mut store = Store::new();
    handle_subscription(&mut store, GOOD_BODY, 1, TOKEN_A.to_string(), 0, BASE_URL).unwrap();

    let body2: &[u8] = b"name=other&email=other%40example.com";
    let outcome = handle_subscription(&mut store, body2, 2, TOKEN_A.to_string(), 0, BASE_URL);
    assert_eq!(
        outcome.unwrap_err(),
        SubscribeError::Rejected(HttpError::DatabaseError(StoreError::DuplicateToken)),
    );

    assert_eq!(store.subscribers.len(), 1);
    assert_eq!(store.subscribers[0].email.as_str(), "ursula_le_guin@gmail.com");
    assert_eq!(store.tokens.len(), 1);
}

#[test]
fn an_id_collision_rolls_the_whole_pair_back() {
    let mut store = Store::new();
    handle_subscription(&mut store, GOOD_BODY, 1, TOKEN_A.to_string(), 0, BASE_URL).unwrap();

    let body2: &[u8] = b"name=other&email=other%40example.com";
    let outcome = handle_subscription(&mut store, body2, 1, TOKEN_B.to_string(), 0, BASE_URL);
    assert_eq!(
        outcome.unwrap_err(),
        SubscribeError::Rejected(HttpError::DatabaseError(StoreError::DuplicateId)),
    );
    assert_eq!(store.subscribers.len(), 1);
    assert_eq!(store.tokens.len(), 1);
}

#[test]
fn post_subscriptions_draws_a_well_formed_token() {
    let mut store = Store::new();
    post_subscriptions(&mut store, GOOD_BODY, 0, BASE_URL).unwrap();
    assert_eq!(store.tokens.len(), 1);
    let token = &store.tokens[0].token;
    assert_eq!(token.chars().count(), 25);
    assert!(token.chars().all(|c| c.is_ascii_alphanumeric()));
}

#[test]
fn the_confirmation_email_quotes_the_link() {
    let mut store = Store::new();
    let email =
        handle_subscription(&mut store, GOOD_BODY, 1, TOKEN_A.to_string(), 0, BASE_URL).unwrap();
    let link = format!(
        "{}/subscriptions/confirm?subscription_token={}",
        BASE_URL, TOKEN_A
    );
    assert_eq!(
        email.text_body,
        format!("Welcome to our newsletter!\nVisit {link} to confirm your subscription"),
    );
    assert_eq!(
        email.html_body,
        format!(
            "Welcome to our newsletter!<br />Click <a href=\"{link}\">here</a> to confirm your subscription."
        ),
    );
}

#[test]
fn build_confirmation_email_addresses_the_subscriber() {
    let to = bulletin::domain::SubscriberEmail::parse("a@b.c".to_string()).unwrap();
    let email = build_confirmation_email(to, "https://x.y", TOKEN_A);
    assert_eq!(email.to.as_str(), "a@b.c");
    assert_eq!(email.subject, "Welcome!");
    assert!(email
        .text_body
        .contains("https://x.y/subscriptions/confirm?subscription_token=ABCDEFGHIJKLMNOPQRSTUVWXY"));
}

#[test]
fn a_failed_notification_is_the_unexpected_kind() {
    assert_eq!(notification_outcome(true), Ok(()));
    let err = notification_outcome(false).unwrap_err();
    assert_eq!(err, HttpError::UnexpectedError);
    let response = err.response();
    assert_eq!(response.status, 500);
    assert_eq!(response.body, "{\"error\":{\"type\":\"SERVICE_ERROR\"}}");
}
