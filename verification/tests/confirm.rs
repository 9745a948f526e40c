use bulletin::store::{Store, SubscriberStatus};
use bulletin::subscriptions::handle_subscription;
use bulletin::subscriptions_confirm::{
    confirm_response, get_confirm, handle_confirm, parse_confirm_query, Parameters,
};

const TOKEN: &str = "ABCDEFGHIJKLMNOPQRSTUVWXY";
const BASE_URL: &str = "http://127.0.0.1";
const GOOD_BODY: &[u8] = b"name=le%20guin&email=ursula_le_guin%40gmail.com";

fn subscribed_store() -> (Store, String) {
    let mut store = Store::new();
    let email =
        handle_subscription(&mut store, GOOD_BODY, 1, TOKEN.to_string(), 0, BASE_URL).unwrap();
    (store, email.text_body)
}

#[test]
fn confirmations_without_token_are_rejected_with_a_400() {
    let mut store = Store::new();
    assert_eq!(handle_confirm(&mut store, b""), 400);
    assert_eq!(handle_confirm(&mut store, b"other=1"), 400);
    assert_eq!(store.subscribers.len(), 0);
}

#[test]
fn the_link_returned_by_subscribe_returns_a_200_if_called() {
    let (mut store, text_body) = subscribed_store();

    let link = text_body
        .split_whitespace()
        .find(|word| word.starts_with("http"))
        .expect("no link in the email body");
    let query = link.split_once('?').expect("no query in the link").1;

    let status = handle_confirm(&mut store, query.as_bytes());
    assert_eq!(status, 200);
}

#[test]
fn clicking_on_the_confirmation_link_confirms_a_subscriber() {
    let (mut store, text_body) = subscribed_store();
    let link = text_body
        .split_whitespace()
        .find(|word| word.starts_with("http"))
        .expect("no link in the email body");
    let query = link.split_once('?').expect("no query in the link").1;

    assert_eq!(handle_confirm(&mut store, query.as_bytes()), 200);

    assert_eq!(store.subscribers.len(), 1);
    let saved = &store.subscribers[0];
    assert_eq!(saved.email.as_str(), "ursula_le_guin@gmail.com");
    assert_eq!(saved.name.as_str(), "le guin");
    assert_eq!(saved.status, SubscriberStatus::Confirmed);
}

#[test]
fn an_unknown_token_is_rejected_with_a_401() {
    let (mut store, _) = subscribed_store();
    let params = Parameters {
        subscription_token: "does-not-exist".to_string(),
    };
    assert_eq!(get_confirm(&mut store, &params), 401);
    assert_eq!(store.subscribers[0].status, SubscriberStatus::PendingConfirmation);
}

#[test]
fn reconfirming_still_returns_success() {
    let (mut store, _) = subscribed_store();
    let params = Parameters {
        subscription_token: TOKEN.to_string(),
    };
    assert_eq!(get_confirm(&mut store, &params), 200);
    assert_eq!(store.subscribers[0].status, SubscriberStatus::Confirmed);

    assert_eq!(get_confirm(&mut store, &params), 200);
    assert_eq!(store.subscribers.len(), 1);
    assert_eq!(store.subscribers[0].status, SubscriberStatus::Confirmed);
    assert_eq!(store.subscribers[0].email.as_str(), "ursula_le_guin@gmail.com");
}

#[test]
fn parse_confirm_query_reads_the_token() {
    let params = parse_confirm_query(b"subscription_token=abc%20def").unwrap();
    assert_eq!(params.subscription_token, "abc def");
    assert!(parse_confirm_query(b"token=abc").is_none());
    assert!(parse_confirm_query(b"subscription_token=%FF").is_none());
}

#[test]
fn confirm_responses_carry_the_uniform_error_body() {
    let (mut store, _) = subscribed_store();

    let response = confirm_response(&mut store, b"");
    assert_eq!(response.status, 400);
    assert_eq!(response.body, "{\"error\":{\"type\":\"VALIDATION_ERROR\"}}");

    let response = confirm_response(&mut store, b"subscription_token=does-not-exist");
    assert_eq!(response.status, 401);
    assert_eq!(response.body, "{\"error\":{\"type\":\"AUTHORIZATION_ERROR\"}}");
    assert_eq!(store.subscribers[0].status, SubscriberStatus::PendingConfirmation);

    let query = format!("subscription_token={TOKEN}");
    let response = confirm_response(&mut store, query.as_bytes());
    assert_eq!(response.status, 200);
    assert_eq!(response.body, "");
    assert_eq!(store.subscribers[0].status, SubscriberStatus::Confirmed);
}
