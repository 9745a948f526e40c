use bulletin::domain::{NewSubscriber, SubscriberEmail, SubscriberName, ValidationError};
use bulletin::form::FormData;

#[test]
fn email_accepts_a_plain_address() {
    let email = SubscriberEmail::parse("ursula@example.com".to_string()).unwrap();
    assert_eq!(email.as_str(), "ursula@example.com");
}

#[test]
fn email_rejects_empty_string() {
    assert!(SubscriberEmail::parse("".to_string()).is_err());
}

#[test]
fn email_rejects_missing_at_symbol() {
    assert!(SubscriberEmail::parse("ursula.example.com".to_string()).is_err());
}

#[test]
fn email_rejects_whitespace_only() {
    assert!(SubscriberEmail::parse("   ".to_string()).is_err());
}

#[test]
fn email_rejects_missing_subject() {
    assert!(SubscriberEmail::parse("@example.com".to_string()).is_err());
}

#[test]
fn email_rejects_missing_domain() {
    assert!(SubscriberEmail::parse("ursula@".to_string()).is_err());
}

#[test]
fn email_rejects_two_at_symbols() {
    assert!(SubscriberEmail::parse("ursula@le@guin.com".to_string()).is_err());
}

#[test]
fn email_rejects_inner_space() {
    assert!(SubscriberEmail::parse("ursula le guin@example.com".to_string()).is_err());
}

#[test]
fn name_accepts_an_ordinary_name() {
    let name = SubscriberName::parse("Ursula K Le Guin".to_string()).unwrap();
    assert_eq!(name.as_str(), "Ursula K Le Guin");
}

#[test]
fn name_rejects_empty_string() {
    assert!(SubscriberName::parse("".to_string()).is_err());
}

#[test]
fn name_rejects_whitespace_only() {
    assert!(SubscriberName::parse("   ".to_string()).is_err());
}

#[test]
fn name_accepts_256_characters() {
    assert!(SubscriberName::parse("a".repeat(256)).is_ok());
}

#[test]
fn name_rejects_257_characters() {
    assert!(SubscriberName::parse("a".repeat(257)).is_err());
}

#[test]
fn name_rejects_newline() {
    assert!(SubscriberName::parse("le\nguin".to_string()).is_err());
}

#[test]
fn name_rejects_forward_slash() {
    assert!(SubscriberName::parse("le/guin".to_string()).is_err());
}

#[test]
fn name_rejects_each_forbidden_character() {
    for c in ['/', '(', ')', '"', '<', '>', '\\', '{', '}'] {
        let raw = format!("le{}guin", c);
        assert!(SubscriberName::parse(raw).is_err(), "accepted {}", c);
    }
}

#[test]
fn new_subscriber_keeps_both_fields() {
    let form = FormData {
        email: "ursula@example.com".to_string(),
        name: "Ursula".to_string(),
    };
    let sub = NewSubscriber::parse(form).unwrap();
    assert_eq!(sub.email.as_str(), "ursula@example.com");
    assert_eq!(sub.name.as_str(), "Ursula");
}

#[test]
fn new_subscriber_reports_the_name_first() {
    let form = FormData {
        email: "not-an-email".to_string(),
        name: "\n".to_string(),
    };
    assert_eq!(
        NewSubscriber::parse(form).unwrap_err(),
        ValidationError::InvalidName
    );
}

#[test]
fn new_subscriber_reports_the_email_when_the_name_passes() {
    let form = FormData {
        email: "not-an-email".to_string(),
        name: "Ursula".to_string(),
    };
    assert_eq!(
        NewSubscriber::parse(form).unwrap_err(),
        ValidationError::InvalidEmail
    );
}
