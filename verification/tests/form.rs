use bulletin::form::{parse_subscription_form, FormError};

#[test]
fn parses_percent_and_plus_escapes() {
    let form = parse_subscription_form(b"name=le%20guin&email=ursula_le_guin%40gmail.com").unwrap();
    assert_eq!(form.email, "ursula_le_guin@gmail.com");
    assert_eq!(form.name, "le guin");
}

#[test]
fn plus_decodes_to_a_space() {
    let form = parse_subscription_form(b"name=le+guin&email=a%40b.c").unwrap();
    assert_eq!(form.name, "le guin");
}

#[test]
fn field_order_does_not_matter() {
    let form = parse_subscription_form(b"email=a%40b.c&name=x").unwrap();
    assert_eq!(form.email, "a@b.c");
    assert_eq!(form.name, "x");
}

#[test]
fn missing_email_is_reported() {
    assert_eq!(
        parse_subscription_form(b"name=le%20guin").unwrap_err(),
        FormError::MissingEmail
    );
}

#[test]
fn missing_name_is_reported() {
    assert_eq!(
        parse_subscription_form(b"email=ursula_le_guin%40gmail.com").unwrap_err(),
        FormError::MissingName
    );
}

#[test]
fn empty_body_misses_the_email_first() {
    assert_eq!(
        parse_subscription_form(b"").unwrap_err(),
        FormError::MissingEmail
    );
}

#[test]
fn a_stray_percent_passes_through() {
    let form = parse_subscription_form(b"name=50%&email=a%40b.c").unwrap();
    assert_eq!(form.name, "50%");
}

#[test]
fn an_incomplete_escape_passes_through() {
    let form = parse_subscription_form(b"name=a%2&email=a%40b.c").unwrap();
    assert_eq!(form.name, "a%2");
}

#[test]
fn a_field_without_equals_has_an_empty_value() {
    let form = parse_subscription_form(b"email&name=x").unwrap();
    assert_eq!(form.email, "");
    let form = parse_subscription_form(b"email=&name=x").unwrap();
    assert_eq!(form.email, "");
}

#[test]
fn empty_segments_are_skipped() {
    let form = parse_subscription_form(b"&&name=x&&email=a%40b.c&&").unwrap();
    assert_eq!(form.email, "a@b.c");
    assert_eq!(form.name, "x");
}

#[test]
fn the_first_occurrence_of_a_key_decides() {
    let form = parse_subscription_form(b"name=first&name=second&email=a%40b.c").unwrap();
    assert_eq!(form.name, "first");
}

#[test]
fn non_utf8_bytes_are_an_encoding_error() {
    assert_eq!(
        parse_subscription_form(b"email=%FF&name=x").unwrap_err(),
        FormError::Encoding
    );
}

#[test]
fn utf8_escapes_decode_to_text() {
    let form = parse_subscription_form(b"name=%C3%9Crsula&email=a%40b.c").unwrap();
    assert_eq!(form.name, "\u{dc}rsula");
}

#[test]
fn percent_decoded_key_matches() {
    let form = parse_subscription_form(b"%6eame=x&email=a%40b.c").unwrap();
    assert_eq!(form.name, "x");
}
