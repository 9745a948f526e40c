//! The subscription command handler: validate the submitted form, write the
//! subscriber row and its confirmation token as one transaction, and hand
//! back the confirmation email for the notifier to send after the commit.
use crate::domain::{valid_email, valid_name, NewSubscriber, SubscriberEmail, ValidationError};
use crate::error::HttpError;
use crate::form::{parse_subscription_form, spec_parse_form, FormError};
use crate::store::{has_subscriber, has_token, Store, StoreError, SubscriberStatus};
use crate::token::{generate_subscription_token, token_wf};
use vstd::prelude::*;
use vstd::string::{StrSliceExecFns, StringExecFns};

verus! {

/// Path and query prefix that turns a base URL and a token into a
/// confirmation link.
pub open spec fn confirm_path() -> Seq<char> {
    "/subscriptions/confirm?subscription_token="@
}

/// The confirmation link mailed to a subscriber.
pub open spec fn spec_confirmation_link(base_url: Seq<char>, token: Seq<char>) -> Seq<char> {
    base_url + confirm_path() + token
}

/// The plaintext body of the confirmation email.
pub open spec fn spec_text_body(link: Seq<char>) -> Seq<char> {
    "Welcome to our newsletter!\nVisit "@ + link + " to confirm your subscription"@
}

/// The HTML body of the confirmation email.
pub open spec fn spec_html_body(link: Seq<char>) -> Seq<char> {
    "Welcome to our newsletter!<br />Click <a href=\""@ + link
        + "\">here</a> to confirm your subscription."@
}

/// One outbound confirmation email, ready for the notifier.
#[derive(Debug)]
pub struct ConfirmationEmail {
    pub to: SubscriberEmail,
    pub subject: String,
    pub html_body: String,
    pub text_body: String,
}

/// Why a subscription request was answered with an error.
#[derive(Clone, Copy, Debug, PartialEq, Eq, Structural)]
pub enum SubscribeError {
    /// The body could not be read as a subscription form; answered before
    /// any validation or persistence.
    BadForm(FormError),
    /// A classified failure of the error taxonomy.
    Rejected(HttpError),
}

/// Build the confirmation email for a subscriber: the link is the base URL
/// followed by the confirmation path and the token, and both bodies quote
/// the link.
pub fn build_confirmation_email(to: SubscriberEmail, base_url: &str, token: &str) -> (r:
    ConfirmationEmail)
    ensures
        r.to@ == to@,
        r.subject@ == "Welcome!"@,
        ({
            let link = spec_confirmation_link(base_url@, token@);
            r.text_body@ == spec_text_body(link) && r.html_body@ == spec_html_body(link)
        }),
{
    let link = String::from_str(base_url).concat("/subscriptions/confirm?subscription_token=")
        .concat(token);
    proof {
        assert((base_url@ + confirm_path()) + token@ =~= spec_confirmation_link(
            base_url@,
            token@,
        ));
    }
    let text_body = String::from_str("Welcome to our newsletter!\nVisit ").concat(link.as_str())
        .concat(" to confirm your subscription");
    let html_body = String::from_str("Welcome to our newsletter!<br />Click <a href=\"").concat(
        link.as_str(),
    ).concat("\">here</a> to confirm your subscription.");
    proof {
        assert(("Welcome to our newsletter!\nVisit "@ + link@)
            + " to confirm your subscription"@ =~= spec_text_body(link@));
        assert(("Welcome to our newsletter!<br />Click <a href=\""@ + link@)
            + "\">here</a> to confirm your subscription."@ =~= spec_html_body(link@));
    }
    ConfirmationEmail { to, subject: String::from_str("Welcome!"), html_body, text_body }
}

/// The subscription transaction for a given identifier and token: read the
/// form, validate it, and write the subscriber row and its token row as one
/// atomic pair. On any error the store is exactly as it was; on success it
/// grew by exactly that pair, and the confirmation email to dispatch is
/// returned.
pub fn handle_subscription(
    store: &mut Store,
    body: &[u8],
    id: u128,
    token: String,
    subscribed_at: u64,
    base_url: &str,
) -> (r: Result<ConfirmationEmail, SubscribeError>)
    requires
        old(store).wf(),
        token_wf(token@),
    ensures
        final(store).wf(),
        r is Err ==> final(store).subscribers@ == old(store).subscribers@ && final(store).tokens@
            == old(store).tokens@,
        match spec_parse_form(body@) {
            Err(fe) => r === Err(SubscribeError::BadForm(fe)),
            Ok((e_raw, n_raw)) => {
                if !valid_name(n_raw) {
                    r === Err(
                        SubscribeError::Rejected(
                            HttpError::ValidationError(ValidationError::InvalidName),
                        ),
                    )
                } else if !valid_email(e_raw) {
                    r === Err(
                        SubscribeError::Rejected(
                            HttpError::ValidationError(ValidationError::InvalidEmail),
                        ),
                    )
                } else if has_subscriber(old(store).subscribers@, id) {
                    r === Err(
                        SubscribeError::Rejected(HttpError::DatabaseError(StoreError::DuplicateId)),
                    )
                } else if has_token(old(store).tokens@, token@) {
                    r === Err(
                        SubscribeError::Rejected(
                            HttpError::DatabaseError(StoreError::DuplicateToken),
                        ),
                    )
                } else {
                    &&& r is Ok
                    &&& final(store).subscribers@.len() == old(store).subscribers@.len() + 1
                    &&& final(store).tokens@.len() == old(store).tokens@.len() + 1
                    &&& final(store).subscribers@.drop_last() == old(store).subscribers@
                    &&& final(store).tokens@.drop_last() == old(store).tokens@
                    &&& ({
                        let sub = final(store).subscribers@.last();
                        let tok = final(store).tokens@.last();
                        &&& sub.id == id
                        &&& sub.email@ == e_raw
                        &&& sub.name@ == n_raw
                        &&& sub.subscribed_at == subscribed_at
                        &&& sub.status == SubscriberStatus::PendingConfirmation
                        &&& tok.token@ == token@
                        &&& tok.subscriber_id == id
                    })
                    &&& ({
                        let email = r.unwrap();
                        let link = spec_confirmation_link(base_url@, token@);
                        &&& email.to@ == e_raw
                        &&& email.subject@ == "Welcome!"@
                        &&& email.text_body@ == spec_text_body(link)
                        &&& email.html_body@ == spec_html_body(link)
                    })
                }
            },
        },
{
    let form = match parse_subscription_form(body) {
        Ok(f) => f,
        Err(fe) => {
            return Err(SubscribeError::BadForm(fe));
        },
    };
    let subscriber = match NewSubscriber::parse(form) {
        Ok(s) => s,
        Err(ve) => {
            return Err(SubscribeError::Rejected(HttpError::ValidationError(ve)));
        },
    };
    let to = subscriber.email.clone();
    let link_token = token.clone();
    match store.apply_subscription(subscriber, id, token, subscribed_at) {
        Ok(()) => Ok(build_confirmation_email(to, base_url, link_token.as_str())),
        Err(se) => Err(SubscribeError::Rejected(HttpError::DatabaseError(se))),
    }
}

/// Relies on uuid's `Uuid::new_v4`: a fresh random identifier, taken as its
/// 128-bit value. Nothing is assumed of it; uniqueness is enforced by the
/// store.
#[verifier::external_body]
fn new_subscriber_id() -> u128 {
    uuid::Uuid::new_v4().as_u128()
}

/// The subscription endpoint: draw a fresh identifier and token, then run
/// the transaction. The identifier and token being random, a uniqueness
/// collision — surfaced as the storage error kind — cannot be ruled out,
/// and is not retried; but a collision needs something to collide with, so
/// on a store with empty tables a valid form is owed success.
pub fn post_subscriptions(store: &mut Store, body: &[u8], subscribed_at: u64, base_url: &str) -> (r:
    Result<ConfirmationEmail, SubscribeError>)
    requires
        old(store).wf(),
    ensures
        final(store).wf(),
        r is Err ==> final(store).subscribers@ == old(store).subscribers@ && final(store).tokens@
            == old(store).tokens@,
        match spec_parse_form(body@) {
            Err(fe) => r === Err(SubscribeError::BadForm(fe)),
            Ok((e_raw, n_raw)) => {
                if !valid_name(n_raw) {
                    r === Err(
                        SubscribeError::Rejected(
                            HttpError::ValidationError(ValidationError::InvalidName),
                        ),
                    )
                } else if !valid_email(e_raw) {
                    r === Err(
                        SubscribeError::Rejected(
                            HttpError::ValidationError(ValidationError::InvalidEmail),
                        ),
                    )
                } else {
                    match r {
                        Err(e) => {
                            &&& e is Rejected
                            &&& e->Rejected_0 is DatabaseError
                            &&& old(store).subscribers@.len() + old(store).tokens@.len() > 0
                            &&& (e->Rejected_0->DatabaseError_0 is DuplicateId ==> old(
                                store,
                            ).subscribers@.len() > 0)
                            &&& (e->Rejected_0->DatabaseError_0 is DuplicateToken ==> old(
                                store,
                            ).tokens@.len() > 0)
                        },
                        Ok(email) => {
                            &&& final(store).subscribers@.len() == old(store).subscribers@.len()
                                + 1
                            &&& final(store).tokens@.len() == old(store).tokens@.len() + 1
                            &&& final(store).subscribers@.drop_last() == old(store).subscribers@
                            &&& final(store).tokens@.drop_last() == old(store).tokens@
                            &&& ({
                                let sub = final(store).subscribers@.last();
                                let tok = final(store).tokens@.last();
                                &&& sub.email@ == e_raw
                                &&& sub.name@ == n_raw
                                &&& sub.subscribed_at == subscribed_at
                                &&& sub.status == SubscriberStatus::PendingConfirmation
                                &&& tok.subscriber_id == sub.id
                                &&& token_wf(tok.token@)
                                &&& email.to@ == e_raw
                                &&& email.subject@ == "Welcome!"@
                                &&& email.text_body@ == spec_text_body(
                                    spec_confirmation_link(base_url@, tok.token@),
                                )
                                &&& email.html_body@ == spec_html_body(
                                    spec_confirmation_link(base_url@, tok.token@),
                                )
                            })
                        },
                    }
                }
            },
        },
{
    let id = new_subscriber_id();
    let token = generate_subscription_token();
    handle_subscription(store, body, id, token, subscribed_at, base_url)
}

/// What the endpoint answers once the transaction stood and the notifier
/// reported back: a notifier failure surfaces as the unexpected kind — the
/// already-committed pending subscriber is not rolled back.
pub fn notification_outcome(sent: bool) -> (r: Result<(), HttpError>)
    ensures
        sent <==> r is Ok,
        !sent ==> r === Err(HttpError::UnexpectedError),
{
    if sent {
        Ok(())
    } else {
        Err(HttpError::UnexpectedError)
    }
}

} // verus!
