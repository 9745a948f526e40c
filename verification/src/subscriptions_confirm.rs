//! The confirmation handler: resolve a token from the query string to a
//! subscriber and move that subscriber to confirmed.
use crate::form::{
    form_field, form_field_exec, form_pairs, lemma_pct_decode_plain, lookup_field, split_pair,
    utf8_to_string, B_AMP, B_EQ, B_PERCENT, B_PLUS,
};
use crate::error::{error_body, spec_error_body, HttpError, HttpResponse};
use crate::store::{confirm_all, find_token, has_subscriber, has_token, Store};
use crate::token::{is_token_char, token_wf};
use vstd::prelude::*;
use vstd::utf8::{
    decode_utf8, encode_utf8, encode_utf8_decode_utf8, encode_utf8_valid_utf8, is_ascii_chars,
    is_ascii_chars_encode_utf8, valid_utf8,
};

verus! {

/// The `subscription_token` key of the confirmation query string.
pub open spec fn token_key() -> Seq<u8> {
    seq![
        0x73u8,
        0x75,
        0x62,
        0x73,
        0x63,
        0x72,
        0x69,
        0x70,
        0x74,
        0x69,
        0x6F,
        0x6E,
        0x5F,
        0x74,
        0x6F,
        0x6B,
        0x65,
        0x6E,
    ]
}

/// The parsed query of the confirmation endpoint.
#[derive(Debug)]
pub struct Parameters {
    pub subscription_token: String,
}

/// The `subscription_token` key, as bytes.
fn token_key_exec() -> (r: Vec<u8>)
    ensures
        r@ == token_key(),
{
    let mut v: Vec<u8> = Vec::new();
    v.push(0x73);
    v.push(0x75);
    v.push(0x62);
    v.push(0x73);
    v.push(0x63);
    v.push(0x72);
    v.push(0x69);
    v.push(0x70);
    v.push(0x74);
    v.push(0x69);
    v.push(0x6F);
    v.push(0x6E);
    v.push(0x5F);
    v.push(0x74);
    v.push(0x6F);
    v.push(0x6B);
    v.push(0x65);
    v.push(0x6E);
    proof {
        assert(v@ =~= token_key());
    }
    v
}

/// Read the confirmation parameters from a query string: the decoded
/// `subscription_token` field, as text. `None` when the field is absent or
/// its bytes are not UTF-8.
pub fn parse_confirm_query(query: &[u8]) -> (r: Option<Parameters>)
    ensures
        match form_field(query@, token_key()) {
            None => r is None,
            Some(v) => if valid_utf8(v) {
                r is Some && r.unwrap().subscription_token@ == decode_utf8(v)
            } else {
                r is None
            },
        },
{
    let raw = match form_field_exec(query, token_key_exec().as_slice()) {
        Some(v) => v,
        None => {
            return None;
        },
    };
    match utf8_to_string(raw) {
        Some(token) => Some(Parameters { subscription_token: token }),
        None => None,
    }
}

/// Confirm the subscriber the presented token belongs to. An unknown token
/// is an authorization failure and mutates nothing; a known one moves its
/// subscriber to confirmed — a no-op if it already was — and succeeds
/// either way. Token rows are never consumed.
pub fn get_confirm(store: &mut Store, params: &Parameters) -> (status: u16)
    requires
        old(store).wf(),
    ensures
        final(store).wf(),
        final(store).tokens@ == old(store).tokens@,
        match find_token(old(store).tokens@, params.subscription_token@) {
            None => status == 401 && final(store).subscribers@ == old(store).subscribers@,
            Some(id) => status == 200 && final(store).subscribers@ == confirm_all(
                old(store).subscribers@,
                id,
            ),
        },
{
    match store.find_subscriber_by_token(params.subscription_token.as_str()) {
        None => 401,
        Some(id) => {
            store.confirm_subscriber(id);
            200
        },
    }
}

/// The confirmation endpoint, from the raw query string: a query without a
/// readable token is answered 400 before any lookup; an unknown token 401;
/// a known one 200, with its subscriber confirmed.
pub fn handle_confirm(store: &mut Store, query: &[u8]) -> (status: u16)
    requires
        old(store).wf(),
    ensures
        final(store).wf(),
        final(store).tokens@ == old(store).tokens@,
        match form_field(query@, token_key()) {
            None => status == 400 && final(store).subscribers@ == old(store).subscribers@,
            Some(v) => if !valid_utf8(v) {
                status == 400 && final(store).subscribers@ == old(store).subscribers@
            } else {
                match find_token(old(store).tokens@, decode_utf8(v)) {
                    None => status == 401 && final(store).subscribers@ == old(
                        store,
                    ).subscribers@,
                    Some(id) => status == 200 && final(store).subscribers@ == confirm_all(
                        old(store).subscribers@,
                        id,
                    ),
                }
            },
        },
{
    match parse_confirm_query(query) {
        None => 400,
        Some(params) => get_confirm(store, &params),
    }
}

/// The confirmation endpoint's full answer, with the uniform error body of
/// the taxonomy on every failure: an unreadable query is a client error
/// answered 400 with the validation code, an unknown token 401 with the
/// authorization code, and a known token 200 with an empty body, its
/// subscriber confirmed.
pub fn confirm_response(store: &mut Store, query: &[u8]) -> (r: HttpResponse)
    requires
        old(store).wf(),
    ensures
        final(store).wf(),
        final(store).tokens@ == old(store).tokens@,
        match form_field(query@, token_key()) {
            None => r.status == 400 && r.body@ == spec_error_body("VALIDATION_ERROR"@)
                && final(store).subscribers@ == old(store).subscribers@,
            Some(v) => if !valid_utf8(v) {
                r.status == 400 && r.body@ == spec_error_body("VALIDATION_ERROR"@)
                    && final(store).subscribers@ == old(store).subscribers@
            } else {
                match find_token(old(store).tokens@, decode_utf8(v)) {
                    None => r.status == 401 && r.body@ == spec_error_body("AUTHORIZATION_ERROR"@)
                        && final(store).subscribers@ == old(store).subscribers@,
                    Some(id) => r.status == 200 && r.body@.len() == 0 && final(store).subscribers@
                        == confirm_all(old(store).subscribers@, id),
                }
            },
        },
{
    let status = handle_confirm(store, query);
    if status == 200 {
        HttpResponse { status: 200, body: String::new() }
    } else if status == 401 {
        HttpError::AuthorizationError.response()
    } else {
        HttpResponse { status: 400, body: error_body("VALIDATION_ERROR") }
    }
}

/// The query string of a confirmation link leads back to its token: the
/// UTF-8 bytes of `subscription_token=` followed by a well-formed token
/// parse as a form whose `subscription_token` field is exactly that token.
pub proof fn lemma_confirm_query_round_trip(token: Seq<char>)
    requires
        token_wf(token),
    ensures
        ({
            let q = encode_utf8("subscription_token="@ + token);
            &&& form_field(q, token_key()) == Some(encode_utf8(token))
            &&& valid_utf8(encode_utf8(token))
            &&& decode_utf8(encode_utf8(token)) == token
        }),
{
    reveal_strlit("subscription_token=");
    let prefix = "subscription_token="@;
    let full = prefix + token;
    let q = encode_utf8(full);
    let tb = encode_utf8(token);
    assert(is_ascii_chars(full)) by {
        assert forall|i: int| 0 <= i < full.len() implies '\0' <= #[trigger] full[i]
            <= '\u{7f}' by {
            if i >= prefix.len() {
                assert(is_token_char(token[i - prefix.len()]));
            }
        }
    }
    assert(is_ascii_chars(token)) by {
        assert forall|i: int| 0 <= i < token.len() implies '\0' <= #[trigger] token[i]
            <= '\u{7f}' by {
            assert(is_token_char(token[i]));
        }
    }
    is_ascii_chars_encode_utf8(full);
    is_ascii_chars_encode_utf8(token);
    encode_utf8_valid_utf8(token);
    encode_utf8_decode_utf8(token);
    assert(q =~= token_key() + seq![B_EQ] + tb) by {
        assert forall|i: int| 0 <= i < q.len() implies q[i] == (token_key() + seq![B_EQ]
            + tb)[i] by {
            assert(q[i] == full[i] as u8);
            if i >= prefix.len() {
                assert(full[i] == token[i - prefix.len()]);
                assert(tb[i - prefix.len()] == token[i - prefix.len()] as u8);
            }
        }
    }
    assert forall|i: int| 0 <= i < q.len() implies #[trigger] q[i] != B_AMP by {
        if i >= prefix.len() {
            assert(is_token_char(token[i - prefix.len()]));
            assert(q[i] == token[i - prefix.len()] as u8);
        }
    }
    crate::form::lemma_idx_of_exact(q, B_AMP, q.len() as int);
    assert(form_pairs(q) == seq![split_pair(q.take(q.len() as int))] + Seq::<(
        Seq<u8>,
        Seq<u8>,
    )>::empty());
    assert(q.take(q.len() as int) =~= q);
    let pairs = form_pairs(q);
    assert(pairs =~= seq![split_pair(q)]);
    assert forall|i: int| 0 <= i < 18 implies #[trigger] q[i] != B_EQ by {}
    assert(q[18] == B_EQ);
    crate::form::lemma_idx_of_exact(q, B_EQ, 18);
    let pair = split_pair(q);
    assert(pair.0 =~= token_key());
    assert(pair.1 =~= tb);
    assert forall|i: int| 0 <= i < token_key().len() implies #[trigger] token_key()[i] != B_PERCENT
        && token_key()[i] != B_PLUS by {}
    lemma_pct_decode_plain(token_key());
    assert forall|i: int| 0 <= i < tb.len() implies tb[i] != B_PERCENT && #[trigger] tb[i]
        != B_PLUS by {
        assert(is_token_char(token[i]));
        assert(tb[i] == token[i] as u8);
    }
    lemma_pct_decode_plain(tb);
    assert(lookup_field(pairs, token_key()) == Some(tb));
}

/// The end-to-end law of the confirmation link: after a successful
/// subscription with token text `token`, the query string of the mailed link
/// parses back to exactly that token, looking it up finds the new
/// subscriber, and the confirmation moves that subscriber — and only it —
/// to confirmed.
pub proof fn lemma_link_click_confirms(
    subs: Seq<crate::store::SubscriberRecord>,
    toks: Seq<crate::store::TokenRecord>,
    sub: crate::store::SubscriberRecord,
    tok: crate::store::TokenRecord,
)
    requires
        token_wf(tok.token@),
        !has_token(toks, tok.token@),
        !has_subscriber(subs, sub.id),
        tok.subscriber_id == sub.id,
    ensures
        ({
            let q = encode_utf8("subscription_token="@ + tok.token@);
            &&& form_field(q, token_key()) is Some
            &&& valid_utf8(form_field(q, token_key()).unwrap())
            &&& decode_utf8(form_field(q, token_key()).unwrap()) == tok.token@
            &&& find_token(toks.push(tok), tok.token@) == Some(sub.id)
            &&& confirm_all(subs.push(sub), sub.id).drop_last() == subs
            &&& confirm_all(subs.push(sub), sub.id).last().id == sub.id
            &&& confirm_all(subs.push(sub), sub.id).last().email == sub.email
            &&& confirm_all(subs.push(sub), sub.id).last().status
                == crate::store::SubscriberStatus::Confirmed
        }),
{
    lemma_confirm_query_round_trip(tok.token@);
    crate::store::lemma_subscribe_then_confirm(subs, toks, sub, tok);
}

} // verus!
