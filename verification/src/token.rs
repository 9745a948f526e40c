//! Confirmation tokens: opaque random strings that prove control of a
//! subscribed email address.
use rand::RngExt;
use vstd::prelude::*;

verus! {

/// Length of every confirmation token, in characters.
pub const TOKEN_LEN: usize = 25;

/// A token is drawn from the alphanumeric alphabet.
pub open spec fn is_token_char(c: char) -> bool {
    ('0' <= c && c <= '9') || ('a' <= c && c <= 'z') || ('A' <= c && c <= 'Z')
}

/// A well-formed confirmation token: fixed length, alphanumeric throughout.
pub open spec fn token_wf(t: Seq<char>) -> bool {
    &&& t.len() == TOKEN_LEN
    &&& forall|i: int| 0 <= i < t.len() ==> is_token_char(#[trigger] t[i])
}

/// Relies on rand's `Alphanumeric` distribution: every sample is one of
/// `a`-`z`, `A`-`Z`, `0`-`9` (an ASCII byte), converted here to its `char`.
#[verifier::external_body]
fn sample_alphanumeric() -> (c: char)
    ensures
        is_token_char(c),
{
    char::from(rand::rng().sample(rand::distr::Alphanumeric))
}

/// Relies on `String::push`: appends exactly the given character.
#[verifier::external_body]
fn push_char(s: &mut String, c: char)
    ensures
        final(s)@ == old(s)@ + seq![c],
{
    s.push(c);
}

/// Produce a fresh confirmation token: `TOKEN_LEN` characters drawn uniformly
/// from the alphanumeric alphabet. Uniqueness is not guaranteed here; a
/// collision surfaces later as a storage-layer uniqueness violation.
pub fn generate_subscription_token() -> (t: String)
    ensures
        token_wf(t@),
{
    let mut t = String::new();
    let mut i: usize = 0;
    while i < TOKEN_LEN
        invariant
            i <= TOKEN_LEN,
            t@.len() == i,
            forall|j: int| 0 <= j < i ==> is_token_char(#[trigger] t@[j]),
        decreases TOKEN_LEN - i,
    {
        let c = sample_alphanumeric();
        push_char(&mut t, c);
        i = i + 1;
    }
    t
}

} // verus!
