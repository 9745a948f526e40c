//! The subscriber store: the two persisted tables of the workflow and the
//! operations the handlers perform on them.
//!
//! `Store` is the abstract state of the database: one row per subscriber and
//! one row per confirmation token. `apply_subscription` is the transaction
//! of the subscription endpoint — the subscriber row and its token row are
//! written as a pair or not at all — and the uniqueness constraints of the
//! storage layer are what its error cases stand for.
use crate::domain::{valid_email, valid_name, NewSubscriber, SubscriberEmail, SubscriberName};
use crate::token::token_wf;
use vstd::prelude::*;
use vstd::string::StrSliceExecFns;

verus! {

/// Lifecycle state of a subscriber. Created as pending; moves to confirmed
/// once, never back.
#[derive(Clone, Copy, Debug, PartialEq, Eq, Structural)]
pub enum SubscriberStatus {
    PendingConfirmation,
    Confirmed,
}

/// One row of the subscriptions table.
#[derive(Debug)]
pub struct SubscriberRecord {
    pub id: u128,
    pub email: SubscriberEmail,
    pub name: SubscriberName,
    pub subscribed_at: u64,
    pub status: SubscriberStatus,
}

/// One row of the subscription tokens table.
#[derive(Debug)]
pub struct TokenRecord {
    pub token: String,
    pub subscriber_id: u128,
}

/// Why a write was refused by the store: a uniqueness constraint.
#[derive(Clone, Copy, Debug, PartialEq, Eq, Structural)]
pub enum StoreError {
    DuplicateId,
    DuplicateToken,
}

/// Some row carries this subscriber id.
pub open spec fn has_subscriber(subs: Seq<SubscriberRecord>, id: u128) -> bool {
    exists|i: int| 0 <= i < subs.len() && subs[i].id == id
}

/// Some token row belongs to this subscriber id.
pub open spec fn subscriber_has_token(toks: Seq<TokenRecord>, id: u128) -> bool {
    exists|j: int| 0 <= j < toks.len() && toks[j].subscriber_id == id
}

/// Some row carries this token text.
pub open spec fn has_token(toks: Seq<TokenRecord>, t: Seq<char>) -> bool {
    exists|i: int| 0 <= i < toks.len() && toks[i].token@ == t
}

/// The subscriber id of the first row carrying this token text, if any.
pub open spec fn find_token(toks: Seq<TokenRecord>, t: Seq<char>) -> Option<u128>
    decreases toks.len(),
{
    if toks.len() == 0 {
        None
    } else if toks[0].token@ == t {
        Some(toks[0].subscriber_id)
    } else {
        find_token(toks.drop_first(), t)
    }
}

/// A row after a confirmation of `id`: the status of the matching row
/// becomes confirmed, every other row is untouched.
pub open spec fn confirm_one(r: SubscriberRecord, id: u128) -> SubscriberRecord {
    if r.id == id {
        SubscriberRecord { status: SubscriberStatus::Confirmed, ..r }
    } else {
        r
    }
}

/// The subscriptions table after a confirmation of `id`.
pub open spec fn confirm_all(subs: Seq<SubscriberRecord>, id: u128) -> Seq<SubscriberRecord> {
    subs.map_values(|r: SubscriberRecord| confirm_one(r, id))
}

/// The subscriber row created by a subscription, before confirmation.
pub open spec fn pending_record(subscriber: NewSubscriber, id: u128, subscribed_at: u64) -> SubscriberRecord {
    SubscriberRecord {
        id,
        email: subscriber.email,
        name: subscriber.name,
        subscribed_at,
        status: SubscriberStatus::PendingConfirmation,
    }
}

/// The persisted state the workflow runs against.
#[derive(Debug)]
pub struct Store {
    pub subscribers: Vec<SubscriberRecord>,
    pub tokens: Vec<TokenRecord>,
}

impl Store {
    /// The store's invariant: subscriber ids and token texts are unique
    /// (the storage layer's uniqueness constraints); every token belongs to
    /// an existing subscriber; every subscriber was born with at least one
    /// token; every row passed validation; tokens are well-formed.
    pub open spec fn wf(self) -> bool {
        &&& forall|i: int, j: int|
            0 <= i < j < self.subscribers@.len() ==> (#[trigger] self.subscribers@[i]).id
                != (#[trigger] self.subscribers@[j]).id
        &&& forall|i: int, j: int|
            0 <= i < j < self.tokens@.len() ==> (#[trigger] self.tokens@[i]).token@
                != (#[trigger] self.tokens@[j]).token@
        &&& forall|i: int|
            0 <= i < self.tokens@.len() ==> has_subscriber(
                self.subscribers@,
                (#[trigger] self.tokens@[i]).subscriber_id,
            )
        &&& forall|i: int|
            0 <= i < self.subscribers@.len() ==> subscriber_has_token(
                self.tokens@,
                (#[trigger] self.subscribers@[i]).id,
            )
        &&& forall|i: int|
            0 <= i < self.subscribers@.len() ==> valid_email(
                (#[trigger] self.subscribers@[i]).email@,
            ) && valid_name(self.subscribers@[i].name@)
        &&& forall|i: int|
            0 <= i < self.tokens@.len() ==> token_wf((#[trigger] self.tokens@[i]).token@)
    }

    /// An empty store.
    pub fn new() -> (s: Store)
        ensures
            s.wf(),
            s.subscribers@.len() == 0,
            s.tokens@.len() == 0,
    {
        Store { subscribers: Vec::new(), tokens: Vec::new() }
    }

    /// Whether a subscriber row with this id exists.
    fn has_subscriber_exec(&self, id: u128) -> (r: bool)
        ensures
            r == has_subscriber(self.subscribers@, id),
    {
        let n = self.subscribers.len();
        let mut i: usize = 0;
        while i < n
            invariant
                i <= n,
                n == self.subscribers@.len(),
                forall|j: int| 0 <= j < i ==> #[trigger] self.subscribers@[j].id != id,
            decreases n - i,
        {
            if self.subscribers[i].id == id {
                return true;
            }
            i = i + 1;
        }
        false
    }

    /// Whether a token row with this text exists.
    fn has_token_exec(&self, token: &str) -> (r: bool)
        ensures
            r == has_token(self.tokens@, token@),
    {
        let n = self.tokens.len();
        let mut i: usize = 0;
        while i < n
            invariant
                i <= n,
                n == self.tokens@.len(),
                forall|j: int| 0 <= j < i ==> #[trigger] self.tokens@[j].token@ != token@,
            decreases n - i,
        {
            if str_eq(self.tokens[i].token.as_str(), token) {
                return true;
            }
            i = i + 1;
        }
        false
    }

    /// The transaction of the subscription endpoint: insert the subscriber
    /// row and its token row as one atomic pair. A uniqueness violation on
    /// either insert rolls the whole pair back — on an error the store is
    /// exactly as it was.
    pub fn apply_subscription(
        &mut self,
        subscriber: NewSubscriber,
        id: u128,
        token: String,
        subscribed_at: u64,
    ) -> (r: Result<(), StoreError>)
        requires
            old(self).wf(),
            token_wf(token@),
        ensures
            final(self).wf(),
            r is Err <==> has_subscriber(old(self).subscribers@, id) || has_token(
                old(self).tokens@,
                token@,
            ),
            r === Err(StoreError::DuplicateId) <==> has_subscriber(old(self).subscribers@, id),
            r === Err(StoreError::DuplicateToken) <==> !has_subscriber(old(self).subscribers@, id)
                && has_token(old(self).tokens@, token@),
            r is Err ==> final(self).subscribers@ == old(self).subscribers@ && final(self).tokens@
                == old(self).tokens@,
            r is Ok ==> final(self).subscribers@ == old(self).subscribers@.push(
                pending_record(subscriber, id, subscribed_at),
            ) && final(self).tokens@ == old(self).tokens@.push(
                TokenRecord { token, subscriber_id: id },
            ),
    {
        if self.has_subscriber_exec(id) {
            return Err(StoreError::DuplicateId);
        }
        if self.has_token_exec(token.as_str()) {
            return Err(StoreError::DuplicateToken);
        }
        proof {
            use_type_invariant(&subscriber.email);
            use_type_invariant(&subscriber.name);
            subscriber.email.lemma_wf_implies_valid();
            subscriber.name.lemma_wf_implies_valid();
        }
        let record = SubscriberRecord {
            id,
            email: subscriber.email,
            name: subscriber.name,
            subscribed_at,
            status: SubscriberStatus::PendingConfirmation,
        };
        self.subscribers.push(record);
        self.tokens.push(TokenRecord { token, subscriber_id: id });
        proof {
            let subs = self.subscribers@;
            let toks = self.tokens@;
            let osubs = old(self).subscribers@;
            let otoks = old(self).tokens@;
            let ns = subs.len() - 1;
            let nt = toks.len() - 1;
            assert forall|i: int| 0 <= i < ns implies #[trigger] subs[i] == osubs[i] by {}
            assert forall|i: int| 0 <= i < nt implies #[trigger] toks[i] == otoks[i] by {}
            assert forall|i: int, j: int|
                0 <= i < j < subs.len() implies (#[trigger] subs[i]).id != (
            #[trigger] subs[j]).id by {
                if j == ns {
                    assert(osubs[i].id != id);
                }
            }
            assert forall|i: int, j: int|
                0 <= i < j < toks.len() implies (#[trigger] toks[i]).token@ != (
            #[trigger] toks[j]).token@ by {
                if j == nt {
                    assert(otoks[i].token@ != token@);
                }
            }
            assert forall|i: int|
                0 <= i < toks.len() implies has_subscriber(
                subs,
                (#[trigger] toks[i]).subscriber_id,
            ) by {
                if i < nt {
                    let w = choose|w: int| 0 <= w < osubs.len() && osubs[w].id
                        == toks[i].subscriber_id;
                    assert(subs[w].id == toks[i].subscriber_id);
                } else {
                    assert(subs[ns].id == toks[i].subscriber_id);
                }
            }
            assert forall|i: int|
                0 <= i < subs.len() implies subscriber_has_token(
                toks,
                (#[trigger] subs[i]).id,
            ) by {
                if i < ns {
                    assert(subscriber_has_token(otoks, osubs[i].id));
                    let w = choose|w: int| 0 <= w < otoks.len() && otoks[w].subscriber_id
                        == osubs[i].id;
                    assert(toks[w].subscriber_id == subs[i].id);
                } else {
                    assert(toks[nt].subscriber_id == subs[i].id);
                }
            }
            assert forall|i: int|
                0 <= i < subs.len() implies valid_email((#[trigger] subs[i]).email@)
                    && valid_name(subs[i].name@) by {
                if i < ns {
                    assert(subs[i] == osubs[i]);
                    assert(valid_email(osubs[i].email@) && valid_name(osubs[i].name@));
                }
            }
            assert forall|i: int|
                0 <= i < toks.len() implies token_wf((#[trigger] toks[i]).token@) by {
                if i < nt {
                    assert(toks[i] == otoks[i]);
                    assert(token_wf(otoks[i].token@));
                }
            }
        }
        Ok(())
    }

    /// Look a confirmation token up; the first matching row decides, and by
    /// the invariant there is at most one.
    pub fn find_subscriber_by_token(&self, token: &str) -> (r: Option<u128>)
        ensures
            r == find_token(self.tokens@, token@),
    {
        let n = self.tokens.len();
        let mut i: usize = 0;
        proof {
            assert(self.tokens@.skip(0) =~= self.tokens@);
        }
        while i < n
            invariant
                i <= n,
                n == self.tokens@.len(),
                find_token(self.tokens@, token@) == find_token(
                    self.tokens@.skip(i as int),
                    token@,
                ),
            decreases n - i,
        {
            let ghost tail = self.tokens@.skip(i as int);
            proof {
                assert(tail[0] == self.tokens@[i as int]);
                assert(tail.drop_first() =~= self.tokens@.skip(i as int + 1));
            }
            if str_eq(self.tokens[i].token.as_str(), token) {
                return Some(self.tokens[i].subscriber_id);
            }
            i = i + 1;
        }
        proof {
            assert(self.tokens@.skip(n as int) =~= Seq::<TokenRecord>::empty());
        }
        None
    }

    /// Set the status of the subscriber with this id to confirmed. Applying
    /// it to an already-confirmed subscriber changes nothing; nothing else
    /// about the store changes either way.
    pub fn confirm_subscriber(&mut self, subscriber_id: u128)
        requires
            old(self).wf(),
        ensures
            final(self).wf(),
            final(self).subscribers@ == confirm_all(old(self).subscribers@, subscriber_id),
            final(self).tokens@ == old(self).tokens@,
    {
        let n = self.subscribers.len();
        let mut i: usize = 0;
        while i < n
            invariant
                i <= n,
                n == self.subscribers@.len(),
                n == old(self).subscribers@.len(),
                self.tokens@ == old(self).tokens@,
                forall|j: int|
                    0 <= j < i ==> #[trigger] self.subscribers@[j] == confirm_one(
                        old(self).subscribers@[j],
                        subscriber_id,
                    ),
                forall|j: int|
                    i <= j < n ==> #[trigger] self.subscribers@[j] == old(self).subscribers@[j],
            decreases n - i,
        {
            if self.subscribers[i].id == subscriber_id {
                self.subscribers[i].status = SubscriberStatus::Confirmed;
            }
            i = i + 1;
        }
        proof {
            assert(final(self).subscribers@ =~= confirm_all(
                old(self).subscribers@,
                subscriber_id,
            ));
            let subs = self.subscribers@;
            let toks = self.tokens@;
            let osubs = old(self).subscribers@;
            let otoks = old(self).tokens@;
            assert forall|k: int|
                0 <= k < subs.len() implies (#[trigger] subs[k]).id == osubs[k].id
                    && subs[k].email@ == osubs[k].email@ && subs[k].name@ == osubs[k].name@ by {
                assert(subs[k] == confirm_one(osubs[k], subscriber_id));
            }
            assert forall|i: int, j: int|
                0 <= i < j < subs.len() implies (#[trigger] subs[i]).id != (
            #[trigger] subs[j]).id by {
                assert(osubs[i].id != osubs[j].id);
            }
            assert forall|i: int|
                0 <= i < toks.len() implies has_subscriber(
                subs,
                (#[trigger] toks[i]).subscriber_id,
            ) by {
                assert(has_subscriber(osubs, otoks[i].subscriber_id));
                let w = choose|w: int| 0 <= w < osubs.len() && osubs[w].id
                    == otoks[i].subscriber_id;
                assert(subs[w].id == toks[i].subscriber_id);
            }
            assert forall|i: int|
                0 <= i < subs.len() implies subscriber_has_token(
                toks,
                (#[trigger] subs[i]).id,
            ) by {
                assert(subscriber_has_token(otoks, osubs[i].id));
                let w = choose|w: int| 0 <= w < otoks.len() && otoks[w].subscriber_id
                    == osubs[i].id;
                assert(toks[w].subscriber_id == subs[i].id);
            }
            assert forall|i: int|
                0 <= i < subs.len() implies valid_email((#[trigger] subs[i]).email@)
                    && valid_name(subs[i].name@) by {
                assert(valid_email(osubs[i].email@) && valid_name(osubs[i].name@));
            }
        }
    }
}

/// Confirming is idempotent: applying a confirmation twice leaves the table
/// exactly as applying it once does.
pub proof fn lemma_confirm_idempotent(subs: Seq<SubscriberRecord>, id: u128)
    ensures
        confirm_all(confirm_all(subs, id), id) == confirm_all(subs, id),
{
    assert(confirm_all(confirm_all(subs, id), id) =~= confirm_all(subs, id));
}

/// Confirming is monotone: a confirmed row stays confirmed under any later
/// confirmation, whatever subscriber it names.
pub proof fn lemma_confirm_monotone(subs: Seq<SubscriberRecord>, id: u128, k: int)
    requires
        0 <= k < subs.len(),
        subs[k].status == SubscriberStatus::Confirmed,
    ensures
        confirm_all(subs, id)[k].status == SubscriberStatus::Confirmed,
{
}

/// A token no row carries yet is found, once appended, at the appended row.
pub proof fn lemma_find_token_fresh(toks: Seq<TokenRecord>, tok: TokenRecord)
    requires
        !has_token(toks, tok.token@),
    ensures
        find_token(toks.push(tok), tok.token@) == Some(tok.subscriber_id),
    decreases toks.len(),
{
    let all = toks.push(tok);
    if toks.len() == 0 {
        assert(all[0] == tok);
    } else {
        assert(all[0] == toks[0]);
        assert(toks[0].token@ != tok.token@);
        assert(all.drop_first() =~= toks.drop_first().push(tok));
        assert(!has_token(toks.drop_first(), tok.token@)) by {
            if has_token(toks.drop_first(), tok.token@) {
                let w = choose|w: int|
                    0 <= w < toks.drop_first().len() && toks.drop_first()[w].token@ == tok.token@;
                assert(toks[w + 1].token@ == tok.token@);
            }
        }
        lemma_find_token_fresh(toks.drop_first(), tok);
    }
}

/// The end-to-end law of the workflow: after a successful subscription —
/// the pending subscriber row and its fresh token row appended as one pair —
/// looking the token up finds exactly the new subscriber, and confirming
/// that subscriber yields a confirmed row carrying the same identifier,
/// email and name, while every earlier row is left exactly as it was.
pub proof fn lemma_subscribe_then_confirm(
    subs: Seq<SubscriberRecord>,
    toks: Seq<TokenRecord>,
    sub: SubscriberRecord,
    tok: TokenRecord,
)
    requires
        !has_token(toks, tok.token@),
        !has_subscriber(subs, sub.id),
        tok.subscriber_id == sub.id,
    ensures
        find_token(toks.push(tok), tok.token@) == Some(sub.id),
        confirm_all(subs.push(sub), sub.id).len() == subs.len() + 1,
        confirm_all(subs.push(sub), sub.id).drop_last() == subs,
        ({
            let confirmed = confirm_all(subs.push(sub), sub.id).last();
            &&& confirmed.status == SubscriberStatus::Confirmed
            &&& confirmed.id == sub.id
            &&& confirmed.email == sub.email
            &&& confirmed.name == sub.name
            &&& confirmed.subscribed_at == sub.subscribed_at
        }),
{
    lemma_find_token_fresh(toks, tok);
    let after = confirm_all(subs.push(sub), sub.id);
    assert(after.drop_last() =~= subs) by {
        assert forall|k: int| 0 <= k < subs.len() implies after[k] == subs[k] by {
            assert(subs[k].id != sub.id);
            assert(after[k] == confirm_one(subs.push(sub)[k], sub.id));
        }
    }
    assert(after.last() == confirm_one(sub, sub.id));
}

/// Whether two string slices hold the same characters.
fn str_eq(a: &str, b: &str) -> (r: bool)
    ensures
        r == (a@ == b@),
{
    let na = a.unicode_len();
    let nb = b.unicode_len();
    if na != nb {
        return false;
    }
    let mut i: usize = 0;
    while i < na
        invariant
            i <= na,
            na == a@.len(),
            na == b@.len(),
            forall|j: int| 0 <= j < i ==> a@[j] == #[trigger] b@[j],
        decreases na - i,
    {
        if a.get_char(i) != b.get_char(i) {
            return false;
        }
        i = i + 1;
    }
    proof {
        assert(a@ =~= b@);
    }
    true
}

} // verus!
