//! In-memory model of the persisted state: one table of subscriber rows keyed
//! by email, and one table holding at most one confirmation-token row per
//! subscriber.
use crate::token::token_wf;
use vstd::prelude::*;

verus! {

/// Lifecycle states of a subscriber; the transition from pending to confirmed
/// happens once and is never reversed.
#[derive(Clone, Copy, PartialEq, Eq, Structural, Debug)]
pub enum SubscriberStatus {
    PendingConfirmation,
    Confirmed,
}

impl SubscriberStatus {
    /// The storage representation of the status.
    pub fn as_str(&self) -> (r: &'static str)
        ensures
            *self == SubscriberStatus::PendingConfirmation ==> r@ == "pending_confirmation"@,
            *self == SubscriberStatus::Confirmed ==> r@ == "confirmed"@,
    {
        match self {
            SubscriberStatus::PendingConfirmation => "pending_confirmation",
            SubscriberStatus::Confirmed => "confirmed",
        }
    }
}

/// One row of the subscriptions table.
pub struct SubscriberRow {
    pub id: u128,
    pub email: String,
    pub name: String,
    pub status: SubscriberStatus,
    pub subscribed_at: i64,
}

/// One row of the subscription-tokens table.
pub struct TokenRow {
    pub subscriber_id: u128,
    pub subscription_token: String,
}

/// The state the subscription workflow reads and writes.
pub struct Store {
    pub subscriptions: Vec<SubscriberRow>,
    pub subscription_tokens: Vec<TokenRow>,
}

impl Store {
    pub open spec fn subs(self) -> Seq<SubscriberRow> {
        self.subscriptions@
    }

    pub open spec fn toks(self) -> Seq<TokenRow> {
        self.subscription_tokens@
    }

    /// Table invariant: ids and emails are unique among subscribers, each
    /// subscriber holds at most one token row, every token row points at an
    /// existing subscriber, and every stored token is well-shaped.
    pub open spec fn wf(self) -> bool {
        &&& forall|i: int, j: int|
            0 <= i < j < self.subs().len() ==> self.subs()[i].id != self.subs()[j].id
        &&& forall|i: int, j: int|
            0 <= i < j < self.subs().len() ==> self.subs()[i].email@ != self.subs()[j].email@
        &&& forall|i: int, j: int|
            0 <= i < j < self.toks().len() ==> self.toks()[i].subscriber_id
                != self.toks()[j].subscriber_id
        &&& forall|i: int|
            0 <= i < self.toks().len() ==> self.has_id(#[trigger] self.toks()[i].subscriber_id)
        &&& forall|i: int|
            0 <= i < self.toks().len() ==> token_wf(#[trigger] self.toks()[i].subscription_token@)
    }

    pub open spec fn has_email(self, e: Seq<char>) -> bool {
        exists|i: int| 0 <= i < self.subs().len() && self.subs()[i].email@ == e
    }

    pub open spec fn email_index(self, e: Seq<char>) -> int {
        choose|i: int| 0 <= i < self.subs().len() && self.subs()[i].email@ == e
    }

    /// The unique row holding email `e`, meaningful when `has_email(e)`.
    pub open spec fn row_of_email(self, e: Seq<char>) -> SubscriberRow {
        self.subs()[self.email_index(e)]
    }

    pub open spec fn id_of_email(self, e: Seq<char>) -> u128 {
        self.row_of_email(e).id
    }

    pub open spec fn has_id(self, id: u128) -> bool {
        exists|i: int| 0 <= i < self.subs().len() && self.subs()[i].id == id
    }

    pub open spec fn id_index(self, id: u128) -> int {
        choose|i: int| 0 <= i < self.subs().len() && self.subs()[i].id == id
    }

    /// The unique row with identifier `id`, meaningful when `has_id(id)`.
    pub open spec fn row_of_id(self, id: u128) -> SubscriberRow {
        self.subs()[self.id_index(id)]
    }

    pub open spec fn status_of(self, id: u128) -> SubscriberStatus {
        self.row_of_id(id).status
    }

    pub open spec fn has_token(self, sid: u128) -> bool {
        exists|i: int| 0 <= i < self.toks().len() && self.toks()[i].subscriber_id == sid
    }

    pub open spec fn token_index(self, sid: u128) -> int {
        choose|i: int| 0 <= i < self.toks().len() && self.toks()[i].subscriber_id == sid
    }

    /// The token currently stored for `sid`, meaningful when `has_token(sid)`.
    pub open spec fn token_for(self, sid: u128) -> Seq<char> {
        self.toks()[self.token_index(sid)].subscription_token@
    }

    /// Token value `t` currently identifies subscriber `sid`: the one token
    /// row of `sid` holds exactly `t`.
    pub open spec fn token_resolves_to(self, t: Seq<char>, sid: u128) -> bool {
        self.has_token(sid) && self.token_for(sid) == t
    }

    /// Number of subscriber rows holding email `e`.
    pub open spec fn email_count(self, e: Seq<char>) -> nat {
        count_email(self.subs(), e)
    }

    /// Number of token rows belonging to `sid`.
    pub open spec fn token_count(self, sid: u128) -> nat {
        count_token_rows(self.toks(), sid)
    }
}

pub open spec fn count_email(rows: Seq<SubscriberRow>, e: Seq<char>) -> nat
    decreases rows.len(),
{
    if rows.len() == 0 {
        0
    } else {
        count_email(rows.drop_last(), e) + if rows.last().email@ == e {
            1nat
        } else {
            0nat
        }
    }
}

pub open spec fn count_token_rows(rows: Seq<TokenRow>, sid: u128) -> nat
    decreases rows.len(),
{
    if rows.len() == 0 {
        0
    } else {
        count_token_rows(rows.drop_last(), sid) + if rows.last().subscriber_id == sid {
            1nat
        } else {
            0nat
        }
    }
}

proof fn lemma_count_email_absent(rows: Seq<SubscriberRow>, e: Seq<char>)
    requires
        forall|i: int| 0 <= i < rows.len() ==> rows[i].email@ != e,
    ensures
        count_email(rows, e) == 0,
    decreases rows.len(),
{
    if rows.len() > 0 {
        assert(forall|i: int| 0 <= i < rows.len() - 1 ==> rows.drop_last()[i] == rows[i]);
        lemma_count_email_absent(rows.drop_last(), e);
    }
}

proof fn lemma_count_email_distinct(rows: Seq<SubscriberRow>, e: Seq<char>)
    requires
        forall|i: int, j: int| 0 <= i < j < rows.len() ==> rows[i].email@ != rows[j].email@,
    ensures
        (exists|i: int| 0 <= i < rows.len() && rows[i].email@ == e) ==> count_email(rows, e) == 1,
        !(exists|i: int| 0 <= i < rows.len() && rows[i].email@ == e) ==> count_email(rows, e)
            == 0,
    decreases rows.len(),
{
    if rows.len() > 0 {
        let prefix = rows.drop_last();
        assert(forall|i: int| 0 <= i < prefix.len() ==> prefix[i] == rows[i]);
        if rows.last().email@ == e {
            assert(forall|i: int| 0 <= i < prefix.len() ==> prefix[i].email@ != e);
            lemma_count_email_absent(prefix, e);
        } else {
            lemma_count_email_distinct(prefix, e);
            if exists|i: int| 0 <= i < rows.len() && rows[i].email@ == e {
                let w = choose|i: int| 0 <= i < rows.len() && rows[i].email@ == e;
                assert(w < rows.len() - 1);
                assert(prefix[w].email@ == e);
            }
        }
    }
}

proof fn lemma_count_token_absent(rows: Seq<TokenRow>, sid: u128)
    requires
        forall|i: int| 0 <= i < rows.len() ==> rows[i].subscriber_id != sid,
    ensures
        count_token_rows(rows, sid) == 0,
    decreases rows.len(),
{
    if rows.len() > 0 {
        assert(forall|i: int| 0 <= i < rows.len() - 1 ==> rows.drop_last()[i] == rows[i]);
        lemma_count_token_absent(rows.drop_last(), sid);
    }
}

proof fn lemma_count_token_distinct(rows: Seq<TokenRow>, sid: u128)
    requires
        forall|i: int, j: int|
            0 <= i < j < rows.len() ==> rows[i].subscriber_id != rows[j].subscriber_id,
    ensures
        (exists|i: int| 0 <= i < rows.len() && rows[i].subscriber_id == sid) ==> count_token_rows(
            rows,
            sid,
        ) == 1,
        !(exists|i: int| 0 <= i < rows.len() && rows[i].subscriber_id == sid)
            ==> count_token_rows(rows, sid) == 0,
    decreases rows.len(),
{
    if rows.len() > 0 {
        let prefix = rows.drop_last();
        assert(forall|i: int| 0 <= i < prefix.len() ==> prefix[i] == rows[i]);
        if rows.last().subscriber_id == sid {
            assert(forall|i: int| 0 <= i < prefix.len() ==> prefix[i].subscriber_id != sid);
            lemma_count_token_absent(prefix, sid);
        } else {
            lemma_count_token_distinct(prefix, sid);
            if exists|i: int| 0 <= i < rows.len() && rows[i].subscriber_id == sid {
                let w = choose|i: int| 0 <= i < rows.len() && rows[i].subscriber_id == sid;
                assert(w < rows.len() - 1);
                assert(prefix[w].subscriber_id == sid);
            }
        }
    }
}

/// In a well-formed store an email is held by exactly one row or by none.
pub proof fn lemma_email_count(s: Store, e: Seq<char>)
    requires
        s.wf(),
    ensures
        s.has_email(e) ==> s.email_count(e) == 1,
        !s.has_email(e) ==> s.email_count(e) == 0,
{
    lemma_count_email_distinct(s.subs(), e);
}

/// In a well-formed store a subscriber owns exactly one token row or none.
pub proof fn lemma_token_count(s: Store, sid: u128)
    requires
        s.wf(),
    ensures
        s.has_token(sid) ==> s.token_count(sid) == 1,
        !s.has_token(sid) ==> s.token_count(sid) == 0,
{
    lemma_count_token_distinct(s.toks(), sid);
}

/// The subscriber row at index `i` of a well-formed store is the one its
/// email and its id select.
pub proof fn lemma_sub_at(s: Store, i: int)
    requires
        s.wf(),
        0 <= i < s.subs().len(),
    ensures
        s.has_email(s.subs()[i].email@),
        s.email_index(s.subs()[i].email@) == i,
        s.row_of_email(s.subs()[i].email@) == s.subs()[i],
        s.has_id(s.subs()[i].id),
        s.id_index(s.subs()[i].id) == i,
        s.row_of_id(s.subs()[i].id) == s.subs()[i],
{
    assert(s.has_email(s.subs()[i].email@));
    let j = s.email_index(s.subs()[i].email@);
    assert(0 <= j < s.subs().len() && s.subs()[j].email@ == s.subs()[i].email@);
    if j != i {
        assert(false);
    }
    assert(s.has_id(s.subs()[i].id));
    let k = s.id_index(s.subs()[i].id);
    assert(0 <= k < s.subs().len() && s.subs()[k].id == s.subs()[i].id);
    if k != i {
        assert(false);
    }
}

/// The token row at index `i` of a well-formed store is the one its
/// subscriber id selects.
pub proof fn lemma_token_at(s: Store, i: int)
    requires
        s.wf(),
        0 <= i < s.toks().len(),
    ensures
        s.has_token(s.toks()[i].subscriber_id),
        s.token_index(s.toks()[i].subscriber_id) == i,
        s.token_for(s.toks()[i].subscriber_id) == s.toks()[i].subscription_token@,
{
    assert(s.has_token(s.toks()[i].subscriber_id));
    let j = s.token_index(s.toks()[i].subscriber_id);
    assert(0 <= j < s.toks().len() && s.toks()[j].subscriber_id == s.toks()[i].subscriber_id);
    if j != i {
        assert(false);
    }
}

/// `post` is `pre` with one fresh pending subscriber row appended; the token
/// table is not constrained here.
pub open spec fn pending_row_appended(
    pre: Store,
    post: Store,
    id: u128,
    email: Seq<char>,
    name: Seq<char>,
    now: i64,
) -> bool {
    &&& post.subs().len() == pre.subs().len() + 1
    &&& forall|j: int| 0 <= j < pre.subs().len() ==> post.subs()[j] == pre.subs()[j]
    &&& post.subs().last().id == id
    &&& post.subs().last().email@ == email
    &&& post.subs().last().name@ == name
    &&& post.subs().last().status == SubscriberStatus::PendingConfirmation
    &&& post.subs().last().subscribed_at == now
}

/// The token table of `post` is that of `pre` with the token of `sid` set to
/// `t` and every other subscriber's row untouched; the subscriber table is
/// not constrained here.
pub open spec fn token_set(pre: Store, post: Store, sid: u128, t: Seq<char>) -> bool {
    &&& post.token_resolves_to(t, sid)
    &&& post.toks().len() == pre.toks().len() + if pre.has_token(sid) {
        0int
    } else {
        1int
    }
    &&& forall|s2: u128| s2 != sid ==> post.has_token(s2) == pre.has_token(s2)
    &&& forall|s2: u128|
        s2 != sid && pre.has_token(s2) ==> post.token_for(s2) == pre.token_for(s2)
}

/// `post` is `pre` with subscriber `sid` marked confirmed (a no-op when `sid`
/// is absent or already confirmed) and nothing else changed.
pub open spec fn subscriber_confirmed(pre: Store, post: Store, sid: u128) -> bool {
    &&& post.subscription_tokens == pre.subscription_tokens
    &&& post.subs().len() == pre.subs().len()
    &&& forall|j: int|
        0 <= j < pre.subs().len() && pre.subs()[j].id != sid ==> post.subs()[j] == pre.subs()[j]
    &&& forall|j: int|
        0 <= j < pre.subs().len() && pre.subs()[j].id == sid ==> {
            &&& (#[trigger] post.subs()[j]).id == sid
            &&& post.subs()[j].email@ == pre.subs()[j].email@
            &&& post.subs()[j].name@ == pre.subs()[j].name@
            &&& post.subs()[j].subscribed_at == pre.subs()[j].subscribed_at
            &&& post.subs()[j].status == SubscriberStatus::Confirmed
        }
}

} // verus!
