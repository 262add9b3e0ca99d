//! Workflow guarantees that span several operations, stated over the same
//! transition predicates the executable functions are specified with.
use crate::store::{
    lemma_email_count, lemma_sub_at, lemma_token_at, lemma_token_count, Store, SubscriberStatus,
};
use crate::subscriptions::{subscribe_transition, subscribed_id};
use crate::subscriptions_confirm::confirm_transition;
use vstd::prelude::*;

verus! {

/// An accepted first submission for an unknown email leaves exactly one
/// subscriber row with that email, pending, and exactly one token row for
/// it, holding the fresh token.
pub proof fn lemma_first_submission(
    pre: Store,
    post: Store,
    name: Seq<char>,
    email: Seq<char>,
    fresh_id: u128,
    t: Seq<char>,
    now: i64,
)
    requires
        pre.wf(),
        post.wf(),
        !pre.has_email(email),
        subscribe_transition(pre, post, name, email, fresh_id, t, now, true),
    ensures
        post.subs().len() == pre.subs().len() + 1,
        post.email_count(email) == 1,
        post.id_of_email(email) == fresh_id,
        post.status_of(fresh_id) == SubscriberStatus::PendingConfirmation,
        post.row_of_id(fresh_id).subscribed_at == now,
        post.token_count(fresh_id) == 1,
        post.token_resolves_to(t, fresh_id),
{
    let n = pre.subs().len() as int;
    assert(post.subs().last() == post.subs()[n]);
    lemma_sub_at(post, n);
    lemma_email_count(post, email);
    lemma_token_count(post, fresh_id);
}

/// Resubmitting a known email keeps one subscriber row and one token row,
/// touches neither the status nor the signup time, and replaces the token,
/// so the previously issued token no longer identifies the subscriber —
/// provided the two drawn tokens differ.
pub proof fn lemma_resubscription(
    pre: Store,
    post: Store,
    name: Seq<char>,
    email: Seq<char>,
    fresh_id: u128,
    t_old: Seq<char>,
    t_new: Seq<char>,
    now: i64,
)
    requires
        pre.wf(),
        post.wf(),
        pre.has_email(email),
        pre.token_resolves_to(t_old, pre.id_of_email(email)),
        subscribe_transition(pre, post, name, email, fresh_id, t_new, now, true),
        t_new != t_old,
    ensures
        post.subs().len() == pre.subs().len(),
        post.email_count(email) == 1,
        post.id_of_email(email) == pre.id_of_email(email),
        post.token_count(pre.id_of_email(email)) == 1,
        post.token_resolves_to(t_new, pre.id_of_email(email)),
        !post.token_resolves_to(t_old, pre.id_of_email(email)),
        post.status_of(pre.id_of_email(email)) == pre.status_of(pre.id_of_email(email)),
        post.row_of_id(pre.id_of_email(email)).subscribed_at == pre.row_of_id(
            pre.id_of_email(email),
        ).subscribed_at,
{
    let sid = pre.id_of_email(email);
    assert(post.subs() == pre.subs());
    let i = pre.email_index(email);
    assert(0 <= i < pre.subs().len() && pre.subs()[i].email@ == email);
    lemma_sub_at(pre, i);
    lemma_sub_at(post, i);
    assert(pre.subs()[i].id == sid);
    assert(post.id_of_email(email) == sid);
    assert(post.id_index(sid) == i && pre.id_index(sid) == i);
    lemma_email_count(post, email);
    assert(subscribed_id(pre, email, fresh_id) == sid);
    lemma_token_count(post, sid);
    assert(post.token_for(sid) == t_new);
}

/// Confirming with the token currently issued to a subscriber marks that
/// subscriber confirmed; the token still resolves afterwards, and a second
/// confirmation with it succeeds the same way and leaves the status
/// confirmed. The uniqueness hypothesis says the token identifies a single
/// subscriber, which holds of every token the workflow issues.
pub proof fn lemma_confirmation_idempotent(
    pre: Store,
    mid: Store,
    post: Store,
    t: Seq<char>,
    sid: u128,
)
    requires
        pre.wf(),
        mid.wf(),
        post.wf(),
        pre.token_resolves_to(t, sid),
        forall|s2: u128| pre.token_resolves_to(t, s2) ==> s2 == sid,
        confirm_transition(pre, mid, t, true),
        confirm_transition(mid, post, t, true),
    ensures
        mid.status_of(sid) == SubscriberStatus::Confirmed,
        mid.token_resolves_to(t, sid),
        post.status_of(sid) == SubscriberStatus::Confirmed,
        mid.subs().len() == pre.subs().len(),
        post.subs().len() == pre.subs().len(),
{
    // The token row gives the subscriber row through the foreign key.
    let k = pre.token_index(sid);
    assert(0 <= k < pre.toks().len() && pre.toks()[k].subscriber_id == sid);
    assert(pre.has_id(sid));
    let j = pre.id_index(sid);
    assert(0 <= j < pre.subs().len() && pre.subs()[j].id == sid);

    // The first confirmation can only have acted on `sid`.
    let s2 = choose|s2: u128|
        {
            &&& #[trigger] pre.token_resolves_to(t, s2)
            &&& crate::store::subscriber_confirmed(pre, mid, s2)
        };
    assert(s2 == sid);
    assert(mid.subs()[j].id == sid && mid.subs()[j].status == SubscriberStatus::Confirmed);
    lemma_sub_at(mid, j);

    // The token table did not move, so the token still resolves in `mid`.
    assert(mid.toks() == pre.toks());
    assert(mid.toks()[k].subscriber_id == sid);
    lemma_token_at(mid, k);
    lemma_token_at(pre, k);
    assert(mid.token_resolves_to(t, sid));

    // Nor can the second confirmation have acted on anyone else.
    let s3 = choose|s3: u128|
        {
            &&& #[trigger] mid.token_resolves_to(t, s3)
            &&& crate::store::subscriber_confirmed(mid, post, s3)
        };
    assert(mid.has_token(s3));
    let k3 = mid.token_index(s3);
    assert(0 <= k3 < mid.toks().len() && mid.toks()[k3].subscriber_id == s3);
    lemma_token_at(pre, k3);
    assert(pre.token_resolves_to(t, s3));
    assert(s3 == sid);
    assert(post.subs()[j].id == sid && post.subs()[j].status == SubscriberStatus::Confirmed);
    lemma_sub_at(post, j);
}

} // verus!
