//! The confirmation path: shape-checking the presented token, resolving it
//! to a subscriber, and the idempotent transition to the confirmed status.
use crate::form::{parse_confirm_query, token_param_of};
use crate::store::{
    lemma_sub_at, lemma_token_at, subscriber_confirmed, Store, SubscriberRow, SubscriberStatus,
};
use crate::subscriptions::StorageError;
use crate::token::{token_wf, validate_token_format};
use vstd::prelude::*;
use vstd::string::StringExecFns;

verus! {

/// Everything a confirmation attempt can answer besides success.
#[derive(Debug)]
pub enum ConfirmationError {
    UnexpectedError(String),
    UnknownToken,
}

impl ConfirmationError {
    /// The response status the error maps to: a token that identifies nobody
    /// reads 401, a server fault 500.
    pub fn status_code(&self) -> (s: u16)
        ensures
            s == (match *self {
                ConfirmationError::UnknownToken => 401u16,
                ConfirmationError::UnexpectedError(_) => 500u16,
            }),
    {
        match self {
            ConfirmationError::UnknownToken => 401,
            ConfirmationError::UnexpectedError(_) => 500,
        }
    }
}

/// Resolves a presented token to the subscriber it was issued to.
pub fn get_subscriber_id_from_token(store: &Store, subscription_token: &str) -> (r: Option<u128>)
    requires
        store.wf(),
    ensures
        match r {
            Some(sid) => store.token_resolves_to(subscription_token@, sid),
            None => forall|sid: u128| !store.token_resolves_to(subscription_token@, sid),
        },
{
    let target = String::from_str(subscription_token);
    let mut i: usize = 0;
    while i < store.subscription_tokens.len()
        invariant
            store.wf(),
            i <= store.toks().len(),
            target@ == subscription_token@,
            forall|k: int|
                0 <= k < i ==> store.toks()[k].subscription_token@ != subscription_token@,
        decreases store.toks().len() - i,
    {
        if store.subscription_tokens[i].subscription_token.eq(&target) {
            proof {
                lemma_token_at(*store, i as int);
            }
            return Some(store.subscription_tokens[i].subscriber_id);
        }
        i = i + 1;
    }
    proof {
        assert forall|sid: u128| !store.token_resolves_to(subscription_token@, sid) by {
            if store.has_token(sid) {
                let j = store.token_index(sid);
                assert(0 <= j < store.toks().len() && store.toks()[j].subscriber_id == sid);
                assert(store.toks()[j].subscription_token@ != subscription_token@);
            }
        }
    }
    None
}

/// Index of the subscriber row carrying `id`, if any.
fn find_subscriber_index(store: &Store, id: u128) -> (r: Option<usize>)
    requires
        store.wf(),
    ensures
        match r {
            Some(i) => i < store.subs().len() && store.subs()[i as int].id == id && store.has_id(
                id,
            ) && store.id_index(id) == i,
            None => !store.has_id(id),
        },
{
    let mut i: usize = 0;
    while i < store.subscriptions.len()
        invariant
            store.wf(),
            i <= store.subs().len(),
            forall|k: int| 0 <= k < i ==> store.subs()[k].id != id,
        decreases store.subs().len() - i,
    {
        if store.subscriptions[i].id == id {
            proof {
                lemma_sub_at(*store, i as int);
            }
            return Some(i);
        }
        i = i + 1;
    }
    None
}

/// Marks the subscriber confirmed; confirming an absent or already confirmed
/// subscriber changes nothing and still succeeds.
pub fn confirm_subscriber(store: &mut Store, subscriber_id: u128) -> (r: Result<(), StorageError>)
    requires
        old(store).wf(),
    ensures
        final(store).wf(),
        r is Ok,
        subscriber_confirmed(*old(store), *final(store), subscriber_id),
        !old(store).has_id(subscriber_id) ==> *final(store) == *old(store),
{
    let ghost pre = *store;
    match find_subscriber_index(store, subscriber_id) {
        None => Ok(()),
        Some(i) => {
            let row = store.subscriptions.remove(i);
            let updated = SubscriberRow {
                id: row.id,
                email: row.email,
                name: row.name,
                status: SubscriberStatus::Confirmed,
                subscribed_at: row.subscribed_at,
            };
            store.subscriptions.insert(i, updated);
            proof {
                let post = *store;
                assert(post.subs() =~= pre.subs().update(i as int, updated));
                assert(post.toks() == pre.toks());
                assert forall|k: int| 0 <= k < post.toks().len() implies post.has_id(
                    #[trigger] post.toks()[k].subscriber_id,
                ) by {
                    assert(pre.has_id(pre.toks()[k].subscriber_id));
                    let j = choose|j: int|
                        0 <= j < pre.subs().len() && pre.subs()[j].id == pre.toks()[
                            k].subscriber_id;
                    assert(post.subs()[j].id == pre.toks()[k].subscriber_id);
                }
                assert(post.wf());
                assert forall|j: int|
                    0 <= j < pre.subs().len() && pre.subs()[j].id != subscriber_id implies
                    post.subs()[j] == pre.subs()[j] by {
                    assert(j != i);
                }
            }
            Ok(())
        },
    }
}

/// The observable effect of one confirmation attempt: when `ok`, some
/// subscriber the token resolves to is now confirmed and nothing else moved;
/// when not, the token was malformed or unknown and nothing changed.
pub open spec fn confirm_transition(pre: Store, post: Store, t: Seq<char>, ok: bool) -> bool {
    if ok {
        &&& token_wf(t)
        &&& exists|sid: u128|
            {
                &&& #[trigger] pre.token_resolves_to(t, sid)
                &&& subscriber_confirmed(pre, post, sid)
            }
    } else {
        &&& post == pre
        &&& (!token_wf(t) || (forall|sid: u128| !pre.token_resolves_to(t, sid)))
    }
}

/// One confirmation attempt: the token's shape is checked before any lookup,
/// an unknown token is unauthorized rather than a fault, and the status
/// update is idempotent.
pub fn confirm(store: &mut Store, subscription_token: &str) -> (r: Result<(), ConfirmationError>)
    requires
        old(store).wf(),
    ensures
        final(store).wf(),
        !(r matches Err(ConfirmationError::UnexpectedError(_))),
        r is Ok ==> confirm_transition(*old(store), *final(store), subscription_token@, true),
        r is Err ==> confirm_transition(*old(store), *final(store), subscription_token@, false),
{
    if !validate_token_format(subscription_token) {
        return Err(ConfirmationError::UnknownToken);
    }
    let id = match get_subscriber_id_from_token(store, subscription_token) {
        Some(id) => id,
        None => {
            return Err(ConfirmationError::UnknownToken);
        },
    };
    match confirm_subscriber(store, id) {
        Ok(_) => {},
        Err(_) => {
            return Err(
                ConfirmationError::UnexpectedError(
                    String::from_str("failed to update the subscriber status"),
                ),
            );
        },
    }
    Ok(())
}

/// The full confirmation endpoint: decodes the query string and runs the
/// attempt; a query without a usable token parameter reads 400, a token that
/// identifies nobody 401, success 200.
pub fn handle_confirm(store: &mut Store, query: &str) -> (s: u16)
    requires
        old(store).wf(),
    ensures
        final(store).wf(),
        match token_param_of(query@) {
            None => s == 400 && *final(store) == *old(store),
            Some(t) => (s == 200 || s == 401) && confirm_transition(
                *old(store),
                *final(store),
                t,
                s == 200,
            ),
        },
{
    let p = match parse_confirm_query(query) {
        Some(p) => p,
        None => {
            return 400;
        },
    };
    match confirm(store, p.subscription_token.as_str()) {
        Ok(_) => 200,
        Err(e) => e.status_code(),
    }
}

} // verus!
