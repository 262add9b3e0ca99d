//! The subscription path: validation of the submitted form, reconciliation of
//! the subscriber row, replacement of the confirmation token, and assembly of
//! the confirmation email.
use crate::domain::{email_valid, name_valid, NewSubscriber, SubscriberEmail, SubscriberName};
use crate::form::{form_of, parse_form, FormData};
use crate::store::{
    lemma_sub_at, lemma_token_at, pending_row_appended, token_set, Store, SubscriberRow,
    SubscriberStatus, TokenRow,
};
use crate::token::{generate_subscription_token, token_wf};
use vstd::prelude::*;
use vstd::string::StringExecFns;

verus! {

/// A storage fault; in this model the one way a write can fail is an
/// identifier collision on insert.
#[derive(Debug)]
pub struct StorageError {
    pub message: String,
}

/// A storage fault scoped to the token table, kept apart from general
/// storage faults so callers can attribute it to token persistence.
#[derive(Debug)]
pub struct StoreTokenError(pub StorageError);

/// Everything a subscription attempt can answer besides success.
#[derive(Debug)]
pub enum SubscribeError {
    ValidationError(String),
    UnexpectedError(String),
}

impl SubscribeError {
    /// The response status the error maps to: the client's fault reads 400,
    /// the server's 500.
    pub fn status_code(&self) -> (s: u16)
        ensures
            s == (match *self {
                SubscribeError::ValidationError(_) => 400u16,
                SubscribeError::UnexpectedError(_) => 500u16,
            }),
    {
        match self {
            SubscribeError::ValidationError(_) => 400,
            SubscribeError::UnexpectedError(_) => 500,
        }
    }
}

/// Both fields of a submitted form pass validation.
pub open spec fn form_data_valid(form: FormData) -> bool {
    name_valid(form.name@) && email_valid(form.email@)
}

impl NewSubscriber {
    /// Validates a raw form, name first, into a `NewSubscriber`.
    pub fn try_from(form: FormData) -> (r: Result<NewSubscriber, String>)
        ensures
            match r {
                Ok(ns) => form_data_valid(form) && ns.name@ == form.name@ && ns.email@
                    == form.email@,
                Err(_) => !form_data_valid(form),
            },
    {
        let name = match SubscriberName::parse(form.name) {
            Ok(n) => n,
            Err(e) => {
                return Err(e);
            },
        };
        let email = match SubscriberEmail::parse(form.email) {
            Ok(e) => e,
            Err(e) => {
                return Err(e);
            },
        };
        Ok(NewSubscriber { email, name })
    }
}

/// Point lookup of a subscriber by the submitted email.
fn check_for_existing_subscriber(store: &Store, new_subscriber: &NewSubscriber) -> (r: Option<
    u128,
>)
    requires
        store.wf(),
    ensures
        match r {
            Some(id) => store.has_email(new_subscriber.email@) && id == store.id_of_email(
                new_subscriber.email@,
            ),
            None => !store.has_email(new_subscriber.email@),
        },
{
    let target = new_subscriber.email.as_string();
    let mut i: usize = 0;
    while i < store.subscriptions.len()
        invariant
            store.wf(),
            i <= store.subs().len(),
            target@ == new_subscriber.email@,
            forall|k: int| 0 <= k < i ==> store.subs()[k].email@ != new_subscriber.email@,
        decreases store.subs().len() - i,
    {
        if store.subscriptions[i].email.eq(target) {
            proof {
                lemma_sub_at(*store, i as int);
            }
            return Some(store.subscriptions[i].id);
        }
        i = i + 1;
    }
    None
}

/// Whether some subscriber row already carries `id`.
fn store_has_id(store: &Store, id: u128) -> (r: bool)
    ensures
        r == store.has_id(id),
{
    let mut i: usize = 0;
    while i < store.subscriptions.len()
        invariant
            i <= store.subs().len(),
            forall|k: int| 0 <= k < i ==> store.subs()[k].id != id,
        decreases store.subs().len() - i,
    {
        if store.subscriptions[i].id == id {
            return true;
        }
        i = i + 1;
    }
    false
}

/// Finds the subscriber with the submitted email or inserts a fresh pending
/// row carrying `subscriber_id` and `now`; the only failure is a collision of
/// the fresh identifier.
pub fn insert_subscriber(
    store: &mut Store,
    new_subscriber: &NewSubscriber,
    subscriber_id: u128,
    now: i64,
) -> (r: Result<u128, StorageError>)
    requires
        old(store).wf(),
    ensures
        final(store).wf(),
        match r {
            Ok(id) => {
                &&& final(store).has_email(new_subscriber.email@)
                &&& final(store).id_of_email(new_subscriber.email@) == id
                &&& if old(store).has_email(new_subscriber.email@) {
                    *final(store) == *old(store) && id == old(store).id_of_email(
                        new_subscriber.email@,
                    )
                } else {
                    &&& id == subscriber_id
                    &&& !old(store).has_id(subscriber_id)
                    &&& pending_row_appended(
                        *old(store),
                        *final(store),
                        subscriber_id,
                        new_subscriber.email@,
                        new_subscriber.name@,
                        now,
                    )
                    &&& final(store).subscription_tokens == old(store).subscription_tokens
                }
            },
            Err(_) => {
                &&& !old(store).has_email(new_subscriber.email@)
                &&& old(store).has_id(subscriber_id)
                &&& *final(store) == *old(store)
            },
        },
{
    if let Some(id) = check_for_existing_subscriber(store, new_subscriber) {
        return Ok(id);
    }
    if store_has_id(store, subscriber_id) {
        return Err(
            StorageError { message: String::from_str("the fresh subscriber id is already taken") },
        );
    }
    let ghost pre = *store;
    let row = SubscriberRow {
        id: subscriber_id,
        email: String::from_str(new_subscriber.email.as_str()),
        name: String::from_str(new_subscriber.name.as_str()),
        status: SubscriberStatus::PendingConfirmation,
        subscribed_at: now,
    };
    store.subscriptions.push(row);
    proof {
        let post = *store;
        assert(forall|k: int| 0 <= k < pre.subs().len() ==> post.subs()[k] == pre.subs()[k]);
        assert(forall|k: int| 0 <= k < pre.subs().len() ==> pre.subs()[k].id != subscriber_id);
        assert(forall|k: int|
            0 <= k < pre.subs().len() ==> pre.subs()[k].email@ != new_subscriber.email@);
        assert(post.toks() == pre.toks());
        assert forall|k: int| 0 <= k < post.toks().len() implies post.has_id(
            #[trigger] post.toks()[k].subscriber_id,
        ) by {
            assert(pre.has_id(pre.toks()[k].subscriber_id));
            let j = choose|j: int|
                0 <= j < pre.subs().len() && pre.subs()[j].id == pre.toks()[k].subscriber_id;
            assert(post.subs()[j].id == pre.toks()[k].subscriber_id);
        }
        assert(post.wf());
        lemma_sub_at(post, pre.subs().len() as int);
    }
    Ok(subscriber_id)
}

/// Index of the token row of `subscriber_id`, if one exists.
fn check_for_existing_token(store: &Store, subscriber_id: u128) -> (r: Option<usize>)
    requires
        store.wf(),
    ensures
        match r {
            Some(i) => i < store.toks().len() && store.toks()[i as int].subscriber_id
                == subscriber_id && store.has_token(subscriber_id) && store.token_index(
                subscriber_id,
            ) == i,
            None => !store.has_token(subscriber_id),
        },
{
    let mut i: usize = 0;
    while i < store.subscription_tokens.len()
        invariant
            store.wf(),
            i <= store.toks().len(),
            forall|k: int| 0 <= k < i ==> store.toks()[k].subscriber_id != subscriber_id,
        decreases store.toks().len() - i,
    {
        if store.subscription_tokens[i].subscriber_id == subscriber_id {
            proof {
                lemma_token_at(*store, i as int);
            }
            return Some(i);
        }
        i = i + 1;
    }
    None
}

/// Upserts the confirmation token of `subscriber_id`: any previous token row
/// is replaced, so an earlier confirmation link stops resolving.
pub fn store_token(store: &mut Store, subscriber_id: u128, subscription_token: &str) -> (r: Result<
    (),
    StoreTokenError,
>)
    requires
        old(store).wf(),
        old(store).has_id(subscriber_id),
        token_wf(subscription_token@),
    ensures
        final(store).wf(),
        r is Ok,
        final(store).subscriptions == old(store).subscriptions,
        token_set(*old(store), *final(store), subscriber_id, subscription_token@),
{
    let ghost pre = *store;
    let tok = TokenRow {
        subscriber_id: subscriber_id,
        subscription_token: String::from_str(subscription_token),
    };
    match check_for_existing_token(store, subscriber_id) {
        Some(i) => {
            let _old_row = store.subscription_tokens.remove(i);
            store.subscription_tokens.insert(i, tok);
            proof {
                let post = *store;
                assert(post.toks() =~= pre.toks().update(i as int, tok));
                assert(post.wf());
                lemma_token_at(post, i as int);
                assert forall|s2: u128| s2 != subscriber_id implies post.has_token(s2)
                    == pre.has_token(s2) by {
                    if pre.has_token(s2) {
                        let j = choose|j: int|
                            0 <= j < pre.toks().len() && pre.toks()[j].subscriber_id == s2;
                        assert(post.toks()[j].subscriber_id == s2);
                    }
                    if post.has_token(s2) {
                        let j = choose|j: int|
                            0 <= j < post.toks().len() && post.toks()[j].subscriber_id == s2;
                        assert(pre.toks()[j].subscriber_id == s2);
                    }
                }
                assert forall|s2: u128| s2 != subscriber_id && pre.has_token(s2) implies
                    post.token_for(s2) == pre.token_for(s2) by {
                    let j = pre.token_index(s2);
                    assert(0 <= j < pre.toks().len() && pre.toks()[j].subscriber_id == s2);
                    lemma_token_at(pre, j);
                    assert(post.toks()[j].subscriber_id == s2);
                    lemma_token_at(post, j);
                }
            }
        },
        None => {
            store.subscription_tokens.push(tok);
            proof {
                let post = *store;
                assert(forall|k: int|
                    0 <= k < pre.toks().len() ==> post.toks()[k] == pre.toks()[k]);
                assert(forall|k: int|
                    0 <= k < pre.toks().len() ==> pre.toks()[k].subscriber_id != subscriber_id);
                assert(post.wf());
                lemma_token_at(post, pre.toks().len() as int);
                assert forall|s2: u128| s2 != subscriber_id implies post.has_token(s2)
                    == pre.has_token(s2) by {
                    if pre.has_token(s2) {
                        let j = choose|j: int|
                            0 <= j < pre.toks().len() && pre.toks()[j].subscriber_id == s2;
                        assert(post.toks()[j].subscriber_id == s2);
                    }
                    if post.has_token(s2) {
                        let j = choose|j: int|
                            0 <= j < post.toks().len() && post.toks()[j].subscriber_id == s2;
                        assert(j < pre.toks().len());
                        assert(pre.toks()[j].subscriber_id == s2);
                    }
                }
                assert forall|s2: u128| s2 != subscriber_id && pre.has_token(s2) implies
                    post.token_for(s2) == pre.token_for(s2) by {
                    let j = pre.token_index(s2);
                    assert(0 <= j < pre.toks().len() && pre.toks()[j].subscriber_id == s2);
                    lemma_token_at(pre, j);
                    assert(post.toks()[j].subscriber_id == s2);
                    lemma_token_at(post, j);
                }
            }
        },
    }
    Ok(())
}

/// The message sent to a new subscriber, addressed and fully rendered.
pub struct ConfirmationEmail {
    pub to: String,
    pub subject: String,
    pub html_body: String,
    pub text_body: String,
}

pub open spec fn confirmation_link_spec(base: Seq<char>, token: Seq<char>) -> Seq<char> {
    base + "/subscriptions/confirm?subscription_token="@ + token
}

pub open spec fn text_body_spec(link: Seq<char>) -> Seq<char> {
    "Welcome to our newsletter!\nVisit "@ + link + " to confirm your subscription."@
}

pub open spec fn html_body_spec(name: Seq<char>, link: Seq<char>) -> Seq<char> {
    "<html><body><p>Welcome "@ + name + "!</p><p>Visit <a href=\""@ + link
        + "\">this link</a> to confirm your subscription.</p></body></html>"@
}

/// The email `m` is exactly the confirmation message for this submission.
pub open spec fn confirmation_email_for(
    m: ConfirmationEmail,
    name: Seq<char>,
    email: Seq<char>,
    base: Seq<char>,
    t: Seq<char>,
) -> bool {
    &&& m.to@ == email
    &&& m.subject@ == "Welcome!"@
    &&& m.html_body@ == html_body_spec(name, confirmation_link_spec(base, t))
    &&& m.text_body@ == text_body_spec(confirmation_link_spec(base, t))
}

/// The confirmation link embedded in the email.
pub fn build_confirmation_link(base_url: &str, subscription_token: &str) -> (r: String)
    ensures
        r@ == confirmation_link_spec(base_url@, subscription_token@),
{
    let mut s = String::from_str(base_url);
    s.append("/subscriptions/confirm?subscription_token=");
    s.append(subscription_token);
    proof {
        assert(s@ =~= confirmation_link_spec(base_url@, subscription_token@));
    }
    s
}

/// The HTML body of the confirmation email, a pure rendering of the
/// subscriber's name and the link.
pub fn generate_html_form(subscriber_name: &str, confirmation_link: &str) -> (r: String)
    ensures
        r@ == html_body_spec(subscriber_name@, confirmation_link@),
{
    let mut s = String::from_str("<html><body><p>Welcome ");
    s.append(subscriber_name);
    s.append("!</p><p>Visit <a href=\"");
    s.append(confirmation_link);
    s.append("\">this link</a> to confirm your subscription.</p></body></html>");
    proof {
        assert(s@ =~= html_body_spec(subscriber_name@, confirmation_link@));
    }
    s
}

fn build_text_body(confirmation_link: &str) -> (r: String)
    ensures
        r@ == text_body_spec(confirmation_link@),
{
    let mut s = String::from_str("Welcome to our newsletter!\nVisit ");
    s.append(confirmation_link);
    s.append(" to confirm your subscription.");
    proof {
        assert(s@ =~= text_body_spec(confirmation_link@));
    }
    s
}

/// Assembles the confirmation email for a new subscriber; delivery itself is
/// the surrounding application's step, taken after the state is committed.
pub fn send_confirmation_email(
    new_subscriber: &NewSubscriber,
    base_url: &str,
    subscription_token: &str,
) -> (r: ConfirmationEmail)
    ensures
        confirmation_email_for(
            r,
            new_subscriber.name@,
            new_subscriber.email@,
            base_url@,
            subscription_token@,
        ),
{
    let confirmation_link = build_confirmation_link(base_url, subscription_token);
    let text_body = build_text_body(confirmation_link.as_str());
    let html_body = generate_html_form(new_subscriber.name.as_str(), confirmation_link.as_str());
    ConfirmationEmail {
        to: String::from_str(new_subscriber.email.as_str()),
        subject: String::from_str("Welcome!"),
        html_body: html_body,
        text_body: text_body,
    }
}

/// The identifier the submission settles on: the existing row's when the
/// email is known, the fresh one otherwise.
pub open spec fn subscribed_id(pre: Store, email: Seq<char>, fresh_id: u128) -> u128 {
    if pre.has_email(email) {
        pre.id_of_email(email)
    } else {
        fresh_id
    }
}

/// The committed effect of one submission: when `ok`, the subscriber row is
/// reused or freshly appended and its token is set to `t`; when not, the
/// fresh identifier collided and nothing changed.
pub open spec fn subscribe_transition(
    pre: Store,
    post: Store,
    name: Seq<char>,
    email: Seq<char>,
    fresh_id: u128,
    t: Seq<char>,
    now: i64,
    ok: bool,
) -> bool {
    if ok {
        &&& if pre.has_email(email) {
            post.subscriptions == pre.subscriptions
        } else {
            &&& !pre.has_id(fresh_id)
            &&& pending_row_appended(pre, post, fresh_id, email, name, now)
        }
        &&& token_set(pre, post, subscribed_id(pre, email, fresh_id), t)
    } else {
        &&& post == pre
        &&& !pre.has_email(email)
        &&& pre.has_id(fresh_id)
    }
}

/// One submission of an already validated shape: validates the fields,
/// reconciles the subscriber row, replaces the token, and hands back the
/// confirmation email to deliver. The fresh identifier, the fresh token and
/// the clock reading are passed in by the caller.
pub fn subscribe(
    store: &mut Store,
    form: FormData,
    base_url: &str,
    subscriber_id: u128,
    subscription_token: &str,
    now: i64,
) -> (r: Result<ConfirmationEmail, SubscribeError>)
    requires
        old(store).wf(),
        token_wf(subscription_token@),
    ensures
        final(store).wf(),
        match r {
            Ok(m) => {
                &&& form_data_valid(form)
                &&& subscribe_transition(
                    *old(store),
                    *final(store),
                    form.name@,
                    form.email@,
                    subscriber_id,
                    subscription_token@,
                    now,
                    true,
                )
                &&& confirmation_email_for(
                    m,
                    form.name@,
                    form.email@,
                    base_url@,
                    subscription_token@,
                )
            },
            Err(SubscribeError::ValidationError(_)) => !form_data_valid(form) && *final(store)
                == *old(store),
            Err(SubscribeError::UnexpectedError(_)) => form_data_valid(form)
                && subscribe_transition(
                *old(store),
                *final(store),
                form.name@,
                form.email@,
                subscriber_id,
                subscription_token@,
                now,
                false,
            ),
        },
{
    let ghost email_v = form.email@;
    let new_subscriber = match NewSubscriber::try_from(form) {
        Ok(ns) => ns,
        Err(e) => {
            return Err(SubscribeError::ValidationError(e));
        },
    };
    let ghost pre = *store;
    let sid = match insert_subscriber(store, &new_subscriber, subscriber_id, now) {
        Ok(id) => id,
        Err(_) => {
            return Err(
                SubscribeError::UnexpectedError(
                    String::from_str("failed to insert the new subscriber"),
                ),
            );
        },
    };
    let ghost mid = *store;
    proof {
        let ei = mid.email_index(email_v);
        assert(0 <= ei < mid.subs().len() && mid.subs()[ei].email@ == email_v);
        assert(mid.subs()[ei].id == sid);
        assert(mid.has_id(sid));
    }
    match store_token(store, sid, subscription_token) {
        Ok(_) => {},
        Err(_) => {
            return Err(
                SubscribeError::UnexpectedError(
                    String::from_str("failed to store the confirmation token"),
                ),
            );
        },
    }
    proof {
        let post = *store;
        assert(mid.toks() == pre.toks());
        assert forall|x: u128| mid.has_token(x) == pre.has_token(x) by {}
        assert(sid == subscribed_id(pre, email_v, subscriber_id));
        assert(token_set(pre, post, sid, subscription_token@));
    }
    Ok(send_confirmation_email(&new_subscriber, base_url, subscription_token))
}

/// Relies on `Uuid::new_v4` from the `uuid` crate, taken as its 128-bit
/// value: a freshly drawn identifier. Nothing is assumed about the value.
#[verifier::external_body]
fn fresh_subscriber_id() -> u128 {
    uuid::Uuid::new_v4().as_u128()
}

/// Relies on `chrono`'s `Utc::now`, read as milliseconds since the epoch.
/// Nothing is assumed about the value.
#[verifier::external_body]
fn now_timestamp_millis() -> i64 {
    chrono::Utc::now().timestamp_millis()
}

/// The full submission endpoint up to the email hand-off: decodes the body,
/// draws a fresh identifier, token and clock reading, and commits the
/// subscription.
pub fn handle_subscribe(store: &mut Store, body: &str, base_url: &str) -> (r: Result<
    ConfirmationEmail,
    SubscribeError,
>)
    requires
        old(store).wf(),
    ensures
        final(store).wf(),
        match form_of(body@) {
            None => (r matches Err(SubscribeError::ValidationError(_))) && *final(store) == *old(
                store,
            ),
            Some(p) => {
                &&& (!(name_valid(p.0) && email_valid(p.1)) ==> (r matches Err(
                    SubscribeError::ValidationError(_),
                )) && *final(store) == *old(store))
                &&& ((name_valid(p.0) && email_valid(p.1)) ==> {
                    &&& !(r matches Err(SubscribeError::ValidationError(_)))
                    &&& (r matches Ok(m) ==> exists|id: u128, t: Seq<char>, now: i64|
                        {
                            &&& token_wf(t)
                            &&& #[trigger] subscribe_transition(
                                *old(store),
                                *final(store),
                                p.0,
                                p.1,
                                id,
                                t,
                                now,
                                true,
                            )
                            &&& confirmation_email_for(m, p.0, p.1, base_url@, t)
                        })
                    &&& (r matches Err(SubscribeError::UnexpectedError(_)) ==> exists|
                        id: u128,
                        t: Seq<char>,
                        now: i64,
                    |
                        #[trigger] subscribe_transition(
                            *old(store),
                            *final(store),
                            p.0,
                            p.1,
                            id,
                            t,
                            now,
                            false,
                        ))
                })
            },
        },
{
    let fd = match parse_form(body) {
        Some(fd) => fd,
        None => {
            return Err(
                SubscribeError::ValidationError(
                    String::from_str("the submission is not a usable form"),
                ),
            );
        },
    };
    let subscriber_id = fresh_subscriber_id();
    let subscription_token = generate_subscription_token();
    let now = now_timestamp_millis();
    let ghost n = fd.name@;
    let ghost e = fd.email@;
    let r = subscribe(store, fd, base_url, subscriber_id, subscription_token.as_str(), now);
    proof {
        if r is Ok {
            assert(subscribe_transition(
                *old(store),
                *store,
                n,
                e,
                subscriber_id,
                subscription_token@,
                now,
                true,
            ));
        } else if r matches Err(SubscribeError::UnexpectedError(_)) {
            assert(subscribe_transition(
                *old(store),
                *store,
                n,
                e,
                subscriber_id,
                subscription_token@,
                now,
                false,
            ));
        }
    }
    r
}

/// The response status of the submission endpoint, given the committed
/// outcome and whether the confirmation email was delivered afterwards; a
/// delivery failure reads 500 even though the subscription is committed.
pub fn subscription_response_status(
    outcome: &Result<ConfirmationEmail, SubscribeError>,
    email_delivered: bool,
) -> (s: u16)
    ensures
        s == (match *outcome {
            Ok(_) => if email_delivered {
                200u16
            } else {
                500u16
            },
            Err(SubscribeError::ValidationError(_)) => 400u16,
            Err(SubscribeError::UnexpectedError(_)) => 500u16,
        }),
{
    match outcome {
        Ok(_) => if email_delivered {
            200
        } else {
            500
        },
        Err(e) => e.status_code(),
    }
}

} // verus!
