use newsletter_signup::store::Store;
use newsletter_signup::subscriptions::{handle_subscribe, subscription_response_status};
use newsletter_signup::subscriptions_confirm::{handle_confirm, ConfirmationError};

const BASE_URL: &str = "http://127.0.0.1:8000";

fn spawn_store() -> Store {
    Store { subscriptions: Vec::new(), subscription_tokens: Vec::new() }
}

fn post_subscriptions(store: &mut Store, body: &str) -> u16 {
    let outcome = handle_subscribe(store, body, BASE_URL);
    subscription_response_status(&outcome, true)
}

fn current_token(store: &Store) -> String {
    store.subscription_tokens[0].subscription_token.clone()
}

#[test]
fn confirming_with_the_current_token_returns_200_and_confirms() {
    let mut store = spawn_store();
    post_subscriptions(&mut store, "name=le%20guin&email=ursula_le_guin%40gmail.com");
    assert_eq!(store.subscriptions[0].status.as_str(), "pending_confirmation");

    let query = format!("subscription_token={}", current_token(&store));
    let status = handle_confirm(&mut store, &query);

    assert_eq!(200, status);
    assert_eq!(store.subscriptions[0].status.as_str(), "confirmed");
}

#[test]
fn confirming_twice_with_the_same_token_is_idempotent() {
    let mut store = spawn_store();
    post_subscriptions(&mut store, "name=le%20guin&email=ursula_le_guin%40gmail.com");

    let query = format!("subscription_token={}", current_token(&store));
    let first = handle_confirm(&mut store, &query);
    let second = handle_confirm(&mut store, &query);

    assert_eq!(200, first);
    assert_eq!(200, second);
    assert_eq!(store.subscriptions[0].status.as_str(), "confirmed");
}

#[test]
fn confirming_with_a_wrong_length_alphanumeric_token_returns_401() {
    let mut store = spawn_store();
    post_subscriptions(&mut store, "name=le%20guin&email=ursula_le_guin%40gmail.com");

    // 24 characters, all alphanumeric: only the length is wrong.
    let status = handle_confirm(&mut store, "subscription_token=abcdefghij0123456789ABCD");

    assert_eq!(401, status);
    assert_eq!(store.subscriptions[0].status.as_str(), "pending_confirmation");
    assert_eq!(store.subscription_tokens.len(), 1);
}

#[test]
fn confirming_with_a_wrong_alphabet_token_returns_401() {
    let mut store = spawn_store();
    post_subscriptions(&mut store, "name=le%20guin&email=ursula_le_guin%40gmail.com");

    // 25 characters, one of them outside the alphanumeric alphabet.
    let status = handle_confirm(&mut store, "subscription_token=abcdefghij0123456789ABCD-");

    assert_eq!(401, status);
    assert_eq!(store.subscriptions[0].status.as_str(), "pending_confirmation");
}

#[test]
fn confirming_with_a_never_issued_token_returns_401() {
    let mut store = spawn_store();
    post_subscriptions(&mut store, "name=le%20guin&email=ursula_le_guin%40gmail.com");

    // Well-shaped, but never issued by the store.
    let status = handle_confirm(&mut store, "subscription_token=abcdefghij0123456789ABCDE");

    assert_eq!(401, status);
    assert_eq!(store.subscriptions[0].status.as_str(), "pending_confirmation");
}

#[test]
fn confirming_without_a_token_parameter_returns_400() {
    let mut store = spawn_store();
    post_subscriptions(&mut store, "name=le%20guin&email=ursula_le_guin%40gmail.com");

    let status = handle_confirm(&mut store, "some_other_parameter=value");

    assert_eq!(400, status);
    assert_eq!(store.subscriptions[0].status.as_str(), "pending_confirmation");
}

#[test]
fn confirmation_error_statuses_match_the_contract() {
    assert_eq!(ConfirmationError::UnknownToken.status_code(), 401);
    assert_eq!(
        ConfirmationError::UnexpectedError(String::from("storage fault")).status_code(),
        500
    );
}

#[test]
fn stale_token_no_longer_confirms_after_resubscription() {
    let mut store = spawn_store();
    let body = "name=le%20guin&email=ursula_le_guin%40gmail.com";

    // First submission is accepted and the subscriber is stored pending.
    let first_status = post_subscriptions(&mut store, body);
    assert_eq!(200, first_status);
    assert_eq!(store.subscriptions.len(), 1);
    assert_eq!(store.subscriptions[0].status.as_str(), "pending_confirmation");
    let first_token = current_token(&store);

    // The identical resubmission is accepted, keeps one subscriber row, and
    // rotates the token.
    let second_status = post_subscriptions(&mut store, body);
    assert_eq!(200, second_status);
    assert_eq!(store.subscriptions.len(), 1);
    let second_token = current_token(&store);
    assert_ne!(first_token, second_token);

    // The link sent after the first submission is now dead.
    let stale_query = format!("subscription_token={}", first_token);
    let stale_status = handle_confirm(&mut store, &stale_query);
    assert_eq!(401, stale_status);
    assert_eq!(store.subscriptions[0].status.as_str(), "pending_confirmation");

    // The fresh link still works.
    let fresh_query = format!("subscription_token={}", second_token);
    assert_eq!(200, handle_confirm(&mut store, &fresh_query));
    assert_eq!(store.subscriptions[0].status.as_str(), "confirmed");
}
