use newsletter_signup::store::Store;
use newsletter_signup::subscriptions::{
    handle_subscribe, subscription_response_status, ConfirmationEmail, SubscribeError,
};

const BASE_URL: &str = "http://127.0.0.1:8000";

fn spawn_store() -> Store {
    Store { subscriptions: Vec::new(), subscription_tokens: Vec::new() }
}

fn post_subscriptions(
    store: &mut Store,
    body: &str,
) -> (u16, Result<ConfirmationEmail, SubscribeError>) {
    let outcome = handle_subscribe(store, body, BASE_URL);
    let status = subscription_response_status(&outcome, true);
    (status, outcome)
}

fn token_for(store: &Store, subscriber_id: u128) -> String {
    let row = store
        .subscription_tokens
        .iter()
        .find(|r| r.subscriber_id == subscriber_id)
        .expect("Failed to fetch saved subscription_tokens");
    row.subscription_token.clone()
}

#[test]
fn subscriptions_subscribe_returns_a_200_for_valid_form_data() {
    let mut store = spawn_store();
    let body = "name=le%20guin&email=ursula_le_guin%40gmail.com";

    let (status, _) = post_subscriptions(&mut store, body);
    assert_eq!(200, status);

    let saved = &store.subscriptions[0];
    assert_eq!(saved.email, "ursula_le_guin@gmail.com");
    assert_eq!(saved.name, "le guin");
}

#[test]
fn subscribe_persist_the_new_subscriber() {
    let mut store = spawn_store();
    let body = "name=le%20guin&email=ursula_le_guin%40gmail.com";

    post_subscriptions(&mut store, body);

    let saved = &store.subscriptions[0];
    assert_eq!(saved.email, "ursula_le_guin@gmail.com");
    assert_eq!(saved.name, "le guin");
    assert_eq!(saved.status.as_str(), "pending_confirmation");
}

#[test]
fn subscriptions_subscribe_returns_a_400_when_data_is_missing() {
    let mut store = spawn_store();
    let test_cases = vec![
        ("name=le%20guin", "missing email"),
        ("mail=ursula_le_guin%40gmail.com", "missing name"),
        ("", "missing both name and email"),
    ];

    for (invalid_body, errors_massage) in test_cases {
        let (status, _) = post_subscriptions(&mut store, invalid_body);
        assert_eq!(
            400, status,
            "The API did not fail with 400 Bad Request when the payload was {}",
            errors_massage
        )
    }
}

#[test]
fn subscriptions_subscriber_returns_a_400_when_fields_are_present_but_invalid() {
    let mut store = spawn_store();
    let test_cases = vec![
        ("name=&email=ursula_le_guin%40gmail.com", "empty name"),
        ("name=Ursula&email=", "empty email"),
        ("name=Ursula&email=definitely-not-an-email", "invalid email"),
    ];

    for (body, description) in test_cases {
        let (status, _) = post_subscriptions(&mut store, body);
        assert_eq!(
            400, status,
            "The API did not return a 400 Bad Request when the payload was {}",
            description
        );
    }
}

#[test]
fn subscribe_sends_a_confirmation_email_for_valid_data() {
    let mut store = spawn_store();
    let body = "name=le%20guin&email=ursula_le_guin%40gmail.com";

    let (status, outcome) = post_subscriptions(&mut store, body);

    assert_eq!(200, status);
    assert!(outcome.is_ok());
}

#[test]
fn subscribe_sends_a_confirmation_email_with_a_link() {
    let mut store = spawn_store();
    let body = "name=le%20guin&email=ursula_le_guin%40gmail.com";

    let (_, outcome) = post_subscriptions(&mut store, body);
    let email = outcome.expect("the subscription should have been accepted");

    let subscriber_id = store.subscriptions[0].id;
    let link = format!(
        "{}/subscriptions/confirm?subscription_token={}",
        BASE_URL,
        token_for(&store, subscriber_id)
    );
    assert!(email.html_body.contains(&link) && email.text_body.contains(&link));
}

#[test]
fn subscribe_sends_a_second_confirmation() {
    let mut store = spawn_store();
    let body = "name=le%20guin&email=ursula_le_guin%40gmail.com";

    let (_, first) = post_subscriptions(&mut store, body);
    let (_, second) = post_subscriptions(&mut store, body);

    assert!(first.is_ok() && second.is_ok());
}

#[test]
fn after_second_subscription_there_is_only_one_subscription_token() {
    let mut store = spawn_store();
    let body = "name=le%20guin&email=ursula_le_guin%40gmail.com";

    post_subscriptions(&mut store, body);
    let subscriber_id = store.subscriptions[0].id;
    post_subscriptions(&mut store, body);

    let records = store
        .subscription_tokens
        .iter()
        .filter(|r| r.subscriber_id == subscriber_id)
        .count();
    assert_eq!(records, 1);
}

#[test]
fn update_subscription_token_after_second_subscription() {
    let mut store = spawn_store();
    let body = "name=le%20guin&email=ursula_le_guin%40gmail.com";

    post_subscriptions(&mut store, body);
    let subscription_id = store.subscriptions[0].id;
    let first_subscription_token = token_for(&store, subscription_id);

    post_subscriptions(&mut store, body);
    let second_subscription_token = token_for(&store, subscription_id);

    assert_ne!(first_subscription_token, second_subscription_token);
}

#[test]
fn second_subscribe_sends_a_confirmation_email_with_a_new_link() {
    let mut store = spawn_store();
    let body = "name=le%20guin&email=ursula_le_guin%40gmail.com";

    let (_, first) = post_subscriptions(&mut store, body);
    let first_email = first.expect("the first subscription should have been accepted");

    let (_, second) = post_subscriptions(&mut store, body);
    let second_email = second.expect("the second subscription should have been accepted");

    assert_ne!(first_email.text_body, second_email.text_body);
    assert_ne!(first_email.html_body, second_email.html_body);
}
