use newsletter_signup::store::Store;
use newsletter_signup::subscriptions::{handle_subscribe, subscription_response_status};

fn spawn_store() -> Store {
    Store { subscriptions: Vec::new(), subscription_tokens: Vec::new() }
}

fn post_subscriptions(store: &mut Store, body: &str) -> u16 {
    let outcome = handle_subscribe(store, body, "http://127.0.0.1:8000");
    subscription_response_status(&outcome, true)
}

#[test]
fn subscription_subscribe_returns_a_200_for_valid_form_data() {
    let mut store = spawn_store();
    let body = "name=le%20guin&email=ursula_le_guin%40gmail.com";

    let status = post_subscriptions(&mut store, body);
    assert_eq!(200, status);

    let saved = &store.subscriptions[0];
    assert_eq!(saved.email, "ursula_le_guin@gmail.com");
    assert_eq!(saved.name, "le guin");
}

#[test]
fn subscription_subscribe_returns_a_400_when_data_is_missing() {
    let mut store = spawn_store();
    let test_cases = vec![
        ("name=le%20guin", "missing email"),
        ("mail=ursula_le_guin%40gmail.com", "missing name"),
        ("", "missing both name and email"),
    ];

    for (invalid_body, errors_massage) in test_cases {
        let status = post_subscriptions(&mut store, invalid_body);
        assert_eq!(
            400, status,
            "The API did not fail with 400 Bad Request when the payload was {}",
            errors_massage
        )
    }
}

#[test]
fn subscription_subscriber_returns_a_400_when_fields_are_present_but_invalid() {
    let mut store = spawn_store();
    let test_cases = vec![
        ("name=&email=ursula_le_guin%40gmail.com", "empty name"),
        ("name=Ursula&email=", "empty email"),
        ("name=Ursula&email=definitely-not-an-email", "invalid email"),
    ];

    for (body, description) in test_cases {
        let status = post_subscriptions(&mut store, body);
        assert_eq!(
            400, status,
            "The API did not return a 400 Bad Request when the payload was {}",
            description
        );
    }
}
