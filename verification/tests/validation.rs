use newsletter_signup::domain::{SubscriberEmail, SubscriberName};
use newsletter_signup::form::{parse_confirm_query, parse_form, FormData};
use newsletter_signup::store::Store;
use newsletter_signup::subscriptions::{
    handle_subscribe, subscribe, subscription_response_status, SubscribeError,
};
use newsletter_signup::token::validate_token_format;

const BASE_URL: &str = "http://127.0.0.1:8000";
const TOKEN_A: &str = "abcdefghij0123456789ABCDE";
const TOKEN_B: &str = "zyxwvutsrq9876543210ZYXWV";

fn spawn_store() -> Store {
    Store { subscriptions: Vec::new(), subscription_tokens: Vec::new() }
}

#[test]
fn a_valid_name_is_accepted_unchanged() {
    let parsed = SubscriberName::parse(String::from("le guin")).expect("a valid name");
    assert_eq!(parsed.as_str(), "le guin");
}

#[test]
fn empty_and_blank_names_are_rejected() {
    assert!(SubscriberName::parse(String::from("")).is_err());
    assert!(SubscriberName::parse(String::from("   ")).is_err());
    assert!(SubscriberName::parse(String::from(" \t\n")).is_err());
}

#[test]
fn overlong_names_are_rejected() {
    let just_fits: String = std::iter::repeat('a').take(256).collect();
    assert!(SubscriberName::parse(just_fits).is_ok());
    let too_long: String = std::iter::repeat('a').take(257).collect();
    assert!(SubscriberName::parse(too_long).is_err());
}

#[test]
fn names_with_forbidden_characters_are_rejected() {
    for c in ['/', '(', ')', '"', '<', '>', '\\', '{', '}'] {
        let name = format!("le{}guin", c);
        assert!(SubscriberName::parse(name).is_err());
    }
}

#[test]
fn email_syntax_is_checked() {
    assert!(SubscriberEmail::parse(String::from("ursula_le_guin@gmail.com")).is_ok());
    assert!(SubscriberEmail::parse(String::from("a@b.c")).is_ok());
    assert!(SubscriberEmail::parse(String::from("")).is_err());
    assert!(SubscriberEmail::parse(String::from("definitely-not-an-email")).is_err());
    assert!(SubscriberEmail::parse(String::from("@gmail.com")).is_err());
    assert!(SubscriberEmail::parse(String::from("ursula@gmail")).is_err());
    assert!(SubscriberEmail::parse(String::from("ursula@.com")).is_err());
    assert!(SubscriberEmail::parse(String::from("ursula@com.")).is_err());
    assert!(SubscriberEmail::parse(String::from("ursula le guin@gmail.com")).is_err());
    assert!(SubscriberEmail::parse(String::from("ursula@@gmail.com")).is_err());
}

#[test]
fn the_form_parser_decodes_escapes_and_plus() {
    let fd = parse_form("name=le%20guin&email=ursula_le_guin%40gmail.com").expect("a valid form");
    assert_eq!(fd.name, "le guin");
    assert_eq!(fd.email, "ursula_le_guin@gmail.com");

    let fd = parse_form("name=le+guin&email=a%40b.c").expect("a valid form");
    assert_eq!(fd.name, "le guin");
    assert_eq!(fd.email, "a@b.c");
}

#[test]
fn the_form_parser_rejects_unusable_bodies() {
    // Missing fields.
    assert!(parse_form("").is_none());
    assert!(parse_form("name=le%20guin").is_none());
    assert!(parse_form("mail=a%40b.c").is_none());
    // A duplicated field.
    assert!(parse_form("name=a&name=b&email=a%40b.c").is_none());
    // Broken percent escapes.
    assert!(parse_form("name=le%2&email=a%40b.c").is_none());
    assert!(parse_form("name=le%zzguin&email=a%40b.c").is_none());
}

#[test]
fn the_form_parser_keeps_unknown_keys_and_empty_segments_out_of_the_way() {
    let fd = parse_form("x=1&&name=le%20guin&email=a%40b.c&y=2").expect("a valid form");
    assert_eq!(fd.name, "le guin");
    assert_eq!(fd.email, "a@b.c");

    // A segment without `=` binds the key to an empty value.
    let fd = parse_form("name&email=a%40b.c").expect("a parsed form");
    assert_eq!(fd.name, "");
}

#[test]
fn the_query_parser_extracts_the_token() {
    let p = parse_confirm_query(&format!("subscription_token={}", TOKEN_A))
        .expect("a valid query");
    assert_eq!(p.subscription_token, TOKEN_A);
    assert!(parse_confirm_query("other=1").is_none());
    assert!(
        parse_confirm_query(&format!("subscription_token={}&subscription_token={}", TOKEN_A, TOKEN_B))
            .is_none()
    );
}

#[test]
fn token_format_requires_length_and_alphabet() {
    assert!(validate_token_format(TOKEN_A));
    // Wrong length, right alphabet.
    assert!(!validate_token_format("abcdefghij0123456789ABCD"));
    assert!(!validate_token_format(""));
    // Right length, wrong alphabet.
    assert!(!validate_token_format("abcdefghij0123456789ABCD-"));
}

#[test]
fn generated_tokens_are_25_alphanumeric_characters() {
    let mut store = spawn_store();
    handle_subscribe(&mut store, "name=le%20guin&email=a%40b.c", BASE_URL)
        .expect("the subscription should have been accepted");
    let token = &store.subscription_tokens[0].subscription_token;
    assert_eq!(token.chars().count(), 25);
    assert!(validate_token_format(token));
}

#[test]
fn the_confirmation_email_is_rendered_exactly() {
    let mut store = spawn_store();
    let form = FormData {
        email: String::from("ursula_le_guin@gmail.com"),
        name: String::from("le guin"),
    };
    let email = subscribe(&mut store, form, BASE_URL, 7, TOKEN_A, 1_700_000_000_000)
        .expect("the subscription should have been accepted");

    let link = format!("{}/subscriptions/confirm?subscription_token={}", BASE_URL, TOKEN_A);
    assert_eq!(email.to, "ursula_le_guin@gmail.com");
    assert_eq!(email.subject, "Welcome!");
    assert_eq!(
        email.text_body,
        format!("Welcome to our newsletter!\nVisit {} to confirm your subscription.", link)
    );
    assert_eq!(
        email.html_body,
        format!(
            "<html><body><p>Welcome le guin!</p><p>Visit <a href=\"{}\">this link</a> to confirm your subscription.</p></body></html>",
            link
        )
    );
    assert_eq!(store.subscriptions[0].subscribed_at, 1_700_000_000_000);
}

#[test]
fn a_fresh_identifier_collision_is_a_server_error() {
    let mut store = spawn_store();
    let first = FormData { email: String::from("a@b.c"), name: String::from("le guin") };
    subscribe(&mut store, first, BASE_URL, 7, TOKEN_A, 0)
        .expect("the first subscription should have been accepted");

    // A different email drawn the same fresh identifier: the insert fails
    // and nothing is committed.
    let second = FormData { email: String::from("x@y.z"), name: String::from("Ursula") };
    let outcome = subscribe(&mut store, second, BASE_URL, 7, TOKEN_B, 0);
    assert!(matches!(outcome, Err(SubscribeError::UnexpectedError(_))));
    assert_eq!(subscription_response_status(&outcome, true), 500);
    assert_eq!(store.subscriptions.len(), 1);
    assert_eq!(store.subscription_tokens.len(), 1);
}

#[test]
fn subscribe_error_statuses_match_the_contract() {
    assert_eq!(SubscribeError::ValidationError(String::from("bad name")).status_code(), 400);
    assert_eq!(SubscribeError::UnexpectedError(String::from("storage fault")).status_code(), 500);
}

#[test]
fn an_undelivered_confirmation_email_reads_500_but_the_data_is_committed() {
    let mut store = spawn_store();
    let outcome = handle_subscribe(&mut store, "name=le%20guin&email=a%40b.c", BASE_URL);
    assert!(outcome.is_ok());
    // The transport failed afterwards: the caller reports 500, yet the
    // subscriber and the token stay committed.
    assert_eq!(subscription_response_status(&outcome, false), 500);
    assert_eq!(store.subscriptions.len(), 1);
    assert_eq!(store.subscription_tokens.len(), 1);
}

#[test]
fn a_first_submission_creates_one_row_in_each_table() {
    let mut store = spawn_store();
    let status = {
        let outcome = handle_subscribe(&mut store, "name=le%20guin&email=a%40b.c", BASE_URL);
        subscription_response_status(&outcome, true)
    };
    assert_eq!(200, status);
    assert_eq!(store.subscriptions.len(), 1);
    assert_eq!(store.subscription_tokens.len(), 1);
    assert_eq!(store.subscription_tokens[0].subscriber_id, store.subscriptions[0].id);
}
