use zero2prod::configuration::ApplicationBaseUrl;
use zero2prod::http::{confirm_status, handle_confirm, handle_subscribe, SubscribeResult};
use zero2prod::store::{Store, SubscriptionStatus};
use zero2prod::workflow::{ConfirmOutcome, SubmitOutcome};

const BASE_URL: &str = "https://newsletter.example";

fn base_url() -> ApplicationBaseUrl {
    ApplicationBaseUrl(BASE_URL.to_string())
}

fn subscribe_and_take_token(store: &mut Store, body: &str) -> String {
    match handle_subscribe(store, &base_url(), body) {
        SubscribeResult::Submitted(SubmitOutcome::Stored { token, .. }) => token,
        _ => panic!("subscription did not store a pending subscriber"),
    }
}

#[test]
fn confirmations_without_token_are_rejected_with_a_400() {
    let mut store = Store::new();

    let outcome = handle_confirm(&mut store, "");

    assert!(matches!(outcome, ConfirmOutcome::MissingToken));
    assert_eq!(confirm_status(&outcome), 400);
}

#[test]
fn the_link_returned_by_subscribe_returns_a_200_if_called() {
    let mut store = Store::new();
    let body = "name=space%20daddy&email=space_daddy%40example.com";

    let token = subscribe_and_take_token(&mut store, body);
    let query = format!("subscription_token={}", token);

    let outcome = handle_confirm(&mut store, &query);

    assert_eq!(confirm_status(&outcome), 200);
}

#[test]
fn clicking_on_the_confirmation_link_confirms_a_subsciber() {
    let mut store = Store::new();
    let body = "name=space%20daddy&email=space_daddy%40example.com";

    let token = subscribe_and_take_token(&mut store, body);
    let query = format!("subscription_token={}", token);

    handle_confirm(&mut store, &query);

    let saved = store
        .find_by_email("space_daddy@example.com")
        .expect("Failed to fetch saved subscription.");
    assert_eq!(saved.name, "space daddy");
    assert_eq!(saved.email, "space_daddy@example.com");
    assert_eq!(saved.status, SubscriptionStatus::Confirmed);
}

#[test]
fn confirming_with_an_unknown_token_mutates_no_subscriber() {
    let mut store = Store::new();
    let body = "name=space%20daddy&email=space_daddy%40example.com";

    subscribe_and_take_token(&mut store, body);

    let outcome = handle_confirm(&mut store, "subscription_token=notthetoken");

    assert!(matches!(outcome, ConfirmOutcome::UnknownToken));
    assert_eq!(confirm_status(&outcome), 400);
    let saved = store.find_by_email("space_daddy@example.com").unwrap();
    assert_eq!(saved.status, SubscriptionStatus::PendingConfirmation);
}

#[test]
fn a_missing_token_is_a_different_outcome_than_an_unknown_token() {
    let mut store = Store::new();

    let missing = handle_confirm(&mut store, "other_parameter=1");
    let unknown = handle_confirm(&mut store, "subscription_token=notthetoken");

    assert!(matches!(missing, ConfirmOutcome::MissingToken));
    assert!(matches!(unknown, ConfirmOutcome::UnknownToken));
}

#[test]
fn confirming_twice_leaves_the_subscriber_confirmed_without_error() {
    let mut store = Store::new();
    let body = "name=space%20daddy&email=space_daddy%40example.com";

    let token = subscribe_and_take_token(&mut store, body);
    let query = format!("subscription_token={}", token);

    let first = handle_confirm(&mut store, &query);
    let id = match first {
        ConfirmOutcome::Confirmed { id } => id,
        _ => panic!("first confirmation failed"),
    };

    // Straight through the store as well: the second call is a no-op
    // success.
    assert!(store.mark_confirmed(id).is_ok());
    let second = handle_confirm(&mut store, &query);
    assert!(matches!(second, ConfirmOutcome::Confirmed { .. }));

    let saved = store.find_by_email("space_daddy@example.com").unwrap();
    assert_eq!(saved.status, SubscriptionStatus::Confirmed);
}
