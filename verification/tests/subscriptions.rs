use zero2prod::configuration::ApplicationBaseUrl;
use zero2prod::domain::parse_new_subscriber;
use zero2prod::http::{handle_subscribe, subscribe_status, SubscribeResult};
use zero2prod::store::{InsertError, Store, SubscriptionStatus};
use zero2prod::workflow::SubmitOutcome;

const BASE_URL: &str = "https://newsletter.example";

fn base_url() -> ApplicationBaseUrl {
    ApplicationBaseUrl(BASE_URL.to_string())
}

#[test]
fn subscribe_returns_a_200_for_valid_data() {
    let mut store = Store::new();
    let body = "name=spacedaddy&email=space_daddy%40test.com";

    let result = handle_subscribe(&mut store, &base_url(), body);

    assert!(matches!(
        result,
        SubscribeResult::Submitted(SubmitOutcome::Stored { .. })
    ));
    assert_eq!(200, subscribe_status(&result, true));
}

#[test]
fn subscribe_persists_the_new_subscriber() {
    let mut store = Store::new();
    let body = "name=spacedaddy&email=space_daddy%40test.com";

    handle_subscribe(&mut store, &base_url(), body);

    let saved = store
        .find_by_email("space_daddy@test.com")
        .expect("Failed to fetch saved subscription");
    assert_eq!(saved.email, "space_daddy@test.com");
    assert_eq!(saved.name, "spacedaddy");
    assert_eq!(saved.status, SubscriptionStatus::PendingConfirmation);
}

#[test]
fn subscribe_sends_a_confirmation_email_for_valid_data() {
    let mut store = Store::new();
    let body = "name=spacedaddy&email=space_daddy%40test.com";

    let result = handle_subscribe(&mut store, &base_url(), body);

    match result {
        SubscribeResult::Submitted(SubmitOutcome::Stored { email, .. }) => {
            assert_eq!(email.to, "space_daddy@test.com");
            assert_eq!(email.subject, "Welcome!");
        }
        _ => panic!("no confirmation email was produced"),
    }
}

#[test]
fn subscribe_sends_a_confirmation_email_with_a_link() {
    let mut store = Store::new();
    let body = "name=spacedaddy&email=space_daddy%40test.com";

    let result = handle_subscribe(&mut store, &base_url(), body);

    match result {
        SubscribeResult::Submitted(SubmitOutcome::Stored { token, email, .. }) => {
            let link = format!(
                "{}/subscriptions/confirm?subscription_token={}",
                BASE_URL, token
            );
            // Both renderings carry one and the same confirmation link.
            assert!(email.html_body.contains(&link));
            assert!(email.text_body.contains(&link));
        }
        _ => panic!("no confirmation email was produced"),
    }
}

#[test]
fn subscribe_returns_a_400_when_data_is_missing() {
    let mut store = Store::new();
    let test_cases = vec![
        ("name=space%20daddy", "missing the email"),
        ("email=space_daddy%40test.com", "missing the name"),
        ("", "missing both name and email"),
    ];

    for (invalid_body, error_message) in test_cases {
        let result = handle_subscribe(&mut store, &base_url(), invalid_body);
        assert_eq!(
            400,
            subscribe_status(&result, true),
            "The API did not fail with a 400 Bad Request when the payload was {}.",
            error_message
        );
    }
    assert_eq!(store.subscriber_count(), 0);
}

#[test]
fn subscribe_returns_a_400_when_fields_are_present_but_invalid() {
    let mut store = Store::new();
    let test_cases = vec![
        ("name=&email=space_daddy%40example.com", "empty name"),
        ("name=Space&email=", "empty email"),
        ("name=Space&email=not-an-email", "invalid email"),
    ];

    for (body, description) in test_cases {
        let result = handle_subscribe(&mut store, &base_url(), body);
        assert_eq!(
            400,
            subscribe_status(&result, true),
            "The API did not return a 400 Bad Request when the payload was {}.",
            description
        );
    }
    assert_eq!(store.subscriber_count(), 0);
}

#[test]
fn subscribe_fails_if_there_is_a_fatal_database_error() {
    // The in-memory store's storage failure is an id or token collision:
    // force one through the store interface and check the status mapping.
    let mut store = Store::new();
    let first = parse_new_subscriber("spacedaddy".to_string(), "space_daddy@test.com".to_string())
        .expect("valid subscriber");
    let second = parse_new_subscriber("other".to_string(), "other@test.com".to_string())
        .expect("valid subscriber");

    store
        .insert_pending(7, "token-one".to_string(), 0, &first)
        .expect("first insert succeeds");
    let clash = store.insert_pending(7, "token-two".to_string(), 0, &second);
    assert_eq!(clash, Err(InsertError::IdTaken));

    let result = SubscribeResult::Submitted(SubmitOutcome::StorageFailed);
    assert_eq!(500, subscribe_status(&result, true));
}

#[test]
fn subscribing_twice_with_the_same_email_adds_no_second_row() {
    let mut store = Store::new();
    let body = "name=spacedaddy&email=space_daddy%40test.com";

    let first = handle_subscribe(&mut store, &base_url(), body);
    assert!(matches!(
        first,
        SubscribeResult::Submitted(SubmitOutcome::Stored { .. })
    ));
    assert_eq!(store.subscriber_count(), 1);

    let second = handle_subscribe(&mut store, &base_url(), "name=again&email=space_daddy%40test.com");
    assert!(matches!(
        second,
        SubscribeResult::Submitted(SubmitOutcome::DuplicateEmail)
    ));
    assert_eq!(store.subscriber_count(), 1);
    assert_eq!(200, subscribe_status(&second, true));
}

#[test]
fn a_failed_dispatch_after_a_successful_store_is_a_server_error() {
    let mut store = Store::new();
    let body = "name=spacedaddy&email=space_daddy%40test.com";

    let result = handle_subscribe(&mut store, &base_url(), body);
    assert!(matches!(
        result,
        SubscribeResult::Submitted(SubmitOutcome::Stored { .. })
    ));
    // The mail transport failed: the request is a server error, but the
    // pending row stays for a later resubmission.
    assert_eq!(500, subscribe_status(&result, false));
    let saved = store.find_by_email("space_daddy@test.com").unwrap();
    assert_eq!(saved.status, SubscriptionStatus::PendingConfirmation);
}

#[test]
fn submission_records_the_subscription_time() {
    let mut store = Store::new();
    let body = "name=spacedaddy&email=space_daddy%40test.com";

    handle_subscribe(&mut store, &base_url(), body);

    let saved = store.find_by_email("space_daddy@test.com").unwrap();
    // Seconds since the epoch: well past 2001 on any machine running this.
    assert!(saved.subscribed_at > 1_000_000_000);
}
