use zero2prod::configuration::ApplicationBaseUrl;
use zero2prod::auth::CredentialStore;
use zero2prod::http::{handle_confirm, handle_subscribe, publish_http, SubscribeResult};
use zero2prod::publish::{
    handle_publish, summarize_delivery, validate_content, ContentError, PublishOutcome,
};
use zero2prod::store::Store;
use zero2prod::workflow::SubmitOutcome;

const BASE_URL: &str = "https://newsletter.example";

fn base_url() -> ApplicationBaseUrl {
    ApplicationBaseUrl(BASE_URL.to_string())
}

fn operator_credentials() -> CredentialStore {
    let mut creds = CredentialStore::new();
    assert!(creds.add_operator(
        "admin".to_string(),
        "everythinghastostartsomewhere".to_string(),
        1
    ));
    creds
}

fn create_unconfirmed_subscriber(store: &mut Store, body: &str) -> String {
    match handle_subscribe(store, &base_url(), body) {
        SubscribeResult::Submitted(SubmitOutcome::Stored { token, .. }) => token,
        _ => panic!("subscription did not store a pending subscriber"),
    }
}

fn create_confirmed_subscriber(store: &mut Store, body: &str) {
    let token = create_unconfirmed_subscriber(store, body);
    let query = format!("subscription_token={}", token);
    handle_confirm(store, &query);
}

fn full_content() -> (Option<String>, Option<String>, Option<String>) {
    (
        Some("Newsletter Title".to_string()),
        Some("Newsletter body as plain text".to_string()),
        Some("<p>Newsletter body as HTML</p>".to_string()),
    )
}

#[test]
fn newsletters_are_not_delivered_to_unconfirmed_subscribers() {
    let mut store = Store::new();
    create_unconfirmed_subscriber(&mut store, "name=spacedaddy&email=space_daddy%40test.com");
    let creds = operator_credentials();
    let user = "admin".to_string();
    let pass = "everythinghastostartsomewhere".to_string();
    let (title, text, html) = full_content();

    let outcome = handle_publish(&creds, Some((&user, &pass)), title, text, html, &store);

    match &outcome {
        PublishOutcome::Accepted { recipients, .. } => {
            // The pending subscriber receives nothing.
            assert_eq!(recipients.len(), 0);
        }
        _ => panic!("publish was not accepted"),
    }
    assert_eq!(publish_http(&outcome).status, 200);
}

#[test]
fn newsletters_are_delivered_to_confirmed_subscribers() {
    let mut store = Store::new();
    create_confirmed_subscriber(&mut store, "name=spacedaddy&email=space_daddy%40test.com");
    let creds = operator_credentials();
    let user = "admin".to_string();
    let pass = "everythinghastostartsomewhere".to_string();
    let (title, text, html) = full_content();

    let outcome = handle_publish(&creds, Some((&user, &pass)), title, text, html, &store);

    match &outcome {
        PublishOutcome::Accepted { recipients, content, .. } => {
            assert_eq!(recipients.len(), 1);
            assert_eq!(recipients[0], "space_daddy@test.com");
            assert_eq!(content.title, "Newsletter Title");
        }
        _ => panic!("publish was not accepted"),
    }
    assert_eq!(publish_http(&outcome).status, 200);
}

#[test]
fn newsletters_returns_400_for_invalid_data() {
    let store = Store::new();
    let creds = operator_credentials();
    let user = "admin".to_string();
    let pass = "everythinghastostartsomewhere".to_string();

    let test_cases: Vec<((Option<String>, Option<String>, Option<String>), &str)> = vec![
        (
            (
                None,
                Some("Newsletter body as plain text".to_string()),
                Some("<p>Newsletter body as HTML</p>".to_string()),
            ),
            "missing title",
        ),
        (
            (Some("Newsletter".to_string()), None, None),
            "missing content",
        ),
    ];

    for ((title, text, html), error_message) in test_cases {
        let outcome = handle_publish(&creds, Some((&user, &pass)), title, text, html, &store);
        assert!(
            matches!(outcome, PublishOutcome::BadContent(_)),
            "The API did not fail with 400 Bad Request when the payload was {}",
            error_message
        );
        assert_eq!(publish_http(&outcome).status, 400);
    }
}

#[test]
fn newsletters_without_valid_credentials_are_rejected_with_a_challenge() {
    let mut store = Store::new();
    create_confirmed_subscriber(&mut store, "name=spacedaddy&email=space_daddy%40test.com");
    let creds = operator_credentials();
    let (title, text, html) = full_content();

    // No credentials at all.
    let anonymous = handle_publish(&creds, None, title, text, html, &store);
    assert!(matches!(anonymous, PublishOutcome::AuthRequired));
    let http = publish_http(&anonymous);
    assert_eq!(http.status, 401);
    assert_eq!(http.challenge.as_deref(), Some("Basic realm=\"publish\""));

    // Wrong password: same undistinguished outcome, and zero deliveries.
    let user = "admin".to_string();
    let wrong = "not-the-password".to_string();
    let (title, text, html) = full_content();
    let rejected = handle_publish(&creds, Some((&user, &wrong)), title, text, html, &store);
    assert!(matches!(rejected, PublishOutcome::AuthRequired));
    assert_eq!(publish_http(&rejected).status, 401);
}

#[test]
fn publish_reports_isolate_per_recipient_failures() {
    let outcomes = vec![true, false, true];
    let report = summarize_delivery(&outcomes);
    assert_eq!(report.attempted, 3);
    assert_eq!(report.succeeded, 2);
    assert_eq!(report.failed, 1);
}

#[test]
fn each_content_error_names_the_first_missing_part() {
    let r = validate_content(None, Some("t".to_string()), Some("h".to_string()));
    assert_eq!(r.err(), Some(ContentError::MissingTitle));

    let r = validate_content(Some("Title".to_string()), None, Some("h".to_string()));
    assert_eq!(r.err(), Some(ContentError::MissingTextBody));

    let r = validate_content(Some("Title".to_string()), Some("t".to_string()), None);
    assert_eq!(r.err(), Some(ContentError::MissingHtmlBody));

    let r = validate_content(
        Some("Title".to_string()),
        Some("".to_string()),
        Some("h".to_string()),
    );
    assert_eq!(r.err(), Some(ContentError::MissingTextBody));
}

#[test]
fn submit_then_confirm_then_publish_delivers_exactly_once() {
    let mut store = Store::new();
    create_confirmed_subscriber(&mut store, "name=space%20daddy&email=space_daddy%40example.com");
    let creds = operator_credentials();
    let user = "admin".to_string();
    let pass = "everythinghastostartsomewhere".to_string();
    let (title, text, html) = full_content();

    let outcome = handle_publish(&creds, Some((&user, &pass)), title, text, html, &store);

    match &outcome {
        PublishOutcome::Accepted { recipients, .. } => {
            let attempts = recipients
                .iter()
                .filter(|r| r.as_str() == "space_daddy@example.com")
                .count();
            assert_eq!(attempts, 1);
        }
        _ => panic!("publish was not accepted"),
    }
    assert_eq!(publish_http(&outcome).status, 200);
}
