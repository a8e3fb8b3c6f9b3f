use std::time::Duration;
use zero2prod::domain::subscriber_email::SubscriberEmail;
use zero2prod::email_client::{classify, EmailClient, ProviderOutcome, TransportError};
use zero2prod::secret::SecretText;

fn mock_setup() -> (EmailClient, SubscriberEmail) {
    let sender = SubscriberEmail::parse("sender@example.com".to_string()).unwrap();
    let email_client = EmailClient::new(
        "http://127.0.0.1:9999".to_string(),
        sender,
        SecretText::new("my-secret-token".to_string()),
        Duration::from_millis(200),
    );
    let subscriber_email = SubscriberEmail::parse("recipient@example.com".to_string()).unwrap();
    (email_client, subscriber_email)
}

#[test]
fn send_email_sends_the_expected_request() {
    let (email_client, subscriber_email) = mock_setup();
    let request = email_client.send_email_request(&subscriber_email);
    assert_eq!(request.url, "http://127.0.0.1:9999/campaigns/9b4079798b/actions/test");
    assert!(request.url.ends_with("campaigns/9b4079798b/actions/test"));
    assert_eq!(request.method, "POST");
    assert_eq!(request.header, ("authorization", "my-secret-token"));
    assert_eq!(request.body.test_emails, vec!["recipient@example.com"]);
    assert_eq!(request.body.send_type, "html");
}

#[test]
fn send_email_succeeds_if_the_server_returns_200() {
    let outcome = classify(ProviderOutcome::Responded { status: 200 });
    assert!(outcome.is_ok());
}

#[test]
fn send_email_succeeds_if_the_server_returns_500() {
    let outcome = classify(ProviderOutcome::Responded { status: 500 });
    assert!(outcome.is_err());
    assert_eq!(outcome, Err(TransportError::ProviderRejected { status: 500 }));
}

#[test]
fn send_email_times_out_if_server_takes_too_long() {
    let outcome = classify(ProviderOutcome::TimedOut);
    assert!(outcome.is_err());
    assert_eq!(outcome, Err(TransportError::TransportTimeout));
}

#[test]
fn send_email_fails_if_the_server_cannot_be_reached() {
    let outcome = classify(ProviderOutcome::ConnectionFailed);
    assert_eq!(outcome, Err(TransportError::TransportUnreachable));
}

#[test]
fn every_status_is_classified() {
    for status in 0..=u16::MAX {
        let outcome = classify(ProviderOutcome::Responded { status });
        if (200..=299).contains(&status) {
            assert_eq!(outcome, Ok(()));
        } else {
            assert_eq!(outcome, Err(TransportError::ProviderRejected { status }));
        }
    }
    assert_eq!(classify(ProviderOutcome::Responded { status: 199 }).is_ok(), false);
    assert_eq!(classify(ProviderOutcome::Responded { status: 299 }).is_ok(), true);
    assert_eq!(classify(ProviderOutcome::Responded { status: 300 }).is_ok(), false);
}

#[test]
fn the_client_keeps_what_it_was_made_with() {
    let (email_client, _) = mock_setup();
    assert_eq!(email_client.timeout(), Duration::from_millis(200));
    assert_eq!(email_client.sender().as_ref(), "sender@example.com");
    assert_eq!(email_client.send_url(), "http://127.0.0.1:9999/campaigns/9b4079798b/actions/test");
}

#[test]
fn a_secret_is_exposed_only_on_request() {
    let secret = SecretText::new("hunter2".to_string());
    assert_eq!(secret.expose_secret(), "hunter2");
    assert_eq!(secret.clone().expose_secret(), "hunter2");
    let printed = format!("{:?}", secret);
    assert!(!printed.contains("hunter2"));
    let (email_client, _) = mock_setup();
    let printed = format!("{:?}", email_client);
    assert!(!printed.contains("my-secret-token"));
}
