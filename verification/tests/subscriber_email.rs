use zero2prod::domain::new_subscriber::NewSubscriber;
use zero2prod::domain::subscriber_email::{is_valid_email, SubscriberEmail};
use zero2prod::domain::subscriber_name::SubscriberName;
use zero2prod::services::subscriptions::FormData;

#[test]
fn email_missing_at_symbol_is_rejected() {
    assert!(SubscriberEmail::parse("ursuladomain.com".to_string()).is_err());
}

#[test]
fn empty_email_is_rejected() {
    assert!(SubscriberEmail::parse("".to_string()).is_err());
}

#[test]
fn email_missing_subject_is_rejected() {
    assert!(SubscriberEmail::parse("@domain.com".to_string()).is_err());
}

#[test]
fn email_missing_domain_is_rejected() {
    assert!(SubscriberEmail::parse("ursula@".to_string()).is_err());
    assert!(SubscriberEmail::parse("@".to_string()).is_err());
}

#[test]
fn valid_emails_are_parsed_successfully() {
    for email in [
        "ursula_le_guin@gmail.com",
        "email@here.com",
        "weirder-email@here.and.there.com",
        "abc@bar",
        "email@[127.0.0.1]",
    ] {
        let parsed = SubscriberEmail::parse(email.to_string()).unwrap();
        assert_eq!(parsed.as_ref(), email);
        assert_eq!(parsed.clone().as_ref(), email);
    }
}

#[test]
fn emails_the_grammar_refuses_are_rejected() {
    // Each has an "@" with text on both sides.
    for email in ["a @x.cz", "abc@.com", "something@@somewhere.com", "definitely-not@an email"] {
        assert!(SubscriberEmail::parse(email.to_string()).is_err());
    }
}

#[test]
fn a_rejected_email_comes_back_in_the_message() {
    let message = SubscriberEmail::parse("ursuladomain.com".to_string()).unwrap_err();
    assert_eq!(message, "ursuladomain.com is not a valid email.");
}

#[test]
fn the_rule_for_emails_on_a_given_verdict() {
    assert!(is_valid_email("a@b", true));
    assert!(!is_valid_email("a@b", false));
    assert!(!is_valid_email("ab", true));
    assert!(!is_valid_email("@b", true));
    assert!(!is_valid_email("a@", true));
    assert!(!is_valid_email("", true));
    assert!(is_valid_email("a@@b", true));
}

#[test]
fn equal_addresses_are_equal() {
    let a = SubscriberEmail::parse("a@b.com".to_string()).unwrap();
    let b = SubscriberEmail::parse("a@b.com".to_string()).unwrap();
    let c = SubscriberEmail::parse("c@b.com".to_string()).unwrap();
    assert!(a.equals(&b));
    assert!(!a.equals(&c));
}

#[test]
fn a_new_subscriber_hands_out_its_fields() {
    let email = SubscriberEmail::parse("ursula_le_guin@gmail.com".to_string()).unwrap();
    let name = SubscriberName::parse("le guin".to_string()).unwrap();
    let subscriber = NewSubscriber::new(email, name);
    assert_eq!(subscriber.get_email(), "ursula_le_guin@gmail.com");
    assert_eq!(subscriber.get_name(), "le guin");
    let (email, name) = subscriber.into_parts();
    assert_eq!(email.as_ref(), "ursula_le_guin@gmail.com");
    assert_eq!(name.as_ref(), "le guin");
}

#[test]
fn a_form_becomes_a_new_subscriber() {
    let form = FormData { name: "le guin".to_string(), email: "ursula_le_guin@gmail.com".to_string() };
    let subscriber = NewSubscriber::try_from(form).unwrap();
    assert_eq!(subscriber.get_email(), "ursula_le_guin@gmail.com");
    assert_eq!(subscriber.get_name(), "le guin");
}

#[test]
fn a_form_with_a_bad_field_names_the_field() {
    let form = FormData { name: "".to_string(), email: "ursula_le_guin@gmail.com".to_string() };
    assert_eq!(NewSubscriber::try_from(form).unwrap_err(), ", is not a valid subscriber name.");
    let form = FormData { name: "Ursula".to_string(), email: "definitely-not-an-email".to_string() };
    assert_eq!(
        NewSubscriber::try_from(form).unwrap_err(),
        "definitely-not-an-email is not a valid email."
    );
    let form = FormData { name: "(".to_string(), email: "".to_string() };
    assert_eq!(NewSubscriber::try_from(form).unwrap_err(), "(, is not a valid subscriber name.");
}
