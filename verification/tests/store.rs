use zero2prod::domain::subscriber_email::SubscriberEmail;
use zero2prod::domain::subscriber_name::SubscriberName;
use zero2prod::store::memory::{Recipient, SubscriptionStore};
use zero2prod::store::state::{StoreError, SubscriberId, SubscriptionStatus};
use zero2prod::token::{issue_token, ConfirmationToken};

fn email(text: &str) -> SubscriberEmail {
    SubscriberEmail::parse(text.to_string()).unwrap()
}

fn name(text: &str) -> SubscriberName {
    SubscriberName::parse(text.to_string()).unwrap()
}

fn token(text: &str) -> ConfirmationToken {
    ConfirmationToken::parse(text.to_string()).unwrap()
}

#[test]
fn a_new_store_is_empty() {
    let store = SubscriptionStore::new();
    assert_eq!(store.subscriber_count(), 0);
    assert_eq!(store.token_count(), 0);
    assert!(store.subscriber_at(0).is_none());
    assert!(store.token_at(0).is_none());
    assert!(store.list_confirmed_subscribers().is_empty());
    assert_eq!(store.find_subscriber_by_token("abcdefghijABCDEFGHIJ01234"), None);
}

#[test]
fn an_inserted_subscriber_is_pending() {
    let mut store = SubscriptionStore::new();
    let id = store.insert_subscriber(&email("ursula_le_guin@gmail.com"), &name("le guin")).unwrap();
    assert_eq!(store.subscriber_count(), 1);
    let subscriber = store.subscriber_at(0).unwrap();
    assert_eq!(subscriber.id(), id);
    assert_eq!(subscriber.email(), "ursula_le_guin@gmail.com");
    assert_eq!(subscriber.name(), "le guin");
    assert_eq!(subscriber.status(), SubscriptionStatus::PendingConfirmation);
    assert_eq!(subscriber.status().as_str(), "pending_confirmation");
    assert_eq!(subscriber.clone().id(), id);
    assert!(store.subscriber_at(1).is_none());
}

#[test]
fn a_subscriber_is_inserted_at_the_current_time() {
    let mut store = SubscriptionStore::new();
    store.insert_subscriber(&email("a@b.com"), &name("a")).unwrap();
    let micros = store.subscriber_at(0).unwrap().subscribed_at();
    // After 2020-01-01 and before 2200-01-01, in microseconds.
    assert!(micros > 1_577_836_800_000_000);
    assert!(micros < 7_258_118_400_000_000);
}

#[test]
fn inserted_subscribers_get_fresh_ids() {
    let mut store = SubscriptionStore::new();
    let a = store.insert_subscriber(&email("a@b.com"), &name("a")).unwrap();
    let b = store.insert_subscriber(&email("b@b.com"), &name("b")).unwrap();
    let c = store.insert_subscriber(&email("c@b.com"), &name("c")).unwrap();
    assert_ne!(a, b);
    assert_ne!(a, c);
    assert_ne!(b, c);
    // Version 4, variant 1 of a UUID.
    assert_eq!((a.value >> 76) & 0xf, 4);
    assert_eq!((a.value >> 62) & 0x3, 2);
}

#[test]
fn an_email_is_inserted_once() {
    let mut store = SubscriptionStore::new();
    store.insert_subscriber(&email("a@b.com"), &name("first")).unwrap();
    let second = store.insert_subscriber(&email("a@b.com"), &name("second"));
    assert_eq!(second, Err(StoreError::Conflict));
    assert_eq!(store.subscriber_count(), 1);
    assert_eq!(store.subscriber_at(0).unwrap().name(), "first");
}

#[test]
fn an_id_is_inserted_once() {
    let mut store = SubscriptionStore::new();
    let id = SubscriberId { value: 7 };
    assert_eq!(store.insert_subscriber_as(&email("a@b.com"), &name("a"), id, 100), Ok(id));
    assert_eq!(
        store.insert_subscriber_as(&email("b@b.com"), &name("b"), id, 200),
        Err(StoreError::Conflict)
    );
    assert_eq!(
        store.insert_subscriber_as(&email("a@b.com"), &name("b"), SubscriberId { value: 8 }, 200),
        Err(StoreError::Conflict)
    );
    assert_eq!(store.subscriber_count(), 1);
    let subscriber = store.subscriber_at(0).unwrap();
    assert_eq!(subscriber.subscribed_at(), 100);
    assert_eq!(subscriber.email(), "a@b.com");
}

#[test]
fn a_token_resolves_to_its_subscriber() {
    let mut store = SubscriptionStore::new();
    let a = store.insert_subscriber(&email("a@b.com"), &name("a")).unwrap();
    let b = store.insert_subscriber(&email("b@b.com"), &name("b")).unwrap();
    let for_a = token("abcdefghijABCDEFGHIJ01234");
    let for_b = token("bbcdefghijABCDEFGHIJ01234");
    assert_eq!(store.insert_token(a, &for_a), Ok(()));
    assert_eq!(store.insert_token(b, &for_b), Ok(()));
    assert_eq!(store.find_subscriber_by_token("abcdefghijABCDEFGHIJ01234"), Some(a));
    assert_eq!(store.find_subscriber_by_token("bbcdefghijABCDEFGHIJ01234"), Some(b));
    assert_eq!(store.find_subscriber_by_token("cbcdefghijABCDEFGHIJ01234"), None);
    assert_eq!(store.find_subscriber_by_token(""), None);
    assert_eq!(store.token_count(), 2);
    let (first, owner) = store.token_at(0).unwrap();
    assert_eq!(first.as_str(), "abcdefghijABCDEFGHIJ01234");
    assert_eq!(owner, a);
    assert!(store.token_at(2).is_none());
}

#[test]
fn a_token_is_inserted_once() {
    let mut store = SubscriptionStore::new();
    let a = store.insert_subscriber(&email("a@b.com"), &name("a")).unwrap();
    let b = store.insert_subscriber(&email("b@b.com"), &name("b")).unwrap();
    let t = token("abcdefghijABCDEFGHIJ01234");
    assert_eq!(store.insert_token(a, &t), Ok(()));
    assert_eq!(store.insert_token(b, &t), Err(StoreError::Conflict));
    assert_eq!(store.insert_token(a, &t), Err(StoreError::Conflict));
    assert_eq!(store.token_count(), 1);
    assert_eq!(store.find_subscriber_by_token(t.as_str()), Some(a));
}

#[test]
fn a_subscriber_may_have_several_tokens() {
    let mut store = SubscriptionStore::new();
    let a = store.insert_subscriber(&email("a@b.com"), &name("a")).unwrap();
    let first = issue_token();
    let second = issue_token();
    assert_eq!(store.insert_token(a, &first), Ok(()));
    assert_eq!(store.insert_token(a, &second), Ok(()));
    assert_eq!(store.find_subscriber_by_token(first.as_str()), Some(a));
    assert_eq!(store.find_subscriber_by_token(second.as_str()), Some(a));
}

#[test]
fn a_token_needs_a_subscriber() {
    let mut store = SubscriptionStore::new();
    let t = token("abcdefghijABCDEFGHIJ01234");
    assert_eq!(
        store.insert_token(SubscriberId { value: 1 }, &t),
        Err(StoreError::UnknownSubscriber)
    );
    assert_eq!(store.token_count(), 0);
    assert_eq!(store.find_subscriber_by_token(t.as_str()), None);
}

#[test]
fn marking_confirmed_is_idempotent() {
    let mut store = SubscriptionStore::new();
    let a = store.insert_subscriber(&email("a@b.com"), &name("a")).unwrap();
    let b = store.insert_subscriber(&email("b@b.com"), &name("b")).unwrap();
    store.mark_confirmed(a);
    assert_eq!(store.subscriber_at(0).unwrap().status(), SubscriptionStatus::Confirmed);
    assert_eq!(store.subscriber_at(0).unwrap().status().as_str(), "confirmed");
    assert_eq!(store.subscriber_at(1).unwrap().status(), SubscriptionStatus::PendingConfirmation);
    store.mark_confirmed(a);
    assert_eq!(store.subscriber_at(0).unwrap().status(), SubscriptionStatus::Confirmed);
    assert_eq!(store.subscriber_at(0).unwrap().id(), a);
    assert_eq!(store.subscriber_at(0).unwrap().email(), "a@b.com");
    assert_eq!(store.subscriber_at(1).unwrap().id(), b);
    assert_eq!(store.subscriber_at(1).unwrap().status(), SubscriptionStatus::PendingConfirmation);
    assert_eq!(store.subscriber_count(), 2);
}

#[test]
fn marking_an_unknown_subscriber_changes_nothing() {
    let mut store = SubscriptionStore::new();
    store.insert_subscriber_as(&email("a@b.com"), &name("a"), SubscriberId { value: 1 }, 5).unwrap();
    store.mark_confirmed(SubscriberId { value: 2 });
    assert_eq!(store.subscriber_count(), 1);
    assert_eq!(store.subscriber_at(0).unwrap().status(), SubscriptionStatus::PendingConfirmation);
}

#[test]
fn the_listing_holds_the_confirmed_in_order() {
    let mut store = SubscriptionStore::new();
    let a = store.insert_subscriber(&email("a@b.com"), &name("a")).unwrap();
    let _b = store.insert_subscriber(&email("b@b.com"), &name("b")).unwrap();
    let c = store.insert_subscriber(&email("c@b.com"), &name("c")).unwrap();
    assert!(store.list_confirmed_subscribers().is_empty());
    store.mark_confirmed(c);
    store.mark_confirmed(a);
    store.mark_confirmed(c);
    let listing = store.list_confirmed_subscribers();
    assert_eq!(listing.len(), 2);
    assert_eq!(listing[0].id(), a);
    assert_eq!(listing[0].email().as_ref(), "a@b.com");
    assert_eq!(listing[1].id(), c);
    assert_eq!(listing[1].email().as_ref(), "c@b.com");
}

#[test]
fn a_stored_row_with_an_address_is_a_recipient() {
    let id = SubscriberId { value: 3 };
    let recipient = Recipient::parse(id, "a@b.com".to_string()).unwrap();
    assert_eq!(recipient.id(), id);
    assert_eq!(recipient.email().as_ref(), "a@b.com");
    assert_eq!(
        Recipient::parse(id, "nobody".to_string()).unwrap_err(),
        "nobody is not a valid email."
    );
    let made = Recipient::new(id, email("c@d.com"));
    assert_eq!(made.id(), id);
    assert_eq!(made.email().as_ref(), "c@d.com");
}
