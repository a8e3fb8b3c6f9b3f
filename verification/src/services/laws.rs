//! What holds of subscribing and confirming, whatever the store holds.

use crate::services::subscriptions::{request_is_valid, subscribe_outcome, SubscribeError};
use crate::services::subscriptions_confirm::{confirm_outcome, ConfirmError};
use crate::store::laws::{
    lemma_confirm_keeps_rules, lemma_email_is_held_once, lemma_insert_subscriber_keeps_rules,
    lemma_insert_token_keeps_rules,
};
use crate::store::state::{pending_row, StoreState, SubscriberId, SubscriptionStatus};
use vstd::prelude::*;

verus! {

/// A subscription that is taken in leaves the subscriber pending, with a
/// token that resolves to it; confirming with that token then makes the
/// subscriber confirmed.
pub proof fn lemma_subscribe_then_confirm(
    s: StoreState,
    name: Seq<char>,
    email: Seq<char>,
    id: SubscriberId,
    subscribed_at: i64,
    token: Seq<char>,
)
    requires
        s.wf(),
        subscribe_outcome(s, name, email, id, subscribed_at, token).1 is Ok,
    ensures
        ({
            let subscribed = subscribe_outcome(s, name, email, id, subscribed_at, token).0;
            let confirmed = confirm_outcome(subscribed, token);
            &&& subscribed.wf()
            &&& subscribed.has_email(email)
            &&& subscribed.status_of(id) == Some(SubscriptionStatus::PendingConfirmation)
            &&& subscribed.resolve(token) == Some(id)
            &&& confirmed.1 is Ok
            &&& confirmed.0.wf()
            &&& confirmed.0.status_of(id) == Some(SubscriptionStatus::Confirmed)
        }),
{
    let row = pending_row(id, email, name, subscribed_at);
    let inserted = s.with_subscriber(row);
    let subscribed = inserted.with_token(token, id);
    lemma_insert_subscriber_keeps_rules(s, row);
    lemma_insert_token_keeps_rules(inserted, token, id);
    lemma_confirm_keeps_rules(subscribed, id);
    // The new row is the last subscriber, and the new token the last token.
    assert(subscribed.subscribers[s.subscribers.len() as int] == row);
    assert(subscribed.tokens[s.tokens.len() as int].token == token);
}

/// Confirming twice with the same token is confirming once: the second
/// confirmation succeeds as the first did, and changes nothing.
pub proof fn lemma_confirm_is_idempotent(s: StoreState, token: Seq<char>)
    requires
        s.wf(),
        confirm_outcome(s, token).1 is Ok,
    ensures
        ({
            let once = confirm_outcome(s, token);
            let twice = confirm_outcome(once.0, token);
            &&& twice.1 is Ok
            &&& twice.0 == once.0
            &&& once.0.status_of(s.resolve(token)->Some_0) == Some(SubscriptionStatus::Confirmed)
        }),
{
    lemma_confirm_keeps_rules(s, s.resolve(token)->Some_0);
}

/// A token that the store does not hold confirms nobody: the answer is
/// `UnknownToken`, and the store stays as it was.
pub proof fn lemma_unknown_token_changes_nothing(s: StoreState, token: Seq<char>)
    requires
        !s.has_token(token),
    ensures
        confirm_outcome(s, token) == (s, Err::<(), ConfirmError>(ConfirmError::UnknownToken)),
{
}

/// Of two subscriptions with the same email, the first being taken in,
/// the second is refused with `Conflict` and changes nothing: the store
/// holds exactly one subscriber with that email.
pub proof fn lemma_second_subscription_conflicts(
    s: StoreState,
    email: Seq<char>,
    name: Seq<char>,
    id: SubscriberId,
    subscribed_at: i64,
    token: Seq<char>,
    second_name: Seq<char>,
    second_id: SubscriberId,
    second_subscribed_at: i64,
    second_token: Seq<char>,
)
    requires
        s.wf(),
        subscribe_outcome(s, name, email, id, subscribed_at, token).1 is Ok,
        request_is_valid(second_name, email),
    ensures
        ({
            let first = subscribe_outcome(s, name, email, id, subscribed_at, token).0;
            let second = subscribe_outcome(
                first,
                second_name,
                email,
                second_id,
                second_subscribed_at,
                second_token,
            );
            &&& second.1 == Err::<(), SubscribeError>(SubscribeError::Conflict)
            &&& second.0 == first
            &&& exists|i: int| #[trigger] first.is_only_holder(email, i)
        }),
{
    let row = pending_row(id, email, name, subscribed_at);
    let inserted = s.with_subscriber(row);
    let first = inserted.with_token(token, id);
    lemma_insert_subscriber_keeps_rules(s, row);
    lemma_insert_token_keeps_rules(inserted, token, id);
    assert(first.subscribers[s.subscribers.len() as int] == row);
    lemma_email_is_held_once(first, email);
}

} // verus!
