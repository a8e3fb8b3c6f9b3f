//! What holds of every store that obeys the rules of the schema.

use super::state::{
    confirmed_of, is_recipient_for, row_follows, StoreState, SubscriberId, SubscriberRow,
    SubscriptionStatus,
};
use vstd::prelude::*;

verus! {

/// Whatever the store does, a confirmed subscriber stays confirmed: each
/// of the three changes leads to a state that follows the one before.
pub proof fn lemma_status_never_regresses(
    s: StoreState,
    row: SubscriberRow,
    token: Seq<char>,
    id: SubscriberId,
)
    ensures
        s.follows(s),
        s.with_subscriber(row).follows(s),
        s.with_token(token, id).follows(s),
        s.with_confirmed(id).follows(s),
{
}

/// What follows a state that follows `s`, follows `s`: no sequence of
/// changes takes a confirmation back.
pub proof fn lemma_follows_is_transitive(s: StoreState, t: StoreState, u: StoreState)
    requires
        t.follows(s),
        u.follows(t),
    ensures
        u.follows(s),
{
}

/// A state that follows another keeps every subscriber under its id, and
/// keeps the confirmed ones confirmed.
pub proof fn lemma_confirmed_stays_confirmed(earlier: StoreState, later: StoreState, id: SubscriberId)
    requires
        earlier.wf(),
        later.wf(),
        later.follows(earlier),
        earlier.status_of(id) == Some(SubscriptionStatus::Confirmed),
    ensures
        later.status_of(id) == Some(SubscriptionStatus::Confirmed),
{
    let i = earlier.subscriber_index(id);
    assert(row_follows(later.subscribers[i], earlier.subscribers[i]));
}

/// A token resolves to one subscriber, the one it was bound to, and that
/// subscriber is in the store.
pub proof fn lemma_token_resolves_to_its_subscriber(s: StoreState, k: int)
    requires
        s.wf(),
        0 <= k < s.tokens.len(),
    ensures
        s.resolve(s.tokens[k].token) == Some(s.tokens[k].subscriber_id),
        s.has_id(s.tokens[k].subscriber_id),
{
}

/// An email that the store holds is held by exactly one subscriber.
pub proof fn lemma_email_is_held_once(s: StoreState, email: Seq<char>)
    requires
        s.wf(),
        s.has_email(email),
    ensures
        exists|i: int| #[trigger] s.is_only_holder(email, i),
{
    let i = choose|i: int|
        0 <= i < s.subscribers.len() && (#[trigger] s.subscribers[i]).email == email;
    assert(s.is_only_holder(email, i));
}

/// Every recipient of a listing is a confirmed row of the store.
pub proof fn lemma_recipients_are_confirmed(rows: Seq<SubscriberRow>)
    ensures
        forall|j: int|
            0 <= j < confirmed_of(rows).len() ==> exists|i: int|
                0 <= i < rows.len() && is_recipient_for(#[trigger] confirmed_of(rows)[j], #[trigger] rows[i]),
    decreases rows.len(),
{
    if rows.len() > 0 {
        let head = rows.drop_last();
        lemma_recipients_are_confirmed(head);
        assert forall|j: int| 0 <= j < confirmed_of(rows).len() implies exists|i: int|
            0 <= i < rows.len() && is_recipient_for(
                #[trigger] confirmed_of(rows)[j],
                #[trigger] rows[i],
            ) by {
            if j < confirmed_of(head).len() {
                let i = choose|i: int|
                    0 <= i < head.len() && is_recipient_for(
                        #[trigger] confirmed_of(head)[j],
                        #[trigger] head[i],
                    );
                assert(is_recipient_for(confirmed_of(rows)[j], rows[i]));
            } else {
                assert(is_recipient_for(confirmed_of(rows)[j], rows[rows.len() - 1]));
            }
        }
    }
}

/// Every confirmed row of the store is a recipient of the listing.
pub proof fn lemma_confirmed_are_recipients(rows: Seq<SubscriberRow>)
    ensures
        forall|i: int|
            0 <= i < rows.len() && (#[trigger] rows[i]).status == SubscriptionStatus::Confirmed
                ==> exists|j: int|
                0 <= j < confirmed_of(rows).len() && is_recipient_for(
                    #[trigger] confirmed_of(rows)[j],
                    rows[i],
                ),
    decreases rows.len(),
{
    if rows.len() > 0 {
        let head = rows.drop_last();
        let last = rows.len() - 1;
        lemma_confirmed_are_recipients(head);
        assert forall|i: int|
            0 <= i < rows.len() && (#[trigger] rows[i]).status
                == SubscriptionStatus::Confirmed implies exists|j: int|
            0 <= j < confirmed_of(rows).len() && is_recipient_for(
                #[trigger] confirmed_of(rows)[j],
                rows[i],
            ) by {
            if i < last {
                let j = choose|j: int|
                    0 <= j < confirmed_of(head).len() && is_recipient_for(
                        #[trigger] confirmed_of(head)[j],
                        head[i],
                    );
                assert(confirmed_of(rows)[j] == confirmed_of(head)[j]);
            } else {
                let j = confirmed_of(head).len() as int;
                assert(is_recipient_for(confirmed_of(rows)[j], rows[i]));
            }
        }
    }
}

/// No subscriber is listed twice: the recipients of a listing differ in
/// their ids, and in their emails.
pub proof fn lemma_recipients_are_distinct(s: StoreState)
    requires
        s.wf(),
    ensures
        forall|j: int, k: int|
            0 <= j < k < s.confirmed_recipients().len() ==> (#[trigger] s.confirmed_recipients()[j]).id
                != (#[trigger] s.confirmed_recipients()[k]).id && s.confirmed_recipients()[j].email
                != s.confirmed_recipients()[k].email,
{
    lemma_distinct_rows_give_distinct_recipients(s.subscribers);
}

proof fn lemma_distinct_rows_give_distinct_recipients(rows: Seq<SubscriberRow>)
    requires
        forall|i: int, j: int|
            0 <= i < j < rows.len() ==> (#[trigger] rows[i]).id != (#[trigger] rows[j]).id
                && rows[i].email != rows[j].email,
    ensures
        forall|j: int, k: int|
            0 <= j < k < confirmed_of(rows).len() ==> (#[trigger] confirmed_of(rows)[j]).id != (
            #[trigger] confirmed_of(rows)[k]).id && confirmed_of(rows)[j].email != confirmed_of(
                rows,
            )[k].email,
    decreases rows.len(),
{
    if rows.len() > 0 {
        let head = rows.drop_last();
        let last = rows.len() - 1;
        assert forall|i: int, j: int| 0 <= i < j < head.len() implies (#[trigger] head[i]).id != (
        #[trigger] head[j]).id && head[i].email != head[j].email by {
            assert(head[i] == rows[i] && head[j] == rows[j]);
        }
        lemma_distinct_rows_give_distinct_recipients(head);
        lemma_recipients_are_confirmed(head);
        assert forall|j: int, k: int| 0 <= j < k < confirmed_of(rows).len() implies (
        #[trigger] confirmed_of(rows)[j]).id != (#[trigger] confirmed_of(rows)[k]).id
            && confirmed_of(rows)[j].email != confirmed_of(rows)[k].email by {
            if k == confirmed_of(head).len() {
                // The last recipient stands for the last row; an earlier
                // one stands for an earlier row.
                let i = choose|i: int|
                    0 <= i < head.len() && is_recipient_for(
                        #[trigger] confirmed_of(head)[j],
                        #[trigger] head[i],
                    );
                assert(rows[i].id != rows[last].id);
            }
        }
    }
}

/// A subscriber that is pending is no recipient: no entry of the listing
/// has its id or its email.
pub proof fn lemma_pending_is_no_recipient(s: StoreState, i: int)
    requires
        s.wf(),
        0 <= i < s.subscribers.len(),
        s.subscribers[i].status == SubscriptionStatus::PendingConfirmation,
    ensures
        forall|j: int|
            0 <= j < s.confirmed_recipients().len() ==> (#[trigger] s.confirmed_recipients()[j]).id
                != s.subscribers[i].id && s.confirmed_recipients()[j].email
                != s.subscribers[i].email,
{
    lemma_recipients_are_confirmed(s.subscribers);
    assert forall|j: int| 0 <= j < s.confirmed_recipients().len() implies (
    #[trigger] s.confirmed_recipients()[j]).id != s.subscribers[i].id
        && s.confirmed_recipients()[j].email != s.subscribers[i].email by {
        let k = choose|k: int|
            0 <= k < s.subscribers.len() && is_recipient_for(
                #[trigger] confirmed_of(s.subscribers)[j],
                #[trigger] s.subscribers[k],
            );
        assert(k != i);
    }
}

/// Inserting a row whose id and email are new keeps the rules of the schema.
pub proof fn lemma_insert_subscriber_keeps_rules(s: StoreState, row: SubscriberRow)
    requires
        s.wf(),
        !s.has_email(row.email),
        !s.has_id(row.id),
    ensures
        s.with_subscriber(row).wf(),
{
    let t = s.with_subscriber(row);
    assert forall|i: int, j: int| 0 <= i < j < t.subscribers.len() implies (
    #[trigger] t.subscribers[i]).id != (#[trigger] t.subscribers[j]).id && t.subscribers[i].email
        != t.subscribers[j].email by {
        // Either both rows were there before, or the later one is `row`.
        assert(t.subscribers[i] == s.subscribers[i]);
    }
    assert forall|k: int| 0 <= k < t.tokens.len() implies t.has_id(
        (#[trigger] t.tokens[k]).subscriber_id,
    ) by {
        let w = s.subscriber_index(s.tokens[k].subscriber_id);
        assert(t.subscribers[w] == s.subscribers[w]);
    }
}

/// A row that was inserted is found under its id, and no token came with
/// it.
pub proof fn lemma_inserted_subscriber_is_there(s: StoreState, row: SubscriberRow)
    ensures
        s.with_subscriber(row).has_id(row.id),
        s.with_subscriber(row).has_email(row.email),
        forall|token: Seq<char>| #[trigger]
            s.with_subscriber(row).has_token(token) == s.has_token(token),
{
    let t = s.with_subscriber(row);
    let last = s.subscribers.len() as int;
    assert(t.subscribers[last] == row);
    assert(t.tokens == s.tokens);
}

/// Inserting a new token for a subscriber that is there keeps the rules of
/// the schema.
pub proof fn lemma_insert_token_keeps_rules(s: StoreState, token: Seq<char>, id: SubscriberId)
    requires
        s.wf(),
        !s.has_token(token),
        s.has_id(id),
    ensures
        s.with_token(token, id).wf(),
{
    let t = s.with_token(token, id);
    assert forall|i: int, j: int| 0 <= i < j < t.tokens.len() implies (#[trigger] t.tokens[i]).token
        != (#[trigger] t.tokens[j]).token by {
        // Either both rows were there before, or the later one is new.
        assert(t.tokens[i] == s.tokens[i]);
    }
}

/// Confirming a subscriber keeps the rules of the schema.
pub proof fn lemma_confirm_keeps_rules(s: StoreState, id: SubscriberId)
    requires
        s.wf(),
    ensures
        s.with_confirmed(id).wf(),
{
    let t = s.with_confirmed(id);
    assert forall|k: int| 0 <= k < t.tokens.len() implies t.has_id(
        (#[trigger] t.tokens[k]).subscriber_id,
    ) by {
        let w = s.subscriber_index(s.tokens[k].subscriber_id);
        assert(t.subscribers[w].id == s.tokens[k].subscriber_id);
    }
}

} // verus!
