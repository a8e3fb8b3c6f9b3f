//! What a store holds, as plain values: its two tables, the rules they
//! obey, and the three changes a store can undergo.

use vstd::prelude::*;

verus! {

/// The identity of a subscriber: the 128-bit value of a UUID.
#[derive(Clone, Copy, Debug, PartialEq, Eq, Structural)]
pub struct SubscriberId {
    pub value: u128,
}

/// Where a subscriber stands in the confirmation life cycle.
#[derive(Clone, Copy, Debug, PartialEq, Eq, Structural)]
pub enum SubscriptionStatus {
    PendingConfirmation,
    Confirmed,
}

impl SubscriptionStatus {
    /// The name under which the status is persisted.
    pub open spec fn name(self) -> Seq<char> {
        match self {
            SubscriptionStatus::PendingConfirmation => "pending_confirmation"@,
            SubscriptionStatus::Confirmed => "confirmed"@,
        }
    }

    pub fn as_str(&self) -> (s: &str)
        ensures
            s@ == self.name(),
    {
        match self {
            SubscriptionStatus::PendingConfirmation => "pending_confirmation",
            SubscriptionStatus::Confirmed => "confirmed",
        }
    }
}

/// Why the store refused or failed an operation.
#[derive(Clone, Copy, Debug, PartialEq, Eq, Structural)]
pub enum StoreError {
    /// A uniqueness rule refused the row: the email, the id or the token is
    /// already there.
    Conflict,
    /// A token was offered for a subscriber the store does not hold.
    UnknownSubscriber,
    /// The store could not be reached, or gave the unit of work up.
    Unavailable,
}

/// One row of the table of subscribers.
pub struct SubscriberRow {
    pub id: SubscriberId,
    pub email: Seq<char>,
    pub name: Seq<char>,
    pub subscribed_at: i64,
    pub status: SubscriptionStatus,
}

/// One row of the table of tokens.
pub struct TokenRow {
    pub token: Seq<char>,
    pub subscriber_id: SubscriberId,
}

/// What a dispatch needs to know of a confirmed subscriber.
pub struct RecipientRow {
    pub id: SubscriberId,
    pub email: Seq<char>,
}

/// `recipient` is what a listing holds for the confirmed row `row`.
pub open spec fn is_recipient_for(recipient: RecipientRow, row: SubscriberRow) -> bool {
    &&& row.status == SubscriptionStatus::Confirmed
    &&& recipient.id == row.id
    &&& recipient.email == row.email
}

/// The confirmed rows of `rows`, in their order.
pub open spec fn confirmed_of(rows: Seq<SubscriberRow>) -> Seq<RecipientRow>
    decreases rows.len(),
{
    if rows.len() == 0 {
        Seq::empty()
    } else {
        let earlier = confirmed_of(rows.drop_last());
        let row = rows.last();
        if row.status == SubscriptionStatus::Confirmed {
            earlier.push(RecipientRow { id: row.id, email: row.email })
        } else {
            earlier
        }
    }
}

/// The contents of a store: both tables, rows in order of insertion.
#[verifier::ext_equal]
pub struct StoreState {
    pub subscribers: Seq<SubscriberRow>,
    pub tokens: Seq<TokenRow>,
}

impl StoreState {
    pub open spec fn empty() -> StoreState {
        StoreState { subscribers: Seq::empty(), tokens: Seq::empty() }
    }

    pub open spec fn has_email(self, email: Seq<char>) -> bool {
        exists|i: int|
            0 <= i < self.subscribers.len() && (#[trigger] self.subscribers[i]).email == email
    }

    pub open spec fn has_id(self, id: SubscriberId) -> bool {
        exists|i: int| 0 <= i < self.subscribers.len() && (#[trigger] self.subscribers[i]).id == id
    }

    pub open spec fn has_token(self, token: Seq<char>) -> bool {
        exists|i: int| 0 <= i < self.tokens.len() && (#[trigger] self.tokens[i]).token == token
    }

    /// The uniqueness rules of the schema: no id, no email and no token
    /// occurs twice, and every token belongs to a subscriber that is there.
    pub open spec fn wf(self) -> bool {
        &&& forall|i: int, j: int|
            0 <= i < j < self.subscribers.len() ==> (#[trigger] self.subscribers[i]).id != (
            #[trigger] self.subscribers[j]).id
        &&& forall|i: int, j: int|
            0 <= i < j < self.subscribers.len() ==> (#[trigger] self.subscribers[i]).email != (
            #[trigger] self.subscribers[j]).email
        &&& forall|i: int, j: int|
            0 <= i < j < self.tokens.len() ==> (#[trigger] self.tokens[i]).token != (
            #[trigger] self.tokens[j]).token
        &&& forall|k: int|
            0 <= k < self.tokens.len() ==> self.has_id((#[trigger] self.tokens[k]).subscriber_id)
    }

    /// The position of the row that holds `token`, where there is one.
    pub open spec fn token_index(self, token: Seq<char>) -> int {
        choose|i: int| 0 <= i < self.tokens.len() && (#[trigger] self.tokens[i]).token == token
    }

    /// The subscriber a token resolves to.
    pub open spec fn resolve(self, token: Seq<char>) -> Option<SubscriberId> {
        if self.has_token(token) {
            Some(self.tokens[self.token_index(token)].subscriber_id)
        } else {
            None
        }
    }

    /// The position of the row of subscriber `id`, where there is one.
    pub open spec fn subscriber_index(self, id: SubscriberId) -> int {
        choose|i: int| 0 <= i < self.subscribers.len() && (#[trigger] self.subscribers[i]).id == id
    }

    /// The status of subscriber `id`.
    pub open spec fn status_of(self, id: SubscriberId) -> Option<SubscriptionStatus> {
        if self.has_id(id) {
            Some(self.subscribers[self.subscriber_index(id)].status)
        } else {
            None
        }
    }

    pub open spec fn with_subscriber(self, row: SubscriberRow) -> StoreState {
        StoreState { subscribers: self.subscribers.push(row), tokens: self.tokens }
    }

    pub open spec fn with_token(self, token: Seq<char>, id: SubscriberId) -> StoreState {
        StoreState {
            subscribers: self.subscribers,
            tokens: self.tokens.push(TokenRow { token, subscriber_id: id }),
        }
    }

    /// The store after subscriber `id` was confirmed: its row, if there is
    /// one, has the status `Confirmed`; nothing else differs.
    pub open spec fn with_confirmed(self, id: SubscriberId) -> StoreState {
        StoreState {
            subscribers: Seq::new(
                self.subscribers.len(),
                |i: int|
                    if self.subscribers[i].id == id {
                        SubscriberRow {
                            status: SubscriptionStatus::Confirmed,
                            ..self.subscribers[i]
                        }
                    } else {
                        self.subscribers[i]
                    },
            ),
            tokens: self.tokens,
        }
    }

    /// The confirmed subscribers, in order of insertion.
    pub open spec fn confirmed_recipients(self) -> Seq<RecipientRow> {
        confirmed_of(self.subscribers)
    }

    /// The subscriber at position `i` has the email `email`, and no other
    /// subscriber has it.
    pub open spec fn is_only_holder(self, email: Seq<char>, i: int) -> bool {
        &&& 0 <= i < self.subscribers.len()
        &&& self.subscribers[i].email == email
        &&& forall|j: int|
            0 <= j < self.subscribers.len() && (#[trigger] self.subscribers[j]).email == email
                ==> j == i
    }

    /// This state can come after `earlier`: every row of `earlier` is
    /// still there, in its place; a subscriber differs at most in a status
    /// that went from pending to confirmed, and no token differs.
    pub open spec fn follows(self, earlier: StoreState) -> bool {
        &&& earlier.subscribers.len() <= self.subscribers.len()
        &&& earlier.tokens.len() <= self.tokens.len()
        &&& forall|i: int|
            0 <= i < earlier.subscribers.len() ==> row_follows(
                #[trigger] self.subscribers[i],
                earlier.subscribers[i],
            )
        &&& forall|k: int|
            0 <= k < earlier.tokens.len() ==> #[trigger] self.tokens[k] == earlier.tokens[k]
    }
}

/// A row can come after `earlier`: it is the same subscriber, and a
/// confirmed one stays confirmed.
pub open spec fn row_follows(row: SubscriberRow, earlier: SubscriberRow) -> bool {
    &&& row.id == earlier.id
    &&& row.email == earlier.email
    &&& row.name == earlier.name
    &&& row.subscribed_at == earlier.subscribed_at
    &&& earlier.status == SubscriptionStatus::Confirmed ==> row.status
        == SubscriptionStatus::Confirmed
}

/// The row a new subscriber is inserted as: pending confirmation.
pub open spec fn pending_row(
    id: SubscriberId,
    email: Seq<char>,
    name: Seq<char>,
    subscribed_at: i64,
) -> SubscriberRow {
    SubscriberRow {
        id,
        email,
        name,
        subscribed_at,
        status: SubscriptionStatus::PendingConfirmation,
    }
}

/// What `insert_token` answers on a store in state `s`.
pub open spec fn insert_token_result(s: StoreState, id: SubscriberId, token: Seq<char>) -> Result<
    (),
    StoreError,
> {
    if s.has_token(token) {
        Err(StoreError::Conflict)
    } else if !s.has_id(id) {
        Err(StoreError::UnknownSubscriber)
    } else {
        Ok(())
    }
}

} // verus!
