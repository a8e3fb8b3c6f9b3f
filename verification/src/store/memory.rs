//! The store in memory.

use super::laws::{
    lemma_confirm_keeps_rules, lemma_insert_subscriber_keeps_rules,
    lemma_insert_token_keeps_rules,
};
use super::state::{
    confirmed_of, insert_token_result, pending_row, RecipientRow, StoreError, StoreState,
    SubscriberId, SubscriberRow, SubscriptionStatus, TokenRow,
};
use crate::domain::subscriber_email::{
    email_is_valid, email_rejection, validator_accepts, SubscriberEmail,
};
use crate::domain::subscriber_name::SubscriberName;
use crate::token::ConfirmationToken;
use vstd::prelude::*;
use vstd::string::StringExecFns;

verus! {

/// A subscriber as the store holds it.
#[derive(Debug)]
pub struct Subscriber {
    id: SubscriberId,
    email: SubscriberEmail,
    name: SubscriberName,
    subscribed_at: i64,
    status: SubscriptionStatus,
}

impl View for Subscriber {
    type V = SubscriberRow;

    closed spec fn view(&self) -> SubscriberRow {
        SubscriberRow {
            id: self.id,
            email: self.email@,
            name: self.name@,
            subscribed_at: self.subscribed_at,
            status: self.status,
        }
    }
}

impl Subscriber {
    pub fn id(&self) -> (id: SubscriberId)
        ensures
            id == self@.id,
    {
        self.id
    }

    pub fn email(&self) -> (s: &str)
        ensures
            s@ == self@.email,
    {
        self.email.as_ref()
    }

    pub fn name(&self) -> (s: &str)
        ensures
            s@ == self@.name,
    {
        self.name.as_ref()
    }

    /// Microseconds since the Unix epoch at which the subscriber was
    /// inserted.
    pub fn subscribed_at(&self) -> (t: i64)
        ensures
            t == self@.subscribed_at,
    {
        self.subscribed_at
    }

    pub fn status(&self) -> (status: SubscriptionStatus)
        ensures
            status == self@.status,
    {
        self.status
    }
}

impl Clone for Subscriber {
    fn clone(&self) -> (copy: Self)
        ensures
            copy@ == self@,
    {
        Subscriber {
            id: self.id,
            email: self.email.clone(),
            name: self.name.clone(),
            subscribed_at: self.subscribed_at,
            status: self.status,
        }
    }
}

/// A confirmed subscriber, as a dispatch addresses it.
#[derive(Debug)]
pub struct Recipient {
    id: SubscriberId,
    email: SubscriberEmail,
}

impl View for Recipient {
    type V = RecipientRow;

    closed spec fn view(&self) -> RecipientRow {
        RecipientRow { id: self.id, email: self.email@ }
    }
}

impl Recipient {
    pub fn new(id: SubscriberId, email: SubscriberEmail) -> (recipient: Recipient)
        ensures
            recipient@ == (RecipientRow { id, email: email@ }),
    {
        Recipient { id, email }
    }

    /// The recipient that a stored row stands for, if its email is an
    /// email address; else the message of the refusal.
    pub fn parse(id: SubscriberId, email: String) -> (res: Result<Recipient, String>)
        ensures
            res is Ok <==> email_is_valid(email@, validator_accepts(email@)),
            res matches Ok(recipient) ==> recipient@ == (RecipientRow { id, email: email@ }),
            res matches Err(message) ==> message@ == email_rejection(email@),
    {
        match SubscriberEmail::parse(email) {
            Ok(email) => Ok(Recipient { id, email }),
            Err(message) => Err(message),
        }
    }

    pub fn id(&self) -> (id: SubscriberId)
        ensures
            id == self@.id,
    {
        self.id
    }

    pub fn email(&self) -> (email: &SubscriberEmail)
        ensures
            email@ == self@.email,
    {
        &self.email
    }
}

/// The rows that a sequence of recipients stands for.
pub open spec fn recipient_rows(recipients: Seq<Recipient>) -> Seq<RecipientRow> {
    Seq::new(recipients.len(), |i: int| recipients[i]@)
}

#[derive(Debug)]
struct TokenEntry {
    token: ConfirmationToken,
    subscriber_id: SubscriberId,
}

impl View for TokenEntry {
    type V = TokenRow;

    closed spec fn view(&self) -> TokenRow {
        TokenRow { token: self.token@, subscriber_id: self.subscriber_id }
    }
}

/// `uuid::Uuid::new_v4`: a random UUID, handed out as its 128-bit value.
/// Nothing is claimed of the value.
#[verifier::external_body]
fn random_uuid() -> u128 {
    uuid::Uuid::new_v4().as_u128()
}

/// `chrono::Utc::now`: the current time, in microseconds since the Unix
/// epoch. Nothing is claimed of the value.
#[verifier::external_body]
fn unix_micros_now() -> i64 {
    chrono::Utc::now().timestamp_micros()
}

/// The two tables, in memory.
#[derive(Debug)]
pub struct SubscriptionStore {
    subscribers: Vec<Subscriber>,
    tokens: Vec<TokenEntry>,
}

impl View for SubscriptionStore {
    type V = StoreState;

    closed spec fn view(&self) -> StoreState {
        rows_of(self.subscribers@, self.tokens@)
    }
}

/// The rows that the two tables stand for.
spec fn rows_of(subscribers: Seq<Subscriber>, tokens: Seq<TokenEntry>) -> StoreState {
    StoreState {
        subscribers: Seq::new(subscribers.len(), |i: int| subscribers[i]@),
        tokens: Seq::new(tokens.len(), |i: int| tokens[i]@),
    }
}

impl SubscriptionStore {
    /// The rules of the schema hold of every store.
    #[verifier::type_invariant]
    pub open spec fn wf(self) -> bool {
        self@.wf()
    }

    pub fn new() -> (store: SubscriptionStore)
        ensures
            store@ == StoreState::empty(),
            store@.wf(),
    {
        let subscribers: Vec<Subscriber> = Vec::new();
        let tokens: Vec<TokenEntry> = Vec::new();
        SubscriptionStore { subscribers, tokens }
    }

    /// Takes the two tables out of the store, which is empty until it
    /// gets them back.
    fn take(&mut self) -> (taken: SubscriptionStore)
        ensures
            taken == *old(self),
    {
        let mut taken = SubscriptionStore::new();
        core::mem::swap(self, &mut taken);
        taken
    }

    fn email_taken(&self, email: &SubscriberEmail) -> (taken: bool)
        ensures
            taken == self@.has_email(email@),
    {
        let mut i: usize = 0;
        while i < self.subscribers.len()
            invariant
                i <= self.subscribers.len(),
                forall|j: int| 0 <= j < i ==> (#[trigger] self@.subscribers[j]).email != email@,
            decreases self.subscribers.len() - i,
        {
            if self.subscribers[i].email.equals(email) {
                assert(self@.subscribers[i as int].email == email@);
                return true;
            }
            i = i + 1;
        }
        false
    }

    fn position_of(&self, id: SubscriberId) -> (found: Option<usize>)
        ensures
            found is Some <==> self@.has_id(id),
            found matches Some(i) ==> i < self@.subscribers.len() && self@.subscribers[i as int].id
                == id,
    {
        let mut i: usize = 0;
        while i < self.subscribers.len()
            invariant
                i <= self.subscribers.len(),
                forall|j: int| 0 <= j < i ==> (#[trigger] self@.subscribers[j]).id != id,
            decreases self.subscribers.len() - i,
        {
            if self.subscribers[i].id == id {
                return Some(i);
            }
            i = i + 1;
        }
        None
    }

    /// Inserts a subscriber under the given id and time of subscription,
    /// pending confirmation, unless its email or its id is already there.
    pub fn insert_subscriber_as(
        &mut self,
        email: &SubscriberEmail,
        name: &SubscriberName,
        id: SubscriberId,
        subscribed_at: i64,
    ) -> (res: Result<SubscriberId, StoreError>)
        ensures
            final(self)@.wf(),
            final(self)@.follows(old(self)@),
            res is Ok <==> !old(self)@.has_email(email@) && !old(self)@.has_id(id),
            res matches Ok(inserted) ==> inserted == id && final(self)@ == old(self)@.with_subscriber(
                pending_row(id, email@, name@, subscribed_at),
            ),
            res matches Err(e) ==> e == StoreError::Conflict && final(self)@ == old(self)@,
    {
        proof {
            use_type_invariant(&*self);
        }
        if self.email_taken(email) {
            return Err(StoreError::Conflict);
        }
        if self.position_of(id).is_some() {
            return Err(StoreError::Conflict);
        }
        let subscriber = Subscriber {
            id,
            email: email.clone(),
            name: name.clone(),
            subscribed_at,
            status: SubscriptionStatus::PendingConfirmation,
        };
        let ghost before = self@;
        let SubscriptionStore { mut subscribers, tokens } = self.take();
        subscribers.push(subscriber);
        proof {
            let row = pending_row(id, email@, name@, subscribed_at);
            assert(rows_of(subscribers@, tokens@) =~= before.with_subscriber(row));
            lemma_insert_subscriber_keeps_rules(before, row);
        }
        *self = SubscriptionStore { subscribers, tokens };
        Ok(id)
    }

    /// Inserts a subscriber, pending confirmation, under a fresh random id
    /// and the current time, and returns the id. Fails with `Conflict`, and
    /// changes nothing, if the email is already there (or if the fresh id
    /// is: an event of negligible probability).
    pub fn insert_subscriber(&mut self, email: &SubscriberEmail, name: &SubscriberName) -> (res:
        Result<SubscriberId, StoreError>)
        ensures
            final(self)@.wf(),
            final(self)@.follows(old(self)@),
            old(self)@.has_email(email@) ==> res is Err,
            res is Err ==> old(self)@.has_email(email@) || old(self)@.subscribers.len() > 0,
            res matches Ok(id) ==> !old(self)@.has_email(email@) && !old(self)@.has_id(id)
                && exists|subscribed_at: i64|
                final(self)@ == old(self)@.with_subscriber(
                    #[trigger] pending_row(id, email@, name@, subscribed_at),
                ),
            res matches Err(e) ==> e == StoreError::Conflict && final(self)@ == old(self)@,
    {
        let id = SubscriberId { value: random_uuid() };
        let now = unix_micros_now();
        self.insert_subscriber_as(email, name, id, now)
    }

    fn token_position(&self, token: &String) -> (found: Option<usize>)
        ensures
            found is Some <==> self@.has_token(token@),
            found matches Some(i) ==> i < self@.tokens.len() && self@.tokens[i as int].token
                == token@,
    {
        let mut i: usize = 0;
        while i < self.tokens.len()
            invariant
                i <= self.tokens.len(),
                forall|j: int| 0 <= j < i ==> (#[trigger] self@.tokens[j]).token != token@,
            decreases self.tokens.len() - i,
        {
            if self.tokens[i].token.matches(token) {
                assert(self@.tokens[i as int].token == token@);
                return Some(i);
            }
            i = i + 1;
        }
        None
    }

    /// Binds `token` to subscriber `id`. Fails with `Conflict` if the token
    /// is already there, else with `UnknownSubscriber` if the subscriber is
    /// not; a failure changes nothing.
    pub fn insert_token(&mut self, id: SubscriberId, token: &ConfirmationToken) -> (res: Result<
        (),
        StoreError,
    >)
        ensures
            final(self)@.wf(),
            final(self)@.follows(old(self)@),
            res == insert_token_result(old(self)@, id, token@),
            res is Ok ==> final(self)@ == old(self)@.with_token(token@, id),
            res is Err ==> final(self)@ == old(self)@,
    {
        proof {
            use_type_invariant(&*self);
        }
        let text = String::from_str(token.as_str());
        if self.token_position(&text).is_some() {
            return Err(StoreError::Conflict);
        }
        if self.position_of(id).is_none() {
            return Err(StoreError::UnknownSubscriber);
        }
        let ghost before = self@;
        let SubscriptionStore { subscribers, mut tokens } = self.take();
        tokens.push(TokenEntry { token: token.clone(), subscriber_id: id });
        proof {
            assert(rows_of(subscribers@, tokens@) =~= before.with_token(token@, id));
            lemma_insert_token_keeps_rules(before, token@, id);
        }
        *self = SubscriptionStore { subscribers, tokens };
        Ok(())
    }

    /// The subscriber that `token` resolves to; `None` for a token the
    /// store does not hold.
    pub fn find_subscriber_by_token(&self, token: &str) -> (found: Option<SubscriberId>)
        ensures
            found == self@.resolve(token@),
    {
        proof {
            use_type_invariant(self);
        }
        let text = String::from_str(token);
        match self.token_position(&text) {
            Some(i) => Some(self.tokens[i].subscriber_id),
            None => None,
        }
    }

    /// Sets the status of subscriber `id` to `Confirmed`. Confirming a
    /// confirmed subscriber, or one that is not there, changes nothing.
    pub fn mark_confirmed(&mut self, id: SubscriberId)
        ensures
            final(self)@.wf(),
            final(self)@.follows(old(self)@),
            final(self)@ == old(self)@.with_confirmed(id),
    {
        let ghost before = self@;
        proof {
            use_type_invariant(&*self);
            lemma_confirm_keeps_rules(before, id);
        }
        if let Some(i) = self.position_of(id) {
            let SubscriptionStore { mut subscribers, tokens } = self.take();
            let mut subscriber = subscribers[i].clone();
            subscriber.status = SubscriptionStatus::Confirmed;
            subscribers.set(i, subscriber);
            // No other row has the id: ids are unique.
            assert(rows_of(subscribers@, tokens@) =~= before.with_confirmed(id));
            *self = SubscriptionStore { subscribers, tokens };
        }
    }

    /// The confirmed subscribers, each once, in order of insertion.
    pub fn list_confirmed_subscribers(&self) -> (recipients: Vec<Recipient>)
        ensures
            recipient_rows(recipients@) == self@.confirmed_recipients(),
    {
        let mut recipients: Vec<Recipient> = Vec::new();
        let mut i: usize = 0;
        while i < self.subscribers.len()
            invariant
                i <= self.subscribers.len(),
                recipient_rows(recipients@) == confirmed_of(self@.subscribers.take(i as int)),
            decreases self.subscribers.len() - i,
        {
            let subscriber = &self.subscribers[i];
            proof {
                let upto = self@.subscribers.take(i + 1);
                assert(upto.drop_last() =~= self@.subscribers.take(i as int));
            }
            if subscriber.status == SubscriptionStatus::Confirmed {
                let ghost earlier = recipient_rows(recipients@);
                recipients.push(Recipient { id: subscriber.id, email: subscriber.email.clone() });
                assert(recipient_rows(recipients@) =~= earlier.push(
                    RecipientRow { id: subscriber.id, email: subscriber.email@ },
                ));
            }
            i = i + 1;
        }
        assert(self@.subscribers.take(self@.subscribers.len() as int) =~= self@.subscribers);
        recipients
    }

    pub fn subscriber_count(&self) -> (n: usize)
        ensures
            n == self@.subscribers.len(),
    {
        self.subscribers.len()
    }

    /// The subscriber at position `i` in order of insertion.
    pub fn subscriber_at(&self, i: usize) -> (subscriber: Option<&Subscriber>)
        ensures
            subscriber is Some <==> i < self@.subscribers.len(),
            subscriber matches Some(s) ==> s@ == self@.subscribers[i as int],
    {
        if i < self.subscribers.len() {
            Some(&self.subscribers[i])
        } else {
            None
        }
    }

    pub fn token_count(&self) -> (n: usize)
        ensures
            n == self@.tokens.len(),
    {
        self.tokens.len()
    }

    /// The token at position `i` in order of insertion, with the
    /// subscriber it belongs to.
    pub fn token_at(&self, i: usize) -> (entry: Option<(&ConfirmationToken, SubscriberId)>)
        ensures
            entry is Some <==> i < self@.tokens.len(),
            entry matches Some(e) ==> e.0@ == self@.tokens[i as int].token && e.1
                == self@.tokens[i as int].subscriber_id,
    {
        if i < self.tokens.len() {
            Some((&self.tokens[i].token, self.tokens[i].subscriber_id))
        } else {
            None
        }
    }
}

} // verus!
