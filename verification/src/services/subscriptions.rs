//! Taking in a new subscriber.

use crate::domain::new_subscriber::NewSubscriber;
use crate::domain::subscriber_email::{
    email_is_valid, email_rejection, validator_accepts, SubscriberEmail,
};
use crate::domain::subscriber_name::{
    grapheme_count, name_is_valid, name_rejection, SubscriberName,
};
use crate::store::laws::lemma_inserted_subscriber_is_there;
use crate::store::memory::SubscriptionStore;
use crate::store::state::{pending_row, StoreError, StoreState, SubscriberId};
use crate::token::{issue_token, token_is_well_formed, ConfirmationToken, TOKEN_LENGTH};
use vstd::prelude::*;

verus! {

/// The two fields of a subscription request, as the client sent them.
#[derive(Debug)]
pub struct FormData {
    pub name: String,
    pub email: String,
}

/// Why a subscription was not taken in.
#[derive(Clone, Copy, Debug, PartialEq, Eq, Structural)]
pub enum SubscribeError {
    /// A field is missing or breaks its rule. Nothing was stored.
    InvalidInput,
    /// The store already holds this subscriber. Nothing was stored.
    Conflict,
    /// The store failed.
    PersistenceFailure,
}

impl FormData {
    /// The form, if the request holds both of its fields.
    pub fn from_fields(name: Option<String>, email: Option<String>) -> (res: Result<
        FormData,
        SubscribeError,
    >)
        ensures
            res is Ok <==> name is Some && email is Some,
            res matches Ok(form) ==> name == Some(form.name) && email == Some(form.email),
            res matches Err(e) ==> e == SubscribeError::InvalidInput,
    {
        match (name, email) {
            (Some(name), Some(email)) => Ok(FormData { name, email }),
            _ => Err(SubscribeError::InvalidInput),
        }
    }
}

/// The HTTP status that answers a subscription request: 200 where the
/// subscriber was taken in, 400 where the request was invalid or the
/// subscriber is already there, 500 where the store failed.
pub open spec fn subscribe_status_of(res: Result<(), SubscribeError>) -> u16 {
    match res {
        Ok(()) => 200,
        Err(SubscribeError::InvalidInput) => 400,
        Err(SubscribeError::Conflict) => 400,
        Err(SubscribeError::PersistenceFailure) => 500,
    }
}

pub fn subscribe_status(res: &Result<(), SubscribeError>) -> (status: u16)
    ensures
        status == subscribe_status_of(*res),
{
    match res {
        Ok(()) => 200,
        Err(SubscribeError::InvalidInput) => 400,
        Err(SubscribeError::Conflict) => 400,
        Err(SubscribeError::PersistenceFailure) => 500,
    }
}

/// Whether a name and an email make an acceptable subscription request.
pub open spec fn request_is_valid(name: Seq<char>, email: Seq<char>) -> bool {
    name_is_valid(name, grapheme_count(name)) && email_is_valid(email, validator_accepts(email))
}

/// What subscribing does to a store in state `s`, when the subscriber is
/// to get the id `id`, the time of subscription `subscribed_at` and the
/// token `token`: the state afterwards, and the answer.
pub open spec fn subscribe_outcome(
    s: StoreState,
    name: Seq<char>,
    email: Seq<char>,
    id: SubscriberId,
    subscribed_at: i64,
    token: Seq<char>,
) -> (StoreState, Result<(), SubscribeError>) {
    if !request_is_valid(name, email) {
        (s, Err(SubscribeError::InvalidInput))
    } else if s.has_email(email) || s.has_id(id) {
        (s, Err(SubscribeError::Conflict))
    } else {
        let inserted = s.with_subscriber(pending_row(id, email, name, subscribed_at));
        if inserted.has_token(token) {
            (inserted, Err(SubscribeError::PersistenceFailure))
        } else {
            (inserted.with_token(token, id), Ok(()))
        }
    }
}

impl NewSubscriber {
    /// Validates the name, then the email. The message of the first field
    /// that breaks its rule comes back.
    pub fn try_from(value: FormData) -> (res: Result<NewSubscriber, String>)
        ensures
            res is Ok <==> request_is_valid(value.name@, value.email@),
            res matches Ok(subscriber) ==> subscriber.name_text() == value.name@
                && subscriber.email_text() == value.email@,
            res matches Err(message) ==> message@ == if !name_is_valid(
                value.name@,
                grapheme_count(value.name@),
            ) {
                name_rejection(value.name@)
            } else {
                email_rejection(value.email@)
            },
    {
        let name = match SubscriberName::parse(value.name) {
            Ok(name) => name,
            Err(message) => {
                return Err(message);
            },
        };
        let email = match SubscriberEmail::parse(value.email) {
            Ok(email) => email,
            Err(message) => {
                return Err(message);
            },
        };
        Ok(NewSubscriber::new(email, name))
    }
}

/// The validated subscriber of a request; `InvalidInput` for a request
/// with a field that breaks its rule.
pub fn validate(form: FormData) -> (res: Result<NewSubscriber, SubscribeError>)
    ensures
        res is Ok <==> request_is_valid(form.name@, form.email@),
        res matches Ok(subscriber) ==> subscriber.name_text() == form.name@
            && subscriber.email_text() == form.email@,
        res matches Err(e) ==> e == SubscribeError::InvalidInput,
{
    match NewSubscriber::try_from(form) {
        Ok(subscriber) => Ok(subscriber),
        Err(_) => Err(SubscribeError::InvalidInput),
    }
}

/// The answer to a subscriber that the store did not insert: a conflict
/// stays a conflict, any other failure is a failure of persistence.
pub fn subscriber_insert_failure(e: StoreError) -> (failure: SubscribeError)
    ensures
        failure == if e == StoreError::Conflict {
            SubscribeError::Conflict
        } else {
            SubscribeError::PersistenceFailure
        },
{
    match e {
        StoreError::Conflict => SubscribeError::Conflict,
        _ => SubscribeError::PersistenceFailure,
    }
}

/// The answer to a token that the store did not insert: the subscriber is
/// stored, so every failure is a failure of persistence.
pub fn token_insert_failure(e: StoreError) -> (failure: SubscribeError)
    ensures
        failure == SubscribeError::PersistenceFailure,
{
    SubscribeError::PersistenceFailure
}

/// How many tokens are issued for one subscriber, at most, before binding
/// one is given up.
pub const TOKEN_ATTEMPTS: usize = 3;

/// Whether another token is to be issued, after the store refused one with
/// `e` and `attempts` tokens were tried: only a token that collided calls
/// for another one, and only while attempts are left.
pub fn retries_token(e: StoreError, attempts: usize) -> (again: bool)
    ensures
        again == (e == StoreError::Conflict && attempts < TOKEN_ATTEMPTS),
{
    match e {
        StoreError::Conflict => attempts < TOKEN_ATTEMPTS,
        _ => false,
    }
}

/// Subscribes with the id, the time of subscription and the token given:
/// one attempt to insert the subscriber, and one to bind the token.
pub fn subscribe_as(
    store: &mut SubscriptionStore,
    form: FormData,
    id: SubscriberId,
    subscribed_at: i64,
    token: &ConfirmationToken,
) -> (res: Result<(), SubscribeError>)
    ensures
        final(store)@.wf(),
        final(store)@.follows(old(store)@),
        (final(store)@, res) == subscribe_outcome(
            old(store)@,
            form.name@,
            form.email@,
            id,
            subscribed_at,
            token@,
        ),
{
    let ghost before = store@;
    proof {
        use_type_invariant(&*store);
    }
    let subscriber = match validate(form) {
        Ok(subscriber) => subscriber,
        Err(e) => {
            return Err(e);
        },
    };
    let (email, name) = subscriber.into_parts();
    let id = match store.insert_subscriber_as(&email, &name, id, subscribed_at) {
        Ok(id) => id,
        Err(e) => {
            return Err(subscriber_insert_failure(e));
        },
    };
    proof {
        lemma_inserted_subscriber_is_there(
            before,
            pending_row(id, email@, name@, subscribed_at),
        );
    }
    match store.insert_token(id, token) {
        Ok(()) => Ok(()),
        Err(e) => Err(token_insert_failure(e)),
    }
}

/// Validates the request, inserts the subscriber as pending confirmation
/// under a fresh id, and binds a freshly issued token to it. A token that
/// collides with one in the store is replaced by another fresh one, up to
/// `TOKEN_ATTEMPTS` tokens in all; the subscriber is inserted once.
///
/// An invalid request and an email that is already there leave the store
/// as it was. Where no token can be bound, the subscriber stays behind
/// without one, pending, and no token confirms it.
pub fn subscribe(store: &mut SubscriptionStore, form: FormData) -> (res: Result<
    (),
    SubscribeError,
>)
    ensures
        final(store)@.wf(),
        final(store)@.follows(old(store)@),
        !request_is_valid(form.name@, form.email@) ==> res == Err::<(), SubscribeError>(
            SubscribeError::InvalidInput,
        ) && final(store)@ == old(store)@,
        request_is_valid(form.name@, form.email@) && old(store)@.has_email(form.email@) ==> res
            == Err::<(), SubscribeError>(SubscribeError::Conflict) && final(store)@ == old(
            store,
        )@,
        request_is_valid(form.name@, form.email@) && old(store)@.subscribers.len() == 0 ==> res
            is Ok,
        request_is_valid(form.name@, form.email@) ==> exists|
            id: SubscriberId,
            subscribed_at: i64,
            token: Seq<char>,
        |
            token_is_well_formed(token) && (final(store)@, res) == #[trigger] subscribe_outcome(
                old(store)@,
                form.name@,
                form.email@,
                id,
                subscribed_at,
                token,
            ),
{
    let ghost before = store@;
    let ghost name_text = form.name@;
    let ghost email_text = form.email@;
    proof {
        use_type_invariant(&*store);
    }
    let subscriber = match validate(form) {
        Ok(subscriber) => subscriber,
        Err(e) => {
            return Err(e);
        },
    };
    let (email, name) = subscriber.into_parts();
    let id = match store.insert_subscriber(&email, &name) {
        Ok(id) => id,
        Err(e) => {
            proof {
                let taken = if before.has_email(email_text) {
                    SubscriberId { value: 0 }
                } else {
                    before.subscribers[0].id
                };
                let unused = Seq::new(TOKEN_LENGTH as nat, |i: int| 'a');
                assert((store@, Err::<(), SubscribeError>(SubscribeError::Conflict))
                    == subscribe_outcome(before, name_text, email_text, taken, 0, unused));
            }
            return Err(subscriber_insert_failure(e));
        },
    };
    let ghost subscribed_at = choose|subscribed_at: i64|
        store@ == before.with_subscriber(
            #[trigger] pending_row(id, email_text, name_text, subscribed_at),
        );
    proof {
        lemma_inserted_subscriber_is_there(
            before,
            pending_row(id, email_text, name_text, subscribed_at),
        );
        if before.subscribers.len() == 0 {
            assert(before.tokens.len() == 0) by {
                if before.tokens.len() > 0 {
                    assert(before.has_id(before.tokens[0].subscriber_id));
                }
            }
        }
    }
    let ghost inserted = store@;
    let mut attempts: usize = 0;
    loop
        invariant
            store@ == inserted,
            before == old(store)@,
            name_text == form.name@,
            email_text == form.email@,
            inserted == before.with_subscriber(
                pending_row(id, email_text, name_text, subscribed_at),
            ),
            inserted.follows(before),
            inserted.has_id(id),
            forall|token: Seq<char>| #[trigger] inserted.has_token(token) == before.has_token(token),
            request_is_valid(name_text, email_text),
            !before.has_email(email_text),
            !before.has_id(id),
            before.subscribers.len() == 0 ==> before.tokens.len() == 0,
            attempts < TOKEN_ATTEMPTS,
        decreases TOKEN_ATTEMPTS - attempts,
    {
        let token = issue_token();
        attempts = attempts + 1;
        let bound = store.insert_token(id, &token);
        proof {
            let res: Result<(), SubscribeError> = match bound {
                Ok(()) => Ok(()),
                Err(_) => Err(SubscribeError::PersistenceFailure),
            };
            assert((store@, res) == subscribe_outcome(
                before,
                name_text,
                email_text,
                id,
                subscribed_at,
                token@,
            ));
        }
        match bound {
            Ok(()) => {
                return Ok(());
            },
            Err(e) => {
                if !retries_token(e, attempts) {
                    return Err(token_insert_failure(e));
                }
            },
        }
    }
}

/// Answers `POST /subscriptions` with the fields `name` and `email` of its
/// body, each as sent or missing: subscribes and gives the status of the
/// result. A request without both fields is answered 400 and changes
/// nothing.
pub fn handle_subscribe(
    store: &mut SubscriptionStore,
    name: Option<String>,
    email: Option<String>,
) -> (status: u16)
    ensures
        final(store)@.wf(),
        final(store)@.follows(old(store)@),
        status == 200 || status == 400 || status == 500,
        name is None || email is None ==> status == 400 && final(store)@ == old(store)@,
        name is Some && email is Some && !request_is_valid(name->Some_0@, email->Some_0@)
            ==> status == 400 && final(store)@ == old(store)@,
        name is Some && email is Some && request_is_valid(name->Some_0@, email->Some_0@) ==> (exists|
            id: SubscriberId,
            subscribed_at: i64,
            token: Seq<char>,
        |
            token_is_well_formed(token) && ({
                let outcome = #[trigger] subscribe_outcome(
                    old(store)@,
                    name->Some_0@,
                    email->Some_0@,
                    id,
                    subscribed_at,
                    token,
                );
                final(store)@ == outcome.0 && status == subscribe_status_of(outcome.1)
            })),
{
    proof {
        use_type_invariant(&*store);
    }
    let res = match FormData::from_fields(name, email) {
        Ok(form) => subscribe(store, form),
        Err(e) => Err(e),
    };
    subscribe_status(&res)
}

} // verus!
