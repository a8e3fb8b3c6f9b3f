//! Confirming a pending subscriber.

use crate::store::memory::SubscriptionStore;
use crate::store::state::{StoreError, StoreState, SubscriberId};
use vstd::prelude::*;

verus! {

/// The one parameter of a confirmation request.
#[derive(Debug)]
pub struct Parameters {
    pub subscription_token: String,
}

/// Why a confirmation was not applied.
#[derive(Clone, Copy, Debug, PartialEq, Eq, Structural)]
pub enum ConfirmError {
    /// The token is missing, or the store does not hold it.
    UnknownToken,
    /// The store failed.
    PersistenceFailure,
}

impl Parameters {
    /// The parameters, if the query holds the token.
    pub fn from_query(subscription_token: Option<String>) -> (res: Result<Parameters, ConfirmError>)
        ensures
            res is Ok <==> subscription_token is Some,
            res matches Ok(parameters) ==> subscription_token matches Some(token)
                && parameters.subscription_token@ == token@,
            res matches Err(e) ==> e == ConfirmError::UnknownToken,
    {
        match subscription_token {
            Some(subscription_token) => Ok(Parameters { subscription_token }),
            None => Err(ConfirmError::UnknownToken),
        }
    }
}

/// The HTTP status that answers a confirmation request: 200 where the
/// confirmation was applied, 400 where the token is missing or unknown,
/// 500 where the store failed.
pub open spec fn confirm_status_of(res: Result<(), ConfirmError>) -> u16 {
    match res {
        Ok(()) => 200,
        Err(ConfirmError::UnknownToken) => 400,
        Err(ConfirmError::PersistenceFailure) => 500,
    }
}

pub fn confirm_status(res: &Result<(), ConfirmError>) -> (status: u16)
    ensures
        status == confirm_status_of(*res),
{
    match res {
        Ok(()) => 200,
        Err(ConfirmError::UnknownToken) => 400,
        Err(ConfirmError::PersistenceFailure) => 500,
    }
}

/// What confirming with `token` does to a store in state `s`: the state
/// afterwards, and the answer.
pub open spec fn confirm_outcome(s: StoreState, token: Seq<char>) -> (
    StoreState,
    Result<(), ConfirmError>,
) {
    match s.resolve(token) {
        Some(id) => (s.with_confirmed(id), Ok(())),
        None => (s, Err(ConfirmError::UnknownToken)),
    }
}

/// Whom to confirm, given what the store answered to the lookup of the
/// token: the subscriber it found; `UnknownToken` if it found none;
/// `PersistenceFailure` if the lookup failed.
pub fn confirmation_target(looked_up: Result<Option<SubscriberId>, StoreError>) -> (res: Result<
    SubscriberId,
    ConfirmError,
>)
    ensures
        res == match looked_up {
            Ok(Some(id)) => Ok::<SubscriberId, ConfirmError>(id),
            Ok(None) => Err(ConfirmError::UnknownToken),
            Err(_) => Err(ConfirmError::PersistenceFailure),
        },
{
    match looked_up {
        Ok(Some(id)) => Ok(id),
        Ok(None) => Err(ConfirmError::UnknownToken),
        Err(_) => Err(ConfirmError::PersistenceFailure),
    }
}

/// The answer to a confirmation, given what the store answered to the
/// change of status: a failure of the store is a failure of persistence.
pub fn confirmation_result(marked: Result<(), StoreError>) -> (res: Result<(), ConfirmError>)
    ensures
        res == match marked {
            Ok(()) => Ok::<(), ConfirmError>(()),
            Err(_) => Err(ConfirmError::PersistenceFailure),
        },
{
    match marked {
        Ok(()) => Ok(()),
        Err(_) => Err(ConfirmError::PersistenceFailure),
    }
}

/// Looks the token up and confirms the subscriber it resolves to. An
/// unknown token changes nothing. The token is read, not used up: the same
/// token confirms again, to the same effect.
pub fn confirm(store: &mut SubscriptionStore, token: &str) -> (res: Result<(), ConfirmError>)
    ensures
        final(store)@.wf(),
        final(store)@.follows(old(store)@),
        (final(store)@, res) == confirm_outcome(old(store)@, token@),
        res is Ok <==> old(store)@.has_token(token@),
        res is Err ==> res == Err::<(), ConfirmError>(ConfirmError::UnknownToken) && final(store)@
            == old(store)@,
{
    proof {
        use_type_invariant(&*store);
    }
    let id = match confirmation_target(Ok(store.find_subscriber_by_token(token))) {
        Ok(id) => id,
        Err(e) => {
            return Err(e);
        },
    };
    store.mark_confirmed(id);
    confirmation_result(Ok(()))
}

/// Answers `GET /subscriptions/confirm` with the parameter
/// `subscription_token` of its query, as sent or missing: confirms and
/// gives the status of the result. A request without the token is answered
/// 400 and changes nothing.
pub fn handle_confirm(store: &mut SubscriptionStore, subscription_token: Option<String>) -> (status:
    u16)
    ensures
        final(store)@.wf(),
        final(store)@.follows(old(store)@),
        subscription_token is None ==> status == 400 && final(store)@ == old(store)@,
        subscription_token matches Some(token) ==> final(store)@ == confirm_outcome(
            old(store)@,
            token@,
        ).0 && status == confirm_status_of(confirm_outcome(old(store)@, token@).1),
{
    proof {
        use_type_invariant(&*store);
    }
    let res = match Parameters::from_query(subscription_token) {
        Ok(parameters) => confirm(store, parameters.subscription_token.as_str()),
        Err(e) => Err(e),
    };
    confirm_status(&res)
}

} // verus!
