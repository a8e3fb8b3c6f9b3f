//! The validated pair of fields a subscription starts from.

use super::subscriber_email::{email_is_valid, validator_accepts, SubscriberEmail};
use super::subscriber_name::{grapheme_count, name_is_valid, SubscriberName};
use vstd::prelude::*;

verus! {

/// An email address and a display name, both validated.
#[derive(Debug)]
pub struct NewSubscriber {
    email: SubscriberEmail,
    name: SubscriberName,
}

impl NewSubscriber {
    pub closed spec fn email_text(&self) -> Seq<char> {
        self.email@
    }

    pub closed spec fn name_text(&self) -> Seq<char> {
        self.name@
    }

    pub fn new(email: SubscriberEmail, name: SubscriberName) -> (subscriber: Self)
        ensures
            subscriber.email_text() == email@,
            subscriber.name_text() == name@,
    {
        Self { email, name }
    }

    pub fn get_email(&self) -> (s: &str)
        ensures
            s@ == self.email_text(),
            email_is_valid(s@, validator_accepts(s@)),
    {
        self.email.as_ref()
    }

    pub fn get_name(&self) -> (s: &str)
        ensures
            s@ == self.name_text(),
            name_is_valid(s@, grapheme_count(s@)),
    {
        self.name.as_ref()
    }

    /// The two fields, handed back to the caller.
    pub fn into_parts(self) -> (parts: (SubscriberEmail, SubscriberName))
        ensures
            parts.0@ == self.email_text(),
            parts.1@ == self.name_text(),
    {
        (self.email, self.name)
    }
}

} // verus!
