//! The email address of a subscriber.

use vstd::prelude::*;
use vstd::string::StringExecFns;

verus! {

/// Whether `validator::validate_email` accepts a text as an email address
/// (the address grammar of HTML5 forms).
pub uninterp spec fn validator_accepts(text: Seq<char>) -> bool;

pub open spec fn has_at_sign(text: Seq<char>) -> bool {
    exists|i: int| 0 <= i < text.len() && #[trigger] text[i] == '@'
}

/// Nothing stands before the first "@".
pub open spec fn local_part_is_empty(text: Seq<char>) -> bool {
    text.len() > 0 && text[0] == '@'
}

/// Nothing stands behind the last "@".
pub open spec fn domain_part_is_empty(text: Seq<char>) -> bool {
    text.len() > 0 && text[text.len() - 1] == '@'
}

/// An "@" with something on either side of it.
pub open spec fn has_address_shape(text: Seq<char>) -> bool {
    has_at_sign(text) && !local_part_is_empty(text) && !domain_part_is_empty(text)
}

/// The rule for email addresses, given the verdict of the address grammar.
pub open spec fn email_is_valid(text: Seq<char>, accepted: bool) -> bool {
    has_address_shape(text) && accepted
}

/// What `SubscriberEmail::parse` answers for a text it rejects.
pub open spec fn email_rejection(text: Seq<char>) -> Seq<char> {
    text + " is not a valid email."@
}

/// Asks `validator::validate_email` whether `s` is an email address. The
/// contract only names the verdict.
#[verifier::external_body]
fn validate_email(s: &str) -> (accepted: bool)
    ensures
        accepted == validator_accepts(s@),
{
    validator::validate_email(s)
}

/// Decides whether `s` may be an email address, given the verdict of the
/// address grammar on it.
pub fn is_valid_email(s: &str, accepted: bool) -> (ok: bool)
    ensures
        ok == email_is_valid(s@, accepted),
{
    let mut found = false;
    let mut started = false;
    let mut first = ' ';
    let mut last = ' ';
    for c in it: s.chars()
        invariant
            it.seq() == s@,
            found == has_at_sign(s@.take(it.index() as int)),
            started == (it.index() > 0),
            started ==> first == s@[0] && last == s@[it.index() - 1],
    {
        let ghost k = it.index() as int;
        assert(s@.take(k + 1)[k] == c);
        if c == '@' {
            found = true;
        }
        if !started {
            first = c;
            started = true;
        }
        last = c;
    }
    assert(s@.take(s@.len() as int) == s@);
    found && started && first != '@' && last != '@' && accepted
}

/// An email address that passed the rule for addresses.
#[derive(Debug)]
pub struct SubscriberEmail {
    value: String,
}

impl View for SubscriberEmail {
    type V = Seq<char>;

    closed spec fn view(&self) -> Seq<char> {
        self.value@
    }
}

impl SubscriberEmail {
    #[verifier::type_invariant]
    spec fn holds_valid_email(self) -> bool {
        email_is_valid(self.value@, validator_accepts(self.value@))
    }

    /// Accepts `email` exactly when it has an "@" with a local part before
    /// it and a domain behind it, and the address grammar accepts it; a
    /// rejected text comes back inside the message.
    pub fn parse(email: String) -> (res: Result<SubscriberEmail, String>)
        ensures
            res is Ok <==> email_is_valid(email@, validator_accepts(email@)),
            !has_at_sign(email@) ==> res is Err,
            local_part_is_empty(email@) ==> res is Err,
            domain_part_is_empty(email@) ==> res is Err,
            res matches Ok(address) ==> address@ == email@,
            res matches Err(message) ==> message@ == email_rejection(email@),
    {
        let accepted = validate_email(email.as_str());
        if is_valid_email(email.as_str(), accepted) {
            Ok(SubscriberEmail { value: email })
        } else {
            Err(email.concat(" is not a valid email."))
        }
    }

    pub fn as_ref(&self) -> (s: &str)
        ensures
            s@ == self@,
            email_is_valid(self@, validator_accepts(self@)),
    {
        proof {
            use_type_invariant(self);
        }
        self.value.as_str()
    }
}

impl SubscriberEmail {
    /// Whether two addresses are the same text.
    pub fn equals(&self, other: &SubscriberEmail) -> (same: bool)
        ensures
            same == (self@ == other@),
    {
        self.value == other.value
    }
}

impl Clone for SubscriberEmail {
    fn clone(&self) -> (copy: Self)
        ensures
            copy@ == self@,
    {
        proof {
            use_type_invariant(self);
        }
        SubscriberEmail { value: self.value.clone() }
    }
}

} // verus!
