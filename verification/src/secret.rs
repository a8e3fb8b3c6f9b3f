//! Secrets: texts that are handed on, and never printed.

use secrecy::{ExposeSecret, Secret};
use vstd::prelude::*;

verus! {

/// A text that must not leak: it is kept inside `secrecy::Secret`, which
/// wipes it from memory when dropped and prints a placeholder for it.
/// The verifier does not look inside: what it knows of a secret is what
/// `seal`, `expose` and `duplicate` state.
#[verifier::external_body]
#[derive(Debug)]
pub struct SecretText {
    inner: Secret<String>,
}

/// The text that a secret guards.
pub uninterp spec fn secret_text(secret: SecretText) -> Seq<char>;

/// `Secret::new`: takes ownership of the text.
#[verifier::external_body]
fn seal(text: String) -> (secret: SecretText)
    ensures
        secret_text(secret) == text@,
{
    SecretText { inner: Secret::new(text) }
}

/// `ExposeSecret::expose_secret`: the one way to the text inside a secret.
#[verifier::external_body]
fn expose(secret: &SecretText) -> (text: &String)
    ensures
        text@ == secret_text(*secret),
{
    secret.inner.expose_secret()
}

/// `Clone::clone` of a secret: a second secret that guards the same text.
#[verifier::external_body]
fn duplicate(secret: &SecretText) -> (copy: SecretText)
    ensures
        secret_text(copy) == secret_text(*secret),
{
    SecretText { inner: secret.inner.clone() }
}

impl SecretText {
    pub fn new(text: String) -> (secret: SecretText)
        ensures
            secret_text(secret) == text@,
    {
        seal(text)
    }

    /// The guarded text. Nothing else gives it out.
    pub fn expose_secret(&self) -> (text: &String)
        ensures
            text@ == secret_text(*self),
    {
        expose(self)
    }
}

impl Clone for SecretText {
    fn clone(&self) -> (copy: SecretText)
        ensures
            secret_text(copy) == secret_text(*self),
    {
        duplicate(self)
    }
}

} // verus!
