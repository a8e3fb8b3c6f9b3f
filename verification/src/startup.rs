//! What the server is started with, beside the store and the email client.

use crate::token::ConfirmationToken;
use vstd::prelude::*;
use vstd::string::StringExecFns;

verus! {

/// The path and query of a confirmation link, up to the token.
pub open spec fn confirmation_path() -> Seq<char> {
    "/subscriptions/confirm?subscription_token="@
}

/// The URL under which clients reach the application. It has a type of
/// its own so that it cannot be taken for any other text.
pub struct ApplicationBaseUrl(pub String);

impl View for ApplicationBaseUrl {
    type V = Seq<char>;

    open spec fn view(&self) -> Seq<char> {
        self.0@
    }
}

impl ApplicationBaseUrl {
    /// The link that confirms the subscriber `token` is bound to.
    pub fn confirmation_link(&self, token: &ConfirmationToken) -> (link: String)
        ensures
            link@ == self@ + confirmation_path() + token@,
    {
        self.0.clone().concat("/subscriptions/confirm?subscription_token=").concat(token.as_str())
    }
}

} // verus!
