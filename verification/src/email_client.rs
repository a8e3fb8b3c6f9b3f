//! The email transport adapter: what is sent to the provider for one
//! recipient, and how the provider's answer is classified.

use crate::domain::subscriber_email::SubscriberEmail;
use crate::secret::{secret_text, SecretText};
use std::time::Duration;
use vstd::prelude::*;
use vstd::string::StringExecFns;

verus! {

/// The path of the provider's endpoint for sending, behind its base URL.
pub open spec fn send_path() -> Seq<char> {
    "/campaigns/9b4079798b/actions/test"@
}

/// The name of the header that carries the secret.
pub open spec fn authorization_header() -> Seq<char> {
    "authorization"@
}

/// Why an email did not reach the provider, or was not taken by it.
#[derive(Clone, Copy, Debug, PartialEq, Eq, Structural)]
pub enum TransportError {
    /// The provider answered with a status outside 200..=299.
    ProviderRejected { status: u16 },
    /// No answer came within the timeout.
    TransportTimeout,
    /// No connection to the provider could be made.
    TransportUnreachable,
}

/// What came of the one call to the provider.
#[derive(Clone, Copy, Debug, PartialEq, Eq, Structural)]
pub enum ProviderOutcome {
    /// The provider answered with this HTTP status.
    Responded { status: u16 },
    /// The timeout ran out first.
    TimedOut,
    /// The connection failed.
    ConnectionFailed,
}

pub open spec fn is_success_status(status: u16) -> bool {
    200 <= status <= 299
}

/// The result of sending, for each outcome of the call.
pub open spec fn classified(outcome: ProviderOutcome) -> Result<(), TransportError> {
    match outcome {
        ProviderOutcome::Responded { status } => if is_success_status(status) {
            Ok(())
        } else {
            Err(TransportError::ProviderRejected { status })
        },
        ProviderOutcome::TimedOut => Err(TransportError::TransportTimeout),
        ProviderOutcome::ConnectionFailed => Err(TransportError::TransportUnreachable),
    }
}

/// Classifies the outcome of the call: a 2xx answer is success, any other
/// answer a rejection that carries the status; no attempt is repeated.
pub fn classify(outcome: ProviderOutcome) -> (res: Result<(), TransportError>)
    ensures
        res == classified(outcome),
{
    match outcome {
        ProviderOutcome::Responded { status } => {
            if 200 <= status && status <= 299 {
                Ok(())
            } else {
                Err(TransportError::ProviderRejected { status })
            }
        },
        ProviderOutcome::TimedOut => Err(TransportError::TransportTimeout),
        ProviderOutcome::ConnectionFailed => Err(TransportError::TransportUnreachable),
    }
}

/// The JSON body of a request to send: its two members.
pub struct SendEmailRequestBody<'a> {
    pub test_emails: Vec<&'a str>,
    pub send_type: &'a str,
}

/// One request to the provider: `method` and `url`, one header, given as
/// its name and its value, and `body`, to be sent as JSON.
pub struct SendEmailRequest<'a> {
    pub method: &'a str,
    pub url: String,
    pub header: (&'a str, &'a str),
    pub body: SendEmailRequestBody<'a>,
}

/// What the adapter needs to address the provider.
#[derive(Debug)]
pub struct EmailClient {
    base_url: String,
    sender: SubscriberEmail,
    secret: SecretText,
    timeout: Duration,
}

impl EmailClient {
    pub closed spec fn base_url(&self) -> Seq<char> {
        self.base_url@
    }

    pub closed spec fn sender_text(&self) -> Seq<char> {
        self.sender@
    }

    pub closed spec fn secret(&self) -> SecretText {
        self.secret
    }

    pub closed spec fn timeout_value(&self) -> Duration {
        self.timeout
    }

    pub fn new(base_url: String, sender: SubscriberEmail, secret: SecretText, timeout: Duration) -> (client:
        EmailClient)
        ensures
            client.base_url() == base_url@,
            client.sender_text() == sender@,
            client.secret() == secret,
            client.timeout_value() == timeout,
    {
        EmailClient { base_url, sender, secret, timeout }
    }

    /// The timeout that bounds every call to the provider.
    pub fn timeout(&self) -> (timeout: Duration)
        ensures
            timeout == self.timeout_value(),
    {
        self.timeout
    }

    pub fn sender(&self) -> (sender: &SubscriberEmail)
        ensures
            sender@ == self.sender_text(),
    {
        &self.sender
    }

    /// The URL that requests to send go to.
    pub fn send_url(&self) -> (url: String)
        ensures
            url@ == self.base_url() + send_path(),
    {
        self.base_url.clone().concat("/campaigns/9b4079798b/actions/test")
    }

    /// The request that sends the email to `recipient`: a POST to the
    /// provider's endpoint, authorised by the secret, with the recipient
    /// as the only address and the type `html`.
    pub fn send_email_request<'a>(&'a self, recipient: &'a SubscriberEmail) -> (request:
        SendEmailRequest<'a>)
        ensures
            request.method@ == "POST"@,
            request.url@ == self.base_url() + send_path(),
            request.header.0@ == authorization_header(),
            request.header.1@ == secret_text(self.secret()),
            request.body.test_emails@.len() == 1,
            request.body.test_emails@[0]@ == recipient@,
            request.body.send_type@ == "html"@,
    {
        let mut test_emails: Vec<&'a str> = Vec::new();
        test_emails.push(recipient.as_ref());
        SendEmailRequest {
            method: "POST",
            url: self.send_url(),
            header: ("authorization", self.secret.expose_secret().as_str()),
            body: SendEmailRequestBody { test_emails, send_type: "html" },
        }
    }
}

} // verus!
