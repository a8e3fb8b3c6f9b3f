//! Mailing-list subscriptions: validated subscriber identities, single-use
//! confirmation tokens, the pending-to-confirmed life cycle and newsletter
//! dispatch to confirmed subscribers, with machine-checked contracts.

pub mod config;
pub mod domain;
pub mod email_client;
pub mod secret;
pub mod services;
pub mod startup;
pub mod store;
pub mod token;
