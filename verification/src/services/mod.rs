//! The operations behind the endpoints: subscribing, confirming, and
//! dispatching a newsletter.

pub mod laws;
pub mod newsletters;
pub mod subscriptions;
pub mod subscriptions_confirm;
