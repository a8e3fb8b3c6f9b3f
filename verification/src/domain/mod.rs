//! Validated identity fields of a subscriber.

pub mod new_subscriber;
pub mod subscriber_email;
pub mod subscriber_name;
