//! What the service does with each request.

pub mod subscriptions;
