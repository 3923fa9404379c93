//! Subscription intake: validated domain values, connection settings and the
//! decisions a request goes through, with every function proved against its
//! contract.

pub mod text;
pub mod ids;
pub mod domain;
pub mod email;
pub mod configuration;
pub mod routes;
pub mod provisioning;
