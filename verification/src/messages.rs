//! The message data model and the operations on envelopes.

pub mod canonical;
pub mod forward;
pub mod headers;
pub mod inspect;
pub mod message;
pub mod prior_claims;
pub mod seal;
pub mod sign;
mod texts;
pub mod types;
pub mod unseal;
