//! What the relay answers to its clients.

pub mod errors;
pub mod payments;
pub mod profiles;
