//! The messages that the relay exchanges with its clients.

pub mod bip70;
pub mod wrapper;
