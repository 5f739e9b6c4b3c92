//! The core of a relay that stores small signed records under addresses and
//! sells access to some of them: stamp verification, the validation of
//! signed envelopes, invoices, payments and access tokens.
//!
//! Nothing here reads a socket, a file or a clock. Whoever serves requests
//! hands in what arrived and the current time, and carries out what comes
//! back.

pub mod bitcoin;
pub mod crypto;
pub mod models;
pub mod net;
pub mod proto;
pub mod script;
pub mod settings;
pub mod stamps;
pub mod token;
pub mod wallet;
