//! A token presale ledger: a single shared record that governs a time-boxed
//! sale of a fungible asset at a fixed rate, paid in a native settlement
//! currency.
//!
//! This crate holds the verified core: the state-transition decisions of the
//! five operations (initialize, buy, toggle, withdraw unsold tokens, withdraw
//! currency), each a function from plain values to plain values with a full
//! contract. The surrounding chain runtime — account validation, the clock,
//! and the two ledger-transfer primitives — is an external collaborator: a
//! host reads the inputs from it, calls the functions here, and performs the
//! transfers these functions decide on.

pub mod errors;
pub mod state;
pub mod purchase;
pub mod lifecycle;
pub mod laws;
