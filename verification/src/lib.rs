//! A minimal stateful counter contract.
//!
//! The contract holds one signed counter and the identity of whoever
//! initialized it.  Three commands mutate the counter (`Increase`,
//! `Decrease`, and the owner-only `Reset`), and one read-only query
//! reports the counter's parity as a human-readable string.
//!
//! Storage and caller identity are injected by the host environment on
//! every call: the host hands each entry point the contract's storage
//! slot and the sender's identity, and the library computes the new
//! state and the response.

pub mod contract;
pub mod msg;
pub mod render;
pub mod state;
