//! Construction, signing, addressing and submission of ledger batches.
//!
//! A domain action becomes a payload, the payload a signed transaction, the
//! transaction a signed batch, and the batch list the bytes that are handed to
//! the validator. The submission itself is a state machine that tells its
//! driver when to send, when to ask for the status, and when it is done.

pub mod address;
pub mod agents;
pub mod batch;
pub mod config;
pub mod digest;
pub mod error;
pub mod hex;
pub mod payload;
pub mod products;
pub mod signing;
pub mod split;
pub mod state;
pub mod status;
pub mod submit;
pub mod transaction;
pub mod wait;
pub mod wire;
