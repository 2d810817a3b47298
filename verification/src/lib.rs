//! Time-locked token escrow for the Soroban smart contract platform.
//!
//! A sender locks an amount of a token for a recipient. From the unlock time on,
//! and once only, the recipient can claim it.
//!
//! - [`contract`]: the entry points of the contract.
//! - [`model`]: what each entry point does, as relations between host states.
//! - [`laws`]: what holds of the contract over several calls.
//! - [`promises`]: what each entry point does for those who use it.
//! - [`ttl`]: how long the contract instance has to stay alive.
//! - [`key`], [`error`]: storage keys and error codes.
//! - [`host`]: the calls into `soroban_sdk`, and what is believed of them.

pub mod contract;
pub mod error;
pub mod host;
pub mod key;
pub mod laws;
pub mod model;
pub mod promises;
pub mod ttl;

pub use contract::EscrowContract;
pub use error::EscrowError;
pub use key::DataKey;
