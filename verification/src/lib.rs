//! Air-gapped transaction signing: the verified core.
//!
//! A transaction is composed on a networked machine, carried to an offline
//! machine where it is validated, reviewed and signed, and carried back to be
//! broadcast. This crate holds the rules of that lifecycle; reading files,
//! talking to a node and drawing the review screen are left to the caller.

pub mod clock;
pub mod commands;
pub mod contract;
pub mod crypto;
pub mod error;
pub mod hex;
pub mod network;
pub mod tui;
pub mod types;
pub mod uint;
pub mod validate;

pub use error::Error;
pub use types::{Config, SignedTx, TxParams};
