//! The commands, each as the decisions it makes: what to prepare, whether to
//! sign, how to broadcast, which phrase to take a key from.

pub mod broadcast;
pub mod mnemonic;
pub mod prepare;
pub mod sign;
