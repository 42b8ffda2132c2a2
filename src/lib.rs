//! Authentication core of a single-owner smart-contract wallet: Ed25519
//! authorization bound to a replay-protecting nonce, and owner key rotation.

pub mod error;
pub mod message;
pub mod oracle;
pub mod event;
pub mod wallet;
pub mod laws;
