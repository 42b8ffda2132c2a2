//! The notifications that a wallet emits on its state transitions.
use vstd::prelude::*;

verus! {

/// Emitted once, when the wallet receives its identity.
#[derive(Clone, Copy, Debug, PartialEq, Eq)]
pub struct WalletCreatedEvent {
    pub owner: [u8; 32],
    pub email_hash: [u8; 32],
}

/// Emitted when a general authorization succeeds, with the nonce it consumed.
#[derive(Clone, Copy, Debug, PartialEq, Eq)]
pub struct AuthSuccessEvent {
    pub owner: [u8; 32],
    pub nonce: u64,
}

/// Emitted when the owner key is rotated, with the nonce it consumed.
#[derive(Clone, Copy, Debug, PartialEq, Eq)]
pub struct KeyRotatedEvent {
    pub old_owner: [u8; 32],
    pub new_owner: [u8; 32],
    pub nonce: u64,
}

/// One entry of a wallet's event log.
#[derive(Clone, Copy, Debug, PartialEq, Eq)]
pub enum WalletEvent {
    Created(WalletCreatedEvent),
    AuthSuccess(AuthSuccessEvent),
    KeyRotated(KeyRotatedEvent),
}

} // verus!
