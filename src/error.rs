use vstd::prelude::*;

verus! {

/// The reasons for which a wallet operation is refused.
#[derive(Clone, Copy, Debug, PartialEq, Eq, Structural)]
pub enum Error {
    /// The wallet already holds an identity.
    AlreadyInitialized,
    /// The wallet holds no identity yet.
    NotInitialized,
    /// An owner key is the all-zero sentinel.
    InvalidOwner,
    /// The email commitment is the all-zero sentinel.
    InvalidEmailHash,
    /// The signature oracle rejected the signature.
    InvalidSignature,
    /// Advancing the nonce would overflow 64 bits.
    InvalidNonce,
    /// A rotation names the key that already owns the wallet.
    SameOwner,
    /// Reserved for capability checks made outside this core.
    Unauthorized,
    /// Reserved for explicit replay detection beyond the nonce check.
    ReplayAttack,
}

} // verus!
