//! Properties of the wallet's state machine that hold across several operations.
use vstd::prelude::*;

use crate::error::Error;
use crate::message::{auth_message_of, be_bytes, is_zero, rotation_message_of};
use crate::wallet::WalletState;

verus! {

/// The state after `k` calls of `get_and_increment_nonce`, each applied to the
/// state the previous one left.
pub open spec fn consumed(s: WalletState, k: nat) -> WalletState
    decreases k,
{
    if k == 0 {
        s
    } else {
        let p = consumed(s, (k - 1) as nat);
        p.settle(p.consume_outcome())
    }
}

/// A wallet that has been initialized refuses every further initialization,
/// and the refused call leaves the state as the first one left it.
pub proof fn lemma_init_guard(
    s: WalletState,
    owner: [u8; 32],
    email_hash: [u8; 32],
    owner2: [u8; 32],
    email_hash2: [u8; 32],
)
    requires
        s.inv(),
        !is_zero(owner),
        !is_zero(email_hash),
    ensures
        ({
            let s1 = s.settle(s.init_outcome(owner, email_hash));
            &&& s1.init_outcome(owner2, email_hash2) == Err::<WalletState, Error>(Error::AlreadyInitialized)
            &&& s1.settle(s1.init_outcome(owner2, email_hash2)) == s1
        }),
{
}

/// An initialization with a zero owner key or a zero email commitment fails,
/// and the wallet stays uninitialized.
pub proof fn lemma_zero_sentinel_rejected(s: WalletState, owner: [u8; 32], email_hash: [u8; 32])
    requires
        s.inv(),
        !s.initialized(),
        is_zero(owner) || is_zero(email_hash),
    ensures
        s.init_outcome(owner, email_hash) == Err::<WalletState, Error>(
            if is_zero(owner) {
                Error::InvalidOwner
            } else {
                Error::InvalidEmailHash
            },
        ),
        !s.settle(s.init_outcome(owner, email_hash)).initialized(),
{
}

/// Starting from nonce 0, the first `k` calls of `get_and_increment_nonce` all
/// succeed, the call made after `i` others hands out `i`, and the nonce is
/// then `k`.
pub proof fn lemma_nonce_monotonic(s: WalletState, k: nat)
    requires
        s.inv(),
        s.nonce == Some(0u64),
        k <= u64::MAX,
    ensures
        forall|i: nat| #![trigger consumed(s, i)]
            i < k ==> consumed(s, i).consume_outcome() is Ok && consumed(s, i).nonce == Some(i as u64),
        consumed(s, k).nonce == Some(k as u64),
    decreases k,
{
    if k > 0 {
        lemma_nonce_monotonic(s, (k - 1) as nat);
        assert forall|i: nat| #![trigger consumed(s, i)]
            i < k implies consumed(s, i).consume_outcome() is Ok && consumed(s, i).nonce == Some(i as u64) by {
            if i < k - 1 {
            } else {
                assert(i == k - 1);
            }
        }
    }
}

/// Distinct nonces have distinct encodings.
pub proof fn lemma_be_bytes_injective(a: u64, b: u64)
    ensures
        be_bytes(a) == be_bytes(b) ==> a == b,
{
    if be_bytes(a) == be_bytes(b) {
        assert(be_bytes(a)[0] == be_bytes(b)[0]);
        assert(be_bytes(a)[1] == be_bytes(b)[1]);
        assert(be_bytes(a)[2] == be_bytes(b)[2]);
        assert(be_bytes(a)[3] == be_bytes(b)[3]);
        assert(be_bytes(a)[4] == be_bytes(b)[4]);
        assert(be_bytes(a)[5] == be_bytes(b)[5]);
        assert(be_bytes(a)[6] == be_bytes(b)[6]);
        assert(be_bytes(a)[7] == be_bytes(b)[7]);
        assert(
            (a >> 56u64) as u8 == (b >> 56u64) as u8 && (a >> 48u64) as u8 == (b >> 48u64) as u8
                && (a >> 40u64) as u8 == (b >> 40u64) as u8 && (a >> 32u64) as u8 == (b >> 32u64) as u8
                && (a >> 24u64) as u8 == (b >> 24u64) as u8 && (a >> 16u64) as u8 == (b >> 16u64) as u8
                && (a >> 8u64) as u8 == (b >> 8u64) as u8 && a as u8 == b as u8 ==> a == b
        ) by (bit_vector);
    }
}

/// A successful authorization moves the nonce, so the message that the same
/// challenge must be signed over afterwards differs from the one just
/// accepted; a replayed signature that the oracle then rejects changes nothing.
pub proof fn lemma_replay_rejected(s: WalletState, challenge: [u8; 32], signature: [u8; 64])
    requires
        s.inv(),
        s.auth_outcome(s.auth_signature_valid(challenge, signature)) is Ok,
    ensures
        ({
            let s1 = s.settle(s.auth_outcome(s.auth_signature_valid(challenge, signature)));
            &&& s1.nonce.unwrap() == s.nonce.unwrap() + 1
            &&& auth_message_of(challenge, s1.nonce.unwrap()) != auth_message_of(challenge, s.nonce.unwrap())
            &&& !s1.auth_signature_valid(challenge, signature) ==> s1.settle(
                s1.auth_outcome(s1.auth_signature_valid(challenge, signature)),
            ) == s1
        }),
{
    let s1 = s.settle(s.auth_outcome(s.auth_signature_valid(challenge, signature)));
    let m0 = auth_message_of(challenge, s.nonce.unwrap());
    let m1 = auth_message_of(challenge, s1.nonce.unwrap());
    if m0 == m1 {
        assert(m0.subrange(32, 40) =~= be_bytes(s.nonce.unwrap()));
        assert(m1.subrange(32, 40) =~= be_bytes(s1.nonce.unwrap()));
        lemma_be_bytes_injective(s.nonce.unwrap(), s1.nonce.unwrap());
    }
}

/// Rotating to the key that already owns the wallet fails with `SameOwner`
/// whatever the oracle would say, and changes nothing.
pub proof fn lemma_same_owner_rejected(s: WalletState, signature_valid: bool)
    requires
        s.inv(),
        s.initialized(),
    ensures
        s.rotation_outcome(s.owner.unwrap(), signature_valid) == Err::<WalletState, Error>(Error::SameOwner),
        s.settle(s.rotation_outcome(s.owner.unwrap(), signature_valid)) == s,
{
}

/// No message signed for a general authorization is ever a rotation message,
/// whatever the nonces: the domain tag keeps the two kinds apart.
pub proof fn lemma_domain_separation(challenge: [u8; 32], auth_nonce: u64, new_owner: [u8; 32], rotation_nonce: u64)
    ensures
        auth_message_of(challenge, auth_nonce) != rotation_message_of(new_owner, rotation_nonce),
{
    assert(auth_message_of(challenge, auth_nonce).len() == 40);
    assert(rotation_message_of(new_owner, rotation_nonce).len() == 52);
}

} // verus!
