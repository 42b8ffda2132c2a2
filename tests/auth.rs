use account_abstraction::error::Error;
use account_abstraction::event::{AuthSuccessEvent, KeyRotatedEvent, WalletEvent};
use account_abstraction::message::{auth_message, is_zero_bytes, rotation_message, same_key};
use account_abstraction::oracle::verify_ed25519_signature;
use account_abstraction::wallet::{DataKey, WalletContract};
use ed25519_dalek::{Signer, SigningKey};

const EMAIL: [u8; 32] = [9u8; 32];

fn key(seed: u8) -> SigningKey {
    SigningKey::from_bytes(&[seed; 32])
}

fn public(k: &SigningKey) -> [u8; 32] {
    k.verifying_key().to_bytes()
}

fn sign(k: &SigningKey, message: &[u8]) -> [u8; 64] {
    k.sign(message).to_bytes()
}

fn auth_bytes(challenge: [u8; 32], nonce: u64) -> Vec<u8> {
    let mut m = challenge.to_vec();
    m.extend_from_slice(&nonce.to_be_bytes());
    m
}

fn rotation_bytes(new_owner: [u8; 32], nonce: u64) -> Vec<u8> {
    let mut m = b"update_owner".to_vec();
    m.extend_from_slice(&new_owner);
    m.extend_from_slice(&nonce.to_be_bytes());
    m
}

fn wallet_of(k: &SigningKey) -> WalletContract {
    let mut w = WalletContract::new();
    w.init(public(k), EMAIL).unwrap();
    w
}

#[test]
fn auth_message_layout() {
    let challenge = [7u8; 32];
    let m = auth_message(&challenge, 0x0102030405060708);
    let mut expected = vec![7u8; 32];
    expected.extend_from_slice(&[1, 2, 3, 4, 5, 6, 7, 8]);
    assert_eq!(m, expected);
}

#[test]
fn rotation_message_layout() {
    let m = rotation_message(&[4u8; 32], 1);
    let mut expected = vec![
        b'u', b'p', b'd', b'a', b't', b'e', b'_', b'o', b'w', b'n', b'e', b'r',
    ];
    expected.extend_from_slice(&[4u8; 32]);
    expected.extend_from_slice(&[0, 0, 0, 0, 0, 0, 0, 1]);
    assert_eq!(m, expected);
    assert_eq!(m.len(), 52);
}

#[test]
fn zero_check_and_key_comparison() {
    assert!(is_zero_bytes(&[0u8; 32]));
    let mut one = [0u8; 32];
    one[31] = 1;
    assert!(!is_zero_bytes(&one));
    assert!(same_key(&one, &one));
    assert!(!same_key(&one, &[0u8; 32]));
}

#[test]
fn oracle_accepts_and_rejects() {
    let k = key(1);
    let msg = b"hello".to_vec();
    let sig = sign(&k, &msg);
    assert_eq!(verify_ed25519_signature(&public(&k), &msg, &sig), Ok(()));
    let other = b"hellp".to_vec();
    assert_eq!(verify_ed25519_signature(&public(&k), &other, &sig), Err(Error::InvalidSignature));
    assert_eq!(verify_ed25519_signature(&public(&key(2)), &msg, &sig), Err(Error::InvalidSignature));
}

#[test]
fn check_auth_accepts_owner_signature() {
    let k = key(1);
    let mut w = wallet_of(&k);
    let challenge = [5u8; 32];
    let sig = sign(&k, &auth_bytes(challenge, 0));
    assert_eq!(w.check_auth(challenge, sig), Ok(()));
    assert_eq!(w.get_nonce(), Ok(1));
    assert_eq!(w.events().len(), 2);
    assert_eq!(
        w.events()[1],
        WalletEvent::AuthSuccess(AuthSuccessEvent { owner: public(&k), nonce: 0 })
    );
}

#[test]
fn check_auth_rejects_replay() {
    let k = key(1);
    let mut w = wallet_of(&k);
    let challenge = [5u8; 32];
    let sig = sign(&k, &auth_bytes(challenge, 0));
    assert_eq!(w.check_auth(challenge, sig), Ok(()));
    assert_eq!(w.check_auth(challenge, sig), Err(Error::InvalidSignature));
    assert_eq!(w.get_nonce(), Ok(1));
    assert_eq!(w.events().len(), 2);
    let fresh = sign(&k, &auth_bytes(challenge, 1));
    assert_eq!(w.check_auth(challenge, fresh), Ok(()));
    assert_eq!(w.get_nonce(), Ok(2));
}

#[test]
fn check_auth_rejects_other_key_and_changes_nothing() {
    let k = key(1);
    let mut w = wallet_of(&k);
    let challenge = [5u8; 32];
    let sig = sign(&key(2), &auth_bytes(challenge, 0));
    assert_eq!(w.check_auth(challenge, sig), Err(Error::InvalidSignature));
    assert_eq!(w.get_nonce(), Ok(0));
    assert_eq!(w.get_owner(), Ok(public(&k)));
    assert_eq!(w.get_email_hash(), Ok(EMAIL));
    assert_eq!(w.events().len(), 1);
}

#[test]
fn check_auth_not_initialized() {
    let mut w = WalletContract::new();
    assert_eq!(w.check_auth([5u8; 32], [3u8; 64]), Err(Error::NotInitialized));
}

#[test]
fn update_owner_with_owner_signature() {
    let k = key(1);
    let new = public(&key(2));
    let mut w = wallet_of(&k);
    let sig = sign(&k, &rotation_bytes(new, 0));
    assert_eq!(w.update_owner(new, sig), Ok(()));
    assert_eq!(w.get_owner(), Ok(new));
    assert_eq!(w.get_email_hash(), Ok(EMAIL));
    assert_eq!(w.get_nonce(), Ok(1));
    assert_eq!(
        w.events()[1],
        WalletEvent::KeyRotated(KeyRotatedEvent { old_owner: public(&k), new_owner: new, nonce: 0 })
    );
    let challenge = [6u8; 32];
    let old_sig = sign(&k, &auth_bytes(challenge, 1));
    assert_eq!(w.check_auth(challenge, old_sig), Err(Error::InvalidSignature));
    let new_sig = sign(&key(2), &auth_bytes(challenge, 1));
    assert_eq!(w.check_auth(challenge, new_sig), Ok(()));
}

#[test]
fn update_owner_same_owner_leaves_nonce() {
    let k = key(1);
    let mut w = wallet_of(&k);
    let sig = sign(&k, &rotation_bytes(public(&k), 0));
    assert_eq!(w.update_owner(public(&k), sig), Err(Error::SameOwner));
    assert_eq!(w.get_nonce(), Ok(0));
    assert_eq!(w.events().len(), 1);
}

#[test]
fn domain_separation_between_operations() {
    let k = key(1);
    let new = public(&key(2));
    let mut w = wallet_of(&k);
    let auth_sig = sign(&k, &auth_bytes(new, 0));
    assert_eq!(w.update_owner(new, auth_sig), Err(Error::InvalidSignature));
    let rot_sig = sign(&k, &rotation_bytes(new, 0));
    assert_eq!(w.check_auth(new, rot_sig), Err(Error::InvalidSignature));
    assert_eq!(w.get_nonce(), Ok(0));
    assert_eq!(w.get_owner(), Ok(public(&k)));
    assert_eq!(w.events().len(), 1);
}

#[test]
fn init_twice_keeps_first_state() {
    let mut w = WalletContract::new();
    assert_eq!(w.init([1u8; 32], [2u8; 32]), Ok(()));
    assert_eq!(w.init([3u8; 32], [4u8; 32]), Err(Error::AlreadyInitialized));
    assert_eq!(w.get_owner(), Ok([1u8; 32]));
    assert_eq!(w.get_email_hash(), Ok([2u8; 32]));
    assert_eq!(w.get_nonce(), Ok(0));
    assert_eq!(w.events().len(), 1);
}

#[test]
fn zero_sentinel_leaves_wallet_uninitialized() {
    let mut w = WalletContract::new();
    assert_eq!(w.init([0u8; 32], [2u8; 32]), Err(Error::InvalidOwner));
    assert_eq!(w.get_owner(), Err(Error::NotInitialized));
    assert_eq!(w.init([1u8; 32], [0u8; 32]), Err(Error::InvalidEmailHash));
    assert_eq!(w.get_owner(), Err(Error::NotInitialized));
    assert!(!w.has(DataKey::Owner));
    assert!(w.events().is_empty());
}

#[test]
fn three_consumes_then_peek() {
    let mut w = wallet_of(&key(1));
    assert_eq!(w.get_and_increment_nonce(), Ok(0));
    assert_eq!(w.get_and_increment_nonce(), Ok(1));
    assert_eq!(w.get_and_increment_nonce(), Ok(2));
    assert_eq!(w.get_nonce(), Ok(3));
}

#[test]
fn nonce_overflow_is_an_error() {
    let mut w = WalletContract::restore(Some([1u8; 32]), Some([2u8; 32]), Some(u64::MAX - 1)).unwrap();
    assert_eq!(w.get_and_increment_nonce(), Ok(u64::MAX - 1));
    assert_eq!(w.get_and_increment_nonce(), Err(Error::InvalidNonce));
    assert_eq!(w.get_nonce(), Ok(u64::MAX));
}

#[test]
fn auth_at_last_nonce_fails_without_change() {
    let k = key(1);
    let mut w = WalletContract::restore(Some(public(&k)), Some(EMAIL), Some(u64::MAX)).unwrap();
    let challenge = [5u8; 32];
    let sig = sign(&k, &auth_bytes(challenge, u64::MAX));
    assert_eq!(w.check_auth(challenge, sig), Err(Error::InvalidNonce));
    assert_eq!(w.get_nonce(), Ok(u64::MAX));
    assert!(w.events().is_empty());
}

#[test]
fn restore_checks_slots() {
    assert!(WalletContract::restore(None, None, None).is_some());
    assert!(WalletContract::restore(Some([1u8; 32]), None, Some(0)).is_none());
    assert!(WalletContract::restore(Some([0u8; 32]), Some([2u8; 32]), Some(0)).is_none());
    assert!(WalletContract::restore(Some([1u8; 32]), Some([0u8; 32]), Some(0)).is_none());
    let w = WalletContract::restore(Some([1u8; 32]), Some([2u8; 32]), Some(7)).unwrap();
    assert_eq!(w.get_nonce(), Ok(7));
    assert!(w.has(DataKey::EmailHash));
    assert!(w.has(DataKey::Nonce));
}

#[test]
fn finish_operations_follow_the_verdict() {
    let mut w = wallet_of(&key(1));
    assert_eq!(w.finish_check_auth(false), Err(Error::InvalidSignature));
    assert_eq!(w.get_nonce(), Ok(0));
    assert_eq!(w.finish_check_auth(true), Ok(()));
    assert_eq!(w.get_nonce(), Ok(1));
    assert_eq!(w.finish_update_owner([3u8; 32], false), Err(Error::InvalidSignature));
    assert_eq!(w.finish_update_owner([0u8; 32], true), Err(Error::InvalidOwner));
    assert_eq!(w.finish_update_owner(public(&key(1)), true), Err(Error::SameOwner));
    assert_eq!(w.finish_update_owner([3u8; 32], true), Ok(()));
    assert_eq!(w.get_owner(), Ok([3u8; 32]));
    assert_eq!(w.get_nonce(), Ok(2));
    assert_eq!(w.events().len(), 3);
}

#[test]
fn instances_are_isolated() {
    let k = key(1);
    let mut w1 = wallet_of(&k);
    let w2 = wallet_of(&k);
    let challenge = [5u8; 32];
    assert_eq!(w1.check_auth(challenge, sign(&k, &auth_bytes(challenge, 0))), Ok(()));
    assert_eq!(w1.get_nonce(), Ok(1));
    assert_eq!(w2.get_nonce(), Ok(0));
    assert_eq!(w2.events().len(), 1);
}
