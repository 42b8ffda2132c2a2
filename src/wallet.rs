//! The wallet: its identity, its nonce ledger, its event log, and the
//! operations that move it from one state to the next.
use vstd::prelude::*;

use crate::error::Error;
use crate::event::{AuthSuccessEvent, KeyRotatedEvent, WalletCreatedEvent, WalletEvent};
use crate::message::{
    auth_message, auth_message_of, is_zero, is_zero_bytes, rotation_message, rotation_message_of,
    same_key,
};
use crate::oracle::{ed25519_accepts, verify_ed25519_signature};

verus! {

/// The storage slots of a wallet instance.
#[derive(Clone, Copy, Debug, PartialEq, Eq, Structural)]
pub enum DataKey {
    Owner,
    EmailHash,
    Nonce,
}

/// What a wallet holds, as mathematical values: one slot per `DataKey`, and
/// the events emitted so far, oldest first.
pub struct WalletState {
    pub owner: Option<[u8; 32]>,
    pub email_hash: Option<[u8; 32]>,
    pub nonce: Option<u64>,
    pub events: Seq<WalletEvent>,
}

/// `Ok(())` for an operation that succeeded, its error otherwise.
pub open spec fn status(outcome: Result<WalletState, Error>) -> Result<(), Error> {
    match outcome {
        Ok(_) => Ok(()),
        Err(e) => Err(e),
    }
}

impl WalletState {
    /// A wallet instance that has just been created.
    pub open spec fn fresh() -> WalletState {
        WalletState { owner: None, email_hash: None, nonce: None, events: Seq::empty() }
    }

    pub open spec fn initialized(self) -> bool {
        self.owner is Some
    }

    /// The slots are filled together, and no identity field is the zero sentinel.
    pub open spec fn inv(self) -> bool {
        &&& (self.owner is Some) == (self.email_hash is Some)
        &&& (self.owner is Some) == (self.nonce is Some)
        &&& (self.owner matches Some(o) ==> !is_zero(o))
        &&& (self.email_hash matches Some(e) ==> !is_zero(e))
    }

    /// The state after an operation: the new state where it succeeded, the
    /// same state where it failed.
    pub open spec fn settle(self, outcome: Result<WalletState, Error>) -> WalletState {
        match outcome {
            Ok(s) => s,
            Err(_) => self,
        }
    }

    pub open spec fn init_outcome(self, owner: [u8; 32], email_hash: [u8; 32]) -> Result<WalletState, Error> {
        if self.initialized() {
            Err(Error::AlreadyInitialized)
        } else if is_zero(owner) {
            Err(Error::InvalidOwner)
        } else if is_zero(email_hash) {
            Err(Error::InvalidEmailHash)
        } else {
            Ok(WalletState {
                owner: Some(owner),
                email_hash: Some(email_hash),
                nonce: Some(0),
                events: self.events.push(
                    WalletEvent::Created(WalletCreatedEvent { owner, email_hash }),
                ),
            })
        }
    }

    /// Advancing the nonce by one; the value handed out is the one before.
    pub open spec fn consume_outcome(self) -> Result<WalletState, Error> {
        match self.nonce {
            None => Err(Error::NotInitialized),
            Some(n) => if n == u64::MAX {
                Err(Error::InvalidNonce)
            } else {
                Ok(WalletState { nonce: Some((n + 1) as u64), ..self })
            },
        }
    }

    /// A general authorization, given the oracle's verdict on its message.
    pub open spec fn auth_outcome(self, signature_valid: bool) -> Result<WalletState, Error> {
        if !self.initialized() {
            Err(Error::NotInitialized)
        } else if !signature_valid {
            Err(Error::InvalidSignature)
        } else {
            match self.consume_outcome() {
                Err(e) => Err(e),
                Ok(s) => Ok(WalletState {
                    events: s.events.push(
                        WalletEvent::AuthSuccess(
                            AuthSuccessEvent { owner: self.owner.unwrap(), nonce: self.nonce.unwrap() },
                        ),
                    ),
                    ..s
                }),
            }
        }
    }

    /// A rotation to `new_owner`, given the oracle's verdict on its message.
    pub open spec fn rotation_outcome(self, new_owner: [u8; 32], signature_valid: bool) -> Result<WalletState, Error> {
        match self.owner {
            None => Err(Error::NotInitialized),
            Some(current) => if is_zero(new_owner) {
                Err(Error::InvalidOwner)
            } else if current@ == new_owner@ {
                Err(Error::SameOwner)
            } else if !signature_valid {
                Err(Error::InvalidSignature)
            } else {
                match self.consume_outcome() {
                    Err(e) => Err(e),
                    Ok(s) => Ok(WalletState {
                        owner: Some(new_owner),
                        events: s.events.push(
                            WalletEvent::KeyRotated(
                                KeyRotatedEvent {
                                    old_owner: current,
                                    new_owner,
                                    nonce: self.nonce.unwrap(),
                                },
                            ),
                        ),
                        ..s
                    }),
                }
            },
        }
    }

    /// Whether the owner signed `challenge` bound to the current nonce.
    pub open spec fn auth_signature_valid(self, challenge: [u8; 32], signature: [u8; 64]) -> bool {
        match (self.owner, self.nonce) {
            (Some(o), Some(n)) => ed25519_accepts(o@, auth_message_of(challenge, n), signature@),
            _ => false,
        }
    }

    /// Whether the owner signed the rotation to `new_owner` bound to the current nonce.
    pub open spec fn rotation_signature_valid(self, new_owner: [u8; 32], signature: [u8; 64]) -> bool {
        match (self.owner, self.nonce) {
            (Some(o), Some(n)) => ed25519_accepts(o@, rotation_message_of(new_owner, n), signature@),
            _ => false,
        }
    }
}

/// One wallet instance: its storage slots and its event log.
pub struct WalletContract {
    owner: Option<[u8; 32]>,
    email_hash: Option<[u8; 32]>,
    nonce: Option<u64>,
    events: Vec<WalletEvent>,
}

impl View for WalletContract {
    type V = WalletState;

    closed spec fn view(&self) -> WalletState {
        WalletState {
            owner: self.owner,
            email_hash: self.email_hash,
            nonce: self.nonce,
            events: self.events@,
        }
    }
}

impl WalletContract {
    /// A new instance, with empty storage and no events.
    pub fn new() -> (r: WalletContract)
        ensures
            r@ == WalletState::fresh(),
            r@.inv(),
    {
        let r = WalletContract { owner: None, email_hash: None, nonce: None, events: Vec::new() };
        assert(r@.events =~= Seq::<WalletEvent>::empty());
        r
    }

    /// An instance rebuilt from the values of its storage slots, with an empty
    /// event log; `None` where the slots are not filled together or an identity
    /// field is the zero sentinel.
    pub fn restore(owner: Option<[u8; 32]>, email_hash: Option<[u8; 32]>, nonce: Option<u64>) -> (r: Option<WalletContract>)
        ensures
            ({
                let s = WalletState { owner, email_hash, nonce, events: Seq::empty() };
                &&& r is Some <==> s.inv()
                &&& r matches Some(w) ==> w@ == s
            }),
    {
        let filled = owner.is_some();
        if email_hash.is_some() != filled || nonce.is_some() != filled {
            return None;
        }
        if let Some(o) = &owner {
            if is_zero_bytes(o) {
                return None;
            }
        }
        if let Some(e) = &email_hash {
            if is_zero_bytes(e) {
                return None;
            }
        }
        let r = WalletContract { owner, email_hash, nonce, events: Vec::new() };
        assert(r@.events =~= Seq::<WalletEvent>::empty());
        Some(r)
    }

    /// Whether a storage slot holds a value.
    pub fn has(&self, key: DataKey) -> (r: bool)
        ensures
            r == match key {
                DataKey::Owner => self@.owner is Some,
                DataKey::EmailHash => self@.email_hash is Some,
                DataKey::Nonce => self@.nonce is Some,
            },
    {
        match key {
            DataKey::Owner => self.owner.is_some(),
            DataKey::EmailHash => self.email_hash.is_some(),
            DataKey::Nonce => self.nonce.is_some(),
        }
    }

    /// The events emitted so far, oldest first.
    pub fn events(&self) -> (r: &Vec<WalletEvent>)
        ensures
            r@ == self@.events,
    {
        &self.events
    }

    /// Gives the wallet its owner key and email commitment, with nonce 0.
    pub fn init(&mut self, owner: [u8; 32], email_hash: [u8; 32]) -> (r: Result<(), Error>)
        requires
            old(self)@.inv(),
        ensures
            final(self)@.inv(),
            final(self)@ == old(self)@.settle(old(self)@.init_outcome(owner, email_hash)),
            r == status(old(self)@.init_outcome(owner, email_hash)),
            r is Err ==> final(self)@ == old(self)@,
    {
        if self.has(DataKey::Owner) {
            return Err(Error::AlreadyInitialized);
        }
        if is_zero_bytes(&owner) {
            return Err(Error::InvalidOwner);
        }
        if is_zero_bytes(&email_hash) {
            return Err(Error::InvalidEmailHash);
        }
        self.owner = Some(owner);
        self.email_hash = Some(email_hash);
        self.nonce = Some(0);
        self.events.push(WalletEvent::Created(WalletCreatedEvent { owner, email_hash }));
        Ok(())
    }

    /// The current owner key.
    pub fn get_owner(&self) -> (r: Result<[u8; 32], Error>)
        ensures
            r == match self@.owner {
                Some(o) => Ok(o),
                None => Err(Error::NotInitialized),
            },
    {
        match self.owner {
            Some(o) => Ok(o),
            None => Err(Error::NotInitialized),
        }
    }

    /// The email commitment.
    pub fn get_email_hash(&self) -> (r: Result<[u8; 32], Error>)
        ensures
            r == match self@.email_hash {
                Some(e) => Ok(e),
                None => Err(Error::NotInitialized),
            },
    {
        match self.email_hash {
            Some(e) => Ok(e),
            None => Err(Error::NotInitialized),
        }
    }

    /// The current nonce, without advancing it.
    pub fn get_nonce(&self) -> (r: Result<u64, Error>)
        ensures
            r == match self@.nonce {
                Some(n) => Ok(n),
                None => Err(Error::NotInitialized),
            },
    {
        match self.nonce {
            Some(n) => Ok(n),
            None => Err(Error::NotInitialized),
        }
    }

    /// Hands out the current nonce and stores its successor.
    pub fn get_and_increment_nonce(&mut self) -> (r: Result<u64, Error>)
        requires
            old(self)@.inv(),
        ensures
            final(self)@.inv(),
            final(self)@ == old(self)@.settle(old(self)@.consume_outcome()),
            r == match old(self)@.consume_outcome() {
                Ok(_) => Ok(old(self)@.nonce.unwrap()),
                Err(e) => Err(e),
            },
            r is Err ==> final(self)@ == old(self)@,
    {
        let current = match self.nonce {
            Some(n) => n,
            None => {
                return Err(Error::NotInitialized);
            },
        };
        let next = match current.checked_add(1) {
            Some(n) => n,
            None => {
                return Err(Error::InvalidNonce);
            },
        };
        self.nonce = Some(next);
        Ok(current)
    }
    /// Completes a general authorization once the oracle's verdict on
    /// `auth_message` for the current nonce is known: consumes the nonce and
    /// records the success, or changes nothing.
    pub fn finish_check_auth(&mut self, signature_valid: bool) -> (r: Result<(), Error>)
        requires
            old(self)@.inv(),
        ensures
            final(self)@.inv(),
            final(self)@ == old(self)@.settle(old(self)@.auth_outcome(signature_valid)),
            r == status(old(self)@.auth_outcome(signature_valid)),
            r is Err ==> final(self)@ == old(self)@,
    {
        let owner = match self.owner {
            Some(o) => o,
            None => {
                return Err(Error::NotInitialized);
            },
        };
        if !signature_valid {
            return Err(Error::InvalidSignature);
        }
        let nonce = match self.get_and_increment_nonce() {
            Ok(n) => n,
            Err(e) => {
                return Err(e);
            },
        };
        self.events.push(WalletEvent::AuthSuccess(AuthSuccessEvent { owner, nonce }));
        Ok(())
    }

    /// Authorizes a request: the owner's signature over `challenge` followed by
    /// the current nonce must verify; the nonce is then consumed.
    pub fn check_auth(&mut self, challenge: [u8; 32], signature: [u8; 64]) -> (r: Result<(), Error>)
        requires
            old(self)@.inv(),
        ensures
            final(self)@.inv(),
            final(self)@ == old(self)@.settle(
                old(self)@.auth_outcome(old(self)@.auth_signature_valid(challenge, signature)),
            ),
            r == status(old(self)@.auth_outcome(old(self)@.auth_signature_valid(challenge, signature))),
            r is Err ==> final(self)@ == old(self)@,
    {
        let owner = match self.get_owner() {
            Ok(o) => o,
            Err(e) => {
                return Err(e);
            },
        };
        let nonce = match self.get_nonce() {
            Ok(n) => n,
            Err(e) => {
                return Err(e);
            },
        };
        let message = auth_message(&challenge, nonce);
        let valid = verify_ed25519_signature(&owner, &message, &signature).is_ok();
        self.finish_check_auth(valid)
    }

    /// Completes a rotation to `new_owner` once the oracle's verdict on
    /// `rotation_message` for the current nonce is known.
    pub fn finish_update_owner(&mut self, new_owner: [u8; 32], signature_valid: bool) -> (r: Result<(), Error>)
        requires
            old(self)@.inv(),
        ensures
            final(self)@.inv(),
            final(self)@ == old(self)@.settle(old(self)@.rotation_outcome(new_owner, signature_valid)),
            r == status(old(self)@.rotation_outcome(new_owner, signature_valid)),
            r is Err ==> final(self)@ == old(self)@,
    {
        let current = match self.owner {
            Some(o) => o,
            None => {
                return Err(Error::NotInitialized);
            },
        };
        if is_zero_bytes(&new_owner) {
            return Err(Error::InvalidOwner);
        }
        if same_key(&current, &new_owner) {
            return Err(Error::SameOwner);
        }
        if !signature_valid {
            return Err(Error::InvalidSignature);
        }
        let nonce = match self.get_and_increment_nonce() {
            Ok(n) => n,
            Err(e) => {
                return Err(e);
            },
        };
        self.owner = Some(new_owner);
        self.events.push(
            WalletEvent::KeyRotated(KeyRotatedEvent { old_owner: current, new_owner, nonce }),
        );
        Ok(())
    }

    /// Rotates the owner key. The checks that need no cryptography come first;
    /// then the current owner's signature over the domain tag, the new key and
    /// the current nonce must verify; the nonce is then consumed.
    pub fn update_owner(&mut self, new_owner: [u8; 32], signature: [u8; 64]) -> (r: Result<(), Error>)
        requires
            old(self)@.inv(),
        ensures
            final(self)@.inv(),
            final(self)@ == old(self)@.settle(
                old(self)@.rotation_outcome(
                    new_owner,
                    old(self)@.rotation_signature_valid(new_owner, signature),
                ),
            ),
            r == status(
                old(self)@.rotation_outcome(
                    new_owner,
                    old(self)@.rotation_signature_valid(new_owner, signature),
                ),
            ),
            r is Err ==> final(self)@ == old(self)@,
    {
        let current = match self.get_owner() {
            Ok(o) => o,
            Err(e) => {
                return Err(e);
            },
        };
        if is_zero_bytes(&new_owner) {
            return Err(Error::InvalidOwner);
        }
        if same_key(&current, &new_owner) {
            return Err(Error::SameOwner);
        }
        let nonce = match self.get_nonce() {
            Ok(n) => n,
            Err(e) => {
                return Err(e);
            },
        };
        let message = rotation_message(&new_owner, nonce);
        let valid = verify_ed25519_signature(&current, &message, &signature).is_ok();
        self.finish_update_owner(new_owner, valid)
    }
}

} // verus!
