//! Signing keys. A key is the sixty-four bytes of an Ed25519 key pair, the
//! secret half first; its public half is the address it signs for.

use crate::address::Address;
use solana_sdk::signer::keypair::Keypair;
use solana_sdk::signer::Signer;
use vstd::prelude::*;

verus! {

/// A signature over a message.
#[derive(Clone, Copy, Debug, PartialEq, Eq)]
pub struct Signature {
    pub bytes: [u8; 64],
}

impl View for Signature {
    type V = Seq<u8>;

    open spec fn view(&self) -> Seq<u8> {
        self.bytes@
    }
}

/// Whether sixty-four bytes are a key pair: a secret key followed by the
/// public key that belongs to it.
pub uninterp spec fn is_keypair(bytes: Seq<u8>) -> bool;

/// The signature that a key pair gives to a message.
pub uninterp spec fn signature_of(keypair: Seq<u8>, message: Seq<u8>) -> Seq<u8>;

/// `Keypair::from_bytes`, for whether it accepts the bytes.
#[verifier::external_body]
fn accepts_keypair(bytes: &[u8; 64]) -> (accepted: bool)
    ensures
        accepted == is_keypair(bytes@),
{
    Keypair::from_bytes(bytes).is_ok()
}

/// `Keypair::new`: a key pair from the system's random source, as the bytes
/// that `Keypair::from_bytes` takes back. Nothing is known of which.
#[verifier::external_body]
fn fresh_keypair() -> (bytes: [u8; 64])
    ensures
        is_keypair(bytes@),
{
    Keypair::new().to_bytes()
}

/// `Signer::pubkey` on a `Keypair`: the public half, which is the second
/// thirty-two bytes of the pair.
#[verifier::external_body]
fn keypair_address(bytes: &[u8; 64]) -> (address: Address)
    requires
        is_keypair(bytes@),
    ensures
        address@ == bytes@.subrange(32, 64),
{
    Address { bytes: Keypair::from_bytes(bytes).unwrap().pubkey().to_bytes() }
}

/// `Signer::sign_message` on a `Keypair`. An Ed25519 signature is fixed by
/// the key pair and the message.
#[verifier::external_body]
fn keypair_sign(bytes: &[u8; 64], message: &Vec<u8>) -> (signature: Signature)
    requires
        is_keypair(bytes@),
    ensures
        signature@ == signature_of(bytes@, message@),
{
    Signature { bytes: Keypair::from_bytes(bytes).unwrap().sign_message(message).into() }
}

/// A key that can sign: always a key pair.
pub struct SigningKey {
    bytes: [u8; 64],
}

impl View for SigningKey {
    type V = Seq<u8>;

    closed spec fn view(&self) -> Seq<u8> {
        self.bytes@
    }
}

impl SigningKey {
    #[verifier::type_invariant]
    spec fn is_pair(self) -> bool {
        is_keypair(self.bytes@)
    }

    /// The address that the key signs for.
    pub open spec fn address_of(&self) -> Seq<u8> {
        self@.subrange(32, 64)
    }

    /// Takes sixty-four bytes as a key, if they are a key pair.
    pub fn from_bytes(bytes: [u8; 64]) -> (key: Option<SigningKey>)
        ensures
            key is Some <==> is_keypair(bytes@),
            key matches Some(k) ==> k@ == bytes@,
    {
        if accepts_keypair(&bytes) {
            Some(SigningKey { bytes })
        } else {
            None
        }
    }

    /// A new key from the system's random source.
    pub fn generate() -> (key: SigningKey)
        ensures
            is_keypair(key@),
    {
        SigningKey { bytes: fresh_keypair() }
    }

    /// The bytes of the key pair.
    pub fn to_bytes(&self) -> (bytes: [u8; 64])
        ensures
            bytes@ == self@,
            is_keypair(bytes@),
    {
        proof {
            use_type_invariant(self);
        }
        self.bytes
    }

    /// The address that the key signs for.
    pub fn address(&self) -> (address: Address)
        ensures
            address@ == self.address_of(),
    {
        proof {
            use_type_invariant(self);
        }
        keypair_address(&self.bytes)
    }

    /// Signs a message.
    pub fn sign(&self, message: &Vec<u8>) -> (signature: Signature)
        ensures
            signature@ == signature_of(self@, message@),
    {
        proof {
            use_type_invariant(self);
        }
        keypair_sign(&self.bytes, message)
    }
}

} // verus!
