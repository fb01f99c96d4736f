//! Addresses and hashes of the ledger: thirty-two bytes each, written in
//! base58 where text is wanted.

use std::str::FromStr;
use vstd::prelude::*;

verus! {

/// The address of an account: an identity, a nonce account, a program.
#[derive(Clone, Copy, Debug, PartialEq, Eq)]
pub struct Address {
    pub bytes: [u8; 32],
}

impl View for Address {
    type V = Seq<u8>;

    open spec fn view(&self) -> Seq<u8> {
        self.bytes@
    }
}

/// A blockhash, or the value of a durable nonce that stands in for one.
#[derive(Clone, Copy, Debug, PartialEq, Eq)]
pub struct Blockhash {
    pub bytes: [u8; 32],
}

impl View for Blockhash {
    type V = Seq<u8>;

    open spec fn view(&self) -> Seq<u8> {
        self.bytes@
    }
}

/// Whether two arrays of thirty-two bytes hold the same bytes.
pub fn same_bytes(a: &[u8; 32], b: &[u8; 32]) -> (same: bool)
    ensures
        same == (a@ == b@),
{
    let mut i: usize = 0;
    while i < 32
        invariant
            i <= 32,
            forall|j: int| 0 <= j < i ==> a@[j] == b@[j],
        decreases 32 - i,
    {
        if a[i] != b[i] {
            return false;
        }
        i += 1;
    }
    assert(a@ =~= b@);
    true
}

impl Address {
    /// Whether this is the same address as `other`.
    pub fn same_as(&self, other: &Address) -> (same: bool)
        ensures
            same == (self@ == other@),
    {
        same_bytes(&self.bytes, &other.bytes)
    }
}

impl Blockhash {
    /// Whether this is the same hash as `other`.
    pub fn same_as(&self, other: &Blockhash) -> (same: bool)
        ensures
            same == (self@ == other@),
    {
        same_bytes(&self.bytes, &other.bytes)
    }
}

/// The bytes that a base58 text stands for as an address, or `None` where
/// the text is no address.
pub uninterp spec fn address_bytes(text: Seq<char>) -> Option<Seq<u8>>;

/// The base58 text of an address.
pub uninterp spec fn address_text(bytes: Seq<u8>) -> Seq<char>;

/// `Pubkey::from_str`: decodes base58 and accepts exactly thirty-two bytes.
#[verifier::external_body]
pub(crate) fn decode_address(text: &str) -> (decoded: Option<Address>)
    ensures
        decoded is Some <==> address_bytes(text@) is Some,
        decoded matches Some(address) ==> address_bytes(text@) == Some(address@),
{
    match solana_sdk::pubkey::Pubkey::from_str(text) {
        Ok(key) => Some(Address { bytes: key.to_bytes() }),
        Err(_) => None,
    }
}

/// `Pubkey::to_string`: the base58 text of the thirty-two bytes, which
/// `Pubkey::from_str` reads back as the same bytes.
#[verifier::external_body]
pub(crate) fn encode_address(address: &Address) -> (text: String)
    ensures
        text@ == address_text(address@),
        address_bytes(text@) == Some(address@),
{
    solana_sdk::pubkey::Pubkey::new_from_array(address.bytes).to_string()
}

impl Address {
    /// Reads an address from its base58 text.
    pub fn parse(text: &str) -> (parsed: Option<Address>)
        ensures
            parsed is Some <==> address_bytes(text@) is Some,
            parsed matches Some(address) ==> address_bytes(text@) == Some(address@),
    {
        decode_address(text)
    }

    /// Writes the address as base58 text.
    pub fn to_text(&self) -> (text: String)
        ensures
            text@ == address_text(self@),
            address_bytes(text@) == Some(self@),
    {
        encode_address(self)
    }
}

} // verus!
