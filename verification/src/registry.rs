//! The nonce registry: which nonce account belongs to which identity. It is
//! a thin layer over the store, one entry per identity, and a cache only:
//! the ledger, not the registry, decides whether the account exists.

use crate::address::{address_bytes, address_text, Address};
use crate::json::json_object;
use crate::store::{document, get_item, held, lookup, set_item, text_of};
use vstd::prelude::*;

verus! {

/// The prefix that turns an identity into its key in the store.
pub open spec fn key_prefix() -> Seq<char> {
    "durableNonce_"@
}

/// The store key of an identity.
pub open spec fn key_of(identity: Seq<char>) -> Seq<char> {
    key_prefix() + identity
}

/// The nonce account that a backing file with the given contents records
/// for an identity.
pub open spec fn recorded(document: Option<Seq<char>>, identity: Seq<char>) -> Option<Seq<char>> {
    lookup(held(document), key_of(identity))
}

/// A document is one that `set_durable_nonce` may hand back for the given
/// earlier contents, identity and address.
pub open spec fn records_after(
    written: Seq<char>,
    before: Option<Seq<char>>,
    identity: Seq<char>,
    address: Seq<char>,
) -> bool {
    json_object(written) == Some(held(before).insert(key_of(identity), address))
}

/// Builds the store key under which an identity's nonce account is kept.
pub fn registry_key(user_key: &str) -> (key: String)
    ensures
        key@ == key_of(user_key@),
{
    String::from_str("durableNonce_").concat(user_key)
}

/// The address of the nonce account recorded for `user_key`, or `None` where
/// none was ever recorded or the backing file cannot be read or parsed.
pub fn get_durable_nonce(contents: Option<&str>, user_key: &str) -> (address: Option<String>)
    ensures
        text_of(address) == recorded(document(contents), user_key@),
{
    let key = registry_key(user_key);
    get_item(contents, key.as_str())
}

/// The new text of the backing file once `durable_nonce_key` is recorded for
/// `user_key`. The address is not checked against the ledger. Until the
/// caller has written the text, lookups see the earlier contents.
pub fn set_durable_nonce(
    contents: Option<&str>,
    user_key: &str,
    durable_nonce_key: &str,
) -> (text: String)
    ensures
        records_after(text@, document(contents), user_key@, durable_nonce_key@),
{
    let key = registry_key(user_key);
    set_item(contents, key.as_str(), durable_nonce_key)
}

/// The nonce account that the backing file records for the identity at an
/// address. An entry that is not the text of an address names no account.
pub open spec fn registered(document: Option<Seq<char>>, identity: Seq<u8>) -> Option<Seq<u8>> {
    match recorded(document, address_text(identity)) {
        Some(text) => address_bytes(text),
        None => None,
    }
}

/// The bytes of an optional address.
pub open spec fn bytes_of(address: Option<Address>) -> Option<Seq<u8>> {
    match address {
        Some(a) => Some(a@),
        None => None,
    }
}

/// The nonce account recorded for the identity at `identity`, as an
/// address.
pub fn nonce_account_of(contents: Option<&str>, identity: &Address) -> (account: Option<Address>)
    ensures
        bytes_of(account) == registered(document(contents), identity@),
{
    let user_key = identity.to_text();
    match get_durable_nonce(contents, user_key.as_str()) {
        Some(text) => Address::parse(text.as_str()),
        None => None,
    }
}

/// The new text of the backing file once the nonce account at `account` is
/// recorded for the identity at `identity`. A later lookup of the identity
/// in that text gives the account.
pub fn record_nonce_account(
    contents: Option<&str>,
    identity: &Address,
    account: &Address,
) -> (text: String)
    ensures
        records_after(
            text@,
            document(contents),
            address_text(identity@),
            address_text(account@),
        ),
        registered(Some(text@), identity@) == Some(account@),
{
    let user_key = identity.to_text();
    let nonce_key = account.to_text();
    set_durable_nonce(contents, user_key.as_str(), nonce_key.as_str())
}

/// Two identities have the same store key only if they are the same.
pub proof fn lemma_key_of_injective(a: Seq<char>, b: Seq<char>)
    requires
        key_of(a) == key_of(b),
    ensures
        a == b,
{
    let p = key_prefix();
    assert(a =~= (p + a).subrange(p.len() as int, (p + a).len() as int));
    assert(b =~= (p + b).subrange(p.len() as int, (p + b).len() as int));
}

/// Once an address has been recorded for an identity and the document
/// written, a lookup of that identity gives that address.
pub proof fn law_recorded_is_found(
    written: Seq<char>,
    before: Option<Seq<char>>,
    identity: Seq<char>,
    address: Seq<char>,
)
    requires
        records_after(written, before, identity, address),
    ensures
        recorded(Some(written), identity) == Some(address),
{
}

/// Recording an address for one identity leaves what is recorded for every
/// other identity as it was.
pub proof fn law_recording_keeps_others(
    written: Seq<char>,
    before: Option<Seq<char>>,
    identity: Seq<char>,
    address: Seq<char>,
    other: Seq<char>,
)
    requires
        records_after(written, before, identity, address),
        other != identity,
    ensures
        recorded(Some(written), other) == recorded(before, other),
{
    if key_of(other) == key_of(identity) {
        lemma_key_of_injective(other, identity);
    }
}

/// Where there is no backing file, nothing is recorded for any identity.
pub proof fn law_nothing_recorded_at_first(identity: Seq<char>)
    ensures
        recorded(None, identity) is None,
{
}

/// A backing file whose contents are not a JSON object of strings records
/// nothing: a lookup gives `None` and no failure.
pub proof fn law_unparsable_records_nothing(text: Seq<char>, identity: Seq<char>)
    requires
        json_object(text) is None,
    ensures
        recorded(Some(text), identity) is None,
{
}

} // verus!
