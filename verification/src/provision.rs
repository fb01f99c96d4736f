//! The nonce account provisioner. An identity gets its nonce account once:
//! a new account is created on the ledger, funded at the minimum balance
//! that exempts it from rent, initialised with the identity as its
//! authority, and recorded in the registry. An identity that the registry
//! already knows is not provisioned again.

use crate::address::{address_bytes, address_text, Address, Blockhash};
use crate::error::{ProvisionError, ProvisionErrorView};
use crate::instruction::{
    create_nonce_account, create_nonce_instructions, price_instructions, with_compute_unit_price,
    InstructionView,
};
use crate::message::{compilable, references};
use crate::registry::{nonce_account_of, record_nonce_account, records_after, registered};
use crate::signing::{is_keypair, Signature, SigningKey};
use crate::store::document;
use crate::transaction::{
    asks_signature, lemma_references_add, sign_transaction, signed, signers_among, Transaction,
    TransactionView,
};
use vstd::bytes::lemma_auto_spec_u64_to_from_le_bytes;
use vstd::prelude::*;

verus! {

/// The balance, in lamports, that exempts a nonce account from rent.
pub const MINIMUM_RENT_LAMPORTS: u64 = 1_447_680;

/// The price of a compute unit, in micro-lamports, that the provisioning
/// transaction offers.
pub const COMPUTE_UNIT_PRICE: u64 = 500_000;

/// The instructions that provision a nonce account for an identity: the
/// identity funds the account and becomes its authority.
pub open spec fn provisioning_instructions(
    identity: Seq<u8>,
    nonce_account: Seq<u8>,
) -> Seq<InstructionView> {
    create_nonce_account(identity, nonce_account, identity, MINIMUM_RENT_LAMPORTS)
        + price_instructions(Some(COMPUTE_UNIT_PRICE))
}

/// The key that signs beside the identity's: the new account's, unless the
/// two are one.
pub open spec fn cosigner(identity_key: Seq<u8>, nonce_key: Seq<u8>) -> Option<Seq<u8>> {
    if nonce_key.subrange(32, 64) == identity_key.subrange(32, 64) {
        None
    } else {
        Some(nonce_key)
    }
}

/// The transaction that provisions the nonce account of `nonce_key` for the
/// identity of `identity_key`, dated by a recent blockhash: the identity
/// pays, and both sign.
pub open spec fn provisioning_transaction(
    identity_key: Seq<u8>,
    nonce_key: Seq<u8>,
    blockhash: Seq<u8>,
) -> TransactionView {
    signed(
        identity_key,
        cosigner(identity_key, nonce_key),
        provisioning_instructions(identity_key.subrange(32, 64), nonce_key.subrange(32, 64)),
        blockhash,
    )
}

/// The provisioning instructions fit the message format and want the
/// signatures of the identity and of the new account, and no other.
proof fn lemma_provisioning_is_signable(identity: Seq<u8>, nonce_account: Seq<u8>)
    requires
        identity.len() == 32,
    ensures
        compilable(provisioning_instructions(identity, nonce_account)),
        signers_among(
            provisioning_instructions(identity, nonce_account),
            identity,
            Some(nonce_account),
        ),
        nonce_account == identity ==> signers_among(
            provisioning_instructions(identity, nonce_account),
            identity,
            None,
        ),
        asks_signature(provisioning_instructions(identity, nonce_account), nonce_account),
{
    let made = create_nonce_account(identity, nonce_account, identity, MINIMUM_RENT_LAMPORTS);
    let price = price_instructions(Some(COMPUTE_UNIT_PRICE));
    let all = provisioning_instructions(identity, nonce_account);
    lemma_auto_spec_u64_to_from_le_bytes();
    assert(references(made) == 7) by {
        assert(made.drop_last() =~= seq![made[0]]);
        assert(made.drop_last().drop_last() =~= Seq::<InstructionView>::empty());
        assert(references(made.drop_last().drop_last()) == 0);
        assert(references(made.drop_last()) == 3);
    }
    assert(references(price) == 1) by {
        assert(price.drop_last() =~= Seq::<InstructionView>::empty());
        assert(references(price.drop_last()) == 0);
    }
    lemma_references_add(made, price);
    assert(all[0] == made[0]);
    assert(all[1] == made[1]);
    assert(all[2] == price[0]);
    assert(all.len() == 3);
    assert(all[0].data.len() == 52);
    assert(all[1].data.len() == 36);
    assert(all[2].data.len() == 9);
    assert(all[0].accounts[1].is_signer && all[0].accounts[1].address == nonce_account);
}

/// Builds and signs the transaction that creates and initialises the nonce
/// account of `nonce` for the identity of `payer`, and gives the new
/// account's address beside it.
pub fn create_nonce_transaction(
    payer: &SigningKey,
    nonce: &SigningKey,
    latest_blockhash: Blockhash,
) -> (created: (Transaction, Address))
    ensures
        created.0@ == provisioning_transaction(payer@, nonce@, latest_blockhash@),
        created.1@ == nonce.address_of(),
{
    let identity = payer.address();
    let nonce_account = nonce.address();
    let made = create_nonce_instructions(
        &identity,
        &nonce_account,
        &identity,
        MINIMUM_RENT_LAMPORTS,
    );
    let all = with_compute_unit_price(made, Some(COMPUTE_UNIT_PRICE));
    proof {
        lemma_provisioning_is_signable(identity@, nonce_account@);
    }
    let transaction = if nonce_account.same_as(&identity) {
        sign_transaction(payer, None, all, latest_blockhash)
    } else {
        sign_transaction(payer, Some(nonce), all, latest_blockhash)
    };
    (transaction, nonce_account)
}

/// Makes a key for a new nonce account, then builds and signs the
/// transaction that provisions the account for the identity of
/// `user_keypair`, dated by the recent blockhash that the caller fetched.
/// The new key is dropped here: from now on only the identity, as the
/// account's authority, can act on it.
pub fn create_nonce_transaction_sync(
    user_keypair: &SigningKey,
    latest_blockhash: Blockhash,
) -> (created: (Transaction, Address))
    ensures
        exists|nonce_key: Seq<u8>|
            {
                &&& is_keypair(nonce_key)
                &&& nonce_key.subrange(32, 64) == created.1@
                &&& created.0@ == #[trigger] provisioning_transaction(
                    user_keypair@,
                    nonce_key,
                    latest_blockhash@,
                )
            },
        created.0@.fee_payer == user_keypair.address_of(),
        created.0@.recent_blockhash == latest_blockhash@,
        created.0@.instructions == provisioning_instructions(
            user_keypair.address_of(),
            created.1@,
        ),
{
    let nonce_keypair = SigningKey::generate();
    let ghost nonce_key = nonce_keypair@;
    let created = create_nonce_transaction(user_keypair, &nonce_keypair, latest_blockhash);
    proof {
        assert(is_keypair(nonce_key));
        assert(created.0@ == provisioning_transaction(
            user_keypair@,
            nonce_key,
            latest_blockhash@,
        ));
    }
    created
}

/// Where provisioning stands once the registry has been consulted.
pub enum Provision {
    /// The identity has its nonce account already. Nothing is left to do,
    /// and nothing has been asked of the ledger.
    Registered(Address),
    /// The identity has none. The caller fetches a recent blockhash next.
    Needed(Fetching),
}

/// A provisioning that waits for a recent blockhash.
pub struct Fetching {
    identity: SigningKey,
}

/// A provisioning whose transaction is built and signed. The caller submits
/// it next, waits for its confirmation, and reads the registry's file.
pub struct Creating {
    pub identity: Address,
    pub nonce_account: Address,
    pub transaction: Transaction,
}

/// A nonce account that exists on the ledger. The caller writes `document`
/// to the registry's file; for as long as it is not written, the account is
/// not on record.
pub struct Provisioned {
    pub nonce_account: Address,
    pub document: String,
}

/// Sees to it that an identity has a nonce account. Takes the contents of
/// the registry's file, `None` where it could not be read; an identity on
/// record is done at once.
pub fn ensure_nonce_account(identity: SigningKey, contents: Option<&str>) -> (step: Provision)
    ensures
        match registered(document(contents), identity.address_of()) {
            Some(account) => step matches Provision::Registered(found) && found@ == account,
            None => step matches Provision::Needed(fetching) && fetching.key() == identity@,
        },
{
    let address = identity.address();
    match nonce_account_of(contents, &address) {
        Some(found) => Provision::Registered(found),
        None => Provision::Needed(Fetching { identity }),
    }
}

impl Fetching {
    /// The identity's key.
    pub closed spec fn key(&self) -> Seq<u8> {
        self.identity@
    }

    /// Takes the recent blockhash that the caller fetched, or the cause for
    /// which there is none. With a blockhash, a key for the new account is
    /// made and the provisioning transaction built and signed.
    pub fn on_blockhash(self, fetched: Result<Blockhash, String>) -> (next: Result<
        Creating,
        ProvisionError,
    >)
        ensures
            match fetched {
                Ok(blockhash) => {
                    &&& next matches Ok(creating)
                    &&& creating.identity@ == self.key().subrange(32, 64)
                    &&& creating.transaction@.recent_blockhash == blockhash@
                    &&& creating.transaction@.fee_payer == creating.identity@
                    &&& creating.transaction@.instructions == provisioning_instructions(
                        creating.identity@,
                        creating.nonce_account@,
                    )
                    &&& exists|nonce_key: Seq<u8>|
                        {
                            &&& is_keypair(nonce_key)
                            &&& nonce_key.subrange(32, 64) == creating.nonce_account@
                            &&& creating.transaction@ == #[trigger] provisioning_transaction(
                                self.key(),
                                nonce_key,
                                blockhash@,
                            )
                        }
                },
                Err(cause) => next matches Err(error) && error@
                    == ProvisionErrorView::SubmissionFailed(cause@),
            },
    {
        match fetched {
            Ok(blockhash) => {
                let identity = self.identity.address();
                let (transaction, nonce_account) = create_nonce_transaction_sync(
                    &self.identity,
                    blockhash,
                );
                Ok(Creating { identity, nonce_account, transaction })
            },
            Err(cause) => Err(ProvisionError::SubmissionFailed(cause)),
        }
    }
}

impl Creating {
    /// Takes the outcome of the submission, and the contents of the
    /// registry's file as they are now. After a failure nothing is recorded,
    /// and the new account and its key are given up. After a success the
    /// account is recorded for the identity in the document to write.
    pub fn on_submitted(
        self,
        outcome: Result<Signature, String>,
        contents: Option<&str>,
    ) -> (next: Result<Provisioned, ProvisionError>)
        ensures
            match outcome {
                Ok(_) => {
                    &&& next matches Ok(done)
                    &&& done.nonce_account@ == self.nonce_account@
                    &&& records_after(
                        done.document@,
                        document(contents),
                        address_text(self.identity@),
                        address_text(self.nonce_account@),
                    )
                    &&& registered(Some(done.document@), self.identity@) == Some(
                        self.nonce_account@,
                    )
                },
                Err(cause) => next matches Err(error) && error@
                    == ProvisionErrorView::SubmissionFailed(cause@),
            },
    {
        match outcome {
            Ok(_) => {
                let document = record_nonce_account(contents, &self.identity, &self.nonce_account);
                Ok(Provisioned { nonce_account: self.nonce_account, document })
            },
            Err(cause) => Err(ProvisionError::SubmissionFailed(cause)),
        }
    }
}

/// Provisioning is idempotent. Where a first run has recorded an account for
/// the identity and its document has been written, the registry names that
/// account for the identity; so a second run, which begins with
/// `ensure_nonce_account` on that document, ends there with the same
/// address and asks nothing of the ledger.
pub proof fn law_provisioned_once(
    written: Seq<char>,
    before: Option<Seq<char>>,
    identity: Seq<u8>,
    account: Seq<u8>,
)
    requires
        records_after(written, before, address_text(identity), address_text(account)),
        address_bytes(address_text(account)) == Some(account),
    ensures
        registered(Some(written), identity) == Some(account),
{
}


} // verus!
