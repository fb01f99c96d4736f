//! The durable transaction builder. A transaction that it builds is dated
//! by the current value of the identity's nonce account instead of a recent
//! blockhash, and its first instruction advances that nonce.
//!
//! Building alternates with work that only the caller can do: reading the
//! registry's file, asking the ledger, submitting. Each step here takes what
//! the caller's last piece of work gave and hands back what to do next.

use crate::address::{Address, Blockhash};
use crate::error::{TxError, TxErrorView};
use crate::instruction::{
    advance_nonce, advance_nonce_instruction, price_instructions, views, with_compute_unit_price,
    Instruction, InstructionView,
};
use crate::message::{compilable, references};
use crate::query::{get_nonce_account_sync, queried, Account, NonceData};
use crate::registry::{nonce_account_of, registered};
use crate::signing::{Signature, SigningKey};
use crate::store::document;
use crate::transaction::{
    lemma_references_add, reference_count, sign_transaction, signed, signers_among, signs_alone,
    Transaction, TransactionView,
};
use vstd::bytes::lemma_auto_spec_u64_to_from_le_bytes;
use vstd::prelude::*;

verus! {

/// The instructions of a durable-nonce transaction: first the one that
/// advances the nonce, then the caller's, then the price of a compute unit
/// where one is set.
pub open spec fn durable_instructions(
    nonce_account: Seq<u8>,
    authority: Seq<u8>,
    instructions: Seq<InstructionView>,
    price: Option<u64>,
) -> Seq<InstructionView> {
    seq![advance_nonce(nonce_account, authority)] + instructions + price_instructions(price)
}

/// How many instructions a price adds.
pub open spec fn price_count(price: Option<u64>) -> nat {
    if price is Some {
        1
    } else {
        0
    }
}

/// Whether a durable-nonce transaction can be made of the caller's
/// instructions: with the instruction that advances the nonce and the price
/// they fit the message format, and they want no signature but the
/// identity's.
pub open spec fn buildable(
    instructions: Seq<InstructionView>,
    identity: Seq<u8>,
    price: Option<u64>,
) -> bool {
    &&& references(instructions) + 4 + price_count(price) <= 255
    &&& forall|i: int|
        0 <= i < instructions.len() ==> (#[trigger] instructions[i]).data.len() <= 65535
    &&& signers_among(instructions, identity, None)
}

/// The durable-nonce transaction of an identity: the identity pays the fee,
/// is the nonce's authority and signs alone, and the nonce's value stands
/// where the recent blockhash would.
pub open spec fn durable_transaction(
    identity_key: Seq<u8>,
    nonce_account: Seq<u8>,
    instructions: Seq<InstructionView>,
    price: Option<u64>,
    nonce_value: Seq<u8>,
) -> TransactionView {
    signed(
        identity_key,
        None,
        durable_instructions(nonce_account, identity_key.subrange(32, 64), instructions, price),
        nonce_value,
    )
}

/// Instructions that are buildable make, with what the builder adds, a list
/// that fits the message format and wants the identity's signature only.
pub proof fn lemma_buildable_is_signable(
    nonce_account: Seq<u8>,
    identity: Seq<u8>,
    instructions: Seq<InstructionView>,
    price: Option<u64>,
)
    requires
        buildable(instructions, identity, price),
    ensures
        compilable(durable_instructions(nonce_account, identity, instructions, price)),
        signers_among(
            durable_instructions(nonce_account, identity, instructions, price),
            identity,
            None,
        ),
{
    let first = seq![advance_nonce(nonce_account, identity)];
    let last = price_instructions(price);
    let all = durable_instructions(nonce_account, identity, instructions, price);
    lemma_auto_spec_u64_to_from_le_bytes();
    assert(references(first) == 4) by {
        assert(first.drop_last() =~= Seq::<InstructionView>::empty());
        assert(references(first.drop_last()) == 0);
    }
    assert(references(last) == price_count(price)) by {
        if price is Some {
            assert(last.drop_last() =~= Seq::<InstructionView>::empty());
            assert(references(last.drop_last()) == 0);
        }
    }
    lemma_references_add(first, instructions);
    lemma_references_add(first + instructions, last);
    assert forall|i: int| 0 <= i < all.len() implies (#[trigger] all[i]).data.len() <= 65535 by {
        if i == 0 {
        } else if i <= instructions.len() {
            assert(all[i] == instructions[i - 1]);
        } else {
            assert(all[i] == last[0]);
        }
    }
    assert forall|i: int, j: int|
        0 <= i < all.len() && 0 <= j < all[i].accounts.len() && (
        #[trigger] all[i].accounts[j]).is_signer implies all[i].accounts[j].address == identity by {
        if i == 0 {
        } else if i <= instructions.len() {
            assert(all[i] == instructions[i - 1]);
            assert(instructions[i - 1].accounts[j].is_signer);
        } else {
            assert(all[i] == last[0]);
        }
    }
}

/// Whether a durable-nonce transaction can be made of the instructions for
/// the identity.
pub fn can_build(
    instructions: &Vec<Instruction>,
    identity: &Address,
    price: Option<u64>,
) -> (ok: bool)
    ensures
        ok == buildable(views(instructions@), identity@, price),
{
    let added: usize = if price.is_some() {
        5
    } else {
        4
    };
    match reference_count(instructions) {
        Some(count) => count + added <= 255 && signs_alone(instructions, identity),
        None => false,
    }
}

/// Builds and signs the durable-nonce transaction of an identity from the
/// state of its nonce account as it was last queried.
pub fn build_durable_transaction(
    identity: &SigningKey,
    nonce_account: &Address,
    nonce: &NonceData,
    instructions: Vec<Instruction>,
    price: Option<u64>,
) -> (transaction: Transaction)
    requires
        buildable(views(instructions@), identity.address_of(), price),
    ensures
        transaction@ == durable_transaction(
            identity@,
            nonce_account@,
            views(instructions@),
            price,
            nonce@.blockhash,
        ),
        transaction@.recent_blockhash == nonce@.blockhash,
        transaction@.instructions[0] == advance_nonce(nonce_account@, identity.address_of()),
        transaction@.fee_payer == identity.address_of(),
        transaction@.signatures.len() == 1,
{
    let authority = identity.address();
    let advance = advance_nonce_instruction(nonce_account, &authority);
    let mut all = instructions;
    all.insert(0, advance);
    proof {
        assert(views(all@) =~= seq![advance@] + views(instructions@));
    }
    let all = with_compute_unit_price(all, price);
    proof {
        lemma_buildable_is_signable(
            nonce_account@,
            identity.address_of(),
            views(instructions@),
            price,
        );
    }
    sign_transaction(identity, None, all, nonce.blockhash)
}

/// In any durable-nonce transaction the nonce's value stands where the
/// recent blockhash would.
pub proof fn law_nonce_value_dates_transaction(
    identity_key: Seq<u8>,
    nonce_account: Seq<u8>,
    instructions: Seq<InstructionView>,
    price: Option<u64>,
    nonce_value: Seq<u8>,
)
    ensures
        durable_transaction(
            identity_key,
            nonce_account,
            instructions,
            price,
            nonce_value,
        ).recent_blockhash == nonce_value,
{
}

/// In any durable-nonce transaction the first instruction is the one that
/// advances the nonce, however many instructions the caller gave.
pub proof fn law_advance_comes_first(
    identity_key: Seq<u8>,
    nonce_account: Seq<u8>,
    instructions: Seq<InstructionView>,
    price: Option<u64>,
    nonce_value: Seq<u8>,
)
    ensures
        durable_transaction(
            identity_key,
            nonce_account,
            instructions,
            price,
            nonce_value,
        ).instructions[0] == advance_nonce(nonce_account, identity_key.subrange(32, 64)),
        durable_transaction(
            identity_key,
            nonce_account,
            instructions,
            price,
            nonce_value,
        ).instructions.len() == 1 + instructions.len() + price_count(price),
{
}

/// A durable-nonce transaction in the making, before the registry has been
/// consulted. The caller reads the registry's file next.
pub struct Resolving {
    identity: SigningKey,
    instructions: Vec<Instruction>,
    price: Option<u64>,
}

/// A durable-nonce transaction in the making, once its nonce account is
/// known. The caller queries the ledger for that account next.
pub struct Querying {
    identity: SigningKey,
    nonce_account: Address,
    instructions: Vec<Instruction>,
    price: Option<u64>,
}

/// A durable-nonce transaction, built and signed. The caller submits it
/// next and waits for its confirmation.
pub struct Submitting {
    pub nonce_account: Address,
    pub transaction: Transaction,
}

/// A submission that failed. The caller queries the ledger for the nonce
/// account once more, to tell a nonce that has moved on from other causes.
pub struct Rechecking {
    pub nonce_account: Address,
    pub used: Blockhash,
    pub cause: String,
}

/// How a submission ended.
pub enum Submitted {
    /// The transaction went through, under this signature.
    Confirmed(Signature),
    /// It did not.
    Failed(Rechecking),
}

/// Starts a durable-nonce transaction for an identity. The instructions,
/// with what the builder adds to them, must fit the message format and want
/// no signature but the identity's: `can_build` tells.
pub fn build_and_submit(
    identity: SigningKey,
    instructions: Vec<Instruction>,
    price: Option<u64>,
) -> (start: Resolving)
    requires
        buildable(views(instructions@), identity.address_of(), price),
    ensures
        start.key() == identity@,
        start.instructions() == views(instructions@),
        start.price() == price,
{
    Resolving { identity, instructions, price }
}

impl Resolving {
    #[verifier::type_invariant]
    spec fn ready(self) -> bool {
        buildable(views(self.instructions@), self.identity.address_of(), self.price)
    }

    /// The identity's key.
    pub closed spec fn key(&self) -> Seq<u8> {
        self.identity@
    }

    /// The caller's instructions.
    pub closed spec fn instructions(&self) -> Seq<InstructionView> {
        views(self.instructions@)
    }

    /// The price of a compute unit, where one is set.
    pub closed spec fn price(&self) -> Option<u64> {
        self.price
    }

    /// The address of the identity, whose entry in the registry is wanted.
    pub fn identity(&self) -> (address: Address)
        ensures
            address@ == self.key().subrange(32, 64),
    {
        self.identity.address()
    }

    /// Takes the contents of the registry's file, `None` where it could not
    /// be read. Without a nonce account on record the transaction ends here:
    /// none is provisioned on the way.
    pub fn on_registry(self, contents: Option<&str>) -> (next: Result<Querying, TxError>)
        ensures
            match registered(document(contents), self.key().subrange(32, 64)) {
                Some(account) => {
                    &&& next matches Ok(querying)
                    &&& querying.account() == account
                    &&& querying.key() == self.key()
                    &&& querying.instructions() == self.instructions()
                    &&& querying.price() == self.price()
                },
                None => next matches Err(error) && error@ == TxErrorView::NonceAccountMissing,
            },
    {
        proof {
            use_type_invariant(&self);
        }
        let address = self.identity.address();
        match nonce_account_of(contents, &address) {
            Some(nonce_account) => Ok(
                Querying {
                    identity: self.identity,
                    nonce_account,
                    instructions: self.instructions,
                    price: self.price,
                },
            ),
            None => Err(TxError::NonceAccountMissing),
        }
    }
}

impl Querying {
    #[verifier::type_invariant]
    spec fn ready(self) -> bool {
        buildable(views(self.instructions@), self.identity.address_of(), self.price)
    }

    /// The identity's key.
    pub closed spec fn key(&self) -> Seq<u8> {
        self.identity@
    }

    /// The nonce account.
    pub closed spec fn account(&self) -> Seq<u8> {
        self.nonce_account@
    }

    /// The caller's instructions.
    pub closed spec fn instructions(&self) -> Seq<InstructionView> {
        views(self.instructions@)
    }

    /// The price of a compute unit, where one is set.
    pub closed spec fn price(&self) -> Option<u64> {
        self.price
    }

    /// The address of the nonce account to query.
    pub fn nonce_account(&self) -> (address: Address)
        ensures
            address@ == self.account(),
    {
        self.nonce_account
    }

    /// Takes the ledger's answer to the query. From the nonce's state the
    /// transaction is built and signed; a failed query ends it.
    pub fn on_nonce(self, fetched: Result<Option<Account>, String>) -> (next: Result<
        Submitting,
        TxError,
    >)
        ensures
            match queried(fetched) {
                Ok(nonce) => {
                    &&& next matches Ok(submitting)
                    &&& submitting.nonce_account@ == self.account()
                    &&& submitting.transaction@ == durable_transaction(
                        self.key(),
                        self.account(),
                        self.instructions(),
                        self.price(),
                        nonce.blockhash,
                    )
                },
                Err(failed) => next matches Err(error) && error@ == TxErrorView::Query(failed),
            },
    {
        proof {
            use_type_invariant(&self);
        }
        match get_nonce_account_sync(fetched) {
            Ok(data) => {
                let transaction = build_durable_transaction(
                    &self.identity,
                    &self.nonce_account,
                    &data,
                    self.instructions,
                    self.price,
                );
                Ok(Submitting { nonce_account: self.nonce_account, transaction })
            },
            Err(error) => Err(TxError::Query(error)),
        }
    }
}

impl Submitting {
    /// Takes the outcome of the submission: the transaction's signature, or
    /// the cause of the failure, which is kept and not looked into.
    pub fn on_submitted(self, outcome: Result<Signature, String>) -> (next: Submitted)
        ensures
            match outcome {
                Ok(signature) => next matches Submitted::Confirmed(same) && same@ == signature@,
                Err(cause) => {
                    &&& next matches Submitted::Failed(rechecking)
                    &&& rechecking.nonce_account@ == self.nonce_account@
                    &&& rechecking.used@ == self.transaction@.recent_blockhash
                    &&& rechecking.cause@ == cause@
                },
            },
    {
        match outcome {
            Ok(signature) => Submitted::Confirmed(signature),
            Err(cause) => Submitted::Failed(
                Rechecking {
                    nonce_account: self.nonce_account,
                    used: self.transaction.recent_blockhash,
                    cause,
                },
            ),
        }
    }
}

/// The error of a failed submission, given what the nonce account held when
/// it was queried again: a nonce other than the one used is a stale nonce,
/// anything else leaves the failure as it was reported.
pub open spec fn failure(
    used: Seq<u8>,
    cause: Seq<char>,
    fetched: Result<Option<Account>, String>,
) -> TxErrorView {
    match queried(fetched) {
        Ok(nonce) => if nonce.blockhash != used {
            TxErrorView::StaleNonce
        } else {
            TxErrorView::SubmissionFailed(cause)
        },
        Err(_) => TxErrorView::SubmissionFailed(cause),
    }
}

impl Rechecking {
    /// Takes the ledger's answer to the second query and names the error.
    pub fn on_rechecked(self, fetched: Result<Option<Account>, String>) -> (error: TxError)
        ensures
            error@ == failure(self.used@, self.cause@, fetched),
    {
        match get_nonce_account_sync(fetched) {
            Ok(data) => {
                if data.blockhash.same_as(&self.used) {
                    TxError::SubmissionFailed(self.cause)
                } else {
                    TxError::StaleNonce
                }
            },
            Err(_) => TxError::SubmissionFailed(self.cause),
        }
    }
}


} // verus!
