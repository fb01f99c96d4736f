//! Transactions: a fee payer, instructions in order, the blockhash (or nonce
//! value) that dates them, the message compiled from these, and the
//! signatures over that message.

use crate::address::{Address, Blockhash};
use crate::instruction::{Instruction, InstructionView, views};
use crate::message::{compilable, compile_message, compiled_message, references};
use crate::signing::{signature_of, Signature, SigningKey};
use vstd::prelude::*;

verus! {

/// A signed transaction, ready to be submitted.
#[derive(Clone, Debug, PartialEq, Eq)]
pub struct Transaction {
    /// Who pays the fee; always the first signer.
    pub fee_payer: Address,
    /// The instructions, in the order in which they run.
    pub instructions: Vec<Instruction>,
    /// The recent blockhash, or the nonce value that stands in for it.
    pub recent_blockhash: Blockhash,
    /// The compiled message: what the signatures are over.
    pub message: Vec<u8>,
    /// One signature for each signer, the fee payer's first.
    pub signatures: Vec<Signature>,
}

/// A `Transaction` as a mathematical value.
pub ghost struct TransactionView {
    pub fee_payer: Seq<u8>,
    pub instructions: Seq<InstructionView>,
    pub recent_blockhash: Seq<u8>,
    pub message: Seq<u8>,
    pub signatures: Seq<Seq<u8>>,
}

impl View for Transaction {
    type V = TransactionView;

    open spec fn view(&self) -> TransactionView {
        TransactionView {
            fee_payer: self.fee_payer@,
            instructions: views(self.instructions@),
            recent_blockhash: self.recent_blockhash@,
            message: self.message@,
            signatures: self.signatures@.map_values(|signature: Signature| signature@),
        }
    }
}

/// Whether some instruction wants the signature of `address`.
pub open spec fn asks_signature(instructions: Seq<InstructionView>, address: Seq<u8>) -> bool {
    exists|i: int, j: int|
        0 <= i < instructions.len() && 0 <= j < instructions[i].accounts.len() && (
        #[trigger] instructions[i].accounts[j]).is_signer && instructions[i].accounts[j].address
            == address
}

/// Whether every signature that the instructions want is the fee payer's or
/// the cosigner's.
pub open spec fn signers_among(
    instructions: Seq<InstructionView>,
    payer: Seq<u8>,
    cosigner: Option<Seq<u8>>,
) -> bool {
    forall|i: int, j: int|
        0 <= i < instructions.len() && 0 <= j < instructions[i].accounts.len() && (
        #[trigger] instructions[i].accounts[j]).is_signer ==> {
            ||| instructions[i].accounts[j].address == payer
            ||| cosigner == Some(instructions[i].accounts[j].address)
        }
}

/// The bytes of an optional key.
pub open spec fn key_bytes(key: Option<&SigningKey>) -> Option<Seq<u8>> {
    match key {
        Some(k) => Some(k@),
        None => None,
    }
}

/// The address that an optional key signs for.
pub open spec fn signer_address(key: Option<&SigningKey>) -> Option<Seq<u8>> {
    match key {
        Some(k) => Some(k.address_of()),
        None => None,
    }
}

/// The transaction that the fee payer, and a cosigner where there is one,
/// sign over the instructions and the blockhash.
pub open spec fn signed(
    payer: Seq<u8>,
    cosigner: Option<Seq<u8>>,
    instructions: Seq<InstructionView>,
    blockhash: Seq<u8>,
) -> TransactionView {
    let fee_payer = payer.subrange(32, 64);
    let message = compiled_message(fee_payer, instructions, blockhash);
    TransactionView {
        fee_payer,
        instructions,
        recent_blockhash: blockhash,
        message,
        signatures: match cosigner {
            Some(other) => seq![signature_of(payer, message), signature_of(other, message)],
            None => seq![signature_of(payer, message)],
        },
    }
}

/// Adding one instruction adds its program and its accounts to the count.
pub proof fn lemma_references_push(instructions: Seq<InstructionView>, last: InstructionView)
    ensures
        references(instructions.push(last)) == references(instructions) + 1 + last.accounts.len(),
{
    assert(instructions.push(last).drop_last() =~= instructions);
}

/// Counts the places that the instructions take in a message's list of
/// accounts, or finds that they do not fit the ledger's message format.
pub fn reference_count(instructions: &Vec<Instruction>) -> (counted: Option<usize>)
    ensures
        match counted {
            Some(count) => compilable(views(instructions@)) && count == references(
                views(instructions@),
            ),
            None => !compilable(views(instructions@)),
        },
{
    let ghost all = views(instructions@);
    let mut count: usize = 0;
    let mut i: usize = 0;
    while i < instructions.len()
        invariant
            i <= instructions.len(),
            all == views(instructions@),
            count == references(all.take(i as int)),
            count <= 255,
            forall|k: int| 0 <= k < i ==> (#[trigger] all[k]).data.len() <= 65535,
        decreases instructions.len() - i,
    {
        let accounts = instructions[i].accounts.len();
        let data = instructions[i].data.len();
        proof {
            assert(all.take(i as int + 1) =~= all.take(i as int).push(all[i as int]));
            lemma_references_push(all.take(i as int), all[i as int]);
            assert(all[i as int].accounts.len() == accounts);
            assert(all[i as int].data.len() == data);
        }
        if accounts > 254 || count + 1 + accounts > 255 {
            proof {
                lemma_references_grow(all, i as int + 1);
            }
            return None;
        }
        if data > 65535 {
            return None;
        }
        count = count + 1 + accounts;
        i += 1;
    }
    proof {
        assert(all.take(i as int) =~= all);
    }
    Some(count)
}

/// Whether the instructions fit the ledger's message format.
pub fn can_compile(instructions: &Vec<Instruction>) -> (fits: bool)
    ensures
        fits == compilable(views(instructions@)),
{
    reference_count(instructions).is_some()
}

/// The count over two lists, one after the other, is the sum of the counts.
pub proof fn lemma_references_add(first: Seq<InstructionView>, second: Seq<InstructionView>)
    ensures
        references(first + second) == references(first) + references(second),
    decreases second.len(),
{
    if second.len() == 0 {
        assert(first + second =~= first);
    } else {
        assert((first + second).drop_last() =~= first + second.drop_last());
        assert((first + second).last() == second.last());
        lemma_references_add(first, second.drop_last());
    }
}

/// The count over the first instructions is no more than the count over all.
pub proof fn lemma_references_grow(instructions: Seq<InstructionView>, n: int)
    requires
        0 <= n <= instructions.len(),
    ensures
        references(instructions.take(n)) <= references(instructions),
    decreases instructions.len() - n,
{
    if n < instructions.len() {
        assert(instructions.take(n + 1) =~= instructions.take(n).push(instructions[n]));
        lemma_references_push(instructions.take(n), instructions[n]);
        lemma_references_grow(instructions, n + 1);
    } else {
        assert(instructions.take(n) =~= instructions);
    }
}

/// Whether the instructions want no signature but that of `signer`.
pub fn signs_alone(instructions: &Vec<Instruction>, signer: &Address) -> (alone: bool)
    ensures
        alone == signers_among(views(instructions@), signer@, None),
{
    let ghost all = views(instructions@);
    let mut i: usize = 0;
    while i < instructions.len()
        invariant
            i <= instructions.len(),
            all == views(instructions@),
            signers_among(all.take(i as int), signer@, None),
        decreases instructions.len() - i,
    {
        let mut j: usize = 0;
        while j < instructions[i].accounts.len()
            invariant
                i < instructions.len(),
                j <= instructions[i as int].accounts.len(),
                all == views(instructions@),
                forall|k: int|
                    0 <= k < j && (#[trigger] all[i as int].accounts[k]).is_signer
                        ==> all[i as int].accounts[k].address == signer@,
            decreases instructions[i as int].accounts.len() - j,
        {
            let meta = &instructions[i].accounts[j];
            proof {
                assert(all[i as int].accounts[j as int] == meta@);
            }
            if meta.is_signer && !meta.address.same_as(signer) {
                return false;
            }
            j += 1;
        }
        proof {
            let before = all.take(i as int);
            let after = all.take(i as int + 1);
            assert forall|a: int, b: int|
                0 <= a < after.len() && 0 <= b < after[a].accounts.len() && (
                #[trigger] after[a].accounts[b]).is_signer implies after[a].accounts[b].address
                == signer@ by {
                if a < i {
                    assert(after[a] == before[a]);
                    assert(before[a].accounts[b].is_signer);
                } else {
                    assert(after[a] == all[i as int]);
                }
            }
        }
        i += 1;
    }
    proof {
        assert(all.take(i as int) =~= all);
    }
    true
}

/// Compiles the message and signs it: the fee payer first, then the cosigner
/// where there is one. The instructions must fit the message format, and
/// must want each of these signatures and no other.
pub fn sign_transaction(
    payer: &SigningKey,
    cosigner: Option<&SigningKey>,
    instructions: Vec<Instruction>,
    recent_blockhash: Blockhash,
) -> (transaction: Transaction)
    requires
        compilable(views(instructions@)),
        signers_among(views(instructions@), payer.address_of(), signer_address(cosigner)),
        cosigner matches Some(other) ==> {
            &&& other.address_of() != payer.address_of()
            &&& asks_signature(views(instructions@), other.address_of())
        },
    ensures
        transaction@ == signed(
            payer@,
            key_bytes(cosigner),
            views(instructions@),
            recent_blockhash@,
        ),
{
    let fee_payer = payer.address();
    let message = compile_message(&fee_payer, &instructions, &recent_blockhash);
    let mut signatures: Vec<Signature> = Vec::new();
    signatures.push(payer.sign(&message));
    match cosigner {
        Some(other) => {
            signatures.push(other.sign(&message));
        },
        None => {},
    }
    let transaction = Transaction {
        fee_payer,
        instructions,
        recent_blockhash,
        message,
        signatures,
    };
    proof {
        assert(transaction@.signatures =~= signed(
            payer@,
            key_bytes(cosigner),
            views(instructions@),
            recent_blockhash@,
        ).signatures);
    }
    transaction
}

} // verus!
