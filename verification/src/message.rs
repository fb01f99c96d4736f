//! The message of a transaction: what is signed. The ledger's own format
//! lists every account once and refers to accounts by their place in that
//! list; putting a message in that format is left to `solana_sdk`.

use crate::address::{Address, Blockhash};
use crate::instruction::{Instruction, InstructionView, views};
use solana_sdk::pubkey::Pubkey;
use vstd::prelude::*;

verus! {

/// The bytes of the message for a fee payer, a list of instructions and a
/// blockhash, in the ledger's format.
pub uninterp spec fn compiled_message(
    payer: Seq<u8>,
    instructions: Seq<InstructionView>,
    blockhash: Seq<u8>,
) -> Seq<u8>;

/// How many places the instructions take in a message's list of accounts at
/// the most: one for each program and one for each account handed to it.
pub open spec fn references(instructions: Seq<InstructionView>) -> nat
    decreases instructions.len(),
{
    if instructions.len() == 0 {
        0
    } else {
        references(instructions.drop_last()) + 1 + instructions.last().accounts.len()
    }
}

/// Whether the instructions fit the ledger's message format: the counts of
/// accounts in its header are single bytes, and the length of an
/// instruction's data is written in sixteen bits.
pub open spec fn compilable(instructions: Seq<InstructionView>) -> bool {
    &&& references(instructions) <= 255
    &&& forall|i: int|
        0 <= i < instructions.len() ==> (#[trigger] instructions[i]).data.len() <= 65535
}

/// `Message::new_with_blockhash`, and `Message::serialize` on what it gives.
/// The first panics where a count of accounts does not fit a byte, the
/// second where a length does not fit sixteen bits; `compilable` rules both
/// out.
#[verifier::external_body]
pub(crate) fn compile_message(
    payer: &Address,
    instructions: &Vec<Instruction>,
    blockhash: &Blockhash,
) -> (bytes: Vec<u8>)
    requires
        compilable(views(instructions@)),
    ensures
        bytes@ == compiled_message(payer@, views(instructions@), blockhash@),
{
    let given: Vec<solana_sdk::instruction::Instruction> = instructions.iter().map(|one|
        solana_sdk::instruction::Instruction {
            program_id: Pubkey::new_from_array(one.program_id.bytes),
            accounts: one.accounts.iter().map(|meta| solana_sdk::instruction::AccountMeta {
                pubkey: Pubkey::new_from_array(meta.address.bytes),
                is_signer: meta.is_signer,
                is_writable: meta.is_writable,
            }).collect(),
            data: one.data.clone(),
        }).collect();
    let payer = Pubkey::new_from_array(payer.bytes);
    let blockhash = solana_sdk::hash::Hash::new_from_array(blockhash.bytes);
    solana_sdk::message::Message::new_with_blockhash(&given, Some(&payer), &blockhash).serialize()
}

} // verus!
