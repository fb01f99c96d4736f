//! Instructions as plain values, and the instructions of the system and
//! compute-budget programs that a durable-nonce transaction is made of.

use crate::address::Address;
use vstd::bytes::spec_u64_to_le_bytes;
use vstd::prelude::*;

verus! {

/// How an instruction uses one account.
#[derive(Clone, Copy, Debug, PartialEq, Eq)]
pub struct AccountMeta {
    pub address: Address,
    pub is_signer: bool,
    pub is_writable: bool,
}

/// An `AccountMeta` as a mathematical value.
pub ghost struct AccountMetaView {
    pub address: Seq<u8>,
    pub is_signer: bool,
    pub is_writable: bool,
}

impl View for AccountMeta {
    type V = AccountMetaView;

    open spec fn view(&self) -> AccountMetaView {
        AccountMetaView {
            address: self.address@,
            is_signer: self.is_signer,
            is_writable: self.is_writable,
        }
    }
}

/// One instruction of a transaction: the program to run, the accounts it is
/// handed, and the data it is to interpret.
#[derive(Clone, Debug, PartialEq, Eq)]
pub struct Instruction {
    pub program_id: Address,
    pub accounts: Vec<AccountMeta>,
    pub data: Vec<u8>,
}

/// An `Instruction` as a mathematical value.
pub ghost struct InstructionView {
    pub program_id: Seq<u8>,
    pub accounts: Seq<AccountMetaView>,
    pub data: Seq<u8>,
}

impl View for Instruction {
    type V = InstructionView;

    open spec fn view(&self) -> InstructionView {
        InstructionView {
            program_id: self.program_id@,
            accounts: self.accounts@.map_values(|meta: AccountMeta| meta@),
            data: self.data@,
        }
    }
}

/// The views of a list of instructions, in order.
pub open spec fn views(instructions: Seq<Instruction>) -> Seq<InstructionView> {
    instructions.map_values(|instruction: Instruction| instruction@)
}

/// The address of the system program: thirty-two zero bytes.
pub open spec fn system_program() -> Seq<u8> {
    Seq::new(32, |i: int| 0u8)
}

/// The address of the recent-blockhashes sysvar.
pub open spec fn recent_blockhashes_sysvar() -> Seq<u8> {
    seq![
        6u8, 167, 213, 23, 25, 44, 86, 142, 224, 138, 132, 95, 115, 210, 151, 136, 207, 3, 92, 49,
        69, 178, 26, 179, 68, 216, 6, 46, 169, 64, 0, 0,
    ]
}

/// The address of the rent sysvar.
pub open spec fn rent_sysvar() -> Seq<u8> {
    seq![
        6u8, 167, 213, 23, 25, 44, 92, 81, 33, 140, 201, 76, 61, 74, 241, 127, 88, 218, 238, 8,
        155, 161, 253, 68, 227, 219, 217, 138, 0, 0, 0, 0,
    ]
}

/// The address of the compute-budget program.
pub open spec fn compute_budget_program() -> Seq<u8> {
    seq![
        3u8, 6, 70, 111, 229, 33, 23, 50, 255, 236, 173, 186, 114, 195, 155, 231, 188, 140, 229,
        187, 197, 247, 18, 107, 44, 67, 155, 58, 64, 0, 0, 0,
    ]
}

/// The number of bytes that the state of a nonce account takes.
pub open spec fn nonce_account_space() -> u64 {
    80
}

/// An account that the instruction may write to.
pub open spec fn writable(address: Seq<u8>, is_signer: bool) -> AccountMetaView {
    AccountMetaView { address, is_signer, is_writable: true }
}

/// An account that the instruction only reads.
pub open spec fn readonly(address: Seq<u8>, is_signer: bool) -> AccountMetaView {
    AccountMetaView { address, is_signer, is_writable: false }
}

/// The instruction that advances a nonce account to its next value. Its
/// authority has to sign.
pub open spec fn advance_nonce(nonce: Seq<u8>, authority: Seq<u8>) -> InstructionView {
    InstructionView {
        program_id: system_program(),
        accounts: seq![
            writable(nonce, false),
            readonly(recent_blockhashes_sysvar(), false),
            readonly(authority, true),
        ],
        data: seq![4u8, 0, 0, 0],
    }
}

/// The instruction that creates an account of `space` bytes at `to`, owned
/// by the system program and funded with `lamports` by `from`.
pub open spec fn create_account(
    from: Seq<u8>,
    to: Seq<u8>,
    lamports: u64,
    space: u64,
) -> InstructionView {
    InstructionView {
        program_id: system_program(),
        accounts: seq![writable(from, true), writable(to, true)],
        data: seq![0u8, 0, 0, 0] + spec_u64_to_le_bytes(lamports) + spec_u64_to_le_bytes(space)
            + system_program(),
    }
}

/// The instruction that makes an account a nonce account under `authority`.
pub open spec fn initialize_nonce(nonce: Seq<u8>, authority: Seq<u8>) -> InstructionView {
    InstructionView {
        program_id: system_program(),
        accounts: seq![
            writable(nonce, false),
            readonly(recent_blockhashes_sysvar(), false),
            readonly(rent_sysvar(), false),
        ],
        data: seq![6u8, 0, 0, 0] + authority,
    }
}

/// The two instructions that bring a nonce account into being: create the
/// account, then initialise it.
pub open spec fn create_nonce_account(
    from: Seq<u8>,
    nonce: Seq<u8>,
    authority: Seq<u8>,
    lamports: u64,
) -> Seq<InstructionView> {
    seq![
        create_account(from, nonce, lamports, nonce_account_space()),
        initialize_nonce(nonce, authority),
    ]
}

/// The instruction that sets the price of a compute unit, in
/// micro-lamports.
pub open spec fn compute_unit_price(micro_lamports: u64) -> InstructionView {
    InstructionView {
        program_id: compute_budget_program(),
        accounts: Seq::empty(),
        data: seq![3u8] + spec_u64_to_le_bytes(micro_lamports),
    }
}

/// `system_instruction::advance_nonce_account`: an instruction of the
/// system program on the nonce account (writable), the recent-blockhashes
/// sysvar and the authority (signer), with the bincode form of
/// `SystemInstruction::AdvanceNonceAccount` as data.
#[verifier::external_body]
pub(crate) fn advance_nonce_instruction(
    nonce: &Address,
    authority: &Address,
) -> (instruction: Instruction)
    ensures
        instruction@ == advance_nonce(nonce@, authority@),
{
    let made = solana_sdk::system_instruction::advance_nonce_account(
        &solana_sdk::pubkey::Pubkey::new_from_array(nonce.bytes),
        &solana_sdk::pubkey::Pubkey::new_from_array(authority.bytes),
    );
    Instruction {
        program_id: Address { bytes: made.program_id.to_bytes() },
        accounts: made.accounts.iter().map(|meta| AccountMeta {
            address: Address { bytes: meta.pubkey.to_bytes() },
            is_signer: meta.is_signer,
            is_writable: meta.is_writable,
        }).collect(),
        data: made.data,
    }
}

/// `system_instruction::create_nonce_account`: `create_account` for an
/// account of the size of a nonce state, owned by the system program, and
/// `InitializeNonceAccount` with the authority, both in bincode form.
#[verifier::external_body]
pub(crate) fn create_nonce_instructions(
    from: &Address,
    nonce: &Address,
    authority: &Address,
    lamports: u64,
) -> (instructions: Vec<Instruction>)
    ensures
        views(instructions@) == create_nonce_account(from@, nonce@, authority@, lamports),
{
    let made = solana_sdk::system_instruction::create_nonce_account(
        &solana_sdk::pubkey::Pubkey::new_from_array(from.bytes),
        &solana_sdk::pubkey::Pubkey::new_from_array(nonce.bytes),
        &solana_sdk::pubkey::Pubkey::new_from_array(authority.bytes),
        lamports,
    );
    made.into_iter().map(|one| Instruction {
        program_id: Address { bytes: one.program_id.to_bytes() },
        accounts: one.accounts.iter().map(|meta| AccountMeta {
            address: Address { bytes: meta.pubkey.to_bytes() },
            is_signer: meta.is_signer,
            is_writable: meta.is_writable,
        }).collect(),
        data: one.data,
    }).collect()
}

/// `ComputeBudgetInstruction::set_compute_unit_price`: an instruction of
/// the compute-budget program on no account, with the borsh form of
/// `SetComputeUnitPrice` as data.
#[verifier::external_body]
pub(crate) fn compute_unit_price_instruction(micro_lamports: u64) -> (instruction: Instruction)
    ensures
        instruction@ == compute_unit_price(micro_lamports),
{
    let made = solana_sdk::compute_budget::ComputeBudgetInstruction::set_compute_unit_price(
        micro_lamports,
    );
    Instruction {
        program_id: Address { bytes: made.program_id.to_bytes() },
        accounts: made.accounts.iter().map(|meta| AccountMeta {
            address: Address { bytes: meta.pubkey.to_bytes() },
            is_signer: meta.is_signer,
            is_writable: meta.is_writable,
        }).collect(),
        data: made.data,
    }
}

/// Adds the instruction that sets the price of a compute unit, where a
/// price is given; the instruction goes to the end of the list.
pub fn with_compute_unit_price(instructions: Vec<Instruction>, price: Option<u64>) -> (priced: Vec<
    Instruction,
>)
    ensures
        views(priced@) == views(instructions@) + price_instructions(price),
{
    let mut priced = instructions;
    match price {
        Some(micro_lamports) => {
            let fee = compute_unit_price_instruction(micro_lamports);
            proof {
                assert(views(priced@.push(fee)) =~= views(priced@) + seq![fee@]);
            }
            priced.push(fee);
        },
        None => {
            proof {
                assert(views(priced@) + Seq::<InstructionView>::empty() =~= views(priced@));
            }
        },
    }
    priced
}

/// What a price adds to a list of instructions: one instruction, or none.
pub open spec fn price_instructions(price: Option<u64>) -> Seq<InstructionView> {
    match price {
        Some(micro_lamports) => seq![compute_unit_price(micro_lamports)],
        None => Seq::empty(),
    }
}

} // verus!
