//! The ledger query client's decisions: what the answer to a query for a
//! nonce account means. The query itself, blocking or not, is the caller's;
//! nothing is tried again here.

use crate::address::{Address, Blockhash};
use crate::error::{QueryError, QueryErrorView};
use crate::instruction::system_program;
use solana_sdk::account_utils::StateMut;
use solana_sdk::nonce::state::{State, Versions};
use vstd::prelude::*;

verus! {

/// An account as the ledger holds it, as far as it is read here.
#[derive(Clone, Debug, PartialEq, Eq)]
pub struct Account {
    /// The program that owns the account.
    pub owner: Address,
    /// The account's data.
    pub data: Vec<u8>,
}

/// The state of an initialised nonce account.
#[derive(Clone, Copy, Debug, PartialEq, Eq)]
pub struct NonceData {
    /// Who may advance the nonce and sign transactions that use it.
    pub authority: Address,
    /// The current value of the nonce, used in place of a recent blockhash.
    pub blockhash: Blockhash,
    /// The fee per signature that goes with that value.
    pub lamports_per_signature: u64,
}

/// A `NonceData` as a mathematical value.
pub ghost struct NonceDataView {
    pub authority: Seq<u8>,
    pub blockhash: Seq<u8>,
    pub lamports_per_signature: u64,
}

impl View for NonceData {
    type V = NonceDataView;

    open spec fn view(&self) -> NonceDataView {
        NonceDataView {
            authority: self.authority@,
            blockhash: self.blockhash@,
            lamports_per_signature: self.lamports_per_signature,
        }
    }
}

/// The state that the data of a nonce account stand for.
#[derive(Clone, Copy, Debug, PartialEq, Eq)]
pub enum NonceState {
    /// The account is there, and holds no nonce yet.
    Uninitialized,
    /// The account holds a nonce.
    Initialized(NonceData),
}

/// A `NonceState` as a mathematical value.
pub ghost enum NonceStateView {
    Uninitialized,
    Initialized(NonceDataView),
}

impl View for NonceState {
    type V = NonceStateView;

    open spec fn view(&self) -> NonceStateView {
        match self {
            NonceState::Uninitialized => NonceStateView::Uninitialized,
            NonceState::Initialized(data) => NonceStateView::Initialized(data@),
        }
    }
}

/// The state of a nonce account that bytes stand for, or `None` where they
/// have not the layout of one.
pub uninterp spec fn nonce_state(data: Seq<u8>) -> Option<NonceStateView>;

/// `StateMut::<Versions>::state` on an account with the given data: the
/// bincode reading of the data as the state of a nonce account, of either
/// version.
#[verifier::external_body]
fn read_nonce_state(data: &Vec<u8>) -> (state: Option<NonceState>)
    ensures
        state is Some <==> nonce_state(data@) is Some,
        state matches Some(read) ==> nonce_state(data@) == Some(read@),
{
    let account = solana_sdk::account::Account { data: data.clone(), ..Default::default() };
    match StateMut::<Versions>::state(&account) {
        Ok(versions) => Some(match versions.state() {
            State::Uninitialized => NonceState::Uninitialized,
            State::Initialized(found) => NonceState::Initialized(NonceData {
                authority: Address { bytes: found.authority.to_bytes() },
                blockhash: Blockhash { bytes: found.blockhash().to_bytes() },
                lamports_per_signature: found.fee_calculator.lamports_per_signature,
            }),
        }),
        Err(_) => None,
    }
}

/// What an account is as a nonce account: its nonce data where the system
/// program owns it and its data are those of an initialised nonce account;
/// malformed with another owner, with no data, with data of another layout,
/// or with no nonce yet.
pub open spec fn decoded(owner: Seq<u8>, data: Seq<u8>) -> Result<NonceDataView, QueryErrorView> {
    if owner != system_program() || data.len() == 0 {
        Err(QueryErrorView::Malformed)
    } else {
        match nonce_state(data) {
            Some(NonceStateView::Initialized(nonce)) => Ok(nonce),
            _ => Err(QueryErrorView::Malformed),
        }
    }
}

/// What the ledger's answer to the fetching of a nonce account means: its
/// nonce data, or that there is no account, no nonce account, or no answer.
pub open spec fn queried(fetched: Result<Option<Account>, String>) -> Result<
    NonceDataView,
    QueryErrorView,
> {
    match fetched {
        Ok(Some(account)) => decoded(account.owner@, account.data@),
        Ok(None) => Err(QueryErrorView::NotFound),
        Err(cause) => Err(QueryErrorView::Transport(cause@)),
    }
}

/// The view of the outcome of a query.
pub open spec fn outcome_view(outcome: Result<NonceData, QueryError>) -> Result<
    NonceDataView,
    QueryErrorView,
> {
    match outcome {
        Ok(data) => Ok(data@),
        Err(error) => Err(error@),
    }
}

/// Reads an account as a nonce account.
pub fn decode_nonce_account(account: &Account) -> (result: Result<NonceData, QueryError>)
    ensures
        outcome_view(result) == decoded(account.owner@, account.data@),
{
    let system = Address { bytes: [0u8; 32] };
    assert(system@ =~= system_program());
    if !account.owner.same_as(&system) || account.data.len() == 0 {
        return Err(QueryError::Malformed);
    }
    match read_nonce_state(&account.data) {
        Some(NonceState::Initialized(nonce)) => Ok(nonce),
        _ => Err(QueryError::Malformed),
    }
}

/// The state of a nonce account, from what the ledger answered when the
/// account was fetched: the account, `None` where there is none at the
/// address, or the cause for which the ledger could not be asked.
pub fn get_nonce_account_sync(fetched: Result<Option<Account>, String>) -> (result: Result<
    NonceData,
    QueryError,
>)
    ensures
        outcome_view(result) == queried(fetched),
{
    match fetched {
        Ok(Some(account)) => decode_nonce_account(&account),
        Ok(None) => Err(QueryError::NotFound),
        Err(cause) => Err(QueryError::Transport(cause)),
    }
}

} // verus!
