use crate::account::{spec_address, AccountIdentifier, Subaccount};
use crate::error::Error;
use vstd::prelude::*;

verus! {

/// The fee that the ledger takes for one transfer, in e8s.
pub const DEFAULT_TRANSFER_FEE: u64 = 10_000;

/// An amount of tokens, in e8s: hundred-millionths of a token.
#[derive(Clone, Copy, Debug, PartialEq, Eq, Structural)]
pub struct Tokens {
    pub e8s: u64,
}

/// Why the ledger refused a transfer.
#[derive(Clone, Copy, Debug, PartialEq, Eq, Structural)]
pub enum TransferError {
    BadFee { expected_fee: Tokens },
    InsufficientFunds { balance: Tokens },
    TxTooOld { allowed_window_nanos: u64 },
    TxCreatedInFuture,
    TxDuplicate { duplicate_of: u64 },
}

/// The ledger's reply to a transfer: the height of the block that holds
/// it, or the refusal.
#[allow(non_camel_case_types)]
#[derive(Clone, Copy, Debug, PartialEq, Eq, Structural)]
pub enum Result_1 {
    Transferred(u64),
    Refused(TransferError),
}

/// The request for the balance of an account, which is named by its
/// 32-byte address.
#[derive(Clone, Copy, Debug, PartialEq, Eq)]
pub struct AccountBalanceArgs {
    pub account: [u8; 32],
}

/// The request for a transfer.
#[derive(Clone, Copy, Debug, PartialEq, Eq)]
pub struct TransferArgs {
    pub memo: u64,
    pub amount: Tokens,
    pub fee: Tokens,
    pub from_subaccount: Option<Subaccount>,
    pub to: [u8; 32],
    pub created_at_time: Option<u64>,
}

/// What a transfer reply says: the block height, or a rejection.
pub open spec fn spec_transfer_outcome(reply: Result_1) -> Result<u64, Error> {
    match reply {
        Result_1::Transferred(height) => Ok(height),
        Result_1::Refused(_) => Err(Error::RemoteRejection),
    }
}

/// The request for the balance of `id`.
pub fn account_balance(id: &AccountIdentifier) -> (request: AccountBalanceArgs)
    ensures
        request.account@ == spec_address(id@),
{
    AccountBalanceArgs { account: id.to_address() }
}

/// The request that moves `amount` e8s from the caller's default account
/// to `to`, under `memo` and for the ledger's standard fee.
pub fn transfer(to: &AccountIdentifier, amount: u64, memo: u64) -> (request: TransferArgs)
    ensures
        request.memo == memo,
        request.amount == (Tokens { e8s: amount }),
        request.fee == (Tokens { e8s: DEFAULT_TRANSFER_FEE }),
        request.from_subaccount is None,
        request.to@ == spec_address(to@),
        request.created_at_time is None,
{
    TransferArgs {
        memo,
        amount: Tokens { e8s: amount },
        fee: Tokens { e8s: DEFAULT_TRANSFER_FEE },
        from_subaccount: None,
        to: to.to_address(),
        created_at_time: None,
    }
}

/// Reads the ledger's reply to a transfer.
pub fn transfer_outcome(reply: &Result_1) -> (outcome: Result<u64, Error>)
    ensures
        outcome == spec_transfer_outcome(*reply),
{
    match reply {
        Result_1::Transferred(height) => Ok(*height),
        Result_1::Refused(_) => Err(Error::RemoteRejection),
    }
}

} // verus!
