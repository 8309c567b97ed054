//! The calls that the library asks of a ledger client, and the replies it
//! takes back. The client itself lives outside: the library only names calls.

use crate::address::Address;
use crate::error::{ErrorKind, MonitorError, Reason};
use crate::uint::{I256, U256};
use vstd::prelude::*;

verus! {

/// One call on a contract of the ledger.
#[derive(Clone, Copy, Debug, PartialEq, Eq)]
pub enum LedgerCall {
    /// The cash that a V2 market holds.
    Cash { market: Address },
    /// The borrows of a V2 market.
    TotalBorrows { market: Address },
    /// The reserves of a V2 market.
    TotalReserves { market: Address },
    /// The symbol of a V2 market.
    MarketSymbol { market: Address },
    /// The base token of a V3 market.
    BaseToken { market: Address },
    /// What a V3 market counts as supplied.
    TotalSupply { market: Address },
    /// What a V3 market counts as borrowed.
    TotalBorrow { market: Address },
    /// The reserves of a V3 market, which may be negative.
    Reserves { market: Address },
    /// The utilization of a V3 market.
    Utilization { market: Address },
    /// The supply rate per second of a V3 market at a utilization.
    SupplyRate { market: Address, utilization: U256 },
    /// The borrow rate per second of a V3 market at a utilization.
    BorrowRate { market: Address, utilization: U256 },
    /// What an account has deposited in a V3 market.
    MarketBalance { market: Address, account: Address },
    /// The tokens that a holder owns.
    TokenBalance { token: Address, holder: Address },
    /// The tokens of an owner that a spender may move.
    TokenAllowance { token: Address, owner: Address, spender: Address },
    /// The symbol of a token.
    TokenSymbol { token: Address },
    /// The number of decimals of a token.
    TokenDecimals { token: Address },
    /// Allow a spender to move tokens of the signer, and wait until the
    /// ledger confirms it.
    Approve { token: Address, spender: Address, amount: U256 },
    /// Supply an asset to a V3 market, and wait until the ledger confirms it.
    Supply { market: Address, asset: Address, amount: U256 },
    /// Withdraw an asset from a V3 market, and wait until the ledger
    /// confirms it.
    Withdraw { market: Address, asset: Address, amount: U256 },
}

/// The confirmation of a transaction.
#[derive(Clone, Copy, Debug, PartialEq, Eq)]
pub struct Receipt {
    pub transaction_hash: [u8; 32],
    pub gas_used: Option<U256>,
}

/// What came back from a call.
#[derive(Clone, Debug, PartialEq, Eq)]
pub enum LedgerReply {
    /// An unsigned amount.
    Amount(U256),
    /// A signed amount.
    Signed(I256),
    /// An address.
    Account(Address),
    /// A text.
    Text(String),
    /// A rate per second, scaled by 10^18.
    Rate(u64),
    /// A number of decimals.
    Decimals(u8),
    /// The confirmation of a transaction.
    Confirmed(Receipt),
    /// The call failed; the text says how.
    Failed(String),
}

/// What an operation wants next: a call made, or nothing more, with its
/// result or its failure.
#[derive(Clone, Debug, PartialEq, Eq)]
pub enum Step<T> {
    Call(LedgerCall),
    Done(T),
    Failed(MonitorError),
}

impl LedgerCall {
    /// Whether the call changes the ledger.
    pub open spec fn is_transaction(self) -> bool {
        self is Approve || self is Supply || self is Withdraw
    }

    /// The class in which a failure of the call falls.
    pub open spec fn failure_kind(self) -> ErrorKind {
        if self.is_transaction() {
            ErrorKind::Transaction
        } else {
            ErrorKind::Read
        }
    }

    /// The class in which a failure of the call falls.
    pub fn kind_of_failure(&self) -> (kind: ErrorKind)
        ensures
            kind == self.failure_kind(),
    {
        match self {
            LedgerCall::Approve { .. } => ErrorKind::Transaction,
            LedgerCall::Supply { .. } => ErrorKind::Transaction,
            LedgerCall::Withdraw { .. } => ErrorKind::Transaction,
            _ => ErrorKind::Read,
        }
    }
}

/// The failure that a call ends in when `reply` is not the value it was
/// made for: the ledger's own report of a failure with its text, or a reply
/// of the wrong sort.
pub open spec fn rejection(call: LedgerCall, reply: LedgerReply) -> MonitorError {
    match reply {
        LedgerReply::Failed(detail) => MonitorError {
            kind: call.failure_kind(),
            reason: Reason::Call(call),
            detail: Some(detail),
        },
        _ => MonitorError { kind: call.failure_kind(), reason: Reason::Reply(call), detail: None },
    }
}

/// Builds the failure of a call from the reply that was not wanted.
pub fn reject(call: LedgerCall, reply: LedgerReply) -> (e: MonitorError)
    ensures
        e == rejection(call, reply),
{
    let kind = call.kind_of_failure();
    match reply {
        LedgerReply::Failed(detail) => MonitorError {
            kind,
            reason: Reason::Call(call),
            detail: Some(detail),
        },
        _ => MonitorError { kind, reason: Reason::Reply(call), detail: None },
    }
}

} // verus!
