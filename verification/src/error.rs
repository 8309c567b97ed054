//! What can go wrong, and in which class of failure it falls.

use crate::ledger::LedgerCall;
use crate::uint::DecimalError;
use vstd::prelude::*;
use vstd::string::*;

verus! {

/// The classes of failure. Only `Read` and `NotificationTransport` are
/// survived by the monitor; the others end the operation they occur in.
#[derive(Clone, Copy, Debug, PartialEq, Eq, Structural)]
pub enum ErrorKind {
    /// The configuration does not allow the operation.
    Configuration,
    /// A query of the ledger failed.
    Read,
    /// A transaction was not submitted or not confirmed.
    Transaction,
    /// The notification endpoint could not be reached.
    NotificationTransport,
    /// A number or an address given by the user is malformed.
    Input,
}

/// What exactly failed.
#[derive(Clone, Copy, Debug, PartialEq, Eq)]
pub enum Reason {
    /// The configured liquidity threshold is no amount.
    Threshold(DecimalError),
    /// The amount to supply or withdraw is no amount.
    Amount(DecimalError),
    /// The account address is malformed.
    AccountAddress,
    /// The market address is malformed.
    MarketAddress,
    /// The signing credential is no private key.
    Credential,
    /// No signing credential was given, on the command line or in the
    /// configuration.
    MissingCredential,
    /// The configured market version only supports reading.
    ReadOnlyVersion,
    /// The token counts more decimals than a divisor can be formed for.
    Decimals(u8),
    /// The ledger reported that the call failed.
    Call(LedgerCall),
    /// The ledger answered the call with a value of the wrong sort.
    Reply(LedgerCall),
    /// A reply arrived although no call was awaited.
    NothingAwaited,
    /// The notification request did not get through.
    Webhook,
}

/// A failure: its class, what failed, and what the outside world said
/// about it, if anything.
#[derive(Clone, Debug, PartialEq, Eq)]
pub struct MonitorError {
    pub kind: ErrorKind,
    pub reason: Reason,
    pub detail: Option<String>,
}

/// What is wrong with a string that is no amount.
pub open spec fn decimal_error_text(e: DecimalError) -> Seq<char> {
    match e {
        DecimalError::InvalidCharacter => "a character is not in the range 0-9"@,
        DecimalError::TooLarge => "the number is too large for the type"@,
    }
}

/// What a failed call was to do.
pub open spec fn call_text(call: LedgerCall) -> Seq<char> {
    match call {
        LedgerCall::Cash { .. } => "Failed to get cash"@,
        LedgerCall::TotalBorrows { .. } => "Failed to get total borrows"@,
        LedgerCall::TotalReserves { .. } => "Failed to get total reserves"@,
        LedgerCall::MarketSymbol { .. } => "Failed to get symbol"@,
        LedgerCall::BaseToken { .. } => "Failed to get base token address"@,
        LedgerCall::TotalSupply { .. } => "Failed to get total supply"@,
        LedgerCall::TotalBorrow { .. } => "Failed to get total borrow"@,
        LedgerCall::Reserves { .. } => "Failed to get reserves"@,
        LedgerCall::Utilization { .. } => "Failed to get utilization"@,
        LedgerCall::SupplyRate { .. } => "Failed to get supply rate"@,
        LedgerCall::BorrowRate { .. } => "Failed to get borrow rate"@,
        LedgerCall::MarketBalance { .. } => "Failed to get market balance"@,
        LedgerCall::TokenBalance { .. } => "Failed to get token balance"@,
        LedgerCall::TokenAllowance { .. } => "Failed to get allowance"@,
        LedgerCall::TokenSymbol { .. } => "Failed to get token symbol"@,
        LedgerCall::TokenDecimals { .. } => "Failed to get token decimals"@,
        LedgerCall::Approve { .. } => "Approve transaction failed"@,
        LedgerCall::Supply { .. } => "Supply transaction failed"@,
        LedgerCall::Withdraw { .. } => "Withdraw transaction failed"@,
    }
}

/// What failed, in words.
pub open spec fn reason_text(reason: Reason) -> Seq<char> {
    match reason {
        Reason::Threshold(e) => "Invalid liquidity threshold: "@ + decimal_error_text(e),
        Reason::Amount(e) => "Invalid amount: "@ + decimal_error_text(e),
        Reason::AccountAddress => "Invalid address"@,
        Reason::MarketAddress => "Invalid market address"@,
        Reason::Credential => "Invalid private key"@,
        Reason::MissingCredential => "Private key not provided"@,
        Reason::ReadOnlyVersion => "Supply/withdraw is only supported for Compound V3"@,
        Reason::Decimals(_) => "Token has too many decimals"@,
        Reason::Call(call) => call_text(call),
        Reason::Reply(call) => call_text(call) + ": unexpected reply"@,
        Reason::NothingAwaited => "No call is awaited"@,
        Reason::Webhook => "Failed to send webhook request"@,
    }
}

/// A failure in words: what failed, then, after a colon, what the outside
/// world said about it, if it said anything.
pub open spec fn description(e: MonitorError) -> Seq<char> {
    match e.detail {
        Some(detail) => reason_text(e.reason) + ": "@ + detail@,
        None => reason_text(e.reason),
    }
}

impl DecimalError {
    /// What is wrong with the string, in words.
    pub fn text(&self) -> (s: &'static str)
        ensures
            s@ == decimal_error_text(*self),
    {
        match self {
            DecimalError::InvalidCharacter => "a character is not in the range 0-9",
            DecimalError::TooLarge => "the number is too large for the type",
        }
    }
}

impl LedgerCall {
    /// What the call was to do, in the words of its failure.
    pub fn failure_text(&self) -> (s: &'static str)
        ensures
            s@ == call_text(*self),
    {
        match self {
            LedgerCall::Cash { .. } => "Failed to get cash",
            LedgerCall::TotalBorrows { .. } => "Failed to get total borrows",
            LedgerCall::TotalReserves { .. } => "Failed to get total reserves",
            LedgerCall::MarketSymbol { .. } => "Failed to get symbol",
            LedgerCall::BaseToken { .. } => "Failed to get base token address",
            LedgerCall::TotalSupply { .. } => "Failed to get total supply",
            LedgerCall::TotalBorrow { .. } => "Failed to get total borrow",
            LedgerCall::Reserves { .. } => "Failed to get reserves",
            LedgerCall::Utilization { .. } => "Failed to get utilization",
            LedgerCall::SupplyRate { .. } => "Failed to get supply rate",
            LedgerCall::BorrowRate { .. } => "Failed to get borrow rate",
            LedgerCall::MarketBalance { .. } => "Failed to get market balance",
            LedgerCall::TokenBalance { .. } => "Failed to get token balance",
            LedgerCall::TokenAllowance { .. } => "Failed to get allowance",
            LedgerCall::TokenSymbol { .. } => "Failed to get token symbol",
            LedgerCall::TokenDecimals { .. } => "Failed to get token decimals",
            LedgerCall::Approve { .. } => "Approve transaction failed",
            LedgerCall::Supply { .. } => "Supply transaction failed",
            LedgerCall::Withdraw { .. } => "Withdraw transaction failed",
        }
    }
}

impl Reason {
    /// What failed, in words.
    pub fn text(&self) -> (s: String)
        ensures
            s@ == reason_text(*self),
    {
        match self {
            Reason::Threshold(e) => {
                let mut s = String::from_str("Invalid liquidity threshold: ");
                s.append(e.text());
                s
            },
            Reason::Amount(e) => {
                let mut s = String::from_str("Invalid amount: ");
                s.append(e.text());
                s
            },
            Reason::AccountAddress => String::from_str("Invalid address"),
            Reason::MarketAddress => String::from_str("Invalid market address"),
            Reason::Credential => String::from_str("Invalid private key"),
            Reason::MissingCredential => String::from_str("Private key not provided"),
            Reason::ReadOnlyVersion => String::from_str(
                "Supply/withdraw is only supported for Compound V3",
            ),
            Reason::Decimals(_) => String::from_str("Token has too many decimals"),
            Reason::Call(call) => String::from_str(call.failure_text()),
            Reason::Reply(call) => {
                let mut s = String::from_str(call.failure_text());
                s.append(": unexpected reply");
                s
            },
            Reason::NothingAwaited => String::from_str("No call is awaited"),
            Reason::Webhook => String::from_str("Failed to send webhook request"),
        }
    }
}

impl MonitorError {
    /// The failure in words.
    pub fn describe(&self) -> (s: String)
        ensures
            s@ == description(*self),
    {
        let mut s = self.reason.text();
        match &self.detail {
            Some(detail) => {
                s.append(": ");
                s.append(detail.as_str());
                s
            },
            None => s,
        }
    }

    /// A failure that the library found by itself.
    pub fn new(kind: ErrorKind, reason: Reason) -> (e: MonitorError)
        ensures
            e == (MonitorError { kind, reason, detail: None }),
    {
        MonitorError { kind, reason, detail: None }
    }

    /// Whether the monitor goes on polling after this failure.
    pub fn is_recoverable(&self) -> (b: bool)
        ensures
            b == (self.kind == ErrorKind::Read || self.kind == ErrorKind::NotificationTransport),
    {
        match self.kind {
            ErrorKind::Read => true,
            ErrorKind::NotificationTransport => true,
            _ => false,
        }
    }
}

} // verus!
