//! Supplying to and withdrawing from a V3 market, one ledger call at a time.
//!
//! Both operations resolve the market's base token first. A supply then
//! reads the allowance that the market has over the signer's tokens, and
//! asks for an unlimited approval once if that allowance is too small. A
//! withdrawal needs no allowance.

use crate::address::{address_bytes, signer_address_of, Address};
use crate::error::{ErrorKind, MonitorError, Reason};
use crate::ledger::{reject, rejection, LedgerCall, LedgerReply, Receipt, Step};
use crate::snapshot::MarketVersion;
use crate::uint::{parse_decimal, U256};
use vstd::prelude::*;

verus! {

/// The operations that change a market.
#[derive(Clone, Copy, Debug, PartialEq, Eq, Structural)]
pub enum Operation {
    Supply,
    Withdraw,
}

/// The failure of an operation that the configured version does not offer.
pub open spec fn read_only_failure() -> MonitorError {
    MonitorError { kind: ErrorKind::Configuration, reason: Reason::ReadOnlyVersion, detail: None }
}

/// The credential to sign with: the one given with the command if there is
/// one, else the configured one.
pub fn resolve_credential(given: Option<String>, configured: Option<String>) -> (r: Result<
    String,
    MonitorError,
>)
    ensures
        r == match given {
            Some(key) => Ok::<String, MonitorError>(key),
            None => match configured {
                Some(key) => Ok::<String, MonitorError>(key),
                None => Err::<String, MonitorError>(
                    MonitorError {
                        kind: ErrorKind::Configuration,
                        reason: Reason::MissingCredential,
                        detail: None,
                    },
                ),
            },
        },
{
    match given {
        Some(key) => Ok(key),
        None => match configured {
            Some(key) => Ok(key),
            None => Err(MonitorError::new(ErrorKind::Configuration, Reason::MissingCredential)),
        },
    }
}

/// What a command to supply or withdraw comes to, once it is accepted.
#[derive(Clone, Debug, PartialEq, Eq)]
pub struct TransactionRequest {
    pub operation: Operation,
    pub amount: U256,
    pub credential: String,
}

/// Checks a command to supply or withdraw before anything is sent: the
/// configured version must be V3, the amount must be a decimal number of
/// base units, and a credential must be at hand. The first of these that
/// fails is reported.
pub fn prepare_transaction(
    version: MarketVersion,
    operation: Operation,
    amount_text: &str,
    given_credential: Option<String>,
    configured_credential: Option<String>,
) -> (r: Result<TransactionRequest, MonitorError>)
    ensures
        version != MarketVersion::V3 ==> r == Err::<TransactionRequest, MonitorError>(
            read_only_failure(),
        ),
        version == MarketVersion::V3 ==> match parse_decimal(amount_text@) {
            Err(e) => r == Err::<TransactionRequest, MonitorError>(
                MonitorError { kind: ErrorKind::Input, reason: Reason::Amount(e), detail: None },
            ),
            Ok(value) => if given_credential is None && configured_credential is None {
                r == Err::<TransactionRequest, MonitorError>(
                    MonitorError {
                        kind: ErrorKind::Configuration,
                        reason: Reason::MissingCredential,
                        detail: None,
                    },
                )
            } else {
                &&& r is Ok
                &&& r->Ok_0.operation == operation
                &&& r->Ok_0.amount@ == value
                &&& r->Ok_0.credential == if given_credential is Some {
                    given_credential->Some_0
                } else {
                    configured_credential->Some_0
                }
            },
        },
{
    match version {
        MarketVersion::V3 => {},
        MarketVersion::V2 => {
            return Err(MonitorError::new(ErrorKind::Configuration, Reason::ReadOnlyVersion));
        },
    }
    let amount = match U256::from_dec_str(amount_text) {
        Ok(amount) => amount,
        Err(e) => {
            return Err(MonitorError::new(ErrorKind::Input, Reason::Amount(e)));
        },
    };
    match resolve_credential(given_credential, configured_credential) {
        Ok(credential) => Ok(TransactionRequest { operation, amount, credential }),
        Err(e) => Err(e),
    }
}

/// The amount that an approval grants. The market is approved once for
/// every amount, so that later supplies need no approval of their own.
pub open spec fn approved_amount(requested: U256) -> U256 {
    U256::largest()
}

/// The amount that an approval grants for a supply of `requested`.
pub fn approval_amount(requested: U256) -> (granted: U256)
    ensures
        granted == approved_amount(requested),
        granted@ >= requested@,
{
    U256::max_value()
}

/// How far a transaction has come. Each stage but `Closed` awaits the reply
/// to one call.
#[derive(Clone, Copy, Debug, PartialEq, Eq)]
pub enum TransactionStage {
    BaseToken,
    Allowance { base_token: Address },
    Approval { base_token: Address },
    Transfer { base_token: Address },
    Closed,
}

/// What an accepted reply leads to.
#[derive(Clone, Copy, Debug, PartialEq, Eq)]
pub enum TransactionProgress {
    Next(TransactionStage),
    Finish(Receipt),
}

/// A supply or a withdrawal in progress.
#[derive(Clone, Copy, Debug, PartialEq, Eq)]
pub struct Transaction {
    pub operation: Operation,
    pub market: Address,
    pub signer: Address,
    pub amount: U256,
    pub stage: TransactionStage,
}

impl Transaction {
    /// The call whose reply the transaction awaits.
    pub open spec fn awaited(self) -> Option<LedgerCall> {
        match self.stage {
            TransactionStage::BaseToken => Some(LedgerCall::BaseToken { market: self.market }),
            TransactionStage::Allowance { base_token } => Some(
                LedgerCall::TokenAllowance {
                    token: base_token,
                    owner: self.signer,
                    spender: self.market,
                },
            ),
            TransactionStage::Approval { base_token } => Some(
                LedgerCall::Approve {
                    token: base_token,
                    spender: self.market,
                    amount: approved_amount(self.amount),
                },
            ),
            TransactionStage::Transfer { base_token } => Some(
                match self.operation {
                    Operation::Supply => LedgerCall::Supply {
                        market: self.market,
                        asset: base_token,
                        amount: self.amount,
                    },
                    Operation::Withdraw => LedgerCall::Withdraw {
                        market: self.market,
                        asset: base_token,
                        amount: self.amount,
                    },
                },
            ),
            TransactionStage::Closed => None,
        }
    }

    /// Where a reply of the awaited sort leads; `None` for any other reply.
    pub open spec fn accept(self, reply: LedgerReply) -> Option<TransactionProgress> {
        match self.stage {
            TransactionStage::BaseToken => match reply {
                LedgerReply::Account(base_token) => Some(
                    TransactionProgress::Next(
                        match self.operation {
                            Operation::Supply => TransactionStage::Allowance { base_token },
                            Operation::Withdraw => TransactionStage::Transfer { base_token },
                        },
                    ),
                ),
                _ => None,
            },
            TransactionStage::Allowance { base_token } => match reply {
                LedgerReply::Amount(allowance) => Some(
                    TransactionProgress::Next(
                        if allowance@ < self.amount@ {
                            TransactionStage::Approval { base_token }
                        } else {
                            TransactionStage::Transfer { base_token }
                        },
                    ),
                ),
                _ => None,
            },
            TransactionStage::Approval { base_token } => match reply {
                LedgerReply::Confirmed(_) => Some(
                    TransactionProgress::Next(TransactionStage::Transfer { base_token }),
                ),
                _ => None,
            },
            TransactionStage::Transfer { .. } => match reply {
                LedgerReply::Confirmed(receipt) => Some(TransactionProgress::Finish(receipt)),
                _ => None,
            },
            TransactionStage::Closed => None,
        }
    }

    /// The transaction after a reply. A reply that is not accepted closes
    /// it: nothing is tried again and nothing is undone.
    pub open spec fn after(self, reply: LedgerReply) -> Transaction {
        Transaction {
            stage: match self.accept(reply) {
                Some(TransactionProgress::Next(next)) => next,
                _ => TransactionStage::Closed,
            },
            ..self
        }
    }

    /// What the transaction wants after a reply: the next call, the receipt
    /// of the transfer, or the failure that closed it.
    pub open spec fn step(self, reply: LedgerReply) -> Step<Receipt> {
        match self.awaited() {
            None => Step::Failed(
                MonitorError {
                    kind: ErrorKind::Transaction,
                    reason: Reason::NothingAwaited,
                    detail: None,
                },
            ),
            Some(call) => match self.accept(reply) {
                Some(TransactionProgress::Next(_)) => Step::Call(self.after(reply).awaited()->0),
                Some(TransactionProgress::Finish(receipt)) => Step::Done(receipt),
                None => Step::Failed(rejection(call, reply)),
            },
        }
    }

    /// The call whose reply the transaction awaits.
    pub fn call(&self) -> (call: Option<LedgerCall>)
        ensures
            call == self.awaited(),
    {
        match self.stage {
            TransactionStage::BaseToken => Some(LedgerCall::BaseToken { market: self.market }),
            TransactionStage::Allowance { base_token } => Some(
                LedgerCall::TokenAllowance {
                    token: base_token,
                    owner: self.signer,
                    spender: self.market,
                },
            ),
            TransactionStage::Approval { base_token } => Some(
                LedgerCall::Approve {
                    token: base_token,
                    spender: self.market,
                    amount: approval_amount(self.amount),
                },
            ),
            TransactionStage::Transfer { base_token } => match self.operation {
                Operation::Supply => Some(
                    LedgerCall::Supply {
                        market: self.market,
                        asset: base_token,
                        amount: self.amount,
                    },
                ),
                Operation::Withdraw => Some(
                    LedgerCall::Withdraw {
                        market: self.market,
                        asset: base_token,
                        amount: self.amount,
                    },
                ),
            },
            TransactionStage::Closed => None,
        }
    }

    /// Starts a supply or a withdrawal of `amount` base units on the market
    /// at `market_address`, signed with `credential`, and names the first
    /// call.
    ///
    /// Nothing is called on a version other than V3, with a credential that
    /// is no private key, or with a malformed market address; the first of
    /// these that holds is reported.
    pub fn open(
        version: MarketVersion,
        operation: Operation,
        market_address: &str,
        credential: &str,
        amount: U256,
    ) -> (r: Result<(Transaction, LedgerCall), MonitorError>)
        ensures
            version != MarketVersion::V3 ==> r == Err::<(Transaction, LedgerCall), MonitorError>(
                read_only_failure(),
            ),
            version == MarketVersion::V3 ==> match signer_address_of(credential@) {
                None => r == Err::<(Transaction, LedgerCall), MonitorError>(
                    MonitorError {
                        kind: ErrorKind::Input,
                        reason: Reason::Credential,
                        detail: None,
                    },
                ),
                Some(signer) => match address_bytes(market_address@) {
                    None => r == Err::<(Transaction, LedgerCall), MonitorError>(
                        MonitorError {
                            kind: ErrorKind::Configuration,
                            reason: Reason::MarketAddress,
                            detail: None,
                        },
                    ),
                    Some(market) => {
                        &&& r is Ok
                        &&& r->Ok_0.0.operation == operation
                        &&& r->Ok_0.0.market@ == market
                        &&& r->Ok_0.0.signer@ == signer
                        &&& r->Ok_0.0.amount == amount
                        &&& r->Ok_0.0.stage == TransactionStage::BaseToken
                        &&& r->Ok_0.1 == (LedgerCall::BaseToken { market: r->Ok_0.0.market })
                    },
                },
            },
    {
        match version {
            MarketVersion::V3 => {},
            MarketVersion::V2 => {
                return Err(MonitorError::new(ErrorKind::Configuration, Reason::ReadOnlyVersion));
            },
        }
        let signer = match Address::of_signer(credential) {
            Some(signer) => signer,
            None => {
                return Err(MonitorError::new(ErrorKind::Input, Reason::Credential));
            },
        };
        let market = match Address::parse(market_address) {
            Some(market) => market,
            None => {
                return Err(MonitorError::new(ErrorKind::Configuration, Reason::MarketAddress));
            },
        };
        Ok(
            (
                Transaction {
                    operation,
                    market,
                    signer,
                    amount,
                    stage: TransactionStage::BaseToken,
                },
                LedgerCall::BaseToken { market },
            ),
        )
    }

    /// Takes a reply of the awaited sort into the transaction; any other
    /// reply is handed back.
    fn take(&self, reply: LedgerReply) -> (r: Result<TransactionProgress, LedgerReply>)
        ensures
            match r {
                Ok(progress) => self.accept(reply) == Some(progress),
                Err(back) => self.accept(reply) is None && back == reply,
            },
    {
        match self.stage {
            TransactionStage::BaseToken => match reply {
                LedgerReply::Account(base_token) => match self.operation {
                    Operation::Supply => Ok(
                        TransactionProgress::Next(TransactionStage::Allowance { base_token }),
                    ),
                    Operation::Withdraw => Ok(
                        TransactionProgress::Next(TransactionStage::Transfer { base_token }),
                    ),
                },
                other => Err(other),
            },
            TransactionStage::Allowance { base_token } => match reply {
                LedgerReply::Amount(allowance) => {
                    if allowance.lt(&self.amount) {
                        Ok(TransactionProgress::Next(TransactionStage::Approval { base_token }))
                    } else {
                        Ok(TransactionProgress::Next(TransactionStage::Transfer { base_token }))
                    }
                },
                other => Err(other),
            },
            TransactionStage::Approval { base_token } => match reply {
                LedgerReply::Confirmed(_) => Ok(
                    TransactionProgress::Next(TransactionStage::Transfer { base_token }),
                ),
                other => Err(other),
            },
            TransactionStage::Transfer { .. } => match reply {
                LedgerReply::Confirmed(receipt) => Ok(TransactionProgress::Finish(receipt)),
                other => Err(other),
            },
            TransactionStage::Closed => Err(reply),
        }
    }

    /// Takes the reply to the awaited call, and says what the transaction
    /// wants next. Any reply but a value of the awaited sort closes the
    /// transaction: a failed read with a read failure, a failed approval or
    /// transfer with a transaction failure.
    pub fn advance(&mut self, reply: LedgerReply) -> (step: Step<Receipt>)
        ensures
            step == old(self).step(reply),
            *final(self) == old(self).after(reply),
    {
        let call = match self.call() {
            Some(call) => call,
            None => {
                return Step::Failed(
                    MonitorError::new(ErrorKind::Transaction, Reason::NothingAwaited),
                );
            },
        };
        match self.take(reply) {
            Ok(TransactionProgress::Next(next)) => {
                self.stage = next;
                match self.call() {
                    Some(call) => Step::Call(call),
                    None => Step::Failed(
                        MonitorError::new(ErrorKind::Transaction, Reason::NothingAwaited),
                    ),
                }
            },
            Ok(TransactionProgress::Finish(receipt)) => {
                self.stage = TransactionStage::Closed;
                Step::Done(receipt)
            },
            Err(back) => {
                self.stage = TransactionStage::Closed;
                Step::Failed(reject(call, back))
            },
        }
    }
}

/// A supply approves exactly when the allowance is below the amount: it then
/// asks for the unlimited approval, and names the supply once the approval is
/// confirmed. With an allowance that suffices it names the supply at once.
/// The receipt of the supply ends the transaction.
pub proof fn lemma_supply_approves_when_needed(
    start: Transaction,
    base_token: Address,
    allowance: U256,
    approval: Receipt,
    receipt: Receipt,
)
    requires
        start.operation == Operation::Supply,
        start.stage == TransactionStage::BaseToken,
    ensures
        ({
            let supply = LedgerCall::Supply {
                market: start.market,
                asset: base_token,
                amount: start.amount,
            };
            let t1 = start.after(LedgerReply::Account(base_token));
            let t2 = t1.after(LedgerReply::Amount(allowance));
            &&& start.step(LedgerReply::Account(base_token)) == Step::<Receipt>::Call(
                LedgerCall::TokenAllowance {
                    token: base_token,
                    owner: start.signer,
                    spender: start.market,
                },
            )
            &&& allowance@ < start.amount@ ==> {
                &&& t1.step(LedgerReply::Amount(allowance)) == Step::<Receipt>::Call(
                    LedgerCall::Approve {
                        token: base_token,
                        spender: start.market,
                        amount: U256::largest(),
                    },
                )
                &&& t2.step(LedgerReply::Confirmed(approval)) == Step::<Receipt>::Call(supply)
                &&& t2.after(LedgerReply::Confirmed(approval)).step(LedgerReply::Confirmed(receipt))
                    == Step::Done(receipt)
            }
            &&& allowance@ >= start.amount@ ==> {
                &&& t1.step(LedgerReply::Amount(allowance)) == Step::<Receipt>::Call(supply)
                &&& t2.step(LedgerReply::Confirmed(receipt)) == Step::Done(receipt)
            }
        }),
{
}

/// A withdrawal names the withdrawal as soon as the base token is known, and
/// never asks for an allowance or an approval.
pub proof fn lemma_withdraw_needs_no_allowance(
    start: Transaction,
    base_token: Address,
    receipt: Receipt,
    any: Transaction,
    reply: LedgerReply,
)
    requires
        start.operation == Operation::Withdraw,
        start.stage == TransactionStage::BaseToken,
        any.operation == Operation::Withdraw,
        !(any.stage is Allowance),
        !(any.stage is Approval),
    ensures
        start.step(LedgerReply::Account(base_token)) == Step::<Receipt>::Call(
            LedgerCall::Withdraw { market: start.market, asset: base_token, amount: start.amount },
        ),
        start.after(LedgerReply::Account(base_token)).step(LedgerReply::Confirmed(receipt))
            == Step::Done(receipt),
        !(any.after(reply).stage is Allowance),
        !(any.after(reply).stage is Approval),
        any.step(reply) is Call ==> !(any.step(reply)->Call_0 is TokenAllowance) && !(any.step(
            reply,
        )->Call_0 is Approve),
{
}

/// The number of replies that a transaction still needs at most.
pub open spec fn replies_left(stage: TransactionStage) -> nat {
    match stage {
        TransactionStage::BaseToken => 4,
        TransactionStage::Allowance { .. } => 3,
        TransactionStage::Approval { .. } => 2,
        TransactionStage::Transfer { .. } => 1,
        TransactionStage::Closed => 0,
    }
}

/// Every transaction comes to an end: each reply brings it nearer to it, so
/// that no supply takes more than four calls, and a transaction is closed
/// exactly when it names no further call.
pub proof fn lemma_transaction_ends(t: Transaction, reply: LedgerReply)
    ensures
        t.stage != TransactionStage::Closed ==> replies_left(t.after(reply).stage) < replies_left(
            t.stage,
        ),
        t.step(reply) is Call <==> t.after(reply).stage != TransactionStage::Closed,
        t.step(reply) is Call ==> Some(t.step(reply)->Call_0) == t.after(reply).awaited(),
{
}

/// A transaction that fails stays failed: the failure of a read is a read
/// error, the failure of an approval or a transfer is a transaction error,
/// and a closed transaction names no further call.
pub proof fn lemma_transaction_aborts(t: Transaction, reply: LedgerReply)
    ensures
        reply is Failed ==> t.step(reply) is Failed && t.after(reply).stage
            == TransactionStage::Closed,
        t.step(reply) is Failed && t.awaited() is Some ==> t.step(reply)->Failed_0.kind
            == t.awaited()->0.failure_kind(),
        t.stage == TransactionStage::Closed ==> t.step(reply) is Failed,
        t.step(reply) is Done ==> t.stage is Transfer,
{
}

} // verus!
