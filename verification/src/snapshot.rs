//! Reading the state of a market into a liquidity snapshot, one ledger call
//! at a time.
//!
//! A V2 market reports cash, borrows, reserves and its symbol directly. A V3
//! market is asked for its base token first; its liquidity is then the
//! balance of that token which the market contract itself holds, not a
//! figure from the market's own books.

use crate::address::{address_bytes, Address};
use crate::error::{ErrorKind, MonitorError, Reason};
use crate::ledger::{reject, rejection, LedgerCall, LedgerReply, Step};
use crate::uint::{I256, U256};
use vstd::prelude::*;
use vstd::string::*;

verus! {

/// The generations of market contracts.
#[derive(Clone, Copy, Debug, PartialEq, Eq, Structural)]
pub enum MarketVersion {
    V2,
    V3,
}

impl Default for MarketVersion {
    fn default() -> (v: MarketVersion)
        ensures
            v == MarketVersion::V2,
    {
        MarketVersion::V2
    }
}

/// The state of a market at one moment, in base units.
#[derive(Clone, Debug, PartialEq, Eq)]
pub struct LiquiditySnapshot {
    pub available_liquidity: U256,
    pub total_borrows: U256,
    pub total_reserves: U256,
    pub symbol: String,
}

/// What a V3 market reports besides its snapshot. None of it takes part in
/// the decision to alert.
#[derive(Clone, Copy, Debug, PartialEq, Eq)]
pub struct MarketRates {
    pub total_supply: U256,
    pub utilization: U256,
    pub supply_rate: u64,
    pub borrow_rate: u64,
}

/// The result of reading a market.
#[derive(Clone, Debug, PartialEq, Eq)]
pub struct MarketReading {
    pub snapshot: LiquiditySnapshot,
    pub rates: Option<MarketRates>,
}

/// How far a reading has come, with what it has gathered. Each stage but
/// `Closed` awaits the reply to one call.
#[derive(Clone, Copy, Debug, PartialEq, Eq)]
pub enum ReadStage {
    Cash,
    Borrows { cash: U256 },
    Reserves { cash: U256, borrows: U256 },
    Symbol { cash: U256, borrows: U256, reserves: U256 },
    BaseToken,
    Liquidity { base_token: Address },
    TotalSupply { liquidity: U256 },
    TotalBorrow { liquidity: U256, total_supply: U256 },
    SignedReserves { liquidity: U256, total_supply: U256, total_borrow: U256 },
    Utilization { liquidity: U256, total_supply: U256, total_borrow: U256, reserves: U256 },
    SupplyRate {
        liquidity: U256,
        total_supply: U256,
        total_borrow: U256,
        reserves: U256,
        utilization: U256,
    },
    BorrowRate {
        liquidity: U256,
        total_supply: U256,
        total_borrow: U256,
        reserves: U256,
        utilization: U256,
        supply_rate: u64,
    },
    Closed,
}

/// What an accepted reply leads to.
#[derive(Clone, Debug, PartialEq, Eq)]
pub enum Progress {
    Next(ReadStage),
    Finish(MarketReading),
}

/// The first stage of a reading.
pub open spec fn first_stage(version: MarketVersion) -> ReadStage {
    match version {
        MarketVersion::V2 => ReadStage::Cash,
        MarketVersion::V3 => ReadStage::BaseToken,
    }
}

/// The call whose reply a stage awaits.
pub open spec fn awaited(market: Address, stage: ReadStage) -> Option<LedgerCall> {
    match stage {
        ReadStage::Cash => Some(LedgerCall::Cash { market }),
        ReadStage::Borrows { .. } => Some(LedgerCall::TotalBorrows { market }),
        ReadStage::Reserves { .. } => Some(LedgerCall::TotalReserves { market }),
        ReadStage::Symbol { .. } => Some(LedgerCall::MarketSymbol { market }),
        ReadStage::BaseToken => Some(LedgerCall::BaseToken { market }),
        ReadStage::Liquidity { base_token } => Some(
            LedgerCall::TokenBalance { token: base_token, holder: market },
        ),
        ReadStage::TotalSupply { .. } => Some(LedgerCall::TotalSupply { market }),
        ReadStage::TotalBorrow { .. } => Some(LedgerCall::TotalBorrow { market }),
        ReadStage::SignedReserves { .. } => Some(LedgerCall::Reserves { market }),
        ReadStage::Utilization { .. } => Some(LedgerCall::Utilization { market }),
        ReadStage::SupplyRate { utilization, .. } => Some(
            LedgerCall::SupplyRate { market, utilization },
        ),
        ReadStage::BorrowRate { utilization, .. } => Some(
            LedgerCall::BorrowRate { market, utilization },
        ),
        ReadStage::Closed => None,
    }
}

/// Where a reply of the awaited sort leads from a stage; `None` for any
/// other reply.
pub open spec fn accept(symbol: String, stage: ReadStage, reply: LedgerReply) -> Option<Progress> {
    match stage {
        ReadStage::Cash => match reply {
            LedgerReply::Amount(cash) => Some(Progress::Next(ReadStage::Borrows { cash })),
            _ => None,
        },
        ReadStage::Borrows { cash } => match reply {
            LedgerReply::Amount(borrows) => Some(
                Progress::Next(ReadStage::Reserves { cash, borrows }),
            ),
            _ => None,
        },
        ReadStage::Reserves { cash, borrows } => match reply {
            LedgerReply::Amount(reserves) => Some(
                Progress::Next(ReadStage::Symbol { cash, borrows, reserves }),
            ),
            _ => None,
        },
        ReadStage::Symbol { cash, borrows, reserves } => match reply {
            LedgerReply::Text(name) => Some(
                Progress::Finish(
                    MarketReading {
                        snapshot: LiquiditySnapshot {
                            available_liquidity: cash,
                            total_borrows: borrows,
                            total_reserves: reserves,
                            symbol: name,
                        },
                        rates: None,
                    },
                ),
            ),
            _ => None,
        },
        ReadStage::BaseToken => match reply {
            LedgerReply::Account(base_token) => Some(
                Progress::Next(ReadStage::Liquidity { base_token }),
            ),
            _ => None,
        },
        ReadStage::Liquidity { .. } => match reply {
            LedgerReply::Amount(liquidity) => Some(
                Progress::Next(ReadStage::TotalSupply { liquidity }),
            ),
            _ => None,
        },
        ReadStage::TotalSupply { liquidity } => match reply {
            LedgerReply::Amount(total_supply) => Some(
                Progress::Next(ReadStage::TotalBorrow { liquidity, total_supply }),
            ),
            _ => None,
        },
        ReadStage::TotalBorrow { liquidity, total_supply } => match reply {
            LedgerReply::Amount(total_borrow) => Some(
                Progress::Next(ReadStage::SignedReserves { liquidity, total_supply, total_borrow }),
            ),
            _ => None,
        },
        ReadStage::SignedReserves { liquidity, total_supply, total_borrow } => match reply {
            LedgerReply::Signed(reserves) => Some(
                Progress::Next(
                    ReadStage::Utilization {
                        liquidity,
                        total_supply,
                        total_borrow,
                        reserves: reserves.clamped(),
                    },
                ),
            ),
            _ => None,
        },
        ReadStage::Utilization { liquidity, total_supply, total_borrow, reserves } => match reply {
            LedgerReply::Amount(utilization) => Some(
                Progress::Next(
                    ReadStage::SupplyRate {
                        liquidity,
                        total_supply,
                        total_borrow,
                        reserves,
                        utilization,
                    },
                ),
            ),
            _ => None,
        },
        ReadStage::SupplyRate {
            liquidity,
            total_supply,
            total_borrow,
            reserves,
            utilization,
        } => match reply {
            LedgerReply::Rate(supply_rate) => Some(
                Progress::Next(
                    ReadStage::BorrowRate {
                        liquidity,
                        total_supply,
                        total_borrow,
                        reserves,
                        utilization,
                        supply_rate,
                    },
                ),
            ),
            _ => None,
        },
        ReadStage::BorrowRate {
            liquidity,
            total_supply,
            total_borrow,
            reserves,
            utilization,
            supply_rate,
        } => match reply {
            LedgerReply::Rate(borrow_rate) => Some(
                Progress::Finish(
                    MarketReading {
                        snapshot: LiquiditySnapshot {
                            available_liquidity: liquidity,
                            total_borrows: total_borrow,
                            total_reserves: reserves,
                            symbol,
                        },
                        rates: Some(
                            MarketRates { total_supply, utilization, supply_rate, borrow_rate },
                        ),
                    },
                ),
            ),
            _ => None,
        },
        ReadStage::Closed => None,
    }
}

/// The stage that follows a reply. A reply that is not accepted closes the
/// reading: there is no second attempt and no partial snapshot.
pub open spec fn stage_after(symbol: String, stage: ReadStage, reply: LedgerReply) -> ReadStage {
    match accept(symbol, stage, reply) {
        Some(Progress::Next(next)) => next,
        _ => ReadStage::Closed,
    }
}

/// What the reading wants after a reply: the next call, the finished
/// reading, or the failure that closed it.
pub open spec fn step_after(
    market: Address,
    symbol: String,
    stage: ReadStage,
    reply: LedgerReply,
) -> Step<MarketReading> {
    match awaited(market, stage) {
        None => Step::Failed(
            MonitorError { kind: ErrorKind::Read, reason: Reason::NothingAwaited, detail: None },
        ),
        Some(call) => match accept(symbol, stage, reply) {
            Some(Progress::Next(next)) => Step::Call(awaited(market, next)->0),
            Some(Progress::Finish(reading)) => Step::Done(reading),
            None => Step::Failed(rejection(call, reply)),
        },
    }
}

/// The name under which a V3 market is reported when none is configured.
pub open spec fn default_symbol() -> Seq<char> {
    "cUSDCv3"@
}

/// A reading of one market in progress.
#[derive(Clone, Debug, PartialEq, Eq)]
pub struct SnapshotReader {
    pub market: Address,
    pub symbol: String,
    pub stage: ReadStage,
}

impl ReadStage {
    /// The call whose reply the stage awaits.
    pub fn call(&self, market: Address) -> (call: Option<LedgerCall>)
        ensures
            call == awaited(market, *self),
    {
        match self {
            ReadStage::Cash => Some(LedgerCall::Cash { market }),
            ReadStage::Borrows { .. } => Some(LedgerCall::TotalBorrows { market }),
            ReadStage::Reserves { .. } => Some(LedgerCall::TotalReserves { market }),
            ReadStage::Symbol { .. } => Some(LedgerCall::MarketSymbol { market }),
            ReadStage::BaseToken => Some(LedgerCall::BaseToken { market }),
            ReadStage::Liquidity { base_token } => Some(
                LedgerCall::TokenBalance { token: *base_token, holder: market },
            ),
            ReadStage::TotalSupply { .. } => Some(LedgerCall::TotalSupply { market }),
            ReadStage::TotalBorrow { .. } => Some(LedgerCall::TotalBorrow { market }),
            ReadStage::SignedReserves { .. } => Some(LedgerCall::Reserves { market }),
            ReadStage::Utilization { .. } => Some(LedgerCall::Utilization { market }),
            ReadStage::SupplyRate { utilization, .. } => Some(
                LedgerCall::SupplyRate { market, utilization: *utilization },
            ),
            ReadStage::BorrowRate { utilization, .. } => Some(
                LedgerCall::BorrowRate { market, utilization: *utilization },
            ),
            ReadStage::Closed => None,
        }
    }
}

impl SnapshotReader {
    /// Starts to read the market at `market_address`, and names the first
    /// call. A V3 market is reported under `market_name`, or under "cUSDCv3"
    /// where none is given; a V2 market reports its own symbol.
    ///
    /// A malformed address is a failed read: nothing is called.
    pub fn open(version: MarketVersion, market_address: &str, market_name: Option<String>) -> (r:
        Result<(SnapshotReader, LedgerCall), MonitorError>)
        ensures
            match address_bytes(market_address@) {
                None => r == Err::<(SnapshotReader, LedgerCall), MonitorError>(
                    MonitorError {
                        kind: ErrorKind::Read,
                        reason: Reason::MarketAddress,
                        detail: None,
                    },
                ),
                Some(bytes) => {
                    &&& r is Ok
                    &&& r->Ok_0.0.market@ == bytes
                    &&& r->Ok_0.0.stage == first_stage(version)
                    &&& Some(r->Ok_0.1) == awaited(r->Ok_0.0.market, first_stage(version))
                    &&& match market_name {
                        Some(name) => r->Ok_0.0.symbol == name,
                        None => r->Ok_0.0.symbol@ == default_symbol(),
                    }
                },
            },
    {
        let market = match Address::parse(market_address) {
            Some(market) => market,
            None => {
                return Err(MonitorError::new(ErrorKind::Read, Reason::MarketAddress));
            },
        };
        let symbol = match market_name {
            Some(name) => name,
            None => String::from_str("cUSDCv3"),
        };
        match version {
            MarketVersion::V2 => Ok(
                (
                    SnapshotReader { market, symbol, stage: ReadStage::Cash },
                    LedgerCall::Cash { market },
                ),
            ),
            MarketVersion::V3 => Ok(
                (
                    SnapshotReader { market, symbol, stage: ReadStage::BaseToken },
                    LedgerCall::BaseToken { market },
                ),
            ),
        }
    }

    /// Takes a reply of the awaited sort into the reading; any other reply
    /// is handed back.
    fn take(&self, reply: LedgerReply) -> (r: Result<Progress, LedgerReply>)
        ensures
            match r {
                Ok(progress) => accept(self.symbol, self.stage, reply) == Some(progress),
                Err(back) => accept(self.symbol, self.stage, reply) is None && back == reply,
            },
    {
        match self.stage {
            ReadStage::Cash => match reply {
                LedgerReply::Amount(cash) => Ok(Progress::Next(ReadStage::Borrows { cash })),
                other => Err(other),
            },
            ReadStage::Borrows { cash } => match reply {
                LedgerReply::Amount(borrows) => Ok(
                    Progress::Next(ReadStage::Reserves { cash, borrows }),
                ),
                other => Err(other),
            },
            ReadStage::Reserves { cash, borrows } => match reply {
                LedgerReply::Amount(reserves) => Ok(
                    Progress::Next(ReadStage::Symbol { cash, borrows, reserves }),
                ),
                other => Err(other),
            },
            ReadStage::Symbol { cash, borrows, reserves } => match reply {
                LedgerReply::Text(name) => Ok(
                    Progress::Finish(
                        MarketReading {
                            snapshot: LiquiditySnapshot {
                                available_liquidity: cash,
                                total_borrows: borrows,
                                total_reserves: reserves,
                                symbol: name,
                            },
                            rates: None,
                        },
                    ),
                ),
                other => Err(other),
            },
            ReadStage::BaseToken => match reply {
                LedgerReply::Account(base_token) => Ok(
                    Progress::Next(ReadStage::Liquidity { base_token }),
                ),
                other => Err(other),
            },
            ReadStage::Liquidity { .. } => match reply {
                LedgerReply::Amount(liquidity) => Ok(
                    Progress::Next(ReadStage::TotalSupply { liquidity }),
                ),
                other => Err(other),
            },
            ReadStage::TotalSupply { liquidity } => match reply {
                LedgerReply::Amount(total_supply) => Ok(
                    Progress::Next(ReadStage::TotalBorrow { liquidity, total_supply }),
                ),
                other => Err(other),
            },
            ReadStage::TotalBorrow { liquidity, total_supply } => match reply {
                LedgerReply::Amount(total_borrow) => Ok(
                    Progress::Next(
                        ReadStage::SignedReserves { liquidity, total_supply, total_borrow },
                    ),
                ),
                other => Err(other),
            },
            ReadStage::SignedReserves { liquidity, total_supply, total_borrow } => match reply {
                LedgerReply::Signed(reserves) => Ok(
                    Progress::Next(
                        ReadStage::Utilization {
                            liquidity,
                            total_supply,
                            total_borrow,
                            reserves: reserves.clamp_to_amount(),
                        },
                    ),
                ),
                other => Err(other),
            },
            ReadStage::Utilization {
                liquidity,
                total_supply,
                total_borrow,
                reserves,
            } => match reply {
                LedgerReply::Amount(utilization) => Ok(
                    Progress::Next(
                        ReadStage::SupplyRate {
                            liquidity,
                            total_supply,
                            total_borrow,
                            reserves,
                            utilization,
                        },
                    ),
                ),
                other => Err(other),
            },
            ReadStage::SupplyRate {
                liquidity,
                total_supply,
                total_borrow,
                reserves,
                utilization,
            } => match reply {
                LedgerReply::Rate(supply_rate) => Ok(
                    Progress::Next(
                        ReadStage::BorrowRate {
                            liquidity,
                            total_supply,
                            total_borrow,
                            reserves,
                            utilization,
                            supply_rate,
                        },
                    ),
                ),
                other => Err(other),
            },
            ReadStage::BorrowRate {
                liquidity,
                total_supply,
                total_borrow,
                reserves,
                utilization,
                supply_rate,
            } => match reply {
                LedgerReply::Rate(borrow_rate) => Ok(
                    Progress::Finish(
                        MarketReading {
                            snapshot: LiquiditySnapshot {
                                available_liquidity: liquidity,
                                total_borrows: total_borrow,
                                total_reserves: reserves,
                                symbol: self.symbol.clone(),
                            },
                            rates: Some(
                                MarketRates { total_supply, utilization, supply_rate, borrow_rate },
                            ),
                        },
                    ),
                ),
                other => Err(other),
            },
            ReadStage::Closed => Err(reply),
        }
    }

    /// Takes the reply to the awaited call, and says what the reading wants
    /// next. Any reply but a value of the awaited sort closes the reading
    /// with a read failure.
    pub fn advance(&mut self, reply: LedgerReply) -> (step: Step<MarketReading>)
        ensures
            step == step_after(old(self).market, old(self).symbol, old(self).stage, reply),
            final(self).stage == stage_after(old(self).symbol, old(self).stage, reply),
            final(self).market == old(self).market,
            final(self).symbol == old(self).symbol,
    {
        let call = match self.stage.call(self.market) {
            Some(call) => call,
            None => {
                return Step::Failed(MonitorError::new(ErrorKind::Read, Reason::NothingAwaited));
            },
        };
        match self.take(reply) {
            Ok(Progress::Next(next)) => {
                self.stage = next;
                match next.call(self.market) {
                    Some(call) => Step::Call(call),
                    None => Step::Failed(
                        MonitorError::new(ErrorKind::Read, Reason::NothingAwaited),
                    ),
                }
            },
            Ok(Progress::Finish(reading)) => {
                self.stage = ReadStage::Closed;
                Step::Done(reading)
            },
            Err(back) => {
                self.stage = ReadStage::Closed;
                Step::Failed(reject(call, back))
            },
        }
    }
}

/// A reading of a V3 market: after the base token it asks for the balance of
/// that token which the market contract holds, and it reports exactly that
/// balance as the available liquidity, whatever the market counts as supplied
/// and borrowed. Reserves below zero are reported as zero, others as they are.
pub proof fn lemma_v3_reading(
    market: Address,
    symbol: String,
    base_token: Address,
    balance: U256,
    total_supply: U256,
    total_borrow: U256,
    reserves: I256,
    utilization: U256,
    supply_rate: u64,
    borrow_rate: u64,
)
    ensures
        ({
            let s1 = stage_after(symbol, ReadStage::BaseToken, LedgerReply::Account(base_token));
            let s2 = stage_after(symbol, s1, LedgerReply::Amount(balance));
            let s3 = stage_after(symbol, s2, LedgerReply::Amount(total_supply));
            let s4 = stage_after(symbol, s3, LedgerReply::Amount(total_borrow));
            let s5 = stage_after(symbol, s4, LedgerReply::Signed(reserves));
            let s6 = stage_after(symbol, s5, LedgerReply::Amount(utilization));
            let s7 = stage_after(symbol, s6, LedgerReply::Rate(supply_rate));
            let last = step_after(market, symbol, s7, LedgerReply::Rate(borrow_rate));
            &&& step_after(market, symbol, ReadStage::BaseToken, LedgerReply::Account(base_token))
                == Step::<MarketReading>::Call(
                LedgerCall::TokenBalance { token: base_token, holder: market },
            )
            &&& last is Done
            &&& last->Done_0.snapshot.available_liquidity == balance
            &&& last->Done_0.snapshot.total_borrows == total_borrow
            &&& last->Done_0.snapshot.total_reserves@ == if reserves@ < 0 {
                0
            } else {
                reserves@
            }
            &&& last->Done_0.snapshot.symbol == symbol
            &&& stage_after(symbol, s7, LedgerReply::Rate(borrow_rate)) == ReadStage::Closed
        }),
{
}

/// A reading of a V2 market reports the four values that the market gives,
/// as they are.
pub proof fn lemma_v2_reading(
    market: Address,
    symbol: String,
    cash: U256,
    borrows: U256,
    reserves: U256,
    name: String,
)
    ensures
        ({
            let s1 = stage_after(symbol, ReadStage::Cash, LedgerReply::Amount(cash));
            let s2 = stage_after(symbol, s1, LedgerReply::Amount(borrows));
            let s3 = stage_after(symbol, s2, LedgerReply::Amount(reserves));
            step_after(market, symbol, s3, LedgerReply::Text(name)) == Step::Done(
                MarketReading {
                    snapshot: LiquiditySnapshot {
                        available_liquidity: cash,
                        total_borrows: borrows,
                        total_reserves: reserves,
                        symbol: name,
                    },
                    rates: None,
                },
            )
        }),
{
}

/// The number of replies that a reading still needs at most.
pub open spec fn replies_left(stage: ReadStage) -> nat {
    match stage {
        ReadStage::Cash => 4,
        ReadStage::Borrows { .. } => 3,
        ReadStage::Reserves { .. } => 2,
        ReadStage::Symbol { .. } => 1,
        ReadStage::BaseToken => 8,
        ReadStage::Liquidity { .. } => 7,
        ReadStage::TotalSupply { .. } => 6,
        ReadStage::TotalBorrow { .. } => 5,
        ReadStage::SignedReserves { .. } => 4,
        ReadStage::Utilization { .. } => 3,
        ReadStage::SupplyRate { .. } => 2,
        ReadStage::BorrowRate { .. } => 1,
        ReadStage::Closed => 0,
    }
}

/// Every reading comes to an end: each reply brings it one reply nearer to
/// it, so that a V2 market is read with four calls and a V3 market with
/// eight, and a reading is closed exactly when it names no further call.
pub proof fn lemma_reading_ends(
    market: Address,
    symbol: String,
    stage: ReadStage,
    reply: LedgerReply,
)
    ensures
        stage != ReadStage::Closed ==> replies_left(stage_after(symbol, stage, reply))
            < replies_left(stage),
        step_after(market, symbol, stage, reply) is Call <==> stage_after(symbol, stage, reply)
            != ReadStage::Closed,
        step_after(market, symbol, stage, reply) is Call ==> Some(
            step_after(market, symbol, stage, reply)->Call_0,
        ) == awaited(market, stage_after(symbol, stage, reply)),
{
}

/// A reading fails fast: a failed call, or a reply of the wrong sort, closes
/// it with a read failure, and a closed reading answers every further reply
/// with a failure. No reading is ever finished from fewer replies than it
/// asks for.
pub proof fn lemma_reading_fails_fast(
    market: Address,
    symbol: String,
    stage: ReadStage,
    reply: LedgerReply,
)
    ensures
        reply is Failed ==> step_after(market, symbol, stage, reply) is Failed,
        step_after(market, symbol, stage, reply) is Failed ==> stage_after(symbol, stage, reply)
            == ReadStage::Closed,
        step_after(market, symbol, stage, reply) is Failed ==> step_after(
            market,
            symbol,
            stage,
            reply,
        )->Failed_0.kind == ErrorKind::Read,
        stage == ReadStage::Closed ==> step_after(market, symbol, stage, reply) is Failed,
        step_after(market, symbol, stage, reply) is Done ==> (stage is Symbol || stage
            is BorrowRate),
{
}

} // verus!
