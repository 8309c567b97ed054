//! Balances of accounts: what an account holds of a market's base token in
//! its wallet and in the market, as amounts and as text.

use crate::address::{address_bytes, Address};
use crate::decimal::{lemma_pow10_positive, pow10};
use crate::error::{ErrorKind, MonitorError, Reason};
use crate::format::{balance_text, format_balance};
use crate::ledger::{reject, rejection, LedgerCall, LedgerReply, Step};
use crate::uint::U256;
use vstd::prelude::*;

verus! {

/// The largest number of decimals for which a divisor is formed: ten to
/// this power is the largest power of ten below 2^128.
pub const MAX_DECIMALS: u8 = 38;

/// Ten to the power `decimals`, the number of base units in a whole token;
/// none for more than 38 decimals.
pub fn decimal_divisor(decimals: u8) -> (r: Option<U256>)
    ensures
        match r {
            Some(divisor) => decimals <= MAX_DECIMALS && divisor@ == pow10(decimals as nat),
            None => decimals > MAX_DECIMALS,
        },
{
    if decimals > MAX_DECIMALS {
        return None;
    }
    let mut power: u128 = 1;
    let mut done: u8 = 0;
    while done < decimals
        invariant
            done <= decimals <= MAX_DECIMALS,
            power == pow10(done as nat),
        decreases decimals - done,
    {
        proof {
            lemma_pow10_bounded((done + 1) as nat);
        }
        power = power * 10;
        done = done + 1;
    }
    Some(U256::from_u128(power))
}

/// Up to 38, a power of ten is below 2^128.
pub proof fn lemma_pow10_bounded(k: nat)
    requires
        k <= 38,
    ensures
        pow10(k) <= 100000000000000000000000000000000000000,
    decreases 38 - k,
{
    if k == 38 {
        reveal_with_fuel(pow10, 39);
    } else {
        lemma_pow10_bounded(k + 1);
        lemma_pow10_positive(k);
    }
}

/// One account whose balances are watched.
#[derive(Clone, Debug, PartialEq, Eq)]
pub struct MonitorAddress {
    pub name: String,
    pub address: String,
}

/// The balances of one account.
#[derive(Clone, Debug, PartialEq, Eq)]
pub struct BalanceReport {
    pub name: Option<String>,
    pub address: Address,
    pub base_token: Address,
    pub symbol: String,
    pub decimals: u8,
    pub wallet_balance: U256,
    pub wallet_text: String,
    pub market_balance: U256,
    pub market_text: String,
}

/// How far a balance check has come. Each stage but `Closed` awaits the
/// reply to one call.
#[derive(Clone, Copy, Debug, PartialEq, Eq)]
pub enum BalanceStage {
    BaseToken,
    Symbol { base_token: Address },
    Decimals { base_token: Address },
    Wallet { base_token: Address, decimals: u8 },
    Market { base_token: Address, decimals: u8, wallet_balance: U256 },
    Closed,
}

/// A check of one account's balances in progress.
#[derive(Clone, Debug, PartialEq, Eq)]
pub struct BalanceCheck {
    pub market: Address,
    pub account: Address,
    pub name: Option<String>,
    pub symbol: Option<String>,
    pub stage: BalanceStage,
}

/// The failure of a check that cannot start, if it cannot: a malformed
/// account address is reported before a malformed market address.
pub open spec fn open_failure(market_address: Seq<char>, account_address: Seq<char>) -> Option<
    MonitorError,
> {
    if address_bytes(account_address) is None {
        Some(
            MonitorError { kind: ErrorKind::Input, reason: Reason::AccountAddress, detail: None },
        )
    } else if address_bytes(market_address) is None {
        Some(
            MonitorError {
                kind: ErrorKind::Configuration,
                reason: Reason::MarketAddress,
                detail: None,
            },
        )
    } else {
        None
    }
}

/// Whether `report` states the two balances of an account at `decimals`
/// decimals, each as the amount and as its text.
pub open spec fn report_states(
    report: BalanceReport,
    decimals: u8,
    wallet_balance: U256,
    market_balance: U256,
) -> bool {
    &&& report.decimals == decimals
    &&& report.wallet_balance == wallet_balance
    &&& report.market_balance == market_balance
    &&& report.wallet_text@ == balance_text(wallet_balance@, pow10(decimals as nat))
    &&& report.market_text@ == balance_text(market_balance@, pow10(decimals as nat))
}

impl BalanceCheck {
    /// The call whose reply the check awaits.
    pub open spec fn awaited(self) -> Option<LedgerCall> {
        match self.stage {
            BalanceStage::BaseToken => Some(LedgerCall::BaseToken { market: self.market }),
            BalanceStage::Symbol { base_token } => Some(
                LedgerCall::TokenSymbol { token: base_token },
            ),
            BalanceStage::Decimals { base_token } => Some(
                LedgerCall::TokenDecimals { token: base_token },
            ),
            BalanceStage::Wallet { base_token, .. } => Some(
                LedgerCall::TokenBalance { token: base_token, holder: self.account },
            ),
            BalanceStage::Market { .. } => Some(
                LedgerCall::MarketBalance { market: self.market, account: self.account },
            ),
            BalanceStage::Closed => None,
        }
    }

    /// The stage to which a reply of the awaited sort leads, where the check
    /// goes on; `None` for any other reply, and for the reply that ends the
    /// check.
    pub open spec fn next_stage(self, reply: LedgerReply) -> Option<BalanceStage> {
        match self.stage {
            BalanceStage::BaseToken => match reply {
                LedgerReply::Account(base_token) => Some(BalanceStage::Symbol { base_token }),
                _ => None,
            },
            BalanceStage::Symbol { base_token } => match reply {
                LedgerReply::Text(_) => Some(BalanceStage::Decimals { base_token }),
                _ => None,
            },
            BalanceStage::Decimals { base_token } => match reply {
                LedgerReply::Decimals(decimals) => if decimals <= MAX_DECIMALS {
                    Some(BalanceStage::Wallet { base_token, decimals })
                } else {
                    None
                },
                _ => None,
            },
            BalanceStage::Wallet { base_token, decimals } => match reply {
                LedgerReply::Amount(wallet_balance) => Some(
                    BalanceStage::Market { base_token, decimals, wallet_balance },
                ),
                _ => None,
            },
            BalanceStage::Market { .. } => None,
            BalanceStage::Closed => None,
        }
    }

    /// The failure with which a reply closes the check, if it does: the
    /// rejection of the awaited call, or a token with more decimals than a
    /// divisor can be formed for.
    pub open spec fn failure(self, reply: LedgerReply) -> Option<MonitorError> {
        match self.awaited() {
            None => Some(
                MonitorError { kind: ErrorKind::Read, reason: Reason::NothingAwaited, detail: None },
            ),
            Some(call) => if self.next_stage(reply) is Some {
                None
            } else if self.stage is Decimals && reply is Decimals {
                Some(
                    MonitorError {
                        kind: ErrorKind::Read,
                        reason: Reason::Decimals(reply->Decimals_0),
                        detail: None,
                    },
                )
            } else if self.stage is Market && reply is Amount {
                if self.stage->Market_decimals <= MAX_DECIMALS {
                    None
                } else {
                    Some(
                        MonitorError {
                            kind: ErrorKind::Read,
                            reason: Reason::Decimals(self.stage->Market_decimals),
                            detail: None,
                        },
                    )
                }
            } else {
                Some(rejection(call, reply))
            },
        }
    }

    /// Whether `after` and `step` are what a reply makes of the check.
    ///
    /// A reply of the awaited sort leads to the next call; the symbol is
    /// kept when it arrives. The last reply, the balance in the market,
    /// ends the check with the report. Any other reply closes the check with
    /// its failure.
    pub open spec fn steps_to(self, reply: LedgerReply, after: BalanceCheck, step: Step<
        BalanceReport,
    >) -> bool {
        &&& after.market == self.market
        &&& after.account == self.account
        &&& after.name == self.name
        &&& match self.failure(reply) {
            Some(e) => {
                &&& step == Step::<BalanceReport>::Failed(e)
                &&& after.stage == BalanceStage::Closed
                &&& after.symbol == self.symbol
            },
            None => match self.next_stage(reply) {
                Some(next) => {
                    &&& after.stage == next
                    &&& step == Step::<BalanceReport>::Call(after.awaited()->0)
                    &&& after.symbol == if self.stage is Symbol {
                        Some(reply->Text_0)
                    } else {
                        self.symbol
                    }
                },
                None => {
                    &&& after.stage == BalanceStage::Closed
                    &&& after.symbol == self.symbol
                    &&& step is Done
                    &&& step->Done_0.name == self.name
                    &&& step->Done_0.address == self.account
                    &&& step->Done_0.base_token == self.stage->Market_base_token
                    &&& self.symbol matches Some(symbol) ==> step->Done_0.symbol == symbol
                    &&& self.symbol is None ==> step->Done_0.symbol@.len() == 0
                    &&& report_states(
                        step->Done_0,
                        self.stage->Market_decimals,
                        self.stage->Market_wallet_balance,
                        reply->Amount_0,
                    )
                },
            },
        }
    }

    /// The call whose reply the check awaits.
    pub fn call(&self) -> (call: Option<LedgerCall>)
        ensures
            call == self.awaited(),
    {
        match self.stage {
            BalanceStage::BaseToken => Some(LedgerCall::BaseToken { market: self.market }),
            BalanceStage::Symbol { base_token } => Some(
                LedgerCall::TokenSymbol { token: base_token },
            ),
            BalanceStage::Decimals { base_token } => Some(
                LedgerCall::TokenDecimals { token: base_token },
            ),
            BalanceStage::Wallet { base_token, .. } => Some(
                LedgerCall::TokenBalance { token: base_token, holder: self.account },
            ),
            BalanceStage::Market { .. } => Some(
                LedgerCall::MarketBalance { market: self.market, account: self.account },
            ),
            BalanceStage::Closed => None,
        }
    }

    /// Starts to check the balances of the account at `account_address` in
    /// the market at `market_address`, and names the first call. A malformed
    /// address is reported at once, the account's before the market's.
    pub fn open(market_address: &str, account_address: &str, name: Option<String>) -> (r: Result<
        (BalanceCheck, LedgerCall),
        MonitorError,
    >)
        ensures
            match open_failure(market_address@, account_address@) {
                Some(e) => r == Err::<(BalanceCheck, LedgerCall), MonitorError>(e),
                None => {
                    &&& r is Ok
                    &&& Some(r->Ok_0.0.market@) == address_bytes(market_address@)
                    &&& Some(r->Ok_0.0.account@) == address_bytes(account_address@)
                    &&& r->Ok_0.0.name == name
                    &&& r->Ok_0.0.symbol is None
                    &&& r->Ok_0.0.stage == BalanceStage::BaseToken
                    &&& r->Ok_0.1 == (LedgerCall::BaseToken { market: r->Ok_0.0.market })
                },
            },
    {
        let account = match Address::parse(account_address) {
            Some(account) => account,
            None => {
                return Err(MonitorError::new(ErrorKind::Input, Reason::AccountAddress));
            },
        };
        let market = match Address::parse(market_address) {
            Some(market) => market,
            None => {
                return Err(MonitorError::new(ErrorKind::Configuration, Reason::MarketAddress));
            },
        };
        Ok(
            (
                BalanceCheck { market, account, name, symbol: None, stage: BalanceStage::BaseToken },
                LedgerCall::BaseToken { market },
            ),
        )
    }

    /// Closes the check with a failure.
    fn fail(&mut self, e: MonitorError) -> (step: Step<BalanceReport>)
        ensures
            step == Step::<BalanceReport>::Failed(e),
            final(self).stage == BalanceStage::Closed,
            final(self).market == old(self).market,
            final(self).account == old(self).account,
            final(self).name == old(self).name,
            final(self).symbol == old(self).symbol,
    {
        self.stage = BalanceStage::Closed;
        Step::Failed(e)
    }

    /// Moves the check to its next stage and names the call of that stage.
    fn proceed(&mut self, next: BalanceStage) -> (step: Step<BalanceReport>)
        requires
            !(next is Closed),
        ensures
            final(self).stage == next,
            step == Step::<BalanceReport>::Call(final(self).awaited()->0),
            final(self).market == old(self).market,
            final(self).account == old(self).account,
            final(self).name == old(self).name,
            final(self).symbol == old(self).symbol,
    {
        self.stage = next;
        match self.call() {
            Some(call) => Step::Call(call),
            None => Step::Failed(MonitorError::new(ErrorKind::Read, Reason::NothingAwaited)),
        }
    }

    /// The report of the check, from the two balances and the number of base
    /// units in a whole token.
    fn report(
        &self,
        base_token: Address,
        decimals: u8,
        divisor: U256,
        wallet_balance: U256,
        market_balance: U256,
    ) -> (report: BalanceReport)
        requires
            divisor@ == pow10(decimals as nat),
        ensures
            report.name == self.name,
            report.address == self.account,
            report.base_token == base_token,
            self.symbol matches Some(symbol) ==> report.symbol == symbol,
            self.symbol is None ==> report.symbol@.len() == 0,
            report_states(report, decimals, wallet_balance, market_balance),
    {
        let name = match &self.name {
            Some(name) => Some(name.clone()),
            None => None,
        };
        let symbol = match &self.symbol {
            Some(symbol) => symbol.clone(),
            None => String::new(),
        };
        BalanceReport {
            name,
            address: self.account,
            base_token,
            symbol,
            decimals,
            wallet_balance,
            wallet_text: format_balance(wallet_balance, divisor),
            market_balance,
            market_text: format_balance(market_balance, divisor),
        }
    }

    /// Takes the reply to the awaited call, and says what the check wants
    /// next.
    pub fn advance(&mut self, reply: LedgerReply) -> (step: Step<BalanceReport>)
        ensures
            old(self).steps_to(reply, *final(self), step),
    {
        let call = match self.call() {
            Some(call) => call,
            None => {
                return self.fail(MonitorError::new(ErrorKind::Read, Reason::NothingAwaited));
            },
        };
        match self.stage {
            BalanceStage::BaseToken => match reply {
                LedgerReply::Account(base_token) => self.proceed(
                    BalanceStage::Symbol { base_token },
                ),
                other => self.fail(reject(call, other)),
            },
            BalanceStage::Symbol { base_token } => match reply {
                LedgerReply::Text(symbol) => {
                    self.symbol = Some(symbol);
                    self.proceed(BalanceStage::Decimals { base_token })
                },
                other => self.fail(reject(call, other)),
            },
            BalanceStage::Decimals { base_token } => match reply {
                LedgerReply::Decimals(decimals) => {
                    if decimals <= MAX_DECIMALS {
                        self.proceed(BalanceStage::Wallet { base_token, decimals })
                    } else {
                        self.fail(MonitorError::new(ErrorKind::Read, Reason::Decimals(decimals)))
                    }
                },
                other => self.fail(reject(call, other)),
            },
            BalanceStage::Wallet { base_token, decimals } => match reply {
                LedgerReply::Amount(wallet_balance) => self.proceed(
                    BalanceStage::Market { base_token, decimals, wallet_balance },
                ),
                other => self.fail(reject(call, other)),
            },
            BalanceStage::Market { base_token, decimals, wallet_balance } => match reply {
                LedgerReply::Amount(market_balance) => match decimal_divisor(decimals) {
                    Some(divisor) => {
                        let report = self.report(
                            base_token,
                            decimals,
                            divisor,
                            wallet_balance,
                            market_balance,
                        );
                        self.stage = BalanceStage::Closed;
                        Step::Done(report)
                    },
                    None => self.fail(
                        MonitorError::new(ErrorKind::Read, Reason::Decimals(decimals)),
                    ),
                },
                other => self.fail(reject(call, other)),
            },
            BalanceStage::Closed => self.fail(
                MonitorError::new(ErrorKind::Read, Reason::NothingAwaited),
            ),
        }
    }
}

/// The number of replies that a balance check still needs at most.
pub open spec fn replies_left(stage: BalanceStage) -> nat {
    match stage {
        BalanceStage::BaseToken => 5,
        BalanceStage::Symbol { .. } => 4,
        BalanceStage::Decimals { .. } => 3,
        BalanceStage::Wallet { .. } => 2,
        BalanceStage::Market { .. } => 1,
        BalanceStage::Closed => 0,
    }
}

/// Every balance check comes to an end: each reply brings it one reply
/// nearer to it, so that an account is checked with five calls, and a check is
/// closed exactly when it names no further call.
pub proof fn lemma_check_ends(
    check: BalanceCheck,
    reply: LedgerReply,
    after: BalanceCheck,
    step: Step<BalanceReport>,
)
    requires
        check.steps_to(reply, after, step),
    ensures
        check.stage != BalanceStage::Closed ==> replies_left(after.stage) < replies_left(
            check.stage,
        ),
        step is Call <==> after.stage != BalanceStage::Closed,
        step is Call ==> Some(step->Call_0) == after.awaited(),
{
}

/// The texts of a report denote its balances: read back at the report's
/// number of decimals, each text gives the amount that stands beside it.
pub proof fn lemma_report_texts_denote_balances(
    report: BalanceReport,
    decimals: u8,
    wallet_balance: U256,
    market_balance: U256,
)
    requires
        report_states(report, decimals, wallet_balance, market_balance),
    ensures
        crate::format::base_units(report.wallet_text@, pow10(decimals as nat))
            == report.wallet_balance@,
        crate::format::base_units(report.market_text@, pow10(decimals as nat))
            == report.market_balance@,
{
    crate::format::lemma_balance_text_round_trip_decimal(wallet_balance@, decimals as nat);
    crate::format::lemma_balance_text_round_trip_decimal(market_balance@, decimals as nat);
}

/// What a batch wants next.
#[derive(Clone, Debug, PartialEq, Eq)]
pub enum BatchStep {
    /// Run this check to its end, starting with this call, and record how
    /// it ended.
    Run(BalanceCheck, LedgerCall),
    /// Every account has its outcome.
    Done,
}

/// Balance checks of a list of accounts, one after the other. The outcome of
/// each account stands at the account's place in the list; a failure takes
/// one place and leaves the others alone.
#[derive(Clone, Debug, PartialEq, Eq)]
pub struct BatchCheck {
    pub market_address: String,
    pub entries: Vec<MonitorAddress>,
    pub outcomes: Vec<Result<BalanceReport, MonitorError>>,
    pub running: bool,
}

/// Whether the check of the account at place `i` of `entries` cannot start.
pub open spec fn refused(market_address: Seq<char>, entries: Seq<MonitorAddress>, i: int) -> bool {
    open_failure(market_address, entries[i].address@) is Some
}

impl BatchCheck {

    /// Whether the batch is in order: the accounts that have an outcome are
    /// the first of the list, each account whose check could not start has
    /// exactly that failure as its outcome, and while a check is running it
    /// is the check of the first account without an outcome.
    pub open spec fn wf(self) -> bool {
        &&& self.outcomes.len() <= self.entries.len()
        &&& forall|i: int|
            0 <= i < self.outcomes.len() && refused(self.market_address@, self.entries@, i) ==> #[trigger] self.outcomes[i] == Err::<
                BalanceReport,
                MonitorError,
            >(open_failure(self.market_address@, self.entries[i].address@)->0)
        &&& self.running ==> self.outcomes.len() < self.entries.len() && !refused(
            self.market_address@,
            self.entries@,
            self.outcomes.len() as int,
        )
    }

    /// Whether the batch and `step` are what comes of taking up the accounts
    /// from place `from` on: every account whose check cannot start has got
    /// its failure as outcome, up to the first whose check starts, which is
    /// then to be run.
    pub open spec fn settled(self, from: int, step: BatchStep) -> bool {
        &&& self.wf()
        &&& from <= self.outcomes.len()
        &&& forall|i: int|
            from <= i < self.outcomes.len() ==> refused(self.market_address@, self.entries@, i)
        &&& match step {
            BatchStep::Run(check, call) => {
                let at = self.outcomes.len() as int;
                &&& self.running
                &&& Some(check.market@) == address_bytes(self.market_address@)
                &&& Some(check.account@) == address_bytes(self.entries[at].address@)
                &&& check.name == Some(self.entries[at].name)
                &&& check.symbol is None
                &&& check.stage == BalanceStage::BaseToken
                &&& call == (LedgerCall::BaseToken { market: check.market })
            },
            BatchStep::Done => !self.running && self.outcomes.len() == self.entries.len(),
        }
    }

    /// Takes up the accounts that have no outcome yet.
    fn settle(&mut self) -> (step: BatchStep)
        requires
            old(self).outcomes.len() <= old(self).entries.len(),
            forall|i: int|
                0 <= i < old(self).outcomes.len() && refused(
                    old(self).market_address@,
                    old(self).entries@,
                    i,
                ) ==> #[trigger] old(self).outcomes[i] == Err::<BalanceReport, MonitorError>(
                    open_failure(old(self).market_address@, old(self).entries[i].address@)->0,
                ),
        ensures
            final(self).market_address == old(self).market_address,
            final(self).entries == old(self).entries,
            final(self).settled(old(self).outcomes.len() as int, step),
            forall|i: int|
                0 <= i < old(self).outcomes.len() ==> final(self).outcomes[i] == old(
                    self,
                ).outcomes[i],
    {
        self.running = false;
        while self.outcomes.len() < self.entries.len()
            invariant
                self.market_address == old(self).market_address,
                self.entries == old(self).entries,
                !self.running,
                old(self).outcomes.len() <= self.outcomes.len() <= self.entries.len(),
                forall|i: int|
                    0 <= i < old(self).outcomes.len() ==> self.outcomes[i] == old(self).outcomes[i],
                forall|i: int|
                    0 <= i < self.outcomes.len() && refused(self.market_address@, self.entries@, i) ==> #[trigger] self.outcomes[i]
                        == Err::<BalanceReport, MonitorError>(
                        open_failure(self.market_address@, self.entries[i].address@)->0,
                    ),
                forall|i: int|
                    old(self).outcomes.len() <= i < self.outcomes.len() ==> refused(
                        self.market_address@,
                        self.entries@,
                        i,
                    ),
            decreases self.entries.len() - self.outcomes.len(),
        {
            let at: usize = self.outcomes.len();
            let name: String = self.entries[at].name.clone();
            let opened = BalanceCheck::open(
                self.market_address.as_str(),
                self.entries[at].address.as_str(),
                Some(name),
            );
            match opened {
                Ok((check, call)) => {
                    self.running = true;
                    return BatchStep::Run(check, call);
                },
                Err(e) => {
                    self.outcomes.push(Err(e));
                },
            }
        }
        BatchStep::Done
    }

    /// Starts a batch over `entries` in the market at `market_address`, and
    /// names the first check to run. An empty list is done at once.
    pub fn start(market_address: String, entries: Vec<MonitorAddress>) -> (r: (
        BatchCheck,
        BatchStep,
    ))
        ensures
            r.0.market_address == market_address,
            r.0.entries == entries,
            r.0.settled(0, r.1),
    {
        let mut batch = BatchCheck {
            market_address,
            entries,
            outcomes: Vec::new(),
            running: false,
        };
        let step = batch.settle();
        (batch, step)
    }

    /// Records how the running check ended, and names the next check to
    /// run. The outcome takes the place of its account, whether it is a
    /// report or a failure; the outcomes before it stay as they are, and the
    /// batch goes on with the accounts after it.
    pub fn record(&mut self, outcome: Result<BalanceReport, MonitorError>) -> (step: BatchStep)
        requires
            old(self).wf(),
            old(self).running,
        ensures
            final(self).outcomes.len() > old(self).outcomes.len(),
            final(self).outcomes[old(self).outcomes.len() as int] == outcome,
            forall|i: int|
                0 <= i < old(self).outcomes.len() ==> final(self).outcomes[i] == old(
                    self,
                ).outcomes[i],
            final(self).market_address == old(self).market_address,
            final(self).entries == old(self).entries,
            final(self).settled(old(self).outcomes.len() + 1, step),
    {
        self.outcomes.push(outcome);
        self.settle()
    }

    /// The outcomes of the batch, in the order of its accounts.
    pub fn into_outcomes(self) -> (outcomes: Vec<Result<BalanceReport, MonitorError>>)
        ensures
            outcomes == self.outcomes,
    {
        self.outcomes
    }
}

/// A batch isolates failures: when it is done, every account has its
/// outcome at its own place, and an account whose address is malformed has
/// exactly the failure of its own address there, whatever became of the
/// accounts around it.
pub proof fn lemma_batch_isolates_failures(batch: BatchCheck, from: int)
    requires
        batch.settled(from, BatchStep::Done),
    ensures
        batch.outcomes.len() == batch.entries.len(),
        forall|i: int|
            0 <= i < batch.entries.len() && address_bytes(batch.entries[i].address@) is None
                ==> #[trigger] batch.outcomes[i] == Err::<BalanceReport, MonitorError>(
                MonitorError {
                    kind: ErrorKind::Input,
                    reason: Reason::AccountAddress,
                    detail: None,
                },
            ),
{
    assert forall|i: int|
        0 <= i < batch.entries.len() && address_bytes(
            batch.entries[i].address@,
        ) is None implies #[trigger] batch.outcomes[i] == Err::<BalanceReport, MonitorError>(
        MonitorError { kind: ErrorKind::Input, reason: Reason::AccountAddress, detail: None },
    ) by {
        assert(refused(batch.market_address@, batch.entries@, i));
    }
}

} // verus!
