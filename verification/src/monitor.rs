//! The monitor's decision at each tick: compare the snapshot with the
//! threshold, build the alert, and say whether it is to be sent.

use crate::address::address_bytes;
use crate::decimal::decimal;
use crate::error::{ErrorKind, MonitorError, Reason};
use crate::ledger::LedgerCall;
use crate::snapshot::{
    awaited, default_symbol, first_stage, LiquiditySnapshot, MarketVersion, SnapshotReader,
};
use crate::uint::{parse_decimal, U256};
use vstd::prelude::*;
use vstd::string::*;

verus! {

/// The record that goes to the notification endpoint. Amounts are written in
/// decimal, in base units; the time is in seconds since the Unix epoch.
#[derive(Clone, Debug, PartialEq, Eq)]
pub struct LiquidityAlert {
    pub market_address: String,
    pub market_symbol: String,
    pub available_liquidity: String,
    pub total_borrows: String,
    pub total_reserves: String,
    pub threshold: String,
    pub timestamp: i64,
    pub message: String,
}

/// The sentence of an alert.
pub open spec fn alert_message(liquidity: nat, threshold: nat) -> Seq<char> {
    "Available liquidity ("@ + decimal(liquidity) + ") is below threshold ("@ + decimal(threshold)
        + ")"@
}

/// Whether `alert` is the alert for a snapshot of the market at
/// `market_address`, taken at `now`, against `threshold`.
pub open spec fn alert_describes(
    alert: LiquidityAlert,
    market_address: Seq<char>,
    snapshot: LiquiditySnapshot,
    threshold: nat,
    now: i64,
) -> bool {
    &&& alert.market_address@ == market_address
    &&& alert.market_symbol == snapshot.symbol
    &&& alert.available_liquidity@ == decimal(snapshot.available_liquidity@)
    &&& alert.total_borrows@ == decimal(snapshot.total_borrows@)
    &&& alert.total_reserves@ == decimal(snapshot.total_reserves@)
    &&& alert.threshold@ == decimal(threshold)
    &&& alert.timestamp == now
    &&& alert.message@ == alert_message(snapshot.available_liquidity@, threshold)
}

/// What the monitor does at the end of a tick.
#[derive(Clone, Debug, PartialEq, Eq)]
pub enum TickAction {
    /// The liquidity is at or above the threshold: nothing to do.
    Healthy,
    /// The liquidity is below the threshold: send this alert, once.
    Notify(LiquidityAlert),
    /// The liquidity is below the threshold, but notifications are switched
    /// off: the alert is not sent.
    Suppressed(LiquidityAlert),
    /// The market could not be read: report the failure and wait for the
    /// next tick.
    Retry(MonitorError),
}

/// The number of alerts that an action sends.
pub open spec fn dispatches(action: TickAction) -> nat {
    if action is Notify {
        1
    } else {
        0
    }
}

/// Whether a poll found the liquidity below the threshold.
pub open spec fn breached(outcome: Result<LiquiditySnapshot, MonitorError>, threshold: nat) -> bool {
    outcome matches Ok(snapshot) && snapshot.available_liquidity@ < threshold
}

/// The seconds since the Unix epoch on the system clock, from
/// `Utc::now().timestamp()` of chrono. Nothing is promised of the value.
#[verifier::external_body]
fn unix_time() -> (now: i64) {
    chrono::Utc::now().timestamp()
}

/// The settings of a monitor, with the threshold read into an amount.
#[derive(Clone, Debug, PartialEq, Eq)]
pub struct Monitor {
    pub version: MarketVersion,
    pub market_address: String,
    pub market_name: Option<String>,
    pub threshold: U256,
    pub notifications: bool,
}

/// Whether `action` is the monitor's answer to the outcome of a poll at the
/// time `now`. The threshold is compared with the available liquidity in
/// base units, as unsigned integers.
pub open spec fn assessed(
    monitor: Monitor,
    outcome: Result<LiquiditySnapshot, MonitorError>,
    now: i64,
    action: TickAction,
) -> bool {
    match outcome {
        Err(e) => action == TickAction::Retry(e),
        Ok(snapshot) => if snapshot.available_liquidity@ < monitor.threshold@ {
            if monitor.notifications {
                action matches TickAction::Notify(alert) && alert_describes(
                    alert,
                    monitor.market_address@,
                    snapshot,
                    monitor.threshold@,
                    now,
                )
            } else {
                action matches TickAction::Suppressed(alert) && alert_describes(
                    alert,
                    monitor.market_address@,
                    snapshot,
                    monitor.threshold@,
                    now,
                )
            }
        } else {
            action == TickAction::Healthy
        },
    }
}

impl Monitor {
    /// A monitor for one market. The threshold is given in decimal, in base
    /// units; notifications are on unless they are switched off.
    pub fn new(
        version: MarketVersion,
        market_address: String,
        market_name: Option<String>,
        liquidity_threshold: &str,
        notification_enabled: Option<bool>,
    ) -> (r: Result<Monitor, MonitorError>)
        ensures
            match parse_decimal(liquidity_threshold@) {
                Ok(value) => r == Ok::<Monitor, MonitorError>(
                    Monitor {
                        version,
                        market_address,
                        market_name,
                        threshold: r->Ok_0.threshold,
                        notifications: notification_enabled != Some(false),
                    },
                ) && r->Ok_0.threshold@ == value,
                Err(e) => r == Err::<Monitor, MonitorError>(
                    MonitorError {
                        kind: ErrorKind::Configuration,
                        reason: Reason::Threshold(e),
                        detail: None,
                    },
                ),
            },
    {
        let threshold = match U256::from_dec_str(liquidity_threshold) {
            Ok(threshold) => threshold,
            Err(e) => {
                return Err(MonitorError::new(ErrorKind::Configuration, Reason::Threshold(e)));
            },
        };
        let notifications = match notification_enabled {
            Some(enabled) => enabled,
            None => true,
        };
        Ok(Monitor { version, market_address, market_name, threshold, notifications })
    }

    /// Starts the reading of the market for one tick.
    pub fn begin_poll(&self) -> (r: Result<(SnapshotReader, LedgerCall), MonitorError>)
        ensures
            match address_bytes(self.market_address@) {
                None => r == Err::<(SnapshotReader, LedgerCall), MonitorError>(
                    MonitorError {
                        kind: ErrorKind::Read,
                        reason: Reason::MarketAddress,
                        detail: None,
                    },
                ),
                Some(bytes) => {
                    &&& r is Ok
                    &&& r->Ok_0.0.market@ == bytes
                    &&& r->Ok_0.0.stage == first_stage(self.version)
                    &&& Some(r->Ok_0.1) == awaited(r->Ok_0.0.market, first_stage(self.version))
                    &&& match self.market_name {
                        Some(name) => r->Ok_0.0.symbol == name,
                        None => r->Ok_0.0.symbol@ == default_symbol(),
                    }
                },
            },
    {
        let name = match &self.market_name {
            Some(name) => Some(name.clone()),
            None => None,
        };
        SnapshotReader::open(self.version, self.market_address.as_str(), name)
    }

    /// The alert for a snapshot taken at `now`.
    pub fn build_alert(&self, snapshot: LiquiditySnapshot, now: i64) -> (alert: LiquidityAlert)
        ensures
            alert_describes(alert, self.market_address@, snapshot, self.threshold@, now),
    {
        let liquidity: String = snapshot.available_liquidity.to_decimal_string();
        let threshold: String = self.threshold.to_decimal_string();
        let mut message: String = String::from_str("Available liquidity (");
        message.append(liquidity.as_str());
        message.append(") is below threshold (");
        message.append(threshold.as_str());
        message.append(")");
        LiquidityAlert {
            market_address: self.market_address.clone(),
            market_symbol: snapshot.symbol,
            available_liquidity: liquidity,
            total_borrows: snapshot.total_borrows.to_decimal_string(),
            total_reserves: snapshot.total_reserves.to_decimal_string(),
            threshold,
            timestamp: now,
            message,
        }
    }

    /// Decides what to do with the outcome of a poll that ended at `now`.
    ///
    /// An alert is sent exactly when the market was read, its available
    /// liquidity is below the threshold, and notifications are on. A failed
    /// read is handed back for the report; the monitor goes on.
    pub fn assess(&self, outcome: Result<LiquiditySnapshot, MonitorError>, now: i64) -> (action:
        TickAction)
        ensures
            assessed(*self, outcome, now, action),
            dispatches(action) == if breached(outcome, self.threshold@) && self.notifications {
                1nat
            } else {
                0nat
            },
    {
        match outcome {
            Err(e) => TickAction::Retry(e),
            Ok(snapshot) => {
                if snapshot.available_liquidity.lt(&self.threshold) {
                    let alert = self.build_alert(snapshot, now);
                    if self.notifications {
                        TickAction::Notify(alert)
                    } else {
                        TickAction::Suppressed(alert)
                    }
                } else {
                    TickAction::Healthy
                }
            },
        }
    }

    /// Decides what to do with the outcome of a poll that has just ended:
    /// `assess` at the time that the system clock shows.
    pub fn tick(&self, outcome: Result<LiquiditySnapshot, MonitorError>) -> (action: TickAction)
        ensures
            exists|now: i64| assessed(*self, outcome, now, action),
            dispatches(action) == if breached(outcome, self.threshold@) && self.notifications {
                1nat
            } else {
                0nat
            },
    {
        let now = unix_time();
        self.assess(outcome, now)
    }
}

/// The number of polls in a run that found the liquidity below the
/// threshold.
pub open spec fn breaches(
    outcomes: Seq<Result<LiquiditySnapshot, MonitorError>>,
    threshold: nat,
) -> nat
    decreases outcomes.len(),
{
    if outcomes.len() == 0 {
        0
    } else {
        breaches(outcomes.drop_last(), threshold) + if breached(outcomes.last(), threshold) {
            1nat
        } else {
            0nat
        }
    }
}

/// The number of alerts that a run of actions sends.
pub open spec fn total_dispatches(actions: Seq<TickAction>) -> nat
    decreases actions.len(),
{
    if actions.len() == 0 {
        0
    } else {
        total_dispatches(actions.drop_last()) + dispatches(actions.last())
    }
}

/// Over any run of ticks, a monitor with notifications on sends one alert
/// for each poll that found the liquidity below the threshold, and a monitor
/// with notifications off sends none.
pub proof fn lemma_one_alert_per_breach(
    monitor: Monitor,
    outcomes: Seq<Result<LiquiditySnapshot, MonitorError>>,
    times: Seq<i64>,
    actions: Seq<TickAction>,
)
    requires
        outcomes.len() == times.len(),
        outcomes.len() == actions.len(),
        forall|i: int|
            0 <= i < outcomes.len() ==> assessed(monitor, outcomes[i], times[i], #[trigger] actions[i]),
    ensures
        monitor.notifications ==> total_dispatches(actions) == breaches(
            outcomes,
            monitor.threshold@,
        ),
        !monitor.notifications ==> total_dispatches(actions) == 0,
    decreases outcomes.len(),
{
    if outcomes.len() > 0 {
        let last = outcomes.len() - 1;
        assert(assessed(monitor, outcomes[last], times[last], actions[last]));
        lemma_one_alert_per_breach(
            monitor,
            outcomes.drop_last(),
            times.drop_last(),
            actions.drop_last(),
        );
    }
}

/// How an attempt to deliver an alert ended.
#[derive(Clone, Debug, PartialEq, Eq)]
pub enum Delivery {
    /// The endpoint answered with this HTTP status.
    Responded { status: u16 },
    /// The request did not get through; the text says why.
    Unreachable { cause: String },
}

/// What became of an alert that reached the endpoint.
#[derive(Clone, Copy, Debug, PartialEq, Eq, Structural)]
pub enum Acknowledgement {
    /// The endpoint answered with a status from 200 to 299.
    Accepted,
    /// The endpoint answered with another status. The alert still counts as
    /// sent; the status is worth a warning.
    Declined { status: u16 },
}

/// Judges a delivery. Only a request that did not get through is a failure;
/// whatever the endpoint answers, the alert has been sent.
pub fn settle_delivery(delivery: Delivery) -> (r: Result<Acknowledgement, MonitorError>)
    ensures
        match delivery {
            Delivery::Responded { status } => r == Ok::<Acknowledgement, MonitorError>(
                if 200 <= status < 300 {
                    Acknowledgement::Accepted
                } else {
                    Acknowledgement::Declined { status }
                },
            ),
            Delivery::Unreachable { cause } => r == Err::<Acknowledgement, MonitorError>(
                MonitorError {
                    kind: ErrorKind::NotificationTransport,
                    reason: Reason::Webhook,
                    detail: Some(cause),
                },
            ),
        },
{
    match delivery {
        Delivery::Responded { status } => {
            if 200 <= status && status < 300 {
                Ok(Acknowledgement::Accepted)
            } else {
                Ok(Acknowledgement::Declined { status })
            }
        },
        Delivery::Unreachable { cause } => Err(
            MonitorError {
                kind: ErrorKind::NotificationTransport,
                reason: Reason::Webhook,
                detail: Some(cause),
            },
        ),
    }
}

} // verus!
