use compound_monitor::address::Address;
use compound_monitor::balance::{
    decimal_divisor, BalanceCheck, BalanceReport, BalanceStage, BatchCheck, BatchStep,
    MonitorAddress,
};
use compound_monitor::error::{ErrorKind, MonitorError, Reason};
use compound_monitor::ledger::{LedgerCall, LedgerReply, Step};
use compound_monitor::uint::U256;

const MARKET: &str = "0xc3d688B66703497DAA19211EEdff47f25384cdc3";
const TOKEN: &str = "0xA0b86991c6218b36c1d19D4a2e9Eb0cE3606eB48";
const ALICE: &str = "0x7E5F4552091A69125d5DfCb7b8C2659029395Bdf";
const BOB: &str = "0x2B5AD5c4795c026514f8317c7a215E218DcCD6cF";

fn address(text: &str) -> Address {
    Address::parse(text).unwrap()
}

fn entry(name: &str, address: &str) -> MonitorAddress {
    MonitorAddress { name: name.to_string(), address: address.to_string() }
}

fn run(check: &mut BalanceCheck, wallet: u64, deposited: u64) -> Step<BalanceReport> {
    let account = check.account;
    assert_eq!(
        check.advance(LedgerReply::Account(address(TOKEN))),
        Step::Call(LedgerCall::TokenSymbol { token: address(TOKEN) })
    );
    assert_eq!(
        check.advance(LedgerReply::Text("USDC".to_string())),
        Step::Call(LedgerCall::TokenDecimals { token: address(TOKEN) })
    );
    assert_eq!(
        check.advance(LedgerReply::Decimals(6)),
        Step::Call(LedgerCall::TokenBalance { token: address(TOKEN), holder: account })
    );
    assert_eq!(
        check.advance(LedgerReply::Amount(U256::from_u64(wallet))),
        Step::Call(LedgerCall::MarketBalance { market: address(MARKET), account })
    );
    check.advance(LedgerReply::Amount(U256::from_u64(deposited)))
}

fn report(name: Option<&str>, account: &str, wallet: (u64, &str), deposited: (u64, &str)) -> BalanceReport {
    BalanceReport {
        name: name.map(|n| n.to_string()),
        address: address(account),
        base_token: address(TOKEN),
        symbol: "USDC".to_string(),
        decimals: 6,
        wallet_balance: U256::from_u64(wallet.0),
        wallet_text: wallet.1.to_string(),
        market_balance: U256::from_u64(deposited.0),
        market_text: deposited.1.to_string(),
    }
}

#[test]
fn divisors_are_powers_of_ten() {
    assert_eq!(decimal_divisor(0), Some(U256::from_u64(1)));
    assert_eq!(decimal_divisor(6), Some(U256::from_u64(1_000_000)));
    assert_eq!(decimal_divisor(18), Some(U256::from_u64(1_000_000_000_000_000_000)));
    assert_eq!(
        decimal_divisor(38),
        Some(U256::from_u128(100_000_000_000_000_000_000_000_000_000_000_000_000))
    );
    assert_eq!(decimal_divisor(39), None);
    assert_eq!(decimal_divisor(255), None);
}

#[test]
fn a_check_reports_both_balances() {
    let (mut check, first) = BalanceCheck::open(MARKET, ALICE, None).unwrap();
    assert_eq!(first, LedgerCall::BaseToken { market: address(MARKET) });
    assert_eq!(check.stage, BalanceStage::BaseToken);
    let step = run(&mut check, 1_500_000, 2_000_000);
    assert_eq!(step, Step::Done(report(None, ALICE, (1_500_000, "1.5"), (2_000_000, "2"))));
    assert_eq!(check.stage, BalanceStage::Closed);
}

#[test]
fn a_check_carries_the_name_of_its_account() {
    let (mut check, _) = BalanceCheck::open(MARKET, BOB, Some("treasury".to_string())).unwrap();
    let step = run(&mut check, 0, 1);
    assert_eq!(step, Step::Done(report(Some("treasury"), BOB, (0, "0"), (1, "0.000001"))));
}

#[test]
fn malformed_addresses_stop_a_check_at_once() {
    assert_eq!(
        BalanceCheck::open(MARKET, "0x12", None),
        Err(MonitorError { kind: ErrorKind::Input, reason: Reason::AccountAddress, detail: None })
    );
    assert_eq!(
        BalanceCheck::open("0x12", ALICE, None),
        Err(MonitorError {
            kind: ErrorKind::Configuration,
            reason: Reason::MarketAddress,
            detail: None,
        })
    );
    assert_eq!(
        BalanceCheck::open("0x12", "0x34", None).unwrap_err().reason,
        Reason::AccountAddress
    );
}

#[test]
fn a_failed_call_fails_the_check() {
    let (mut check, _) = BalanceCheck::open(MARKET, ALICE, None).unwrap();
    check.advance(LedgerReply::Account(address(TOKEN)));
    let step = check.advance(LedgerReply::Failed("reverted".to_string()));
    assert_eq!(
        step,
        Step::Failed(MonitorError {
            kind: ErrorKind::Read,
            reason: Reason::Call(LedgerCall::TokenSymbol { token: address(TOKEN) }),
            detail: Some("reverted".to_string()),
        })
    );
    assert_eq!(check.stage, BalanceStage::Closed);
    assert_eq!(
        check.advance(LedgerReply::Decimals(6)),
        Step::Failed(MonitorError {
            kind: ErrorKind::Read,
            reason: Reason::NothingAwaited,
            detail: None,
        })
    );
}

#[test]
fn a_reply_of_the_wrong_sort_fails_the_check() {
    let (mut check, _) = BalanceCheck::open(MARKET, ALICE, None).unwrap();
    check.advance(LedgerReply::Account(address(TOKEN)));
    check.advance(LedgerReply::Text("USDC".to_string()));
    let step = check.advance(LedgerReply::Amount(U256::from_u64(6)));
    assert_eq!(
        step,
        Step::Failed(MonitorError {
            kind: ErrorKind::Read,
            reason: Reason::Reply(LedgerCall::TokenDecimals { token: address(TOKEN) }),
            detail: None,
        })
    );
}

#[test]
fn too_many_decimals_fail_the_check() {
    let (mut check, _) = BalanceCheck::open(MARKET, ALICE, None).unwrap();
    check.advance(LedgerReply::Account(address(TOKEN)));
    check.advance(LedgerReply::Text("BIG".to_string()));
    assert_eq!(
        check.advance(LedgerReply::Decimals(39)),
        Step::Failed(MonitorError {
            kind: ErrorKind::Read,
            reason: Reason::Decimals(39),
            detail: None,
        })
    );
    assert_eq!(check.stage, BalanceStage::Closed);
}

#[test]
fn thirty_eight_decimals_are_reported() {
    let (mut check, _) = BalanceCheck::open(MARKET, ALICE, None).unwrap();
    check.advance(LedgerReply::Account(address(TOKEN)));
    check.advance(LedgerReply::Text("BIG".to_string()));
    check.advance(LedgerReply::Decimals(38));
    check.advance(LedgerReply::Amount(U256::from_u64(5)));
    match check.advance(LedgerReply::Amount(U256::from_u128(
        250_000_000_000_000_000_000_000_000_000_000_000_000,
    ))) {
        Step::Done(r) => {
            assert_eq!(r.wallet_text, "0.00000000000000000000000000000000000005");
            assert_eq!(r.market_text, "2.5");
            assert_eq!(r.decimals, 38);
        }
        other => panic!("no report: {:?}", other),
    }
}

#[test]
fn an_empty_batch_is_done_at_once() {
    let (batch, step) = BatchCheck::start(MARKET.to_string(), Vec::new());
    assert_eq!(step, BatchStep::Done);
    assert!(batch.into_outcomes().is_empty());
}

#[test]
fn one_malformed_address_fails_only_its_own_entry() {
    let entries = vec![entry("alice", ALICE), entry("broken", "0xnot-an-address"), entry("bob", BOB)];
    let (mut batch, mut step) = BatchCheck::start(MARKET.to_string(), entries);
    let mut balances = [(1_500_000u64, 2_000_000u64), (10u64, 0u64)].into_iter();
    let mut runs = 0;
    loop {
        match step {
            BatchStep::Run(mut check, first) => {
                runs += 1;
                assert_eq!(first, LedgerCall::BaseToken { market: address(MARKET) });
                let (wallet, deposited) = balances.next().unwrap();
                let outcome = match run(&mut check, wallet, deposited) {
                    Step::Done(report) => Ok(report),
                    Step::Failed(e) => Err(e),
                    Step::Call(call) => panic!("the check went on: {:?}", call),
                };
                step = batch.record(outcome);
            }
            BatchStep::Done => break,
        }
    }
    assert_eq!(runs, 2);
    assert_eq!(
        batch.into_outcomes(),
        vec![
            Ok(report(Some("alice"), ALICE, (1_500_000, "1.5"), (2_000_000, "2"))),
            Err(MonitorError {
                kind: ErrorKind::Input,
                reason: Reason::AccountAddress,
                detail: None,
            }),
            Ok(report(Some("bob"), BOB, (10, "0.00001"), (0, "0"))),
        ]
    );
}

#[test]
fn a_failed_check_does_not_stop_the_batch() {
    let entries = vec![entry("alice", ALICE), entry("bob", BOB)];
    let (mut batch, step) = BatchCheck::start(MARKET.to_string(), entries);
    let failure = MonitorError {
        kind: ErrorKind::Read,
        reason: Reason::Call(LedgerCall::BaseToken { market: address(MARKET) }),
        detail: Some("timeout".to_string()),
    };
    let step = match step {
        BatchStep::Run(mut check, _) => {
            assert_eq!(check.account, address(ALICE));
            match check.advance(LedgerReply::Failed("timeout".to_string())) {
                Step::Failed(e) => batch.record(Err(e)),
                other => panic!("the check went on: {:?}", other),
            }
        }
        BatchStep::Done => panic!("the batch ended early"),
    };
    let step = match step {
        BatchStep::Run(mut check, _) => {
            assert_eq!(check.account, address(BOB));
            assert_eq!(check.name, Some("bob".to_string()));
            match run(&mut check, 7, 8) {
                Step::Done(report) => batch.record(Ok(report)),
                other => panic!("no report: {:?}", other),
            }
        }
        BatchStep::Done => panic!("the batch ended early"),
    };
    assert_eq!(step, BatchStep::Done);
    assert_eq!(
        batch.into_outcomes(),
        vec![Err(failure), Ok(report(Some("bob"), BOB, (7, "0.000007"), (8, "0.000008")))]
    );
}

#[test]
fn a_batch_of_malformed_addresses_runs_nothing() {
    let entries = vec![entry("a", ""), entry("b", "0x"), entry("c", "zz")];
    let (batch, step) = BatchCheck::start(MARKET.to_string(), entries);
    assert_eq!(step, BatchStep::Done);
    let outcomes = batch.into_outcomes();
    assert_eq!(outcomes.len(), 3);
    for outcome in outcomes {
        assert_eq!(outcome.unwrap_err().reason, Reason::AccountAddress);
    }
}

#[test]
fn a_malformed_market_address_fails_every_entry() {
    let entries = vec![entry("alice", ALICE), entry("bob", BOB)];
    let (batch, step) = BatchCheck::start("0xmarket".to_string(), entries);
    assert_eq!(step, BatchStep::Done);
    let outcomes = batch.into_outcomes();
    assert_eq!(outcomes.len(), 2);
    for outcome in outcomes {
        assert_eq!(
            outcome,
            Err(MonitorError {
                kind: ErrorKind::Configuration,
                reason: Reason::MarketAddress,
                detail: None,
            })
        );
    }
}
