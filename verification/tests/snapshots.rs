use compound_monitor::address::Address;
use compound_monitor::error::{ErrorKind, MonitorError, Reason};
use compound_monitor::ledger::{LedgerCall, LedgerReply, Step};
use compound_monitor::snapshot::{
    LiquiditySnapshot, MarketRates, MarketReading, MarketVersion, ReadStage, SnapshotReader,
};
use compound_monitor::uint::{I256, U256};

const MARKET: &str = "0xc3d688B66703497DAA19211EEdff47f25384cdc3";
const TOKEN: &str = "0xA0b86991c6218b36c1d19D4a2e9Eb0cE3606eB48";

fn market() -> Address {
    Address::parse(MARKET).unwrap()
}

fn token() -> Address {
    Address::parse(TOKEN).unwrap()
}

fn amount(x: u64) -> LedgerReply {
    LedgerReply::Amount(U256::from_u64(x))
}

fn read_v3(reserves: I256, name: Option<String>) -> MarketReading {
    let (mut reader, first) = SnapshotReader::open(MarketVersion::V3, MARKET, name).unwrap();
    assert_eq!(first, LedgerCall::BaseToken { market: market() });
    assert_eq!(
        reader.advance(LedgerReply::Account(token())),
        Step::Call(LedgerCall::TokenBalance { token: token(), holder: market() })
    );
    assert_eq!(reader.advance(amount(700)), Step::Call(LedgerCall::TotalSupply { market: market() }));
    assert_eq!(
        reader.advance(amount(10_000)),
        Step::Call(LedgerCall::TotalBorrow { market: market() })
    );
    assert_eq!(reader.advance(amount(4_000)), Step::Call(LedgerCall::Reserves { market: market() }));
    assert_eq!(
        reader.advance(LedgerReply::Signed(reserves)),
        Step::Call(LedgerCall::Utilization { market: market() })
    );
    assert_eq!(
        reader.advance(amount(400_000_000_000_000_000)),
        Step::Call(LedgerCall::SupplyRate {
            market: market(),
            utilization: U256::from_u64(400_000_000_000_000_000),
        })
    );
    assert_eq!(
        reader.advance(LedgerReply::Rate(1_000_000_000)),
        Step::Call(LedgerCall::BorrowRate {
            market: market(),
            utilization: U256::from_u64(400_000_000_000_000_000),
        })
    );
    match reader.advance(LedgerReply::Rate(1_500_000_000)) {
        Step::Done(reading) => {
            assert_eq!(reader.stage, ReadStage::Closed);
            reading
        }
        other => panic!("the reading did not finish: {:?}", other),
    }
}

#[test]
fn the_default_version_is_v2() {
    assert_eq!(MarketVersion::default(), MarketVersion::V2);
}

#[test]
fn a_v2_market_reports_its_own_figures() {
    let (mut reader, first) =
        SnapshotReader::open(MarketVersion::V2, MARKET, Some("ignored".to_string())).unwrap();
    assert_eq!(first, LedgerCall::Cash { market: market() });
    assert_eq!(reader.advance(amount(500)), Step::Call(LedgerCall::TotalBorrows { market: market() }));
    assert_eq!(reader.advance(amount(300)), Step::Call(LedgerCall::TotalReserves { market: market() }));
    assert_eq!(reader.advance(amount(20)), Step::Call(LedgerCall::MarketSymbol { market: market() }));
    assert_eq!(
        reader.advance(LedgerReply::Text("cDAI".to_string())),
        Step::Done(MarketReading {
            snapshot: LiquiditySnapshot {
                available_liquidity: U256::from_u64(500),
                total_borrows: U256::from_u64(300),
                total_reserves: U256::from_u64(20),
                symbol: "cDAI".to_string(),
            },
            rates: None,
        })
    );
    assert_eq!(reader.stage, ReadStage::Closed);
}

#[test]
fn v3_liquidity_is_the_token_balance_of_the_market() {
    // The books say 10_000 supplied and 4_000 borrowed; the contract holds 700.
    let reading = read_v3(I256::from_i128(25), Some("cUSDCv3 main".to_string()));
    assert_eq!(
        reading,
        MarketReading {
            snapshot: LiquiditySnapshot {
                available_liquidity: U256::from_u64(700),
                total_borrows: U256::from_u64(4_000),
                total_reserves: U256::from_u64(25),
                symbol: "cUSDCv3 main".to_string(),
            },
            rates: Some(MarketRates {
                total_supply: U256::from_u64(10_000),
                utilization: U256::from_u64(400_000_000_000_000_000),
                supply_rate: 1_000_000_000,
                borrow_rate: 1_500_000_000,
            }),
        }
    );
    assert_ne!(reading.snapshot.available_liquidity, U256::from_u64(10_000 - 4_000));
}

#[test]
fn negative_v3_reserves_surface_as_zero() {
    let reading = read_v3(I256::from_i128(-100), None);
    assert_eq!(reading.snapshot.total_reserves, U256::zero());
    assert_eq!(reading.snapshot.total_reserves.to_decimal_string(), "0");
    let reading = read_v3(I256::from_i128(i128::MIN), None);
    assert_eq!(reading.snapshot.total_reserves, U256::zero());
}

#[test]
fn an_unnamed_v3_market_gets_the_placeholder() {
    let reading = read_v3(I256::from_i128(0), None);
    assert_eq!(reading.snapshot.symbol, "cUSDCv3");
}

#[test]
fn a_malformed_market_address_is_a_failed_read() {
    let opened = SnapshotReader::open(MarketVersion::V3, "0x1234", None);
    assert_eq!(
        opened,
        Err(MonitorError { kind: ErrorKind::Read, reason: Reason::MarketAddress, detail: None })
    );
    assert!(opened.unwrap_err().is_recoverable());
    assert!(SnapshotReader::open(MarketVersion::V2, "", None).is_err());
}

#[test]
fn a_failed_call_fails_the_whole_reading() {
    let (mut reader, _) = SnapshotReader::open(MarketVersion::V2, MARKET, None).unwrap();
    reader.advance(amount(500));
    reader.advance(amount(300));
    let step = reader.advance(LedgerReply::Failed("execution reverted".to_string()));
    assert_eq!(
        step,
        Step::Failed(MonitorError {
            kind: ErrorKind::Read,
            reason: Reason::Call(LedgerCall::TotalReserves { market: market() }),
            detail: Some("execution reverted".to_string()),
        })
    );
    assert_eq!(reader.stage, ReadStage::Closed);
    // Nothing revives it.
    assert_eq!(
        reader.advance(amount(20)),
        Step::Failed(MonitorError {
            kind: ErrorKind::Read,
            reason: Reason::NothingAwaited,
            detail: None,
        })
    );
}

#[test]
fn a_failed_base_token_resolution_fails_the_reading() {
    let (mut reader, _) = SnapshotReader::open(MarketVersion::V3, MARKET, None).unwrap();
    let step = reader.advance(LedgerReply::Failed("no contract".to_string()));
    assert_eq!(
        step,
        Step::Failed(MonitorError {
            kind: ErrorKind::Read,
            reason: Reason::Call(LedgerCall::BaseToken { market: market() }),
            detail: Some("no contract".to_string()),
        })
    );
}

#[test]
fn a_reply_of_the_wrong_sort_fails_the_reading() {
    let (mut reader, _) = SnapshotReader::open(MarketVersion::V3, MARKET, None).unwrap();
    let step = reader.advance(amount(1));
    assert_eq!(
        step,
        Step::Failed(MonitorError {
            kind: ErrorKind::Read,
            reason: Reason::Reply(LedgerCall::BaseToken { market: market() }),
            detail: None,
        })
    );
    assert_eq!(reader.stage, ReadStage::Closed);
}
