//! Cycle orchestration: registry continuity, per-instrument failure
//! isolation, Hold suppression, the phase machine and the subscriber
//! set.

use better_call_put::bot::notifier::{is_subscribe_command, price_decimals, SubscriberRegistry};
use better_call_put::bot::scanner::{
    next_phase, CycleEvent, CyclePhase, InstrumentEvalError, InstrumentOutcome, MarketSnapshot,
    StrategyRegistry,
};
use better_call_put::bot::signal::TradeSignal;
use better_call_put::config::{AssetsConfig, Config, ConfigError, FilterConfig, StrategyConfig};
use better_call_put::instruments::get_assets::InstrumentStatus;
use better_call_put::market_data_service::get_last_prices::{
    GetLastPricesResponse, LastPrice, LastPriceType,
};
use better_call_put::market_data_service::get_tech_analysis::{
    GetTechAnalysisResponse, IndicatorInterval, TechnicalIndicator,
};
use better_call_put::models::enums::InstrumentType;
use better_call_put::models::structs::Quotation;

fn cfg() -> StrategyConfig {
    StrategyConfig {
        short_ema_length: 9,
        long_ema_length: 21,
        interval: IndicatorInterval::Hour,
        hysteresis_milli_pct: 500,
        hysteresis_periods: 3,
    }
}

fn quot(units: &str, nano: i32) -> Quotation {
    Quotation { units: units.to_string(), nano }
}

fn series(value: Quotation) -> GetTechAnalysisResponse {
    GetTechAnalysisResponse {
        technical_indicators: vec![TechnicalIndicator {
            timestamp: "t".to_string(),
            middle_band: None,
            upper_band: None,
            lower_band: None,
            signal: Some(value),
            macd: None,
        }],
    }
}

/// A snapshot whose short EMA sits `milli` thousandths of a percent away
/// from a long EMA of 1.0, with a last price of 2.5.
fn snapshot(milli: i64) -> MarketSnapshot {
    MarketSnapshot {
        last_prices: GetLastPricesResponse {
            last_prices: vec![LastPrice {
                figi: "f".to_string(),
                price: quot("2", 500_000_000),
                time: "t".to_string(),
                instrument_uid: "u".to_string(),
                last_price_type: LastPriceType::Exchange,
            }],
        },
        short_ema: series(quot("1", (milli * 10_000) as i32)),
        long_ema: series(quot("1", 0)),
    }
}

fn ok_outcome(uid: &str, milli: i64) -> InstrumentOutcome {
    InstrumentOutcome {
        uid: uid.to_string(),
        ticker: format!("T-{}", uid),
        fetch: Ok(snapshot(milli)),
    }
}

fn err_outcome(uid: &str) -> InstrumentOutcome {
    InstrumentOutcome {
        uid: uid.to_string(),
        ticker: format!("T-{}", uid),
        fetch: Err(InstrumentEvalError::Network),
    }
}

#[test]
fn registry_reuses_the_same_entry_across_cycles() {
    let mut reg = StrategyRegistry::new();
    let c = cfg();
    let first = reg.get_or_create("uid-1", "AAA", &c);
    let again = reg.get_or_create("uid-1", "AAA", &c);
    assert_eq!(first, again);
    assert_eq!(reg.len(), 1);
    let other = reg.get_or_create("uid-2", "BBB", &c);
    assert_ne!(first, other);
    assert_eq!(reg.len(), 2);
}

#[test]
fn sustained_signal_emerges_across_cycles() {
    let mut reg = StrategyRegistry::new();
    let c = cfg();
    let e1 = reg.evaluate_cycle(&c, &vec![ok_outcome("u1", 600)]);
    assert!(e1.is_empty());
    let e2 = reg.evaluate_cycle(&c, &vec![ok_outcome("u1", 700)]);
    assert!(e2.is_empty());
    let e3 = reg.evaluate_cycle(&c, &vec![ok_outcome("u1", 800)]);
    assert_eq!(e3.len(), 1);
    assert_eq!(e3[0].uid, "u1");
    assert_eq!(e3[0].ticker, "T-u1");
    assert_eq!(e3[0].signal, TradeSignal::Buy);
    assert_eq!(e3[0].short_ema, 1_008_000_000);
    assert_eq!(e3[0].long_ema, 1_000_000_000);
    assert_eq!(e3[0].last_price, 2_500_000_000);
}

#[test]
fn failed_fetch_is_isolated_and_state_survives() {
    let mut reg = StrategyRegistry::new();
    let c = cfg();
    // cycle 1: both instruments fine
    let e = reg.evaluate_cycle(&c, &vec![ok_outcome("x", 600), ok_outcome("y", -600)]);
    assert!(e.is_empty());
    // cycle 2: x fails; y is still evaluated
    let e = reg.evaluate_cycle(&c, &vec![err_outcome("x"), ok_outcome("y", -700)]);
    assert!(e.is_empty());
    // cycle 3: x resumes with its zone clock intact (this is its second
    // qualifying sample, not its first); y reaches three and emits
    let e = reg.evaluate_cycle(&c, &vec![ok_outcome("x", 700), ok_outcome("y", -800)]);
    assert_eq!(e.len(), 1);
    assert_eq!(e[0].uid, "y");
    assert_eq!(e[0].signal, TradeSignal::Sell);
    // cycle 4: x's third qualifying sample emits — the error cost it one
    // cycle, not its state
    let e = reg.evaluate_cycle(&c, &vec![ok_outcome("x", 800), ok_outcome("y", -900)]);
    assert_eq!(e.len(), 1);
    assert_eq!(e[0].uid, "x");
    assert_eq!(e[0].signal, TradeSignal::Buy);
}

#[test]
fn hold_cycles_emit_no_events() {
    let mut reg = StrategyRegistry::new();
    let c = cfg();
    // inside the band: Hold, suppressed
    let e = reg.evaluate_cycle(&c, &vec![ok_outcome("u", 100), ok_outcome("v", -100)]);
    assert!(e.is_empty());
    // empty indicator series: no data, Hold, suppressed
    let out = InstrumentOutcome {
        uid: "w".to_string(),
        ticker: "W".to_string(),
        fetch: Ok(MarketSnapshot {
            last_prices: GetLastPricesResponse { last_prices: Vec::new() },
            short_ema: GetTechAnalysisResponse { technical_indicators: Vec::new() },
            long_ema: series(quot("1", 0)),
        }),
    };
    let e = reg.evaluate_cycle(&c, &vec![out]);
    assert!(e.is_empty());
}

#[test]
fn phase_machine_walks_a_cycle() {
    let p = CyclePhase::FetchUniverse;
    let p = next_phase(p, CycleEvent::UniverseFetched(true));
    assert_eq!(p, CyclePhase::FilterUniverse);
    let p = next_phase(p, CycleEvent::UniverseFiltered);
    assert_eq!(p, CyclePhase::CheckTradability);
    let p = next_phase(p, CycleEvent::TradabilityChecked(true));
    assert_eq!(p, CyclePhase::EvaluateInstruments);
    let p = next_phase(p, CycleEvent::InstrumentsEvaluated);
    assert_eq!(p, CyclePhase::Sleep);
    let p = next_phase(p, CycleEvent::SleepFinished);
    assert_eq!(p, CyclePhase::FetchUniverse);
}

#[test]
fn fetch_failure_is_cycle_fatal_only() {
    let p = next_phase(CyclePhase::FetchUniverse, CycleEvent::UniverseFetched(false));
    assert_eq!(p, CyclePhase::Sleep);
    let p = next_phase(CyclePhase::CheckTradability, CycleEvent::TradabilityChecked(false));
    assert_eq!(p, CyclePhase::Sleep);
}

#[test]
fn cancellation_is_observed_at_checkpoints_only() {
    assert_eq!(next_phase(CyclePhase::Sleep, CycleEvent::CancelRequested), CyclePhase::Cancelled);
    assert_eq!(
        next_phase(CyclePhase::FetchUniverse, CycleEvent::CancelRequested),
        CyclePhase::Cancelled
    );
    // an in-flight call runs to completion: no mid-phase cancellation
    assert_eq!(
        next_phase(CyclePhase::FilterUniverse, CycleEvent::CancelRequested),
        CyclePhase::FilterUniverse
    );
    assert_eq!(
        next_phase(CyclePhase::EvaluateInstruments, CycleEvent::CancelRequested),
        CyclePhase::EvaluateInstruments
    );
    // terminal
    assert_eq!(
        next_phase(CyclePhase::Cancelled, CycleEvent::SleepFinished),
        CyclePhase::Cancelled
    );
}

#[test]
fn subscriber_set_adds_once_and_snapshots_exactly() {
    let mut subs = SubscriberRegistry::new();
    assert!(subs.add(7));
    assert!(subs.add(9));
    assert!(!subs.add(7));
    assert_eq!(subs.len(), 2);
    assert!(subs.contains(9));
    assert!(!subs.contains(8));
    assert_eq!(subs.snapshot(), vec![7, 9]);
}

#[test]
fn recipient_added_after_a_snapshot_is_in_the_next_one() {
    let mut subs = SubscriberRegistry::new();
    subs.add(1);
    let during_broadcast = subs.snapshot();
    // the listener adds while the broadcast iterates its own copy
    subs.add(2);
    assert_eq!(during_broadcast, vec![1]);
    assert_eq!(subs.snapshot(), vec![1, 2]);
}

#[test]
fn subscribe_command_is_exactly_start() {
    assert!(is_subscribe_command("/start"));
    assert!(!is_subscribe_command("/stop"));
    assert!(!is_subscribe_command("start"));
    assert!(!is_subscribe_command("/start "));
    assert!(!is_subscribe_command(""));
}

fn full_config(strategy: StrategyConfig, scan_interval_seconds: u64) -> Config {
    Config {
        t_token: "token".to_string(),
        telegram_token: "token".to_string(),
        scan_interval_seconds,
        strategy,
        assets: AssetsConfig {
            instrument_type: InstrumentType::Share,
            instrument_status: InstrumentStatus::Base,
        },
        filter: FilterConfig {
            class_code: "TQBR".to_string(),
            instrument_type: InstrumentType::Share,
        },
    }
}

#[test]
fn config_validation_names_the_first_failure() {
    let good = full_config(cfg(), 300);
    assert_eq!(good.validate(), Ok(()));
    let mut c = cfg();
    c.short_ema_length = 0;
    assert_eq!(full_config(c, 300).validate(), Err(ConfigError::NonPositiveEmaLength));
    let mut c = cfg();
    c.long_ema_length = -3;
    assert_eq!(full_config(c, 300).validate(), Err(ConfigError::NonPositiveEmaLength));
    let mut c = cfg();
    c.long_ema_length = 100_001;
    assert_eq!(full_config(c, 300).validate(), Err(ConfigError::EmaLengthTooLarge));
    let mut c = cfg();
    c.hysteresis_periods = 0;
    assert_eq!(full_config(c, 300).validate(), Err(ConfigError::ZeroHysteresisPeriods));
    assert_eq!(full_config(cfg(), 0).validate(), Err(ConfigError::ZeroScanInterval));
}

#[test]
fn price_precision_follows_magnitude() {
    assert_eq!(price_decimals(1_500_000_000_000), 2);
    assert_eq!(price_decimals(1_000_000_000_000), 2);
    assert_eq!(price_decimals(999_999_999_999), 3);
    assert_eq!(price_decimals(100_000_000_000), 3);
    assert_eq!(price_decimals(10_000_000_000), 4);
    assert_eq!(price_decimals(9_999_999_999), 6);
    assert_eq!(price_decimals(-1), 6);
}
