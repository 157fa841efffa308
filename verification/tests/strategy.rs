//! The per-instrument strategy and the indicator request arithmetic.

use better_call_put::bot::signal::{Signal, TradeSignal};
use better_call_put::quotes::get_tech_analysis as q;
use better_call_put::bot::trade::EmaCrossStrategy;
use better_call_put::market_data_service::get_last_prices::{
    GetLastPricesRequest, GetLastPricesResponse, InstrumentStatus, LastPrice, LastPriceType,
};
use better_call_put::market_data_service::get_tech_analysis::{
    GetTechAnalysisRequest, GetTechAnalysisResponse, IndicatorInterval, IndicatorType,
    TechnicalIndicator, TypeOfPrice,
};
use better_call_put::models::structs::Quotation;

fn quot(units: &str, nano: i32) -> Quotation {
    Quotation { units: units.to_string(), nano }
}

fn point(middle_band: Option<Quotation>, signal: Option<Quotation>) -> TechnicalIndicator {
    TechnicalIndicator {
        timestamp: "t".to_string(),
        middle_band,
        upper_band: None,
        lower_band: None,
        signal,
        macd: None,
    }
}

fn strategy() -> EmaCrossStrategy {
    EmaCrossStrategy::new(
        "uid-1".to_string(),
        "AAA".to_string(),
        9,
        21,
        IndicatorInterval::Hour,
        500,
        3,
    )
}

#[test]
fn caches_values_and_runs_the_detector() {
    let mut s = strategy();
    let prices = GetLastPricesResponse {
        last_prices: vec![LastPrice {
            figi: "f".to_string(),
            price: quot("10", 250_000_000),
            time: "t".to_string(),
            instrument_uid: "uid-1".to_string(),
            last_price_type: LastPriceType::Exchange,
        }],
    };
    let short = GetTechAnalysisResponse {
        technical_indicators: vec![point(None, Some(quot("1", 6_000_000)))],
    };
    let long = GetTechAnalysisResponse {
        technical_indicators: vec![point(None, Some(quot("1", 0)))],
    };
    let sig = s.process_market_data(&prices, &short, &long);
    assert_eq!(sig, Signal::Hold);
    assert_eq!(s.get_last_short(), 1_006_000_000);
    assert_eq!(s.get_last_long(), 1_000_000_000);
    assert_eq!(s.get_last_price(), 10_250_000_000);
    assert_eq!(s.get_ticker(), "AAA");
    assert_eq!(s.get_uid(), "uid-1");
}

#[test]
fn empty_series_holds_without_touching_the_detector() {
    let mut s = strategy();
    let prices = GetLastPricesResponse { last_prices: Vec::new() };
    let long = GetTechAnalysisResponse {
        technical_indicators: vec![point(None, Some(quot("1", 0)))],
    };
    let empty = GetTechAnalysisResponse { technical_indicators: Vec::new() };
    assert_eq!(s.process_market_data(&prices, &empty, &long), Signal::Hold);
    assert_eq!(s.get_last_short(), 0);
    assert_eq!(s.get_last_long(), 0);
}

#[test]
fn missing_signal_field_reads_as_zero() {
    let mut s = strategy();
    let prices = GetLastPricesResponse { last_prices: Vec::new() };
    let short = GetTechAnalysisResponse {
        technical_indicators: vec![point(None, Some(quot("2", 0)))],
    };
    let long = GetTechAnalysisResponse { technical_indicators: vec![point(None, None)] };
    // long reads as zero: the division guard holds and nothing advances
    assert_eq!(s.process_market_data(&prices, &short, &long), Signal::Hold);
    assert_eq!(s.get_last_short(), 2_000_000_000);
    assert_eq!(s.get_last_long(), 0);
}

fn band_series(values: &[(&str, i32)]) -> GetTechAnalysisResponse {
    GetTechAnalysisResponse {
        technical_indicators: values
            .iter()
            .map(|(u, n)| point(Some(quot(u, *n)), None))
            .collect(),
    }
}

#[test]
fn crossover_detects_golden_and_death_crosses() {
    let s = strategy();
    // short was below, now above: golden cross
    let short = band_series(&[("1", 0), ("3", 0)]);
    let long = band_series(&[("2", 0), ("2", 0)]);
    assert_eq!(s.analyze_crossover(&short, &long), TradeSignal::Buy);
    // short was above, now below: death cross
    let short = band_series(&[("3", 0), ("1", 0)]);
    assert_eq!(s.analyze_crossover(&short, &long), TradeSignal::Sell);
    // no crossing
    let short = band_series(&[("3", 0), ("3", 0)]);
    assert_eq!(s.analyze_crossover(&short, &long), TradeSignal::Hold);
    // fewer than two present values: no decision
    let short = band_series(&[("3", 0)]);
    assert_eq!(s.analyze_crossover(&short, &long), TradeSignal::Hold);
}

#[test]
fn crossover_skips_absent_band_entries() {
    let s = strategy();
    // the absent entry in the middle is skipped, leaving [1, 3]
    let short = GetTechAnalysisResponse {
        technical_indicators: vec![
            point(Some(quot("1", 0)), None),
            point(None, None),
            point(Some(quot("3", 0)), None),
        ],
    };
    let long = band_series(&[("2", 0), ("2", 0)]);
    assert_eq!(s.analyze_crossover(&short, &long), TradeSignal::Buy);
}

#[test]
fn explicit_request_carries_its_fields() {
    let r = GetTechAnalysisRequest::new(
        IndicatorType::EMA,
        "uid-9".to_string(),
        "2024-01-01T00:00:00+00:00".to_string(),
        "2024-01-02T00:00:00+00:00".to_string(),
        IndicatorInterval::Day,
        TypeOfPrice::Close,
        21,
        None,
        None,
    );
    assert!(matches!(r.indicator_type, IndicatorType::EMA));
    assert_eq!(r.instrument_uid, "uid-9");
    assert_eq!(r.from, "2024-01-01T00:00:00+00:00");
    assert_eq!(r.length, 21);
}

#[test]
fn auto_period_request_pins_everything_but_the_window() {
    let r = GetTechAnalysisRequest::new_ema_auto_period(
        "uid-7",
        IndicatorInterval::Hour,
        TypeOfPrice::Close,
        50,
    );
    assert!(matches!(r.indicator_type, IndicatorType::EMA));
    assert_eq!(r.instrument_uid, "uid-7");
    assert_eq!(r.interval, IndicatorInterval::Hour);
    assert_eq!(r.length, 50);
    assert!(r.deviation.is_none());
    assert!(r.smoothing.is_none());
    // the window comes from the clock: RFC 3339 text, start before end
    assert!(!r.from.is_empty());
    assert!(!r.to.is_empty());
    assert!(r.from.as_str() < r.to.as_str());
}

#[test]
fn required_hours_formulas() {
    let r = GetTechAnalysisRequest::new(
        IndicatorType::EMA,
        "u".to_string(),
        "a".to_string(),
        "b".to_string(),
        IndicatorInterval::OneMinute,
        TypeOfPrice::Close,
        1,
        None,
        None,
    );
    // 90 one-minute points need ceil(90/60) = 2 hours
    assert_eq!(r._calculate_required_hours(90), 2);
    let mut r = r;
    r.interval = IndicatorInterval::Hour;
    assert_eq!(r._calculate_required_hours(90), 90);
    r.interval = IndicatorInterval::FourHour;
    assert_eq!(r._calculate_required_hours(90), 360);
    r.interval = IndicatorInterval::Day;
    // the floor of 30 points applies: max(10, 30) * 24
    assert_eq!(r._calculate_required_hours(10), 720);
    r.interval = IndicatorInterval::Week;
    assert_eq!(r._calculate_required_hours(10), 5040);
}

#[test]
fn earlier_revision_request_arithmetic_agrees() {
    let r = q::GetTechAnalysisRequest::new_ema_auto_period(
        "uid-q",
        q::IndicatorInterval::Day,
        q::TypeOfPrice::Close,
        21,
    );
    assert!(matches!(r.indicator_type, q::IndicatorType::EMA));
    assert_eq!(r.instrument_uid, "uid-q");
    assert_eq!(r.length, 21);
    assert_eq!(r._calculate_required_hours(90), 2160);
}

#[test]
fn last_price_request_carries_its_fields() {
    let r = GetLastPricesRequest::new(
        vec!["a".to_string(), "b".to_string()],
        LastPriceType::Unspecified,
        InstrumentStatus::Base,
    );
    assert_eq!(r.instrument_id, vec!["a".to_string(), "b".to_string()]);
    assert!(matches!(r.last_price_type, LastPriceType::Unspecified));
}
