//! Hysteresis crossover detector scenarios.
//!
//! Values are nano-units: a long EMA of `1_000_000_000` is 1.0, and a
//! short EMA of `1_006_000_000` sits 0.6% above it. The threshold is in
//! thousandths of a percent: 500 is 0.5%.

use better_call_put::bot::signal::{classify, CrossingGatedSignal, CrossoverSignal, Signal, TradeSignal, Zone};

const ONE: i64 = 1_000_000_000;

fn pct(milli: i64) -> i64 {
    // a short EMA `milli` thousandths of a percent away from a long of 1.0
    ONE + milli * 10_000
}

#[test]
fn zero_long_ema_holds_and_preserves_state() {
    // threshold 0.5%, 3 periods; two qualifying samples, then the
    // division guard, then the third qualifying sample: the guard must
    // not have touched the zone clock, so the third sample emits.
    let mut d = CrossoverSignal::new(500, 3);
    assert_eq!(d.update(pct(600), ONE), Signal::Hold);
    assert_eq!(d.update(pct(700), ONE), Signal::Hold);
    assert_eq!(d.update(123_456_789, 0), Signal::Hold);
    assert_eq!(d.update(pct(800), ONE), Signal::Buy);
}

#[test]
fn sustained_band_emits_buy_after_three_periods() {
    let mut d = CrossoverSignal::new(500, 3);
    assert_eq!(d.update(pct(600), ONE), Signal::Hold);
    assert_eq!(d.update(pct(700), ONE), Signal::Hold);
    assert_eq!(d.update(pct(800), ONE), Signal::Buy);
}

#[test]
fn no_repeat_and_band_reentry_resets_clock() {
    let mut d = CrossoverSignal::new(500, 3);
    assert_eq!(d.update(pct(600), ONE), Signal::Hold);
    assert_eq!(d.update(pct(700), ONE), Signal::Hold);
    assert_eq!(d.update(pct(800), ONE), Signal::Buy);
    // still above the band: Buy was already emitted, no repeat
    assert_eq!(d.update(pct(900), ONE), Signal::Hold);
    // 0.4% falls back inside the band: zone clock resets, no emission
    assert_eq!(d.update(pct(400), ONE), Signal::Hold);
}

#[test]
fn sustained_band_emits_sell_after_three_periods() {
    let mut d = CrossoverSignal::new(500, 3);
    assert_eq!(d.update(pct(-600), ONE), Signal::Hold);
    assert_eq!(d.update(pct(-700), ONE), Signal::Hold);
    assert_eq!(d.update(pct(-800), ONE), Signal::Sell);
}

#[test]
fn buy_never_repeats_before_a_sell() {
    let mut d = CrossoverSignal::new(500, 3);
    assert_eq!(d.update(pct(600), ONE), Signal::Hold);
    assert_eq!(d.update(pct(700), ONE), Signal::Hold);
    assert_eq!(d.update(pct(800), ONE), Signal::Buy);
    // staying above indefinitely never re-emits
    for _ in 0..50 {
        assert_eq!(d.update(pct(900), ONE), Signal::Hold);
    }
    // even leaving the band and re-qualifying does not re-emit: the
    // emission memory only turns over on an actual opposite emission
    assert_eq!(d.update(ONE, ONE), Signal::Hold);
    assert_eq!(d.update(pct(600), ONE), Signal::Hold);
    assert_eq!(d.update(pct(700), ONE), Signal::Hold);
    assert_eq!(d.update(pct(800), ONE), Signal::Hold);
    // a sustained stay below the band emits Sell, and only then can a
    // sustained stay above emit Buy again
    assert_eq!(d.update(pct(-600), ONE), Signal::Hold);
    assert_eq!(d.update(pct(-700), ONE), Signal::Hold);
    assert_eq!(d.update(pct(-800), ONE), Signal::Sell);
    assert_eq!(d.update(pct(600), ONE), Signal::Hold);
    assert_eq!(d.update(pct(700), ONE), Signal::Hold);
    assert_eq!(d.update(pct(800), ONE), Signal::Buy);
}

#[test]
fn one_period_emits_immediately_and_alternates() {
    let mut d = CrossoverSignal::new(500, 1);
    assert_eq!(d.update(pct(600), ONE), Signal::Buy);
    assert_eq!(d.update(pct(-600), ONE), Signal::Sell);
    assert_eq!(d.update(pct(600), ONE), Signal::Buy);
}

#[test]
fn classify_zones_and_boundaries() {
    // 0.6% above with a 0.5% threshold
    assert_eq!(classify(pct(600), ONE, 500), Zone::Above);
    // exactly 0.5% is not strictly above the band
    assert_eq!(classify(pct(500), ONE, 500), Zone::Between);
    assert_eq!(classify(pct(-500), ONE, 500), Zone::Between);
    assert_eq!(classify(pct(-600), ONE, 500), Zone::Below);
    // a negative long EMA flips the division's sign
    assert_eq!(classify(-1_006_000_000, -ONE, 500), Zone::Above);
    assert_eq!(classify(-994_000_000, -ONE, 500), Zone::Below);
    // zero threshold: any positive gap is above
    assert_eq!(classify(ONE + 1, ONE, 0), Zone::Above);
    assert_eq!(classify(ONE, ONE, 0), Zone::Between);
}

#[test]
fn trade_signal_mirrors_signal() {
    assert_eq!(TradeSignal::from(Signal::Buy), TradeSignal::Buy);
    assert_eq!(TradeSignal::from(Signal::Sell), TradeSignal::Sell);
    assert_eq!(TradeSignal::from(Signal::Hold), TradeSignal::Hold);
}

#[test]
fn gated_detector_never_arms_without_a_crossing() {
    let mut d = CrossingGatedSignal::new(500, 2);
    // sustained above the band, but the short EMA never crossed the
    // long one within the observed history: the detector stays unarmed
    assert_eq!(d.update(pct(600), ONE), Signal::Hold);
    assert_eq!(d.update(pct(700), ONE), Signal::Hold);
    assert_eq!(d.update(pct(800), ONE), Signal::Hold);
    assert_eq!(d.update(pct(900), ONE), Signal::Hold);
}

#[test]
fn gated_detector_arms_on_golden_cross_then_emits() {
    let mut d = CrossingGatedSignal::new(500, 2);
    // history below the long EMA
    assert_eq!(d.update(pct(-600), ONE), Signal::Hold);
    // the cross arms the detector and starts its clock
    assert_eq!(d.update(pct(600), ONE), Signal::Hold);
    // second armed sample beyond the band: Buy
    assert_eq!(d.update(pct(700), ONE), Signal::Buy);
    // emitting disarms: staying above is quiet again
    assert_eq!(d.update(pct(800), ONE), Signal::Hold);
}

#[test]
fn gated_detector_ignores_zero_long_ema() {
    let mut d = CrossingGatedSignal::new(500, 1);
    assert_eq!(d.update(pct(-600), ONE), Signal::Hold);
    assert_eq!(d.update(pct(600), 0), Signal::Hold);
    // the guard did not record history, so the cross is still pending
    assert_eq!(d.update(pct(600), ONE), Signal::Buy);
}
