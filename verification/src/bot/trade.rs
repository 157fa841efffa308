//! Per-instrument EMA crossover strategy.
//!
//! A strategy owns one detector plus the last observed values for one
//! instrument. Each cycle it reads the freshly fetched market data —
//! last price, short-EMA series, long-EMA series — caches the latest
//! values and feeds them to its detector. All values are nano-unit
//! fixed-point integers.

use vstd::prelude::*;

use crate::bot::signal::{spec_update, CrossoverSignal, DetectorView, Signal, TradeSignal, Zone};
use crate::market_data_service::get_last_prices::GetLastPricesResponse;
use crate::market_data_service::get_tech_analysis::{
    GetTechAnalysisResponse, IndicatorInterval, TechnicalIndicatorView,
};
use crate::models::structs::spec_nano;

verus! {

/// Mathematical state of a strategy.
pub ghost struct StrategyView {
    /// Identity of the instrument the strategy watches.
    pub instrument_uid: Seq<char>,
    /// Display ticker used in notifications.
    pub instrument_ticker: Seq<char>,
    /// Short EMA lookback length.
    pub short_ema_length: int,
    /// Long EMA lookback length.
    pub long_ema_length: int,
    /// Sampling interval of both series.
    pub interval: IndicatorInterval,
    /// Hysteresis detector state.
    pub detector: DetectorView,
    /// Last short-EMA value seen, in nano-units.
    pub last_short_ema: int,
    /// Last long-EMA value seen, in nano-units.
    pub last_long_ema: int,
    /// Last price seen, in nano-units.
    pub last_price: int,
}

/// A freshly created strategy: cached values zero, detector in `Between`
/// with nothing emitted.
pub open spec fn spec_fresh_strategy(
    instrument_uid: Seq<char>,
    instrument_ticker: Seq<char>,
    short_ema_length: int,
    long_ema_length: int,
    interval: IndicatorInterval,
    hysteresis_milli_pct: int,
    hysteresis_periods: int,
) -> StrategyView {
    StrategyView {
        instrument_uid,
        instrument_ticker,
        short_ema_length,
        long_ema_length,
        interval,
        detector: DetectorView {
            threshold: hysteresis_milli_pct,
            periods: hysteresis_periods,
            zone: Zone::Between,
            time_in_zone: 0,
            last_emitted: None,
        },
        last_short_ema: 0,
        last_long_ema: 0,
        last_price: 0,
    }
}

/// EMA value the scanner reads from a series: the `signal` field of the
/// newest observation, zero when that field is absent.
pub open spec fn spec_last_signal_value(resp: Seq<TechnicalIndicatorView>) -> int
    recommends
        resp.len() > 0,
{
    match resp.last().signal {
        Some(q) => spec_nano(q),
        None => 0,
    }
}

/// Nano-unit values of the present middle-band entries, oldest first.
pub open spec fn spec_band_values(resp: Seq<TechnicalIndicatorView>) -> Seq<int> {
    resp.filter(|t: TechnicalIndicatorView| t.middle_band is Some).map_values(
        |t: TechnicalIndicatorView| spec_nano(t.middle_band->0),
    )
}

/// The crossing decision over two series of middle-band values: `Buy` on
/// a golden cross (short moved from at-or-below to above the long),
/// `Sell` on a death cross, `Hold` otherwise or when either series has
/// fewer than two present values.
pub open spec fn spec_crossover(shorts: Seq<int>, longs: Seq<int>) -> TradeSignal {
    if shorts.len() < 2 || longs.len() < 2 {
        TradeSignal::Hold
    } else {
        let sc = shorts.last();
        let sp = shorts[shorts.len() - 2];
        let lc = longs.last();
        let lp = longs[longs.len() - 2];
        if sc > lc && sp <= lp {
            TradeSignal::Buy
        } else if sc < lc && sp >= lp {
            TradeSignal::Sell
        } else {
            TradeSignal::Hold
        }
    }
}

/// What one evaluation does to a strategy and returns: the outcome of
/// [`EmaCrossStrategy::process_market_data`].
pub open spec fn spec_process(
    pre: StrategyView,
    prices: Seq<crate::market_data_service::get_last_prices::LastPriceView>,
    short_resp: Seq<TechnicalIndicatorView>,
    long_resp: Seq<TechnicalIndicatorView>,
) -> (StrategyView, Signal) {
    let priced = StrategyView {
        last_price: if prices.len() > 0 {
            spec_nano(prices[0].price)
        } else {
            pre.last_price
        },
        ..pre
    };
    if short_resp.len() == 0 || long_resp.len() == 0 {
        (priced, Signal::Hold)
    } else {
        let short_v = spec_last_signal_value(short_resp);
        let long_v = spec_last_signal_value(long_resp);
        let step = spec_update(pre.detector, short_v, long_v);
        (
            StrategyView {
                last_short_ema: short_v,
                last_long_ema: long_v,
                detector: step.0,
                ..priced
            },
            step.1,
        )
    }
}

/// One instrument's EMA crossover strategy: identity, configuration,
/// detector and the last observed values.
#[derive(Debug)]
pub struct EmaCrossStrategy {
    instrument_uid: String,
    instrument_ticker: String,
    short_ema_length: i32,
    long_ema_length: i32,
    interval: IndicatorInterval,
    signal_generator: CrossoverSignal,
    last_short_ema: i64,
    last_long_ema: i64,
    last_price: i64,
}

impl View for EmaCrossStrategy {
    type V = StrategyView;

    closed spec fn view(&self) -> StrategyView {
        StrategyView {
            instrument_uid: self.instrument_uid@,
            instrument_ticker: self.instrument_ticker@,
            short_ema_length: self.short_ema_length as int,
            long_ema_length: self.long_ema_length as int,
            interval: self.interval,
            detector: self.signal_generator@,
            last_short_ema: self.last_short_ema as int,
            last_long_ema: self.last_long_ema as int,
            last_price: self.last_price as int,
        }
    }
}

impl EmaCrossStrategy {
    /// A fresh strategy for one instrument.
    pub fn new(
        instrument_uid: String,
        instrument_ticker: String,
        short_ema_length: i32,
        long_ema_length: i32,
        interval: IndicatorInterval,
        hysteresis_milli_pct: u32,
        hysteresis_periods: u32,
    ) -> (r: EmaCrossStrategy)
        ensures
            r@ == spec_fresh_strategy(
                instrument_uid@,
                instrument_ticker@,
                short_ema_length as int,
                long_ema_length as int,
                interval,
                hysteresis_milli_pct as int,
                hysteresis_periods as int,
            ),
    {
        EmaCrossStrategy {
            instrument_uid,
            instrument_ticker,
            short_ema_length,
            long_ema_length,
            interval,
            signal_generator: CrossoverSignal::new(hysteresis_milli_pct, hysteresis_periods),
            last_short_ema: 0,
            last_long_ema: 0,
            last_price: 0,
        }
    }

    /// Last short-EMA value seen, in nano-units.
    pub fn get_last_short(&self) -> (v: i64)
        ensures
            v as int == self@.last_short_ema,
    {
        self.last_short_ema
    }

    /// Last long-EMA value seen, in nano-units.
    pub fn get_last_long(&self) -> (v: i64)
        ensures
            v as int == self@.last_long_ema,
    {
        self.last_long_ema
    }

    /// Last price seen, in nano-units.
    pub fn get_last_price(&self) -> (v: i64)
        ensures
            v as int == self@.last_price,
    {
        self.last_price
    }

    /// The instrument's display ticker.
    pub fn get_ticker(&self) -> (t: &str)
        ensures
            t@ == self@.instrument_ticker,
    {
        self.instrument_ticker.as_str()
    }

    /// The instrument's uid.
    pub fn get_uid(&self) -> (u: &str)
        ensures
            u@ == self@.instrument_uid,
    {
        self.instrument_uid.as_str()
    }

    /// The crossing decision over the two fetched EMA series.
    pub fn analyze_crossover(
        &self,
        short_ema: &GetTechAnalysisResponse,
        long_ema: &GetTechAnalysisResponse,
    ) -> (r: TradeSignal)
        ensures
            r == spec_crossover(spec_band_values(short_ema@), spec_band_values(long_ema@)),
    {
        let shorts = band_values(short_ema);
        let longs = band_values(long_ema);
        if shorts.len() < 2 || longs.len() < 2 {
            return TradeSignal::Hold;
        }
        let sc = shorts[shorts.len() - 1];
        let sp = shorts[shorts.len() - 2];
        let lc = longs[longs.len() - 1];
        let lp = longs[longs.len() - 2];
        if sc > lc && sp <= lp {
            TradeSignal::Buy
        } else if sc < lc && sp >= lp {
            TradeSignal::Sell
        } else {
            TradeSignal::Hold
        }
    }

    /// Digests one cycle's fetched market data: caches the last price and
    /// the newest EMA values, then runs the detector. An empty indicator
    /// series means no data this cycle: the detector is left untouched
    /// and the cycle holds.
    pub fn process_market_data(
        &mut self,
        prices: &GetLastPricesResponse,
        short_resp: &GetTechAnalysisResponse,
        long_resp: &GetTechAnalysisResponse,
    ) -> (s: Signal)
        ensures
            (final(self)@, s) == spec_process(old(self)@, prices@, short_resp@, long_resp@),
    {
        if prices.last_prices.len() > 0 {
            self.last_price = prices.last_prices[0].price.to_nano();
            proof {
                assert(prices@[0] == prices.last_prices@[0]@);
            }
        }
        let slen = short_resp.technical_indicators.len();
        let llen = long_resp.technical_indicators.len();
        if slen == 0 || llen == 0 {
            return Signal::Hold;
        }
        proof {
            assert(short_resp@.last() == short_resp.technical_indicators@[slen - 1]@);
            assert(long_resp@.last() == long_resp.technical_indicators@[llen - 1]@);
        }
        self.last_short_ema = match &short_resp.technical_indicators[slen - 1].signal {
            Some(q) => q.to_nano(),
            None => 0,
        };
        self.last_long_ema = match &long_resp.technical_indicators[llen - 1].signal {
            Some(q) => q.to_nano(),
            None => 0,
        };
        self.signal_generator.update(self.last_short_ema, self.last_long_ema)
    }
}

/// Nano-unit values of the present middle-band entries of a series.
fn band_values(resp: &GetTechAnalysisResponse) -> (v: Vec<i64>)
    ensures
        v@.map_values(|x: i64| x as int) == spec_band_values(resp@),
{
    let ghost all = resp@;
    let ghost pred = |t: TechnicalIndicatorView| t.middle_band is Some;
    let mut v: Vec<i64> = Vec::new();
    let mut k: usize = 0;
    while k < resp.technical_indicators.len()
        invariant
            0 <= k as int <= resp.technical_indicators@.len(),
            all == resp@,
            all.len() == resp.technical_indicators@.len(),
            pred == (|t: TechnicalIndicatorView| t.middle_band is Some),
            v@.map_values(|x: i64| x as int) == all.take(k as int).filter(pred).map_values(
                |t: TechnicalIndicatorView| spec_nano(t.middle_band->0),
            ),
        decreases resp.technical_indicators@.len() - k,
    {
        let ti = &resp.technical_indicators[k];
        proof {
            assert(ti@ == all[k as int]);
            crate::instruments::get_assets::lemma_filter_take_step(all, pred, k as int);
        }
        match &ti.middle_band {
            Some(q) => {
                let ghost v0 = v@;
                v.push(q.to_nano());
                proof {
                    v0.lemma_push_map_commute(|x: i64| x as int, v@.last());
                    all.take(k as int).filter(pred).lemma_push_map_commute(
                        |t: TechnicalIndicatorView| spec_nano(t.middle_band->0),
                        all[k as int],
                    );
                    assert(v@.map_values(|x: i64| x as int) =~= all.take(k as int + 1).filter(
                        pred,
                    ).map_values(|t: TechnicalIndicatorView| spec_nano(t.middle_band->0)));
                }
            },
            None => {
                proof {
                    assert(v@.map_values(|x: i64| x as int) =~= all.take(k as int + 1).filter(
                        pred,
                    ).map_values(|t: TechnicalIndicatorView| spec_nano(t.middle_band->0)));
                }
            },
        }
        k = k + 1;
    }
    proof {
        assert(all.take(all.len() as int) =~= all);
    }
    v
}

} // verus!
