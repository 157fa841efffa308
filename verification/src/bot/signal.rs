//! Hysteresis crossover detection.
//!
//! A detector turns one EMA observation per cycle into a `Buy`/`Sell`/`Hold`
//! signal. EMA values arrive as fixed-point nano-units (one unit equals
//! `1_000_000_000` nanos), and the hysteresis threshold is a percentage in
//! thousandths of a percent, so the whole classification is exact integer
//! arithmetic: the percentage gap `(short - long) / long * 100` exceeds
//! `threshold / 1000` exactly when `(short - long) * 100_000` and
//! `threshold * long` compare accordingly.

use vstd::prelude::*;

verus! {

/// Trading signal a detector emits for one observation.
#[derive(Debug, PartialEq, Eq, Structural, Clone, Copy)]
pub enum Signal {
    Buy,
    Sell,
    Hold,
}

/// Signal as routed to the notification sink.
#[derive(Debug, Clone, Copy, PartialEq, Eq, Structural)]
pub enum TradeSignal {
    Buy,
    Sell,
    Hold,
}

/// The notification-side image of a detector signal.
pub open spec fn trade_signal_of(signal: Signal) -> TradeSignal {
    match signal {
        Signal::Buy => TradeSignal::Buy,
        Signal::Sell => TradeSignal::Sell,
        Signal::Hold => TradeSignal::Hold,
    }
}

impl core::convert::From<Signal> for TradeSignal {
    fn from(signal: Signal) -> (r: TradeSignal)
        ensures
            r == trade_signal_of(signal),
    {
        match signal {
            Signal::Buy => TradeSignal::Buy,
            Signal::Sell => TradeSignal::Sell,
            Signal::Hold => TradeSignal::Hold,
        }
    }
}

impl vstd::std_specs::convert::FromSpecImpl<Signal> for TradeSignal {
    open spec fn obeys_from_spec() -> bool {
        true
    }

    open spec fn from_spec(v: Signal) -> TradeSignal {
        trade_signal_of(v)
    }
}

/// Classification of the percentage gap between short and long EMA
/// against the hysteresis threshold.
#[derive(Debug, PartialEq, Eq, Structural, Clone, Copy)]
pub enum Zone {
    Above,
    Below,
    Between,
}

/// The gap `(short - long) / long * 100` percent lies strictly above
/// `threshold / 1000` percent. Exact rational comparison: multiplying both
/// sides by `1000 * long` flips the inequality for negative `long`.
pub open spec fn gap_above(short: int, long: int, threshold: int) -> bool {
    if long > 0 {
        (short - long) * 100000 > threshold * long
    } else {
        (short - long) * 100000 < threshold * long
    }
}

/// The gap lies strictly below `-threshold / 1000` percent.
pub open spec fn gap_below(short: int, long: int, threshold: int) -> bool {
    if long > 0 {
        (short - long) * 100000 < -threshold * long
    } else {
        (short - long) * 100000 > -threshold * long
    }
}

/// Zone of one observation: `Above` past `+threshold`, `Below` past
/// `-threshold`, `Between` inside the band.
pub open spec fn zone_of(short: int, long: int, threshold: int) -> Zone
    recommends
        long != 0,
{
    if gap_above(short, long, threshold) {
        Zone::Above
    } else if gap_below(short, long, threshold) {
        Zone::Below
    } else {
        Zone::Between
    }
}

/// Classifies one observation. `short_ema` and `long_ema` are nano-unit
/// fixed-point values; `threshold_milli_pct` is the band half-width in
/// thousandths of a percent.
pub fn classify(short_ema: i64, long_ema: i64, threshold_milli_pct: u32) -> (z: Zone)
    requires
        long_ema != 0,
    ensures
        z == zone_of(short_ema as int, long_ema as int, threshold_milli_pct as int),
{
    proof {
        let t = threshold_milli_pct as int;
        let l = long_ema as int;
        assert(t * l <= 0x1_0000_0000 * 0x8000_0000_0000_0000 && t * l >= -(0x1_0000_0000
            * 0x8000_0000_0000_0000)) by (nonlinear_arith)
            requires
                0 <= t < 0x1_0000_0000,
                l >= -0x8000_0000_0000_0000,
                l < 0x8000_0000_0000_0000,
        ;
        assert((-t) * l == -(t * l)) by (nonlinear_arith);
    }
    let diff: i128 = (short_ema as i128 - long_ema as i128) * 100000;
    let bound: i128 = (threshold_milli_pct as i128) * (long_ema as i128);
    if long_ema > 0 {
        if diff > bound {
            Zone::Above
        } else if diff < -bound {
            Zone::Below
        } else {
            Zone::Between
        }
    } else {
        if diff < bound {
            Zone::Above
        } else if diff > -bound {
            Zone::Below
        } else {
            Zone::Between
        }
    }
}

/// Mathematical state of a hysteresis crossover detector.
pub ghost struct DetectorView {
    /// Band half-width in thousandths of a percent.
    pub threshold: int,
    /// Number of consecutive cycles a zone must be sustained before emitting.
    pub periods: int,
    /// Zone of the most recent classified observation.
    pub zone: Zone,
    /// Consecutive observations spent in `zone`; resets to 1 on a zone change.
    pub time_in_zone: nat,
    /// The last signal actually emitted; never reset by `Hold`.
    pub last_emitted: Option<Signal>,
}

/// One transition of the sustained-band detector: classify, advance the
/// zone clock, then emit at most one signal per contiguous qualifying stay.
/// An observation with `long == 0` is a division guard: it is ignored
/// entirely. The zone clock saturates at `u32::MAX`.
pub open spec fn spec_update(v: DetectorView, short: int, long: int) -> (DetectorView, Signal) {
    if long == 0 {
        (v, Signal::Hold)
    } else {
        let z = zone_of(short, long, v.threshold);
        let ticked: nat = if z == v.zone {
            if v.time_in_zone < u32::MAX { v.time_in_zone + 1 } else { v.time_in_zone }
        } else {
            1
        };
        let stepped = DetectorView { zone: z, time_in_zone: ticked, ..v };
        if stepped.zone == Zone::Above && ticked >= v.periods && stepped.last_emitted
            != Some(Signal::Buy) {
            (DetectorView { last_emitted: Some(Signal::Buy), ..stepped }, Signal::Buy)
        } else if stepped.zone == Zone::Below && ticked >= v.periods && stepped.last_emitted
            != Some(Signal::Sell) {
            (DetectorView { last_emitted: Some(Signal::Sell), ..stepped }, Signal::Sell)
        } else {
            (stepped, Signal::Hold)
        }
    }
}

/// Sustained-band hysteresis crossover detector: the documented primary
/// variant. It emits `Buy` once the gap has stayed above the band for
/// `hysteresis_periods` consecutive observations, and symmetrically `Sell`
/// below the band; a repeated emission requires leaving the zone first.
#[derive(Debug)]
pub struct CrossoverSignal {
    hysteresis_milli_pct: u32,
    hysteresis_periods: u32,
    zone: Zone,
    time_in_zone: u32,
    last_emitted: Option<Signal>,
}

impl View for CrossoverSignal {
    type V = DetectorView;

    closed spec fn view(&self) -> DetectorView {
        DetectorView {
            threshold: self.hysteresis_milli_pct as int,
            periods: self.hysteresis_periods as int,
            zone: self.zone,
            time_in_zone: self.time_in_zone as nat,
            last_emitted: self.last_emitted,
        }
    }
}

impl CrossoverSignal {
    /// A fresh detector: `Between`, zone clock zero, nothing emitted yet.
    pub fn new(hysteresis_milli_pct: u32, hysteresis_periods: u32) -> (d: CrossoverSignal)
        ensures
            d@ == (DetectorView {
                threshold: hysteresis_milli_pct as int,
                periods: hysteresis_periods as int,
                zone: Zone::Between,
                time_in_zone: 0,
                last_emitted: None::<Signal>,
            }),
    {
        CrossoverSignal {
            hysteresis_milli_pct,
            hysteresis_periods,
            zone: Zone::Between,
            time_in_zone: 0,
            last_emitted: None,
        }
    }

    /// Feeds one observation and returns the emitted signal; the state
    /// advances exactly by `spec_update`. A zero `long_ema` yields `Hold`
    /// and leaves the state untouched.
    pub fn update(&mut self, short_ema: i64, long_ema: i64) -> (s: Signal)
        ensures
            (final(self)@, s) == spec_update(old(self)@, short_ema as int, long_ema as int),
            long_ema == 0 ==> s == Signal::Hold && final(self)@ == old(self)@,
    {
        if long_ema == 0 {
            return Signal::Hold;
        }
        let z = classify(short_ema, long_ema, self.hysteresis_milli_pct);
        if z == self.zone {
            if self.time_in_zone < u32::MAX {
                self.time_in_zone = self.time_in_zone + 1;
            }
        } else {
            self.zone = z;
            self.time_in_zone = 1;
        }
        let qualifies = self.time_in_zone >= self.hysteresis_periods;
        let already_buy = match self.last_emitted {
            Some(Signal::Buy) => true,
            _ => false,
        };
        let already_sell = match self.last_emitted {
            Some(Signal::Sell) => true,
            _ => false,
        };
        if matches!(self.zone, Zone::Above) && qualifies && !already_buy {
            self.last_emitted = Some(Signal::Buy);
            Signal::Buy
        } else if matches!(self.zone, Zone::Below) && qualifies && !already_sell {
            self.last_emitted = Some(Signal::Sell);
            Signal::Sell
        } else {
            Signal::Hold
        }
    }
}

/// A detector run over a whole sequence of observations, returning the
/// final state and the signal emitted for each observation in order.
pub open spec fn spec_run(v: DetectorView, samples: Seq<(int, int)>) -> (DetectorView, Seq<Signal>)
    decreases samples.len(),
{
    if samples.len() == 0 {
        (v, Seq::empty())
    } else {
        let head = spec_update(v, samples[0].0, samples[0].1);
        let rest = spec_run(head.0, samples.drop_first());
        (rest.0, seq![head.1] + rest.1)
    }
}

/// One step of the no-repeat law: with `Buy` already emitted and the
/// observation staying in `Above` (or ignored as a division guard), no
/// `Buy` is emitted and the state keeps its zone and memory.
pub proof fn lemma_no_repeat_buy_step(v: DetectorView, short: int, long: int)
    requires
        v.zone == Zone::Above,
        v.last_emitted == Some(Signal::Buy),
        long != 0 ==> zone_of(short, long, v.threshold) == Zone::Above,
    ensures
        spec_update(v, short, long).1 != Signal::Buy,
        spec_update(v, short, long).0.zone == Zone::Above,
        spec_update(v, short, long).0.last_emitted == Some(Signal::Buy),
        spec_update(v, short, long).0.threshold == v.threshold,
        spec_update(v, short, long).0.periods == v.periods,
{
}

/// Law: once `Buy` has been emitted, as long as every following
/// observation keeps the detector in the `Above` zone, no further `Buy`
/// is ever emitted — re-qualifying requires leaving the zone first.
pub proof fn lemma_no_repeat_buy(v: DetectorView, samples: Seq<(int, int)>)
    requires
        v.zone == Zone::Above,
        v.last_emitted == Some(Signal::Buy),
        forall|i: int|
            0 <= i < samples.len() ==> ((#[trigger] samples[i]).1 != 0 ==> zone_of(
                samples[i].0,
                samples[i].1,
                v.threshold,
            ) == Zone::Above),
    ensures
        spec_run(v, samples).1.len() == samples.len(),
        forall|i: int|
            0 <= i < samples.len() ==> (#[trigger] spec_run(v, samples).1[i]) != Signal::Buy,
        spec_run(v, samples).0.zone == Zone::Above,
        spec_run(v, samples).0.last_emitted == Some(Signal::Buy),
        spec_run(v, samples).0.threshold == v.threshold,
    decreases samples.len(),
{
    if samples.len() > 0 {
        lemma_no_repeat_buy_step(v, samples[0].0, samples[0].1);
        let head = spec_update(v, samples[0].0, samples[0].1);
        assert(forall|i: int|
            0 <= i < samples.drop_first().len() ==> #[trigger] samples.drop_first()[i] == samples[i
                + 1]);
        lemma_no_repeat_buy(head.0, samples.drop_first());
        let rest = spec_run(head.0, samples.drop_first());
        assert(forall|i: int|
            1 <= i < samples.len() ==> #[trigger] spec_run(v, samples).1[i] == rest.1[i - 1]);
    }
}

/// One step of the symmetric no-repeat law for `Sell`.
pub proof fn lemma_no_repeat_sell_step(v: DetectorView, short: int, long: int)
    requires
        v.zone == Zone::Below,
        v.last_emitted == Some(Signal::Sell),
        long != 0 ==> zone_of(short, long, v.threshold) == Zone::Below,
    ensures
        spec_update(v, short, long).1 != Signal::Sell,
        spec_update(v, short, long).0.zone == Zone::Below,
        spec_update(v, short, long).0.last_emitted == Some(Signal::Sell),
        spec_update(v, short, long).0.threshold == v.threshold,
        spec_update(v, short, long).0.periods == v.periods,
{
}

/// Law: once `Sell` has been emitted, staying in `Below` never emits a
/// second `Sell`.
pub proof fn lemma_no_repeat_sell(v: DetectorView, samples: Seq<(int, int)>)
    requires
        v.zone == Zone::Below,
        v.last_emitted == Some(Signal::Sell),
        forall|i: int|
            0 <= i < samples.len() ==> ((#[trigger] samples[i]).1 != 0 ==> zone_of(
                samples[i].0,
                samples[i].1,
                v.threshold,
            ) == Zone::Below),
    ensures
        spec_run(v, samples).1.len() == samples.len(),
        forall|i: int|
            0 <= i < samples.len() ==> (#[trigger] spec_run(v, samples).1[i]) != Signal::Sell,
        spec_run(v, samples).0.zone == Zone::Below,
        spec_run(v, samples).0.last_emitted == Some(Signal::Sell),
        spec_run(v, samples).0.threshold == v.threshold,
    decreases samples.len(),
{
    if samples.len() > 0 {
        lemma_no_repeat_sell_step(v, samples[0].0, samples[0].1);
        let head = spec_update(v, samples[0].0, samples[0].1);
        assert(forall|i: int|
            0 <= i < samples.drop_first().len() ==> #[trigger] samples.drop_first()[i] == samples[i
                + 1]);
        lemma_no_repeat_sell(head.0, samples.drop_first());
        let rest = spec_run(head.0, samples.drop_first());
        assert(forall|i: int|
            1 <= i < samples.len() ==> #[trigger] spec_run(v, samples).1[i] == rest.1[i - 1]);
    }
}

/// The swappable detector interface the orchestrator is built behind: one
/// EMA observation per cycle in, one signal out. Each implementation
/// documents its own transition relation; `CrossoverSignal` carries the
/// primary sustained-band contract.
pub trait SignalDetector {
    /// Feeds one observation in nano-units and returns the signal for it.
    fn update(&mut self, short_ema: i64, long_ema: i64) -> Signal;
}

impl SignalDetector for CrossoverSignal {
    fn update(&mut self, short_ema: i64, long_ema: i64) -> Signal {
        CrossoverSignal::update(self, short_ema, long_ema)
    }
}

/// Mathematical state of a crossing-gated detector.
pub ghost struct GatedDetectorView {
    /// Band half-width in thousandths of a percent.
    pub threshold: int,
    /// Number of samples the hysteresis clock must reach before emitting.
    pub periods: int,
    /// Zone set by the most recent crossing event.
    pub zone: Zone,
    /// Samples counted since the detector was armed.
    pub time_in_zone: nat,
    /// The last signal actually emitted.
    pub last_emitted: Option<Signal>,
    /// Short EMA of the previous observation, once one was seen.
    pub last_short_ema: Option<int>,
    /// Long EMA of the previous observation, once one was seen.
    pub last_long_ema: Option<int>,
    /// Whether a crossing has armed the detector.
    pub has_crossed: bool,
}

/// One transition of the crossing-gated detector: an explicit crossing
/// of the two EMAs since the previous observation arms the detector and
/// starts the clock; only an armed detector whose gap is beyond the band
/// for long enough emits, and emitting disarms it. A `long == 0`
/// observation is ignored entirely.
pub open spec fn spec_gated_update(v: GatedDetectorView, short: int, long: int) -> (
    GatedDetectorView,
    Signal,
) {
    if long == 0 {
        (v, Signal::Hold)
    } else {
        let crossed_up = v.last_short_ema is Some && v.last_long_ema is Some && short > long
            && v.last_short_ema->0 <= v.last_long_ema->0;
        let crossed_down = v.last_short_ema is Some && v.last_long_ema is Some && short < long
            && v.last_short_ema->0 >= v.last_long_ema->0;
        let armed = if crossed_up {
            GatedDetectorView { zone: Zone::Above, time_in_zone: 0, has_crossed: true, ..v }
        } else if crossed_down {
            GatedDetectorView { zone: Zone::Below, time_in_zone: 0, has_crossed: true, ..v }
        } else {
            v
        };
        if armed.has_crossed {
            let ticked: nat = if armed.time_in_zone < u32::MAX {
                armed.time_in_zone + 1
            } else {
                armed.time_in_zone
            };
            if armed.zone == Zone::Above && gap_above(short, long, v.threshold) && ticked
                >= v.periods && armed.last_emitted != Some(Signal::Buy) {
                (
                    GatedDetectorView {
                        last_emitted: Some(Signal::Buy),
                        time_in_zone: 0,
                        has_crossed: false,
                        last_short_ema: Some(short),
                        last_long_ema: Some(long),
                        ..armed
                    },
                    Signal::Buy,
                )
            } else if armed.zone == Zone::Below && gap_below(short, long, v.threshold) && ticked
                >= v.periods && armed.last_emitted != Some(Signal::Sell) {
                (
                    GatedDetectorView {
                        last_emitted: Some(Signal::Sell),
                        time_in_zone: 0,
                        has_crossed: false,
                        last_short_ema: Some(short),
                        last_long_ema: Some(long),
                        ..armed
                    },
                    Signal::Sell,
                )
            } else {
                (
                    GatedDetectorView {
                        time_in_zone: ticked,
                        last_short_ema: Some(short),
                        last_long_ema: Some(long),
                        ..armed
                    },
                    Signal::Hold,
                )
            }
        } else {
            (
                GatedDetectorView {
                    last_short_ema: Some(short),
                    last_long_ema: Some(long),
                    ..armed
                },
                Signal::Hold,
            )
        }
    }
}

/// Crossing-gated hysteresis detector: the stricter variant. The
/// sustained-band detector counts any stay beyond the band; this one
/// first demands an explicit crossing of the two EMAs before the clock
/// starts. Both implement [`SignalDetector`], so the orchestrator can be
/// built over either.
#[derive(Debug)]
pub struct CrossingGatedSignal {
    hysteresis_milli_pct: u32,
    hysteresis_periods: u32,
    zone: Zone,
    time_in_zone: u32,
    last_emitted: Option<Signal>,
    last_short_ema: Option<i64>,
    last_long_ema: Option<i64>,
    has_crossed: bool,
}

impl View for CrossingGatedSignal {
    type V = GatedDetectorView;

    closed spec fn view(&self) -> GatedDetectorView {
        GatedDetectorView {
            threshold: self.hysteresis_milli_pct as int,
            periods: self.hysteresis_periods as int,
            zone: self.zone,
            time_in_zone: self.time_in_zone as nat,
            last_emitted: self.last_emitted,
            last_short_ema: match self.last_short_ema {
                Some(v) => Some(v as int),
                None => None,
            },
            last_long_ema: match self.last_long_ema {
                Some(v) => Some(v as int),
                None => None,
            },
            has_crossed: self.has_crossed,
        }
    }
}

impl CrossingGatedSignal {
    /// A fresh detector: unarmed, `Between`, nothing seen or emitted.
    pub fn new(hysteresis_milli_pct: u32, hysteresis_periods: u32) -> (d: CrossingGatedSignal)
        ensures
            d@ == (GatedDetectorView {
                threshold: hysteresis_milli_pct as int,
                periods: hysteresis_periods as int,
                zone: Zone::Between,
                time_in_zone: 0,
                last_emitted: None::<Signal>,
                last_short_ema: None::<int>,
                last_long_ema: None::<int>,
                has_crossed: false,
            }),
    {
        CrossingGatedSignal {
            hysteresis_milli_pct,
            hysteresis_periods,
            zone: Zone::Between,
            time_in_zone: 0,
            last_emitted: None,
            last_short_ema: None,
            last_long_ema: None,
            has_crossed: false,
        }
    }

    /// Feeds one observation; the state advances exactly by
    /// `spec_gated_update`.
    pub fn update(&mut self, short_ema: i64, long_ema: i64) -> (s: Signal)
        ensures
            (final(self)@, s) == spec_gated_update(
                old(self)@,
                short_ema as int,
                long_ema as int,
            ),
            long_ema == 0 ==> s == Signal::Hold && final(self)@ == old(self)@,
    {
        if long_ema == 0 {
            return Signal::Hold;
        }
        let has_history = self.last_short_ema.is_some() && self.last_long_ema.is_some();
        if has_history {
            let ls = match self.last_short_ema {
                Some(v) => v,
                None => 0,
            };
            let ll = match self.last_long_ema {
                Some(v) => v,
                None => 0,
            };
            if short_ema > long_ema && ls <= ll {
                self.has_crossed = true;
                self.zone = Zone::Above;
                self.time_in_zone = 0;
            } else if short_ema < long_ema && ls >= ll {
                self.has_crossed = true;
                self.zone = Zone::Below;
                self.time_in_zone = 0;
            }
        }
        if self.has_crossed {
            if self.time_in_zone < u32::MAX {
                self.time_in_zone = self.time_in_zone + 1;
            }
            proof {
                let t = self.hysteresis_milli_pct as int;
                let l = long_ema as int;
                assert((-t) * l == -(t * l) && (l > 0 ==> t * l >= 0) && (l < 0 ==> t * l
                    <= 0)) by (nonlinear_arith)
                    requires
                        t >= 0,
                ;
            }
            let z = classify(short_ema, long_ema, self.hysteresis_milli_pct);
            let qualifies = self.time_in_zone >= self.hysteresis_periods;
            let already_buy = match self.last_emitted {
                Some(Signal::Buy) => true,
                _ => false,
            };
            let already_sell = match self.last_emitted {
                Some(Signal::Sell) => true,
                _ => false,
            };
            if matches!(self.zone, Zone::Above) && matches!(z, Zone::Above) && qualifies
                && !already_buy {
                self.last_emitted = Some(Signal::Buy);
                self.time_in_zone = 0;
                self.has_crossed = false;
                self.last_short_ema = Some(short_ema);
                self.last_long_ema = Some(long_ema);
                return Signal::Buy;
            }
            if matches!(self.zone, Zone::Below) && matches!(z, Zone::Below) && qualifies
                && !already_sell {
                self.last_emitted = Some(Signal::Sell);
                self.time_in_zone = 0;
                self.has_crossed = false;
                self.last_short_ema = Some(short_ema);
                self.last_long_ema = Some(long_ema);
                return Signal::Sell;
            }
        }
        self.last_short_ema = Some(short_ema);
        self.last_long_ema = Some(long_ema);
        Signal::Hold
    }
}

impl SignalDetector for CrossingGatedSignal {
    fn update(&mut self, short_ema: i64, long_ema: i64) -> Signal {
        CrossingGatedSignal::update(self, short_ema, long_ema)
    }
}

} // verus!
