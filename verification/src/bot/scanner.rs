//! Scan-cycle orchestration.
//!
//! Each cycle fetches the universe, filters it, checks tradability, then
//! evaluates every tradable instrument against its persistent strategy.
//! The registry keeps one strategy per instrument alive across cycles so
//! hysteresis never resets merely because a new cycle started; the cycle
//! evaluation isolates per-instrument failures; the phase machine pins
//! down the loop around it all, including where cancellation is
//! observed.

use vstd::pervasive::VecAdditionalExecFns;
use vstd::prelude::*;

use crate::bot::signal::{trade_signal_of, Signal, TradeSignal};
use crate::bot::trade::{spec_fresh_strategy, spec_process, EmaCrossStrategy, StrategyView};
use crate::config::{StrategyConfig, StrategyConfigView};
use crate::market_data_service::get_last_prices::{GetLastPricesResponse, LastPriceView};
use crate::market_data_service::get_tech_analysis::{
    GetTechAnalysisResponse, IndicatorInterval, TechnicalIndicatorView,
};
use crate::text::str_eq;

verus! {

/// No two strategies watch the same instrument.
pub open spec fn spec_registry_wf(s: Seq<StrategyView>) -> bool {
    forall|i: int, j: int|
        0 <= i < j < s.len() ==> (#[trigger] s[i]).instrument_uid != (
        #[trigger] s[j]).instrument_uid
}

/// Some strategy watches the given instrument.
pub open spec fn spec_contains_id(s: Seq<StrategyView>, uid: Seq<char>) -> bool {
    exists|i: int| 0 <= i < s.len() && (#[trigger] s[i]).instrument_uid == uid
}

/// Index of the first strategy watching the given instrument; negative
/// when there is none.
pub open spec fn spec_index_of(s: Seq<StrategyView>, uid: Seq<char>) -> int
    decreases s.len(),
{
    if s.len() == 0 {
        -1
    } else if s[0].instrument_uid == uid {
        0
    } else {
        let r = spec_index_of(s.drop_first(), uid);
        if r < 0 {
            -1
        } else {
            r + 1
        }
    }
}

/// What `spec_index_of` finds: the first match, exactly when one exists.
pub proof fn lemma_index_of_props(s: Seq<StrategyView>, uid: Seq<char>)
    ensures
        spec_contains_id(s, uid) <==> 0 <= spec_index_of(s, uid) < s.len(),
        !spec_contains_id(s, uid) ==> spec_index_of(s, uid) == -1,
        spec_contains_id(s, uid) ==> s[spec_index_of(s, uid)].instrument_uid == uid,
        forall|j: int| 0 <= j < spec_index_of(s, uid) ==> (#[trigger] s[j]).instrument_uid != uid,
    decreases s.len(),
{
    if s.len() > 0 && s[0].instrument_uid != uid {
        lemma_index_of_props(s.drop_first(), uid);
        assert(forall|i: int|
            1 <= i < s.len() ==> (#[trigger] s[i]) == s.drop_first()[i - 1]);
        if spec_contains_id(s, uid) {
            let w = choose|i: int| 0 <= i < s.len() && (#[trigger] s[i]).instrument_uid == uid;
            assert(s.drop_first()[w - 1].instrument_uid == uid);
        }
        if spec_contains_id(s.drop_first(), uid) {
            let w = choose|i: int|
                0 <= i < s.drop_first().len() && (#[trigger] s.drop_first()[i]).instrument_uid
                    == uid;
            assert(s[w + 1].instrument_uid == uid);
        }
    }
}

/// In a well-formed registry the watcher of a uid is unique, so any
/// index carrying that uid is the one `spec_index_of` finds.
pub proof fn lemma_index_of_unique(s: Seq<StrategyView>, uid: Seq<char>, k: int)
    requires
        spec_registry_wf(s),
        0 <= k < s.len(),
        s[k].instrument_uid == uid,
    ensures
        spec_index_of(s, uid) == k,
{
    lemma_index_of_props(s, uid);
    let idx = spec_index_of(s, uid);
    if idx < k {
        assert(s[idx].instrument_uid == s[k].instrument_uid);
    }
    if idx > k {
        assert(s[k].instrument_uid != uid);
    }
}

/// The strategy registry: one persistent strategy per instrument,
/// created on first sight and never evicted.
#[derive(Debug)]
pub struct StrategyRegistry {
    strategies: Vec<EmaCrossStrategy>,
}

impl View for StrategyRegistry {
    type V = Seq<StrategyView>;

    closed spec fn view(&self) -> Seq<StrategyView> {
        self.strategies@.map_values(|s: EmaCrossStrategy| s@)
    }
}

impl StrategyRegistry {
    /// The registry's invariant: no instrument is watched twice.
    pub open spec fn wf(&self) -> bool {
        spec_registry_wf(self@)
    }

    /// An empty registry.
    pub fn new() -> (r: StrategyRegistry)
        ensures
            r@ == Seq::<StrategyView>::empty(),
            r.wf(),
    {
        let r = StrategyRegistry { strategies: Vec::new() };
        proof {
            assert(r@ =~= Seq::<StrategyView>::empty());
        }
        r
    }

    /// Number of strategies held.
    pub fn len(&self) -> (n: usize)
        ensures
            n == self@.len(),
    {
        self.strategies.len()
    }

    /// Index of the strategy watching `id`, creating a fresh one when
    /// none does. An id seen before keeps its entry untouched — the
    /// state-continuity guarantee hysteresis depends on.
    pub fn get_or_create(&mut self, id: &str, ticker: &str, cfg: &StrategyConfig) -> (idx: usize)
        requires
            old(self).wf(),
        ensures
            final(self).wf(),
            (idx as int) < final(self)@.len(),
            final(self)@[idx as int].instrument_uid == id@,
            spec_contains_id(old(self)@, id@) ==> *final(self) == *old(self) && idx as int
                == spec_index_of(old(self)@, id@),
            !spec_contains_id(old(self)@, id@) ==> final(self)@ == old(self)@.push(
                spec_fresh_strategy(
                    id@,
                    ticker@,
                    cfg.short_ema_length as int,
                    cfg.long_ema_length as int,
                    cfg.interval,
                    cfg.hysteresis_milli_pct as int,
                    cfg.hysteresis_periods as int,
                ),
            ) && idx as int == old(self)@.len(),
    {
        let ghost all = self@;
        let mut k: usize = 0;
        while k < self.strategies.len()
            invariant
                0 <= k as int <= self.strategies@.len(),
                all == self@,
                spec_registry_wf(all),
                all.len() == self.strategies@.len(),
                forall|j: int|
                    0 <= j < k as int ==> (#[trigger] all[j]).instrument_uid != id@,
            decreases self.strategies@.len() - k,
        {
            let candidate = &self.strategies[k];
            proof {
                assert(candidate@ == all[k as int]);
            }
            if str_eq(candidate.get_uid(), id) {
                proof {
                    lemma_index_of_unique(all, id@, k as int);
                }
                return k;
            }
            k = k + 1;
        }
        proof {
            assert(!spec_contains_id(all, id@));
        }
        let idx = self.strategies.len();
        let ghost s0 = self.strategies@;
        self.strategies.push(
            EmaCrossStrategy::new(
                id.to_owned(),
                ticker.to_owned(),
                cfg.short_ema_length,
                cfg.long_ema_length,
                cfg.interval,
                cfg.hysteresis_milli_pct,
                cfg.hysteresis_periods,
            ),
        );
        proof {
            s0.lemma_push_map_commute(
                |s: EmaCrossStrategy| s@,
                self.strategies@.last(),
            );
            assert(self@ =~= all.push(
                spec_fresh_strategy(
                    id@,
                    ticker@,
                    cfg.short_ema_length as int,
                    cfg.long_ema_length as int,
                    cfg.interval,
                    cfg.hysteresis_milli_pct as int,
                    cfg.hysteresis_periods as int,
                ),
            ));
        }
        idx
    }
}

/// Why one instrument's evaluation failed this cycle. Such a failure is
/// caught at the per-instrument boundary: the instrument is skipped for
/// the cycle and its strategy state stays untouched.
#[derive(Debug, Clone, Copy, PartialEq, Eq, Structural)]
pub enum InstrumentEvalError {
    /// A network failure while fetching the instrument's data.
    Network,
    /// The fetched data could not be understood.
    MalformedData,
}

/// The market data fetched for one instrument in one cycle.
#[derive(Debug)]
pub struct MarketSnapshot {
    pub last_prices: GetLastPricesResponse,
    pub short_ema: GetTechAnalysisResponse,
    pub long_ema: GetTechAnalysisResponse,
}

/// Mathematical image of a [`MarketSnapshot`].
pub ghost struct MarketSnapshotView {
    pub prices: Seq<LastPriceView>,
    pub short: Seq<TechnicalIndicatorView>,
    pub long: Seq<TechnicalIndicatorView>,
}

impl View for MarketSnapshot {
    type V = MarketSnapshotView;

    open spec fn view(&self) -> MarketSnapshotView {
        MarketSnapshotView {
            prices: self.last_prices@,
            short: self.short_ema@,
            long: self.long_ema@,
        }
    }
}

/// One tradable instrument's fetch outcome for a cycle.
#[derive(Debug)]
pub struct InstrumentOutcome {
    pub uid: String,
    pub ticker: String,
    pub fetch: Result<MarketSnapshot, InstrumentEvalError>,
}

/// Mathematical image of an [`InstrumentOutcome`].
pub ghost struct OutcomeView {
    pub uid: Seq<char>,
    pub ticker: Seq<char>,
    pub fetch: Result<MarketSnapshotView, InstrumentEvalError>,
}

impl View for InstrumentOutcome {
    type V = OutcomeView;

    open spec fn view(&self) -> OutcomeView {
        OutcomeView {
            uid: self.uid@,
            ticker: self.ticker@,
            fetch: match self.fetch {
                Ok(s) => Ok(s@),
                Err(e) => Err(e),
            },
        }
    }
}

/// A non-`Hold` signal, with everything its notification needs.
#[derive(Debug)]
pub struct SignalEvent {
    pub uid: String,
    pub ticker: String,
    pub signal: TradeSignal,
    pub short_ema: i64,
    pub long_ema: i64,
    pub last_price: i64,
}

/// Mathematical image of a [`SignalEvent`].
pub ghost struct SignalEventView {
    pub uid: Seq<char>,
    pub ticker: Seq<char>,
    pub signal: TradeSignal,
    pub short_ema: int,
    pub long_ema: int,
    pub last_price: int,
}

impl View for SignalEvent {
    type V = SignalEventView;

    open spec fn view(&self) -> SignalEventView {
        SignalEventView {
            uid: self.uid@,
            ticker: self.ticker@,
            signal: self.signal,
            short_ema: self.short_ema as int,
            long_ema: self.long_ema as int,
            last_price: self.last_price as int,
        }
    }
}

/// One instrument's step of a cycle: look its strategy up (creating a
/// fresh one on first sight), and on a successful fetch run the
/// strategy; a failed fetch leaves the strategy untouched. A `Buy` or
/// `Sell` becomes one event carrying the entry's ticker and the values
/// just cached; `Hold` is suppressed.
pub open spec fn spec_eval_one(
    reg: Seq<StrategyView>,
    cfg: StrategyConfigView,
    o: OutcomeView,
) -> (Seq<StrategyView>, Seq<SignalEventView>) {
    let idx0 = spec_index_of(reg, o.uid);
    let reg1 = if idx0 >= 0 {
        reg
    } else {
        reg.push(
            spec_fresh_strategy(
                o.uid,
                o.ticker,
                cfg.short_ema_length,
                cfg.long_ema_length,
                cfg.interval,
                cfg.hysteresis_milli_pct,
                cfg.hysteresis_periods,
            ),
        )
    };
    let idx = if idx0 >= 0 {
        idx0
    } else {
        reg.len() as int
    };
    match o.fetch {
        Err(_) => (reg1, Seq::empty()),
        Ok(snap) => {
            let pre = reg1[idx];
            let step = spec_process(pre, snap.prices, snap.short, snap.long);
            let reg2 = reg1.update(idx, step.0);
            if step.1 == Signal::Hold {
                (reg2, Seq::empty())
            } else {
                (
                    reg2,
                    seq![
                        (SignalEventView {
                            uid: o.uid,
                            ticker: pre.instrument_ticker,
                            signal: trade_signal_of(step.1),
                            short_ema: step.0.last_short_ema,
                            long_ema: step.0.last_long_ema,
                            last_price: step.0.last_price,
                        }),
                    ],
                )
            }
        },
    }
}

/// A whole cycle's evaluation: the instruments' outcomes folded over the
/// registry in order, collecting the emitted events.
pub open spec fn spec_eval_cycle(
    reg: Seq<StrategyView>,
    cfg: StrategyConfigView,
    outs: Seq<OutcomeView>,
) -> (Seq<StrategyView>, Seq<SignalEventView>)
    decreases outs.len(),
{
    if outs.len() == 0 {
        (reg, Seq::empty())
    } else {
        let head = spec_eval_one(reg, cfg, outs[0]);
        let rest = spec_eval_cycle(head.0, cfg, outs.drop_first());
        (rest.0, head.1 + rest.1)
    }
}

/// Peeling the last outcome off a cycle.
proof fn lemma_eval_cycle_snoc(
    reg: Seq<StrategyView>,
    cfg: StrategyConfigView,
    outs: Seq<OutcomeView>,
    x: OutcomeView,
)
    ensures
        spec_eval_cycle(reg, cfg, outs.push(x)).0 == spec_eval_one(
            spec_eval_cycle(reg, cfg, outs).0,
            cfg,
            x,
        ).0,
        spec_eval_cycle(reg, cfg, outs.push(x)).1 == spec_eval_cycle(reg, cfg, outs).1
            + spec_eval_one(spec_eval_cycle(reg, cfg, outs).0, cfg, x).1,
    decreases outs.len(),
{
    let p = outs.push(x);
    let h = spec_eval_one(reg, cfg, p[0]);
    assert(spec_eval_cycle(reg, cfg, p).0 == spec_eval_cycle(h.0, cfg, p.drop_first()).0);
    assert(spec_eval_cycle(reg, cfg, p).1 == h.1 + spec_eval_cycle(h.0, cfg, p.drop_first()).1);
    if outs.len() == 0 {
        assert(p[0] == x);
        assert(p.drop_first() =~= Seq::<OutcomeView>::empty());
        assert(spec_eval_cycle(h.0, cfg, p.drop_first()).0 == h.0);
        assert(spec_eval_cycle(h.0, cfg, p.drop_first()).1 =~= Seq::<SignalEventView>::empty());
        assert(spec_eval_cycle(reg, cfg, outs).0 == reg);
        assert(spec_eval_cycle(reg, cfg, outs).1 =~= Seq::<SignalEventView>::empty());
        assert(spec_eval_cycle(reg, cfg, p).1 =~= spec_eval_cycle(reg, cfg, outs).1
            + spec_eval_one(spec_eval_cycle(reg, cfg, outs).0, cfg, x).1);
    } else {
        assert(p[0] == outs[0]);
        assert(p.drop_first() =~= outs.drop_first().push(x));
        lemma_eval_cycle_snoc(h.0, cfg, outs.drop_first(), x);
        assert(spec_eval_cycle(reg, cfg, outs).0 == spec_eval_cycle(
            h.0,
            cfg,
            outs.drop_first(),
        ).0);
        assert(spec_eval_cycle(reg, cfg, outs).1 == h.1 + spec_eval_cycle(
            h.0,
            cfg,
            outs.drop_first(),
        ).1);
        assert(spec_eval_cycle(reg, cfg, p).1 =~= spec_eval_cycle(reg, cfg, outs).1
            + spec_eval_one(spec_eval_cycle(reg, cfg, outs).0, cfg, x).1);
    }
}

impl StrategyRegistry {
    /// Evaluates one cycle's fetched outcomes against the registry,
    /// returning the emitted events in instrument order. Exactly
    /// `spec_eval_cycle`: failed fetches are skipped with their strategy
    /// state intact, and only `Buy`/`Sell` produce events.
    pub fn evaluate_cycle(
        &mut self,
        cfg: &StrategyConfig,
        outcomes: &Vec<InstrumentOutcome>,
    ) -> (events: Vec<SignalEvent>)
        requires
            old(self).wf(),
        ensures
            final(self).wf(),
            final(self)@ == spec_eval_cycle(
                old(self)@,
                cfg@,
                outcomes@.map_values(|o: InstrumentOutcome| o@),
            ).0,
            events@.map_values(|e: SignalEvent| e@) == spec_eval_cycle(
                old(self)@,
                cfg@,
                outcomes@.map_values(|o: InstrumentOutcome| o@),
            ).1,
            forall|i: int|
                0 <= i < events@.len() ==> (#[trigger] events@[i]).signal != TradeSignal::Hold,
    {
        let ghost reg0 = self@;
        let ghost outs = outcomes@.map_values(|o: InstrumentOutcome| o@);
        let mut events: Vec<SignalEvent> = Vec::new();
        let mut i: usize = 0;
        while i < outcomes.len()
            invariant
                0 <= i as int <= outcomes@.len(),
                outs == outcomes@.map_values(|o: InstrumentOutcome| o@),
                outs.len() == outcomes@.len(),
                spec_registry_wf(self@),
                self@ == spec_eval_cycle(reg0, cfg@, outs.take(i as int)).0,
                events@.map_values(|e: SignalEvent| e@) == spec_eval_cycle(
                    reg0,
                    cfg@,
                    outs.take(i as int),
                ).1,
            decreases outcomes@.len() - i,
        {
            let ghost reg_pre = self@;
            let ghost evs_pre = events@.map_values(|e: SignalEvent| e@);
            let o = &outcomes[i];
            proof {
                assert(o@ == outs[i as int]);
                lemma_index_of_props(reg_pre, o@.uid);
            }
            let idx = self.get_or_create(o.uid.as_str(), o.ticker.as_str(), cfg);
            let ghost reg1 = self@;
            let ghost step = spec_eval_one(reg_pre, cfg@, outs[i as int]);
            match &o.fetch {
                Ok(snap) => {
                    let mut entry = EmaCrossStrategy::new(
                        String::new(),
                        String::new(),
                        0,
                        0,
                        IndicatorInterval::Unspecified,
                        0,
                        0,
                    );
                    let ghost strategies1 = self.strategies@;
                    self.strategies.set_and_swap(idx, &mut entry);
                    let sig = entry.process_market_data(
                        &snap.last_prices,
                        &snap.short_ema,
                        &snap.long_ema,
                    );
                    let hold = matches!(sig, Signal::Hold);
                    let ev = if hold {
                        None
                    } else {
                        Some(
                            SignalEvent {
                                uid: o.uid.clone(),
                                ticker: entry.get_ticker().to_owned(),
                                signal: TradeSignal::from(sig),
                                short_ema: entry.get_last_short(),
                                long_ema: entry.get_last_long(),
                                last_price: entry.get_last_price(),
                            },
                        )
                    };
                    let ghost processed = entry;
                    self.strategies.set_and_swap(idx, &mut entry);
                    proof {
                        assert(self.strategies@ =~= strategies1.update(idx as int, processed));
                        assert(self@ =~= reg1.update(idx as int, processed@));
                        assert(self@ == step.0);
                        assert(spec_registry_wf(self@)) by {
                            assert(forall|j: int|
                                0 <= j < self@.len() ==> (#[trigger] self@[j]).instrument_uid
                                    == reg1[j].instrument_uid);
                        }
                    }
                    match ev {
                        Some(e) => {
                            let ghost e0 = events@;
                            events.push(e);
                            proof {
                                e0.lemma_push_map_commute(|e: SignalEvent| e@, events@.last());
                                assert(events@.map_values(|e: SignalEvent| e@) =~= evs_pre
                                    + step.1);
                            }
                        },
                        None => {
                            proof {
                                assert(events@.map_values(|e: SignalEvent| e@) =~= evs_pre
                                    + step.1);
                            }
                        },
                    }
                },
                Err(_) => {
                    proof {
                        assert(self@ == step.0);
                        assert(events@.map_values(|e: SignalEvent| e@) =~= evs_pre + step.1);
                    }
                },
            }
            proof {
                assert(outs.take(i as int).push(outs[i as int]) =~= outs.take(i as int + 1));
                lemma_eval_cycle_snoc(reg0, cfg@, outs.take(i as int), outs[i as int]);
            }
            i = i + 1;
        }
        proof {
            assert(outs.take(outs.len() as int) =~= outs);
            lemma_events_never_hold(reg0, cfg@, outs);
            assert(forall|i: int|
                0 <= i < events@.len() ==> (#[trigger] events@[i])@ == events@.map_values(
                    |e: SignalEvent| e@,
                )[i]);
        }
        events
    }
}
#[derive(Debug, Clone, Copy, PartialEq, Eq, Structural)]
pub enum CyclePhase {
    FetchUniverse,
    FilterUniverse,
    CheckTradability,
    EvaluateInstruments,
    Sleep,
    Cancelled,
}

/// What the loop around the scanner observed since the last step.
#[derive(Debug, Clone, Copy, PartialEq, Eq, Structural)]
pub enum CycleEvent {
    /// The universe fetch ended; the flag says whether it succeeded.
    UniverseFetched(bool),
    /// The pure filter step ended.
    UniverseFiltered,
    /// The tradability check ended; the flag says whether it succeeded.
    TradabilityChecked(bool),
    /// Every tradable instrument was evaluated.
    InstrumentsEvaluated,
    /// The inter-cycle pause ran to completion.
    SleepFinished,
    /// Cancellation was requested.
    CancelRequested,
}

/// The scan loop's transition relation. A failed universe fetch or
/// tradability check is cycle-fatal only: the cycle skips to `Sleep` and
/// retries after the pause. Cancellation is observed at exactly two
/// checkpoints — the top of the loop and the pause — and `Cancelled` is
/// absorbing; an event that does not belong to the current phase changes
/// nothing.
pub open spec fn spec_next_phase(p: CyclePhase, e: CycleEvent) -> CyclePhase {
    match (p, e) {
        (CyclePhase::Cancelled, _) => CyclePhase::Cancelled,
        (CyclePhase::FetchUniverse, CycleEvent::CancelRequested) => CyclePhase::Cancelled,
        (CyclePhase::Sleep, CycleEvent::CancelRequested) => CyclePhase::Cancelled,
        (CyclePhase::FetchUniverse, CycleEvent::UniverseFetched(ok)) => if ok {
            CyclePhase::FilterUniverse
        } else {
            CyclePhase::Sleep
        },
        (CyclePhase::FilterUniverse, CycleEvent::UniverseFiltered) => CyclePhase::CheckTradability,
        (CyclePhase::CheckTradability, CycleEvent::TradabilityChecked(ok)) => if ok {
            CyclePhase::EvaluateInstruments
        } else {
            CyclePhase::Sleep
        },
        (CyclePhase::EvaluateInstruments, CycleEvent::InstrumentsEvaluated) => CyclePhase::Sleep,
        (CyclePhase::Sleep, CycleEvent::SleepFinished) => CyclePhase::FetchUniverse,
        (_, _) => p,
    }
}

/// Advances the scan loop by one observed event.
pub fn next_phase(p: CyclePhase, e: CycleEvent) -> (r: CyclePhase)
    ensures
        r == spec_next_phase(p, e),
{
    match (p, e) {
        (CyclePhase::Cancelled, _) => CyclePhase::Cancelled,
        (CyclePhase::FetchUniverse, CycleEvent::CancelRequested) => CyclePhase::Cancelled,
        (CyclePhase::Sleep, CycleEvent::CancelRequested) => CyclePhase::Cancelled,
        (CyclePhase::FetchUniverse, CycleEvent::UniverseFetched(ok)) => if ok {
            CyclePhase::FilterUniverse
        } else {
            CyclePhase::Sleep
        },
        (CyclePhase::FilterUniverse, CycleEvent::UniverseFiltered) => CyclePhase::CheckTradability,
        (CyclePhase::CheckTradability, CycleEvent::TradabilityChecked(ok)) => if ok {
            CyclePhase::EvaluateInstruments
        } else {
            CyclePhase::Sleep
        },
        (CyclePhase::EvaluateInstruments, CycleEvent::InstrumentsEvaluated) => CyclePhase::Sleep,
        (CyclePhase::Sleep, CycleEvent::SleepFinished) => CyclePhase::FetchUniverse,
        (_, _) => p,
    }
}

/// How one step treats the rest of the registry: it only grows, stays
/// well-formed, every entry keeps its identity, and an entry is changed
/// only by a successful evaluation of its own instrument.
pub proof fn lemma_eval_one_frame(
    reg: Seq<StrategyView>,
    cfg: StrategyConfigView,
    o: OutcomeView,
    k: int,
)
    requires
        spec_registry_wf(reg),
        0 <= k < reg.len(),
    ensures
        spec_eval_one(reg, cfg, o).0.len() >= reg.len(),
        spec_registry_wf(spec_eval_one(reg, cfg, o).0),
        spec_eval_one(reg, cfg, o).0[k].instrument_uid == reg[k].instrument_uid,
        reg[k].instrument_uid != o.uid || o.fetch is Err ==> spec_eval_one(reg, cfg, o).0[k]
            == reg[k],
{
    lemma_index_of_props(reg, o.uid);
    let idx0 = spec_index_of(reg, o.uid);
    let r1 = spec_eval_one(reg, cfg, o).0;
    if o.fetch is Ok {
        let reg1 = if idx0 >= 0 {
            reg
        } else {
            reg.push(
                spec_fresh_strategy(
                    o.uid,
                    o.ticker,
                    cfg.short_ema_length,
                    cfg.long_ema_length,
                    cfg.interval,
                    cfg.hysteresis_milli_pct,
                    cfg.hysteresis_periods,
                ),
            )
        };
        assert(forall|j: int|
            0 <= j < r1.len() ==> (#[trigger] r1[j]).instrument_uid == reg1[j].instrument_uid);
        if idx0 >= 0 && k == idx0 {
            assert(reg[k].instrument_uid == o.uid);
        }
    }
}

/// An instrument named by no outcome of a cycle leaves the cycle with
/// its strategy entry untouched.
pub proof fn lemma_unnamed_preserved(
    reg: Seq<StrategyView>,
    cfg: StrategyConfigView,
    outs: Seq<OutcomeView>,
    k: int,
)
    requires
        spec_registry_wf(reg),
        0 <= k < reg.len(),
        forall|j: int|
            0 <= j < outs.len() ==> (#[trigger] outs[j]).uid != reg[k].instrument_uid,
    ensures
        spec_eval_cycle(reg, cfg, outs).0.len() >= reg.len(),
        spec_registry_wf(spec_eval_cycle(reg, cfg, outs).0),
        spec_eval_cycle(reg, cfg, outs).0[k] == reg[k],
    decreases outs.len(),
{
    if outs.len() > 0 {
        lemma_eval_one_frame(reg, cfg, outs[0], k);
        let head = spec_eval_one(reg, cfg, outs[0]);
        assert(forall|i: int|
            0 <= i < outs.drop_first().len() ==> #[trigger] outs.drop_first()[i] == outs[i + 1]);
        lemma_unnamed_preserved(head.0, cfg, outs.drop_first(), k);
    }
}

/// Law: a per-instrument failure is isolated. If one instrument's fetch
/// failed in a cycle whose outcomes name each instrument at most once,
/// the remaining instruments are still folded through the cycle exactly
/// as `spec_eval_cycle` says, and the failed instrument's strategy
/// leaves the cycle exactly as it entered it — hysteresis state intact
/// for the next attempt.
pub proof fn lemma_failed_fetch_isolated(
    reg: Seq<StrategyView>,
    cfg: StrategyConfigView,
    outs: Seq<OutcomeView>,
    i: int,
    k: int,
)
    requires
        spec_registry_wf(reg),
        0 <= i < outs.len(),
        outs[i].fetch is Err,
        0 <= k < reg.len(),
        reg[k].instrument_uid == outs[i].uid,
        forall|j: int|
            0 <= j < outs.len() && j != i ==> (#[trigger] outs[j]).uid != outs[i].uid,
    ensures
        spec_eval_cycle(reg, cfg, outs).0.len() >= reg.len(),
        spec_eval_cycle(reg, cfg, outs).0[k] == reg[k],
    decreases outs.len(),
{
    lemma_eval_one_frame(reg, cfg, outs[0], k);
    let head = spec_eval_one(reg, cfg, outs[0]);
    assert(forall|j: int|
        0 <= j < outs.drop_first().len() ==> #[trigger] outs.drop_first()[j] == outs[j + 1]);
    if i == 0 {
        lemma_unnamed_preserved(head.0, cfg, outs.drop_first(), k);
    } else {
        lemma_failed_fetch_isolated(head.0, cfg, outs.drop_first(), i - 1, k);
    }
}

/// Law: `Hold` is suppressed. Every event a cycle emits carries `Buy`
/// or `Sell`; a `Hold` outcome never reaches notification.
pub proof fn lemma_events_never_hold(
    reg: Seq<StrategyView>,
    cfg: StrategyConfigView,
    outs: Seq<OutcomeView>,
)
    ensures
        forall|i: int|
            0 <= i < spec_eval_cycle(reg, cfg, outs).1.len() ==> (#[trigger] spec_eval_cycle(
                reg,
                cfg,
                outs,
            ).1[i]).signal != TradeSignal::Hold,
    decreases outs.len(),
{
    if outs.len() > 0 {
        let head = spec_eval_one(reg, cfg, outs[0]);
        lemma_events_never_hold(head.0, cfg, outs.drop_first());
        let rest = spec_eval_cycle(head.0, cfg, outs.drop_first());
        assert(forall|i: int|
            0 <= i < head.1.len() ==> (#[trigger] head.1[i]).signal != TradeSignal::Hold);
        assert(forall|i: int|
            0 <= i < spec_eval_cycle(reg, cfg, outs).1.len() ==> #[trigger] spec_eval_cycle(
                reg,
                cfg,
                outs,
            ).1[i] == if i < head.1.len() {
                head.1[i]
            } else {
                rest.1[i - head.1.len()]
            });
    }
}

/// Law: registry continuity. An entry keeps its index and identity
/// through any number of cycle evaluations, so a later lookup with the
/// same id finds the very same entry rather than a fresh one — its
/// hysteresis state exactly as its own evaluations left it, never reset
/// merely because a new cycle started.
pub proof fn lemma_registry_continuity(
    reg: Seq<StrategyView>,
    cfg: StrategyConfigView,
    outs: Seq<OutcomeView>,
    k: int,
)
    requires
        spec_registry_wf(reg),
        0 <= k < reg.len(),
    ensures
        spec_eval_cycle(reg, cfg, outs).0.len() >= reg.len(),
        spec_registry_wf(spec_eval_cycle(reg, cfg, outs).0),
        spec_eval_cycle(reg, cfg, outs).0[k].instrument_uid == reg[k].instrument_uid,
        spec_index_of(spec_eval_cycle(reg, cfg, outs).0, reg[k].instrument_uid) == k,
    decreases outs.len(),
{
    if outs.len() == 0 {
        lemma_index_of_unique(reg, reg[k].instrument_uid, k);
    } else {
        lemma_eval_one_frame(reg, cfg, outs[0], k);
        let head = spec_eval_one(reg, cfg, outs[0]);
        lemma_registry_continuity(head.0, cfg, outs.drop_first(), k);
        assert(head.0[k].instrument_uid == reg[k].instrument_uid);
    }
}

} // verus!
