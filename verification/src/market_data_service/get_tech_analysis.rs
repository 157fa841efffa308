//! Technical-indicator requests and responses.
//!
//! An EMA request covers a time window wide enough to warm the indicator
//! up: at least `3.75 * length` sample points, rounded up to whole days
//! per sampling interval. That window arithmetic is exact integer
//! ceiling division here; only reading the clock is left to a
//! collaborator.

use vstd::prelude::*;

use crate::models::structs::{Quotation, QuotationView};
use crate::num::{ceil_div, ceil_div_i64, max_i64, spec_max};

verus! {

/// Indicator family a request asks for.
#[derive(Debug, Clone, PartialEq, Eq, Structural)]
pub enum IndicatorType {
    Unspecified,
    BB,
    EMA,
    RSI,
    MACD,
    SMA,
}

/// Sampling interval of an indicator series.
#[derive(Debug, Clone, Copy, PartialEq, Eq, Structural)]
pub enum IndicatorInterval {
    Unspecified,
    OneMinute,
    TwoMinutes,
    ThreeMinutes,
    FiveMinutes,
    TenMinutes,
    FifteenMinutes,
    ThirtyMin,
    Hour,
    TwoHours,
    FourHour,
    Day,
    Week,
    Month,
}

/// Which candle price the indicator is computed over.
#[derive(Debug, Clone, PartialEq, Eq, Structural)]
pub enum TypeOfPrice {
    Unspecified,
    Close,
    Open,
    High,
    Low,
    Avg,
}

/// Deviation parameter of band indicators.
#[derive(Debug)]
pub struct Deviation {
    pub deviation_multiplier: Quotation,
}

/// Smoothing parameters of MACD-style indicators.
#[derive(Debug)]
pub struct Smoothing {
    pub fast_length: i32,
    pub slow_length: i32,
    pub signal_smoothing: i32,
}

/// A technical-analysis request.
#[derive(Debug)]
pub struct GetTechAnalysisRequest {
    pub indicator_type: IndicatorType,
    pub instrument_uid: String,
    pub from: String,
    pub to: String,
    pub interval: IndicatorInterval,
    pub type_of_price: TypeOfPrice,
    pub length: i32,
    pub deviation: Option<Deviation>,
    pub smoothing: Option<Smoothing>,
}

/// One indicator observation.
#[derive(Debug)]
pub struct TechnicalIndicator {
    pub timestamp: String,
    pub middle_band: Option<Quotation>,
    pub upper_band: Option<Quotation>,
    pub lower_band: Option<Quotation>,
    pub signal: Option<Quotation>,
    pub macd: Option<Quotation>,
}

/// Mathematical image of a [`TechnicalIndicator`].
pub ghost struct TechnicalIndicatorView {
    pub timestamp: Seq<char>,
    pub middle_band: Option<QuotationView>,
    pub upper_band: Option<QuotationView>,
    pub lower_band: Option<QuotationView>,
    pub signal: Option<QuotationView>,
    pub macd: Option<QuotationView>,
}

/// View of an optional quotation.
pub open spec fn opt_quotation_view(q: Option<Quotation>) -> Option<QuotationView> {
    match q {
        Some(v) => Some(v@),
        None => None,
    }
}

impl View for TechnicalIndicator {
    type V = TechnicalIndicatorView;

    open spec fn view(&self) -> TechnicalIndicatorView {
        TechnicalIndicatorView {
            timestamp: self.timestamp@,
            middle_band: opt_quotation_view(self.middle_band),
            upper_band: opt_quotation_view(self.upper_band),
            lower_band: opt_quotation_view(self.lower_band),
            signal: opt_quotation_view(self.signal),
            macd: opt_quotation_view(self.macd),
        }
    }
}

/// The indicator series a request returns, oldest first.
#[derive(Debug)]
pub struct GetTechAnalysisResponse {
    pub technical_indicators: Vec<TechnicalIndicator>,
}

impl View for GetTechAnalysisResponse {
    type V = Seq<TechnicalIndicatorView>;

    open spec fn view(&self) -> Seq<TechnicalIndicatorView> {
        self.technical_indicators@.map_values(|t: TechnicalIndicator| t@)
    }
}

/// Sample points needed to warm an EMA of the given length up:
/// `ceil(length * 3.75)`.
pub open spec fn spec_required_points(length: int) -> int {
    ceil_div(length * 15, 4)
}

/// Whole days of history requested for an EMA of the given length at the
/// given interval: enough for `spec_required_points`, with a per-interval
/// minimum.
pub open spec fn spec_days_for(interval: IndicatorInterval, length: int) -> int {
    let rp = spec_required_points(length);
    match interval {
        IndicatorInterval::OneMinute => spec_max(ceil_div(rp, 1440), 1),
        IndicatorInterval::TwoMinutes => spec_max(ceil_div(rp, 720), 1),
        IndicatorInterval::ThreeMinutes => spec_max(ceil_div(rp, 480), 1),
        IndicatorInterval::FiveMinutes => spec_max(ceil_div(rp, 288), 1),
        IndicatorInterval::TenMinutes => spec_max(ceil_div(rp, 144), 1),
        IndicatorInterval::FifteenMinutes => spec_max(ceil_div(rp, 96), 1),
        IndicatorInterval::ThirtyMin => spec_max(ceil_div(rp, 48), 2),
        IndicatorInterval::Hour => spec_max(ceil_div(rp, 24), 3),
        IndicatorInterval::TwoHours => spec_max(ceil_div(rp, 12), 4),
        IndicatorInterval::FourHour => spec_max(ceil_div(rp, 6), 8),
        IndicatorInterval::Day => spec_max(rp, 30),
        IndicatorInterval::Week => spec_max(rp * 7, 90),
        IndicatorInterval::Month => spec_max(rp * 30, 180),
        IndicatorInterval::Unspecified => spec_max(rp, 30),
    }
}

/// Hours of history covering `required_points` samples at this interval,
/// with per-interval floors.
pub open spec fn spec_required_hours(interval: IndicatorInterval, required_points: int) -> int {
    match interval {
        IndicatorInterval::OneMinute => ceil_div(required_points * 1, 60),
        IndicatorInterval::TwoMinutes => ceil_div(required_points * 2, 60),
        IndicatorInterval::ThreeMinutes => ceil_div(required_points * 3, 60),
        IndicatorInterval::FiveMinutes => ceil_div(required_points * 5, 60),
        IndicatorInterval::TenMinutes => ceil_div(required_points * 10, 60),
        IndicatorInterval::FifteenMinutes => ceil_div(required_points * 15, 60),
        IndicatorInterval::ThirtyMin => ceil_div(required_points * 30, 60),
        IndicatorInterval::Hour => required_points,
        IndicatorInterval::TwoHours => required_points * 2,
        IndicatorInterval::FourHour => required_points * 4,
        IndicatorInterval::Day => spec_max(required_points, 30) * 24,
        IndicatorInterval::Week => spec_max(required_points, 30) * 24 * 7,
        IndicatorInterval::Month => spec_max(required_points, 30) * 24 * 30,
        IndicatorInterval::Unspecified => spec_max(required_points, 30) * 24,
    }
}

/// Days of history to request for an EMA of `length` at `interval`.
pub fn required_days(interval: IndicatorInterval, length: i32) -> (d: i64)
    ensures
        d as int == spec_days_for(interval, length as int),
        1 <= d as int <= spec_max(spec_required_points(length as int) * 30, 180),
{
    let rp = ceil_div_i64((length as i64) * 15, 4);
    proof {
        assert(rp as int == spec_required_points(length as int));
    }
    let d: i64 = match interval {
        IndicatorInterval::OneMinute => max_i64(ceil_div_i64(rp, 1440), 1),
        IndicatorInterval::TwoMinutes => max_i64(ceil_div_i64(rp, 720), 1),
        IndicatorInterval::ThreeMinutes => max_i64(ceil_div_i64(rp, 480), 1),
        IndicatorInterval::FiveMinutes => max_i64(ceil_div_i64(rp, 288), 1),
        IndicatorInterval::TenMinutes => max_i64(ceil_div_i64(rp, 144), 1),
        IndicatorInterval::FifteenMinutes => max_i64(ceil_div_i64(rp, 96), 1),
        IndicatorInterval::ThirtyMin => max_i64(ceil_div_i64(rp, 48), 2),
        IndicatorInterval::Hour => max_i64(ceil_div_i64(rp, 24), 3),
        IndicatorInterval::TwoHours => max_i64(ceil_div_i64(rp, 12), 4),
        IndicatorInterval::FourHour => max_i64(ceil_div_i64(rp, 6), 8),
        IndicatorInterval::Day => max_i64(rp, 30),
        IndicatorInterval::Week => max_i64(rp * 7, 90),
        IndicatorInterval::Month => max_i64(rp * 30, 180),
        IndicatorInterval::Unspecified => max_i64(rp, 30),
    };
    d
}
impl GetTechAnalysisRequest {
    /// A fully explicit technical-analysis request.
    pub fn new(
        indicator_type: IndicatorType,
        instrument_uid: String,
        from: String,
        to: String,
        interval: IndicatorInterval,
        type_of_price: TypeOfPrice,
        length: i32,
        deviation: Option<Deviation>,
        smoothing: Option<Smoothing>,
    ) -> (r: GetTechAnalysisRequest)
        ensures
            r.indicator_type == indicator_type,
            r.instrument_uid@ == instrument_uid@,
            r.from@ == from@,
            r.to@ == to@,
            r.interval == interval,
            r.type_of_price == type_of_price,
            r.length == length,
            r.deviation is Some <==> deviation is Some,
            r.smoothing is Some <==> smoothing is Some,
    {
        GetTechAnalysisRequest {
            indicator_type,
            instrument_uid,
            from,
            to,
            interval,
            type_of_price,
            length,
            deviation,
            smoothing,
        }
    }

    /// An EMA request whose time window is computed from the interval and
    /// length: `spec_days_for` days back from now, starting at midnight
    /// UTC. Only the window's textual bounds come from the clock; every
    /// other field is pinned down.
    pub fn new_ema_auto_period(
        instrument_uid: &str,
        interval: IndicatorInterval,
        type_of_price: TypeOfPrice,
        length: i32,
    ) -> (r: GetTechAnalysisRequest)
        requires
            length <= 100_000,
        ensures
            r.indicator_type == IndicatorType::EMA,
            r.instrument_uid@ == instrument_uid@,
            r.interval == interval,
            r.type_of_price == type_of_price,
            r.length == length,
            r.deviation is None,
            r.smoothing is None,
    {
        let days = required_days(interval, length);
        proof {
            assert(spec_required_points(100_000int) == 375_000);
            assert(spec_required_points(length as int) <= 375_000) by {
                vstd::arithmetic::div_mod::lemma_div_is_ordered(
                    length as int * 15 + 3,
                    100_000int * 15 + 3,
                    4,
                );
            }
            assert(375_000 * 30 == 11_250_000);
        }
        let window = utc_window_rfc3339(days);
        GetTechAnalysisRequest {
            indicator_type: IndicatorType::EMA,
            instrument_uid: instrument_uid.to_owned(),
            from: window.0,
            to: window.1,
            interval,
            type_of_price,
            length,
            deviation: None,
            smoothing: None,
        }
    }

    /// Hours of history covering `required_points` samples at this
    /// request's interval.
    pub fn _calculate_required_hours(&self, required_points: i32) -> (h: i64)
        ensures
            h as int == spec_required_hours(self.interval, required_points as int),
    {
        let rp = required_points as i64;
        match self.interval {
            IndicatorInterval::OneMinute => ceil_div_i64(rp * 1, 60),
            IndicatorInterval::TwoMinutes => ceil_div_i64(rp * 2, 60),
            IndicatorInterval::ThreeMinutes => ceil_div_i64(rp * 3, 60),
            IndicatorInterval::FiveMinutes => ceil_div_i64(rp * 5, 60),
            IndicatorInterval::TenMinutes => ceil_div_i64(rp * 10, 60),
            IndicatorInterval::FifteenMinutes => ceil_div_i64(rp * 15, 60),
            IndicatorInterval::ThirtyMin => ceil_div_i64(rp * 30, 60),
            IndicatorInterval::Hour => rp,
            IndicatorInterval::TwoHours => rp * 2,
            IndicatorInterval::FourHour => rp * 4,
            IndicatorInterval::Day => max_i64(rp, 30) * 24,
            IndicatorInterval::Week => max_i64(rp, 30) * 24 * 7,
            IndicatorInterval::Month => max_i64(rp, 30) * 24 * 30,
            IndicatorInterval::Unspecified => max_i64(rp, 30) * 24,
        }
    }
}

/// Relies on chrono (`Utc::now`, `Duration::days`, `DateTime::date_naive`,
/// `NaiveDate::and_hms_opt`, `NaiveDateTime::and_local_timezone`,
/// `DateTime::to_rfc3339`) for the pair (midnight UTC `days_back` days
/// ago, now), both rendered as RFC 3339 text. The result depends on the
/// clock, so nothing is promised of it; the day bound keeps the date
/// inside chrono's representable range, where none of these calls panic.
#[verifier::external_body]
pub(crate) fn utc_window_rfc3339(days_back: i64) -> (w: (String, String))
    requires
        0 <= days_back <= 50_000_000,
{
    let now = chrono::Utc::now();
    let from = (now - chrono::Duration::days(days_back))
        .date_naive()
        .and_hms_opt(0, 0, 0)
        .unwrap()
        .and_local_timezone(chrono::Utc)
        .unwrap();
    (from.to_rfc3339(), now.to_rfc3339())
}

} // verus!
