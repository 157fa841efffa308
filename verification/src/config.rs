//! Scanner configuration and its startup validation.
//!
//! An invalid configuration is the only fatal error the system knows:
//! it is rejected before any cycle runs, and `validate` states exactly
//! which configurations pass.

use vstd::prelude::*;

use crate::instruments::get_assets::InstrumentStatus;
use crate::market_data_service::get_tech_analysis::IndicatorInterval;
use crate::models::enums::InstrumentType;

verus! {

/// Full scanner configuration, as the process is started with.
#[derive(Debug)]
pub struct Config {
    pub t_token: String,
    pub telegram_token: String,
    pub scan_interval_seconds: u64,
    pub strategy: StrategyConfig,
    pub assets: AssetsConfig,
    pub filter: FilterConfig,
}

/// Which slice of the catalog is requested.
#[derive(Debug)]
pub struct AssetsConfig {
    pub instrument_type: InstrumentType,
    pub instrument_status: InstrumentStatus,
}

/// Strategy parameters shared by every instrument's detector. The
/// hysteresis band half-width is given in thousandths of a percent.
#[derive(Debug, Clone, Copy)]
pub struct StrategyConfig {
    pub short_ema_length: i32,
    pub long_ema_length: i32,
    pub interval: IndicatorInterval,
    pub hysteresis_milli_pct: u32,
    pub hysteresis_periods: u32,
}

/// Mathematical image of a [`StrategyConfig`].
pub ghost struct StrategyConfigView {
    pub short_ema_length: int,
    pub long_ema_length: int,
    pub interval: IndicatorInterval,
    pub hysteresis_milli_pct: int,
    pub hysteresis_periods: int,
}

impl View for StrategyConfig {
    type V = StrategyConfigView;

    open spec fn view(&self) -> StrategyConfigView {
        StrategyConfigView {
            short_ema_length: self.short_ema_length as int,
            long_ema_length: self.long_ema_length as int,
            interval: self.interval,
            hysteresis_milli_pct: self.hysteresis_milli_pct as int,
            hysteresis_periods: self.hysteresis_periods as int,
        }
    }
}

/// Which instruments pass the universe filter.
#[derive(Debug)]
pub struct FilterConfig {
    pub class_code: String,
    pub instrument_type: InstrumentType,
}

/// Why a configuration is rejected at startup.
#[derive(Debug, Clone, Copy, PartialEq, Eq, Structural)]
pub enum ConfigError {
    /// An EMA length is zero or negative.
    NonPositiveEmaLength,
    /// An EMA length is beyond what a time window can be requested for.
    EmaLengthTooLarge,
    /// Zero sustain periods would disable hysteresis entirely.
    ZeroHysteresisPeriods,
    /// A zero scan interval would spin without pause.
    ZeroScanInterval,
}

/// Longest EMA lookback a history window can be requested for.
pub const MAX_EMA_LENGTH: i32 = 100_000;

/// The startup check `validate` performs, error by error, in order.
pub open spec fn spec_validate(c: Config) -> Result<(), ConfigError> {
    if c.strategy.short_ema_length <= 0 || c.strategy.long_ema_length <= 0 {
        Err(ConfigError::NonPositiveEmaLength)
    } else if c.strategy.short_ema_length > MAX_EMA_LENGTH || c.strategy.long_ema_length
        > MAX_EMA_LENGTH {
        Err(ConfigError::EmaLengthTooLarge)
    } else if c.strategy.hysteresis_periods == 0 {
        Err(ConfigError::ZeroHysteresisPeriods)
    } else if c.scan_interval_seconds == 0 {
        Err(ConfigError::ZeroScanInterval)
    } else {
        Ok(())
    }
}

impl Config {
    /// Startup validation: `Ok` exactly when both EMA lengths lie in
    /// `1..=MAX_EMA_LENGTH`, the hysteresis period count is at least one
    /// and the scan interval is at least one second; otherwise the first
    /// failing rule's error.
    pub fn validate(&self) -> (r: Result<(), ConfigError>)
        ensures
            r == spec_validate(*self),
            r is Ok <==> 1 <= self.strategy.short_ema_length <= MAX_EMA_LENGTH && 1
                <= self.strategy.long_ema_length <= MAX_EMA_LENGTH
                && self.strategy.hysteresis_periods >= 1 && self.scan_interval_seconds >= 1,
    {
        if self.strategy.short_ema_length <= 0 || self.strategy.long_ema_length <= 0 {
            Err(ConfigError::NonPositiveEmaLength)
        } else if self.strategy.short_ema_length > MAX_EMA_LENGTH || self.strategy.long_ema_length
            > MAX_EMA_LENGTH {
            Err(ConfigError::EmaLengthTooLarge)
        } else if self.strategy.hysteresis_periods == 0 {
            Err(ConfigError::ZeroHysteresisPeriods)
        } else if self.scan_interval_seconds == 0 {
            Err(ConfigError::ZeroScanInterval)
        } else {
            Ok(())
        }
    }
}

} // verus!
