//! Earlier revision of the market-data endpoints, kept alongside the
//! current ones.

pub mod get_tech_analysis;
pub mod get_trading_statuses;
