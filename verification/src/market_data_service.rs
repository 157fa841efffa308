//! Market data: indicator series, last prices and trading statuses.

pub mod get_last_prices;
pub mod get_tech_analysis;
pub mod get_trading_statuses;
