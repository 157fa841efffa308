//! The instrument catalog: assets, their instruments, and lookups over
//! them.

pub mod get_assets;
pub mod get_instrument_by;
