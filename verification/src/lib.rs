//! Market-scanner signal library.
//!
//! The library contains the verified core of an EMA-crossover scanning bot:
//! the hysteresis crossover detector, the per-instrument strategy registry
//! that keeps detector state alive across scan cycles, the scan-cycle
//! orchestration logic, and the subscriber set that notification fan-out
//! reads. Monetary and indicator values are carried as fixed-point
//! nano-units (the wire format's `units`/`nano` decimal), so every decision
//! the scanner takes is over plain integers and is stated in contracts.
//!
//! Network transport, JSON mapping and the chat listener are collaborators
//! around this library; only their effects appear here, as plain values.

pub mod bot;
pub mod config;
pub mod instrument;
pub mod instruments;
pub mod market_data_service;
pub mod models;
pub mod num;
pub mod quotes;
pub mod render;
pub mod text;
