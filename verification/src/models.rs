//! Shared wire-format data model.

pub mod enums;
pub mod structs;
