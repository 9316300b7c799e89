//! The decoders of the tracked programs and the per-slot result set.

pub mod boop_parser;
pub mod pump_parser;
pub mod pumpamm_parser;
pub mod transaction;
