//! Processing of a slot's entries.

pub mod transaction_processor;
