//! Decoding of tracked on-chain program instructions out of ledger entries.
//!
//! A slot's entries are flattened into their signed transactions; each
//! transaction is tested against every tracked program, and the instructions
//! that invoke one are decoded into a variant, the addresses of their
//! accounts and the fields of their payload. What was decoded is gathered per
//! slot, by program, under the transaction's signature.

pub mod codec;
pub mod config;
pub mod discriminator;
pub mod fields;
pub mod message;
pub mod models;
pub mod program;
pub mod reader;
pub mod render;
pub mod services;
pub mod text;
pub mod utils;

pub use models::boop_parser::{
    BOOP_PROGRAM_ID, BoopInstruction, BoopInstructionType, BoopParser, BoopTransaction,
};
pub use models::pump_parser::{
    COMPUTE_BUDGET_PROGRAM_ID, ComputeBudgetInstruction, ComputeBudgetInstructionType,
    PUMP_PROGRAM_ID, PumpInstruction, PumpInstructionType, PumpParser, PumpTransaction,
};
pub use models::pumpamm_parser::{
    PUMP_AMM_PROGRAM_ID, PumpAmmInstruction, PumpAmmInstructionType, PumpAmmParser,
    PumpAmmTransaction,
};
pub use models::transaction::TransactionResults;
pub use services::transaction_processor::{BATCH_SIZE, BatchResults, TransactionProcessor};
