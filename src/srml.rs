//! Typed access to the modules of the ledger.
pub mod balances;
pub mod system;
