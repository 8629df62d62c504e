//! Two-party atomic swap of unique assets, held in escrow slot by slot.
pub mod account;
pub mod error;
pub mod identity;
pub mod laws;
pub mod program;

