//! Verified core of an on-chain limit-order matching and settlement engine.
//!
//! Makers escrow an input asset against an expected output amount; takers
//! fill orders fully or partially, optionally as a two-instruction "flash"
//! fill paired inside one atomic transaction. This crate holds the order
//! lifecycle and fill accounting, the tip/fee split, the flash-fill
//! instruction-introspection protocol, and the global accounting invariants,
//! all stated as contracts and proved. Asset movement, account validation
//! and the surrounding runtime are external collaborators: they hand the
//! core plain values and perform the transfers the core computes.

pub mod constraints;
pub mod encoding;
pub mod errors;
pub mod flash_ixs;
pub mod fraction;
pub mod laws;
pub mod operations;
pub mod state;
pub mod swap_balance_introspection;
