//! Gas metering and call dispatch for natively implemented EVM contracts.
//!
//! A precompile is reached like any other contract but runs as host code.
//! This crate holds what makes such a function behave like a metered
//! contract call: a gas ledger, the mutability check of a call against its
//! context, the decoding of a function selector, the protocol that folds a
//! host-side dispatch into the same gas budget, and the entry points that
//! run these in order.

pub mod context;
pub mod dispatch;
pub mod example;
pub mod faucet;
pub mod gasometer;
pub mod outcome;
pub mod precompile;
pub mod prepay_gas;
pub mod prepay_rounds;
pub mod primitives;
pub mod registry;
pub mod selector;
pub mod weights;
