//! Custody-and-distribution engine: a distributor escrows a fungible asset
//! behind a derived signing capability; claimants withdraw units of it by
//! paying a fee in the platform's native currency or in a second asset,
//! under a per-agreement fee policy.
//!
//! `account` holds plain 32-byte identities; `error` the failure taxonomy;
//! `fees` the fee policies and overflow-safe decimal scaling; `state` the
//! durable agreement record; `custody` the escrow-authority derivation and
//! its recheck; `ops` the five entry-point transitions with their
//! contracts; and `props` the proved laws that relate them.

pub mod account;
pub mod error;
pub mod fees;
pub mod state;
pub mod custody;
pub mod ops;
pub mod props;
