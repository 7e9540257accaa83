//! Core accounting and risk engine for a single-collateral CDP stablecoin.
//!
//! Users lock a volatile collateral asset (GOR, 9 fractional decimals) and
//! borrow a USD-pegged stable asset (GUSD, 6 fractional decimals) against it.
//! This crate implements the vault accounting: collateral valuation in
//! fixed-point integer arithmetic, minimum-ratio enforcement on mint and
//! withdraw, guard rails on admin price updates, and the liquidation math for
//! undercollateralized vaults.
//!
//! The surrounding system supplies everything stateful and effectful: the
//! ledger that actually moves funds and mints or burns the stable asset, the
//! authorization layer that verifies signatures, durable storage for the
//! records, and a sink for the emitted events. Operations here take the
//! protocol and vault records as explicit arguments, the caller's verified
//! identity as an opaque integer, and the current time as a plain timestamp;
//! they validate, mutate the records, and return the event record describing
//! the committed change. Every failure is reported before any mutation, so a
//! caller can treat each operation as all-or-nothing.

use vstd::prelude::*;

pub mod errors;
pub mod events;
pub mod laws;
pub mod liquidation;
pub mod math;
pub mod protocol;
pub mod state;
pub mod vault_ops;

verus! {

/// Collateral ratio required to mint (150% = 15000 basis points).
pub const MIN_COLLATERAL_RATIO_BPS: u64 = 15000;

/// Collateral ratio below which liquidation is allowed (120% = 12000 basis points).
pub const LIQUIDATION_THRESHOLD_BPS: u64 = 12000;

/// Liquidation penalty (10% = 1000 basis points).
pub const LIQUIDATION_PENALTY_BPS: u64 = 1000;

/// Basis points denominator.
pub const BPS_DENOMINATOR: u64 = 10000;

/// GUSD decimals (6, like USDC).
pub const GUSD_DECIMALS: u8 = 6;

/// GOR decimals (9, like SOL).
pub const GOR_DECIMALS: u8 = 9;

/// Maximum price change per update (20% = 2000 basis points).
pub const MAX_PRICE_CHANGE_BPS: u64 = 2000;

/// Minimum seconds between admin price updates.
pub const MIN_PRICE_UPDATE_INTERVAL_SECS: i64 = 1;

} // verus!
