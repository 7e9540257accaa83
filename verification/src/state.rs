//! The two persistent records of the engine, and the health report.
//!
//! Identities (admin, vault owner, mint handle) are opaque to this core: the
//! authorization layer hands each operation the caller's verified identity as
//! a plain integer, and the engine only ever compares identities for equality.
//! The zero identity stands for the null identity.

use vstd::prelude::*;

verus! {

/// Global singleton state of the protocol.
#[derive(Clone, Copy, Debug, PartialEq, Eq, Structural)]
pub struct ProtocolState {
    /// Protocol admin: may update the price, pause, and hand the role on.
    pub admin: u64,
    /// Handle of the stable-asset issuance authority (opaque to this core).
    pub gusd_mint: u64,
    /// Current GOR price in USD, 6 implied decimals (1_000_000 = $1.00).
    pub gor_price_usd: u64,
    /// Total GOR collateral locked across all vaults, in lamports.
    pub total_collateral: u64,
    /// Total GUSD debt outstanding across all vaults, in its smallest unit.
    pub total_debt: u64,
    /// While true, mint and withdraw are rejected.
    pub is_paused: bool,
    /// Timestamp of the last accepted price update (unix seconds).
    pub last_price_update_ts: i64,
}

/// Per-user record of locked collateral and owed debt.
#[derive(Clone, Copy, Debug, PartialEq, Eq, Structural)]
pub struct Vault {
    /// Identity that exclusively controls this vault.
    pub owner: u64,
    /// Amount of GOR collateral (in lamports, 9 decimals).
    pub collateral_amount: u64,
    /// Amount of GUSD debt (in the stable asset's smallest unit, 6 decimals).
    pub debt_amount: u64,
}

/// Snapshot of a vault's risk position, as reported by the health query.
#[derive(Clone, Copy, Debug, PartialEq, Eq, Structural)]
pub struct VaultHealth {
    pub collateral_amount: u64,
    pub collateral_value_usd: u64,
    pub debt_amount: u64,
    /// Collateral value over debt in basis points; `u64::MAX` when debt is zero.
    pub collateral_ratio_bps: u64,
    pub is_liquidatable: bool,
}

} // verus!
