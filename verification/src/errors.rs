//! Typed rejections returned by every operation of the engine.

use vstd::prelude::*;

verus! {

/// Why an operation was refused. Every failure is reported to the caller
/// before any state mutation, so a rejected operation has no effect.
#[derive(Clone, Copy, Debug, PartialEq, Eq, Structural)]
pub enum GusdError {
    /// Caller is not the protocol admin.
    Unauthorized,
    /// A zero or otherwise disallowed amount argument.
    InvalidAmount,
    /// A zero price.
    InvalidPrice,
    /// Minting (or withdrawing) would leave less collateral than the minimum ratio demands.
    InsufficientCollateral,
    /// The withdrawal would undercollateralize the vault's existing debt.
    WouldUndercollateralize,
    /// The vault's collateral ratio is not below the liquidation threshold.
    VaultNotLiquidatable,
    /// The vault has no debt to liquidate.
    NoDebtToLiquidate,
    /// The vault's collateral value is too small for a profitable liquidation.
    LiquidationNotProfitable,
    /// A checked arithmetic operation would overflow, underflow, or lose precision.
    MathOverflow,
    /// The vault does not belong to the named owner.
    InvalidVaultOwner,
    /// The price change exceeds the maximum allowed movement per update.
    PriceChangeExceedsLimit,
    /// The price update came before the minimum update interval elapsed.
    PriceUpdateTooFrequent,
    /// The protocol is paused; mint and withdraw are rejected.
    ProtocolPaused,
    /// Close was attempted on a vault with outstanding collateral or debt.
    VaultNotEmpty,
}

} // verus!
