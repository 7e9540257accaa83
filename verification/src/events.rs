//! Structured records describing each committed mutation.
//!
//! Every mutating operation returns the event it would emit, and the caller
//! forwards it to whatever observability sink the surrounding system provides.
//! Emission is thereby outside the engine and can never roll a mutation back.

use vstd::prelude::*;

verus! {

#[derive(Clone, Copy, Debug, PartialEq, Eq, Structural)]
pub struct VaultCreated {
    pub owner: u64,
    pub timestamp: i64,
}

#[derive(Clone, Copy, Debug, PartialEq, Eq, Structural)]
pub struct CollateralDeposited {
    pub owner: u64,
    pub amount: u64,
    pub total_collateral: u64,
}

#[derive(Clone, Copy, Debug, PartialEq, Eq, Structural)]
pub struct GusdMinted {
    pub owner: u64,
    pub amount: u64,
    pub total_debt: u64,
    pub collateral_ratio_bps: u64,
}

#[derive(Clone, Copy, Debug, PartialEq, Eq, Structural)]
pub struct GusdRepaid {
    pub owner: u64,
    pub amount: u64,
    pub remaining_debt: u64,
}

#[derive(Clone, Copy, Debug, PartialEq, Eq, Structural)]
pub struct CollateralWithdrawn {
    pub owner: u64,
    pub amount: u64,
    pub remaining_collateral: u64,
}

#[derive(Clone, Copy, Debug, PartialEq, Eq, Structural)]
pub struct VaultLiquidated {
    pub vault_owner: u64,
    pub liquidator: u64,
    pub debt_repaid: u64,
    pub collateral_seized: u64,
}

#[derive(Clone, Copy, Debug, PartialEq, Eq, Structural)]
pub struct PriceUpdated {
    pub old_price: u64,
    pub new_price: u64,
}

} // verus!
