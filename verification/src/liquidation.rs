//! The liquidation engine.
//!
//! A vault whose collateral ratio has fallen strictly below the liquidation
//! threshold may be liquidated by any caller: the caller repays part of the
//! vault's debt and receives collateral worth the repayment plus a bonus. The
//! repay amount is the largest one whose bonus-adjusted seizure stays within
//! the vault's collateral value, so a liquidation is partial-or-full but
//! never over-seizing.

use vstd::prelude::*;

use crate::errors::GusdError;
use crate::events::VaultLiquidated;
use crate::math::calculate_usd_value;
use crate::math::lemma_pow10_9;
use crate::math::lemma_pow10_positive;
use crate::math::pow10;
use crate::math::usd_value;
use crate::state::ProtocolState;
use crate::state::Vault;
use crate::BPS_DENOMINATOR;
use crate::GOR_DECIMALS;
use crate::LIQUIDATION_PENALTY_BPS;
use crate::LIQUIDATION_THRESHOLD_BPS;
use vstd::arithmetic::div_mod::lemma_basic_div;
use vstd::arithmetic::div_mod::lemma_div_is_ordered;
use vstd::arithmetic::div_mod::lemma_div_pos_is_pos;
use vstd::arithmetic::mul::lemma_mul_nonnegative;

verus! {

/// USD value of the vault's collateral at the current price.
pub open spec fn liq_collateral_value(p: ProtocolState, v: Vault) -> int {
    usd_value(v.collateral_amount, p.gor_price_usd, GOR_DECIMALS)
}

/// The vault's collateral ratio in basis points (meaningful only with debt).
pub open spec fn liq_ratio_bps(p: ProtocolState, v: Vault) -> int {
    (liq_collateral_value(p, v) * BPS_DENOMINATOR) / (v.debt_amount as int)
}

/// The repay amount at which the seized collateral, bonus included, exactly
/// exhausts the vault's collateral value.
pub open spec fn liq_max_repay(p: ProtocolState, v: Vault) -> int {
    (liq_collateral_value(p, v) * BPS_DENOMINATOR) / (BPS_DENOMINATOR + LIQUIDATION_PENALTY_BPS)
}

/// The debt actually repaid: the whole debt, capped at `liq_max_repay`.
pub open spec fn liq_repay(p: ProtocolState, v: Vault) -> int {
    if v.debt_amount <= liq_max_repay(p, v) {
        v.debt_amount as int
    } else {
        liq_max_repay(p, v)
    }
}

/// The repaid USD value with the liquidation bonus added.
pub open spec fn liq_repay_with_bonus(p: ProtocolState, v: Vault) -> int {
    (liq_repay(p, v) * (BPS_DENOMINATOR + LIQUIDATION_PENALTY_BPS)) / (BPS_DENOMINATOR as int)
}

/// The collateral seized, in lamports: the bonus-adjusted USD value converted
/// back to collateral units at the current price.
pub open spec fn liq_seize(p: ProtocolState, v: Vault) -> int {
    (liq_repay_with_bonus(p, v) * (pow10(GOR_DECIMALS as nat) as int)) / (p.gor_price_usd as int)
}

/// The first rejection `liquidate` raises, or `None`.
pub open spec fn liquidate_error(
    p: ProtocolState,
    v: Vault,
    liquidator: u64,
    vault_owner: u64,
) -> Option<GusdError> {
    if v.owner != vault_owner {
        Some(GusdError::InvalidVaultOwner)
    } else if p.is_paused {
        Some(GusdError::ProtocolPaused)
    } else if v.debt_amount == 0 {
        Some(GusdError::NoDebtToLiquidate)
    } else if liq_collateral_value(p, v) > u64::MAX {
        Some(GusdError::MathOverflow)
    } else if liq_ratio_bps(p, v) >= LIQUIDATION_THRESHOLD_BPS {
        Some(GusdError::VaultNotLiquidatable)
    } else if liq_repay(p, v) == 0 {
        Some(GusdError::LiquidationNotProfitable)
    } else if liq_seize(p, v) > u64::MAX {
        Some(GusdError::MathOverflow)
    } else if liq_seize(p, v) > v.collateral_amount {
        Some(GusdError::MathOverflow)
    } else if liq_seize(p, v) > p.total_collateral {
        Some(GusdError::MathOverflow)
    } else if liq_repay(p, v) > p.total_debt {
        Some(GusdError::MathOverflow)
    } else {
        None
    }
}

/// The records after a successful liquidation.
pub open spec fn liquidate_apply(p: ProtocolState, v: Vault) -> (ProtocolState, Vault) {
    let repay = liq_repay(p, v);
    let seize = liq_seize(p, v);
    (
        (ProtocolState {
            total_collateral: (p.total_collateral - seize) as u64,
            total_debt: (p.total_debt - repay) as u64,
            ..p
        }),
        (Vault {
            collateral_amount: (v.collateral_amount - seize) as u64,
            debt_amount: (v.debt_amount - repay) as u64,
            ..v
        }),
    )
}

/// A permitted liquidation never repays more than the vault's debt, never
/// seizes more than the vault's collateral, and stays within the protocol
/// totals.
pub proof fn lemma_liquidation_bounds(
    p: ProtocolState,
    v: Vault,
    liquidator: u64,
    vault_owner: u64,
)
    requires
        liquidate_error(p, v, liquidator, vault_owner) is None,
    ensures
        0 < liq_repay(p, v) <= v.debt_amount,
        liq_repay(p, v) <= p.total_debt,
        0 <= liq_seize(p, v) <= v.collateral_amount,
        liq_seize(p, v) <= p.total_collateral,
{
    lemma_pow10_9();
    lemma_pow10_positive(GOR_DECIMALS as nat);
    let c: int = v.collateral_amount as int;
    let price: int = p.gor_price_usd as int;
    let cv = liq_collateral_value(p, v);
    let bonus = BPS_DENOMINATOR + LIQUIDATION_PENALTY_BPS;
    lemma_mul_nonnegative(c, price);
    lemma_div_pos_is_pos(c * price, pow10(GOR_DECIMALS as nat) as int);
    // A profitable repayment needs a positive collateral value...
    if cv * BPS_DENOMINATOR < bonus {
        lemma_basic_div(cv * BPS_DENOMINATOR, bonus as int);
    }
    // ...and with it a positive price.
    if p.gor_price_usd == 0 {
        assert(c * price == 0) by (nonlinear_arith)
            requires
                price == 0,
        ;
        lemma_basic_div(0, pow10(GOR_DECIMALS as nat) as int);
    }
    lemma_div_pos_is_pos(liq_repay(p, v) * (bonus as int), BPS_DENOMINATOR as int);
    lemma_div_pos_is_pos(liq_repay_with_bonus(p, v) * (pow10(GOR_DECIMALS as nat) as int), price);
}

/// Liquidate an undercollateralized vault: burn `liq_repay` stable-asset
/// units from the liquidator, hand them `liq_seize` lamports of the vault's
/// collateral, and shrink the vault and the protocol totals by the same
/// amounts. Never repays more than the vault's debt and never seizes more
/// than its collateral.
pub fn liquidate(
    protocol: &mut ProtocolState,
    vault: &mut Vault,
    liquidator: u64,
    vault_owner: u64,
) -> (r: Result<VaultLiquidated, GusdError>)
    ensures
        r is Ok <==> liquidate_error(*old(protocol), *old(vault), liquidator, vault_owner) is None,
        r matches Err(e) ==> liquidate_error(*old(protocol), *old(vault), liquidator, vault_owner)
            == Some(e) && *final(protocol) == *old(protocol) && *final(vault) == *old(vault),
        r matches Ok(ev) ==> *final(protocol) == liquidate_apply(*old(protocol), *old(vault)).0
            && *final(vault) == liquidate_apply(*old(protocol), *old(vault)).1 && ev == (
        VaultLiquidated {
            vault_owner,
            liquidator,
            debt_repaid: liq_repay(*old(protocol), *old(vault)) as u64,
            collateral_seized: liq_seize(*old(protocol), *old(vault)) as u64,
        }),
        r matches Ok(ev) ==> ev.debt_repaid <= old(vault).debt_amount && ev.collateral_seized <= old(
            vault,
        ).collateral_amount,
{
    if vault.owner != vault_owner {
        return Err(GusdError::InvalidVaultOwner);
    }
    if protocol.is_paused {
        return Err(GusdError::ProtocolPaused);
    }
    let vault_debt_amount = vault.debt_amount;
    if vault_debt_amount == 0 {
        return Err(GusdError::NoDebtToLiquidate);
    }
    let price = protocol.gor_price_usd;
    let collateral_value_usd = match calculate_usd_value(
        vault.collateral_amount,
        price,
        GOR_DECIMALS,
    ) {
        Ok(v) => v,
        Err(e) => { return Err(e) },
    };
    let collateral_ratio_bps: u128 = ((collateral_value_usd as u128) * (BPS_DENOMINATOR as u128))
        / (vault_debt_amount as u128);
    if collateral_ratio_bps >= LIQUIDATION_THRESHOLD_BPS as u128 {
        return Err(GusdError::VaultNotLiquidatable);
    }
    let bonus_denominator: u64 = BPS_DENOMINATOR + LIQUIDATION_PENALTY_BPS;
    let max_repay: u128 = ((collateral_value_usd as u128) * (BPS_DENOMINATOR as u128)) / (
    bonus_denominator as u128);
    let repay_wide: u128 = if (vault_debt_amount as u128) <= max_repay {
        vault_debt_amount as u128
    } else {
        max_repay
    };
    if repay_wide == 0 {
        return Err(GusdError::LiquidationNotProfitable);
    }
    let repay_amount: u64 = repay_wide as u64;
    let bonus_numerator: u128 = repay_wide * (bonus_denominator as u128);
    let repay_with_bonus: u128 = bonus_numerator / (BPS_DENOMINATOR as u128);
    proof {
        lemma_pow10_9();
        lemma_pow10_positive(GOR_DECIMALS as nat);
        // The bonus-adjusted repayment stays far below the 128-bit range.
        lemma_div_is_ordered(
            bonus_numerator as int,
            0xffff_ffff_ffff_ffffu64 * 11000int,
            BPS_DENOMINATOR as int,
        );
        // A profitable repayment implies the collateral value, and with it
        // the price, is positive.
        if (collateral_value_usd as int) * (BPS_DENOMINATOR as int) < bonus_denominator {
            lemma_basic_div(
                (collateral_value_usd as int) * (BPS_DENOMINATOR as int),
                bonus_denominator as int,
            );
        }
        if price == 0 {
            let c: int = vault.collateral_amount as int;
            assert(c * price == 0) by (nonlinear_arith)
                requires
                    price == 0,
            ;
            lemma_basic_div(0, pow10(GOR_DECIMALS as nat) as int);
        }
    }
    let collateral_to_liquidator_wide: u128 = (repay_with_bonus * 1_000_000_000u128) / (
    price as u128);
    if collateral_to_liquidator_wide > u64::MAX as u128 {
        return Err(GusdError::MathOverflow);
    }
    let collateral_to_liquidator: u64 = collateral_to_liquidator_wide as u64;
    if collateral_to_liquidator > vault.collateral_amount {
        return Err(GusdError::MathOverflow);
    }
    let new_total_collateral = match protocol.total_collateral.checked_sub(
        collateral_to_liquidator,
    ) {
        Some(t) => t,
        None => { return Err(GusdError::MathOverflow) },
    };
    let new_total_debt = match protocol.total_debt.checked_sub(repay_amount) {
        Some(t) => t,
        None => { return Err(GusdError::MathOverflow) },
    };
    protocol.total_collateral = new_total_collateral;
    protocol.total_debt = new_total_debt;
    vault.collateral_amount = vault.collateral_amount - collateral_to_liquidator;
    vault.debt_amount = vault.debt_amount - repay_amount;
    Ok(
        VaultLiquidated {
            vault_owner,
            liquidator,
            debt_repaid: repay_amount,
            collateral_seized: collateral_to_liquidator,
        },
    )
}

} // verus!
