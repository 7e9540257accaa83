//! Position operations: create, deposit, mint, repay, withdraw, close, and
//! the health query.
//!
//! Each operation validates against the current snapshot of the protocol and
//! vault records and mutates them only after every check has passed; a
//! rejected call leaves both records untouched. The fund movements the
//! surrounding ledger must perform (move collateral, mint or burn the stable
//! asset) follow from the returned event.
//!
//! For every mutating operation the module gives two spec functions: the
//! `*_error` function names the first rejection the operation raises, and the
//! `*_apply` function gives the records after a successful call. The
//! executable functions are proved to follow them exactly.

use vstd::prelude::*;

use crate::errors::GusdError;
use crate::events::CollateralDeposited;
use crate::events::CollateralWithdrawn;
use crate::events::GusdMinted;
use crate::events::GusdRepaid;
use crate::events::VaultCreated;
use crate::math::calculate_usd_value;
use crate::math::usd_value;
use crate::state::ProtocolState;
use crate::state::Vault;
use crate::state::VaultHealth;
use crate::BPS_DENOMINATOR;
use crate::GOR_DECIMALS;
use crate::LIQUIDATION_THRESHOLD_BPS;
use crate::MIN_COLLATERAL_RATIO_BPS;

verus! {

/// The least USD collateral value that supports a debt of `debt`:
/// `debt * MIN_COLLATERAL_RATIO_BPS / BPS_DENOMINATOR`, floor division, so the
/// requirement is never over-stated by rounding.
pub open spec fn required_collateral_value(debt: u64) -> int {
    (debt * MIN_COLLATERAL_RATIO_BPS) / (BPS_DENOMINATOR as int)
}

/// Collateral ratio in basis points reported after a successful mint of
/// `amount` against `v`.
pub open spec fn mint_ratio_bps(p: ProtocolState, v: Vault, amount: u64) -> int {
    (usd_value(v.collateral_amount, p.gor_price_usd, GOR_DECIMALS) * BPS_DENOMINATOR) / (
    v.debt_amount + amount)
}

/// Open a fresh vault for `owner` with zero balances.
pub fn create_vault(owner: u64, now: i64) -> (r: (Vault, VaultCreated))
    ensures
        r.0 == (Vault { owner, collateral_amount: 0, debt_amount: 0 }),
        r.1 == (VaultCreated { owner, timestamp: now }),
{
    (
        Vault { owner, collateral_amount: 0, debt_amount: 0 },
        VaultCreated { owner, timestamp: now },
    )
}

/// The first rejection `deposit_collateral` raises, or `None`.
pub open spec fn deposit_error(p: ProtocolState, v: Vault, caller: u64, amount: u64) -> Option<
    GusdError,
> {
    if caller != v.owner {
        Some(GusdError::Unauthorized)
    } else if amount == 0 {
        Some(GusdError::InvalidAmount)
    } else if v.collateral_amount + amount > u64::MAX {
        Some(GusdError::MathOverflow)
    } else if p.total_collateral + amount > u64::MAX {
        Some(GusdError::MathOverflow)
    } else {
        None
    }
}

/// The records after a successful deposit.
pub open spec fn deposit_apply(p: ProtocolState, v: Vault, amount: u64) -> (ProtocolState, Vault) {
    (
        (ProtocolState { total_collateral: (p.total_collateral + amount) as u64, ..p }),
        (Vault { collateral_amount: (v.collateral_amount + amount) as u64, ..v }),
    )
}

/// Deposit `amount` lamports of collateral into the caller's vault. No ratio
/// check: a deposit only improves the vault's health.
pub fn deposit_collateral(
    protocol: &mut ProtocolState,
    vault: &mut Vault,
    caller: u64,
    amount: u64,
) -> (r: Result<CollateralDeposited, GusdError>)
    ensures
        r is Ok <==> deposit_error(*old(protocol), *old(vault), caller, amount) is None,
        r matches Err(e) ==> deposit_error(*old(protocol), *old(vault), caller, amount) == Some(e)
            && *final(protocol) == *old(protocol) && *final(vault) == *old(vault),
        r matches Ok(ev) ==> *final(protocol) == deposit_apply(
            *old(protocol),
            *old(vault),
            amount,
        ).0 && *final(vault) == deposit_apply(*old(protocol), *old(vault), amount).1 && ev == (
        CollateralDeposited {
            owner: caller,
            amount,
            total_collateral: final(vault).collateral_amount,
        }),
{
    if caller != vault.owner {
        return Err(GusdError::Unauthorized);
    }
    if amount == 0 {
        return Err(GusdError::InvalidAmount);
    }
    let new_collateral = match vault.collateral_amount.checked_add(amount) {
        Some(c) => c,
        None => { return Err(GusdError::MathOverflow) },
    };
    let new_total = match protocol.total_collateral.checked_add(amount) {
        Some(t) => t,
        None => { return Err(GusdError::MathOverflow) },
    };
    vault.collateral_amount = new_collateral;
    protocol.total_collateral = new_total;
    Ok(CollateralDeposited { owner: caller, amount, total_collateral: new_collateral })
}

/// The first rejection `mint_gusd` raises, or `None`.
pub open spec fn mint_error(p: ProtocolState, v: Vault, caller: u64, amount: u64) -> Option<
    GusdError,
> {
    let collateral_value = usd_value(v.collateral_amount, p.gor_price_usd, GOR_DECIMALS);
    if caller != v.owner {
        Some(GusdError::Unauthorized)
    } else if p.is_paused {
        Some(GusdError::ProtocolPaused)
    } else if amount == 0 {
        Some(GusdError::InvalidAmount)
    } else if v.debt_amount + amount > u64::MAX {
        Some(GusdError::MathOverflow)
    } else if collateral_value > u64::MAX {
        Some(GusdError::MathOverflow)
    } else if (v.debt_amount + amount) * MIN_COLLATERAL_RATIO_BPS > u64::MAX {
        Some(GusdError::MathOverflow)
    } else if collateral_value < required_collateral_value((v.debt_amount + amount) as u64) {
        Some(GusdError::InsufficientCollateral)
    } else if p.total_debt + amount > u64::MAX {
        Some(GusdError::MathOverflow)
    } else if collateral_value * BPS_DENOMINATOR > u64::MAX {
        Some(GusdError::MathOverflow)
    } else {
        None
    }
}

/// The records after a successful mint.
pub open spec fn mint_apply(p: ProtocolState, v: Vault, amount: u64) -> (ProtocolState, Vault) {
    (
        (ProtocolState { total_debt: (p.total_debt + amount) as u64, ..p }),
        (Vault { debt_amount: (v.debt_amount + amount) as u64, ..v }),
    )
}

/// Mint `amount` of the stable asset against the caller's vault, rejected
/// while paused and whenever the collateral would not cover the new debt at
/// the minimum ratio. On success the vault is collateralized at or above the
/// minimum for its whole debt.
pub fn mint_gusd(protocol: &mut ProtocolState, vault: &mut Vault, caller: u64, amount: u64) -> (r:
    Result<GusdMinted, GusdError>)
    ensures
        r is Ok <==> mint_error(*old(protocol), *old(vault), caller, amount) is None,
        r matches Err(e) ==> mint_error(*old(protocol), *old(vault), caller, amount) == Some(e)
            && *final(protocol) == *old(protocol) && *final(vault) == *old(vault),
        r matches Ok(ev) ==> *final(protocol) == mint_apply(*old(protocol), *old(vault), amount).0
            && *final(vault) == mint_apply(*old(protocol), *old(vault), amount).1 && ev == (
        GusdMinted {
            owner: caller,
            amount,
            total_debt: final(vault).debt_amount,
            collateral_ratio_bps: mint_ratio_bps(*old(protocol), *old(vault), amount) as u64,
        }),
        r is Ok ==> usd_value(
            final(vault).collateral_amount,
            final(protocol).gor_price_usd,
            GOR_DECIMALS,
        ) >= required_collateral_value(final(vault).debt_amount),
{
    if caller != vault.owner {
        return Err(GusdError::Unauthorized);
    }
    if protocol.is_paused {
        return Err(GusdError::ProtocolPaused);
    }
    if amount == 0 {
        return Err(GusdError::InvalidAmount);
    }
    let new_debt = match vault.debt_amount.checked_add(amount) {
        Some(d) => d,
        None => { return Err(GusdError::MathOverflow) },
    };
    let collateral_value_usd = match calculate_usd_value(
        vault.collateral_amount,
        protocol.gor_price_usd,
        GOR_DECIMALS,
    ) {
        Ok(v) => v,
        Err(e) => { return Err(e) },
    };
    let required_collateral = match new_debt.checked_mul(MIN_COLLATERAL_RATIO_BPS) {
        Some(x) => x / BPS_DENOMINATOR,
        None => { return Err(GusdError::MathOverflow) },
    };
    if collateral_value_usd < required_collateral {
        return Err(GusdError::InsufficientCollateral);
    }
    let new_total_debt = match protocol.total_debt.checked_add(amount) {
        Some(t) => t,
        None => { return Err(GusdError::MathOverflow) },
    };
    let collateral_ratio_bps = match collateral_value_usd.checked_mul(BPS_DENOMINATOR) {
        Some(x) => x / new_debt,
        None => { return Err(GusdError::MathOverflow) },
    };
    vault.debt_amount = new_debt;
    protocol.total_debt = new_total_debt;
    Ok(GusdMinted { owner: caller, amount, total_debt: new_debt, collateral_ratio_bps })
}

/// How much of an offered repayment is actually applied: the offer is capped
/// at the outstanding debt, never rejected for being too large.
pub open spec fn repay_portion(v: Vault, amount: u64) -> u64 {
    if amount <= v.debt_amount {
        amount
    } else {
        v.debt_amount
    }
}

/// The first rejection `repay_gusd` raises, or `None`.
pub open spec fn repay_error(p: ProtocolState, v: Vault, caller: u64, amount: u64) -> Option<
    GusdError,
> {
    if caller != v.owner {
        Some(GusdError::Unauthorized)
    } else if amount == 0 {
        Some(GusdError::InvalidAmount)
    } else if repay_portion(v, amount) > p.total_debt {
        Some(GusdError::MathOverflow)
    } else {
        None
    }
}

/// The records after a successful repayment.
pub open spec fn repay_apply(p: ProtocolState, v: Vault, amount: u64) -> (ProtocolState, Vault) {
    let portion = repay_portion(v, amount);
    (
        (ProtocolState { total_debt: (p.total_debt - portion) as u64, ..p }),
        (Vault { debt_amount: (v.debt_amount - portion) as u64, ..v }),
    )
}

/// Repay up to `amount` of the caller's debt; the surrounding ledger burns
/// the repaid stable-asset units from the caller.
pub fn repay_gusd(protocol: &mut ProtocolState, vault: &mut Vault, caller: u64, amount: u64) -> (r:
    Result<GusdRepaid, GusdError>)
    ensures
        r is Ok <==> repay_error(*old(protocol), *old(vault), caller, amount) is None,
        r matches Err(e) ==> repay_error(*old(protocol), *old(vault), caller, amount) == Some(e)
            && *final(protocol) == *old(protocol) && *final(vault) == *old(vault),
        r matches Ok(ev) ==> *final(protocol) == repay_apply(*old(protocol), *old(vault), amount).0
            && *final(vault) == repay_apply(*old(protocol), *old(vault), amount).1 && ev == (
        GusdRepaid {
            owner: caller,
            amount: repay_portion(*old(vault), amount),
            remaining_debt: final(vault).debt_amount,
        }),
{
    if caller != vault.owner {
        return Err(GusdError::Unauthorized);
    }
    if amount == 0 {
        return Err(GusdError::InvalidAmount);
    }
    let repay_amount = if amount <= vault.debt_amount {
        amount
    } else {
        vault.debt_amount
    };
    let new_total_debt = match protocol.total_debt.checked_sub(repay_amount) {
        Some(t) => t,
        None => { return Err(GusdError::MathOverflow) },
    };
    vault.debt_amount = vault.debt_amount - repay_amount;
    protocol.total_debt = new_total_debt;
    Ok(
        GusdRepaid {
            owner: caller,
            amount: repay_amount,
            remaining_debt: vault.debt_amount,
        },
    )
}

/// The first rejection `withdraw_collateral` raises, or `None`.
pub open spec fn withdraw_error(p: ProtocolState, v: Vault, caller: u64, amount: u64) -> Option<
    GusdError,
> {
    let remaining_value = usd_value(
        (v.collateral_amount - amount) as u64,
        p.gor_price_usd,
        GOR_DECIMALS,
    );
    if caller != v.owner {
        Some(GusdError::Unauthorized)
    } else if p.is_paused {
        Some(GusdError::ProtocolPaused)
    } else if amount == 0 {
        Some(GusdError::InvalidAmount)
    } else if amount > v.collateral_amount {
        Some(GusdError::InsufficientCollateral)
    } else if v.debt_amount > 0 && remaining_value > u64::MAX {
        Some(GusdError::MathOverflow)
    } else if v.debt_amount > 0 && v.debt_amount * MIN_COLLATERAL_RATIO_BPS > u64::MAX {
        Some(GusdError::MathOverflow)
    } else if v.debt_amount > 0 && remaining_value < required_collateral_value(v.debt_amount) {
        Some(GusdError::WouldUndercollateralize)
    } else if amount > p.total_collateral {
        Some(GusdError::MathOverflow)
    } else {
        None
    }
}

/// The records after a successful withdrawal.
pub open spec fn withdraw_apply(p: ProtocolState, v: Vault, amount: u64) -> (ProtocolState, Vault) {
    (
        (ProtocolState { total_collateral: (p.total_collateral - amount) as u64, ..p }),
        (Vault { collateral_amount: (v.collateral_amount - amount) as u64, ..v }),
    )
}

/// Withdraw `amount` lamports of collateral, rejected while paused. With
/// outstanding debt the remaining collateral must still cover it at the
/// minimum ratio; with no debt any amount up to the balance may leave.
pub fn withdraw_collateral(
    protocol: &mut ProtocolState,
    vault: &mut Vault,
    caller: u64,
    amount: u64,
) -> (r: Result<CollateralWithdrawn, GusdError>)
    ensures
        r is Ok <==> withdraw_error(*old(protocol), *old(vault), caller, amount) is None,
        r matches Err(e) ==> withdraw_error(*old(protocol), *old(vault), caller, amount) == Some(e)
            && *final(protocol) == *old(protocol) && *final(vault) == *old(vault),
        r matches Ok(ev) ==> *final(protocol) == withdraw_apply(
            *old(protocol),
            *old(vault),
            amount,
        ).0 && *final(vault) == withdraw_apply(*old(protocol), *old(vault), amount).1 && ev == (
        CollateralWithdrawn {
            owner: caller,
            amount,
            remaining_collateral: final(vault).collateral_amount,
        }),
        r is Ok && old(vault).debt_amount > 0 ==> usd_value(
            final(vault).collateral_amount,
            final(protocol).gor_price_usd,
            GOR_DECIMALS,
        ) >= required_collateral_value(final(vault).debt_amount),
{
    if caller != vault.owner {
        return Err(GusdError::Unauthorized);
    }
    if protocol.is_paused {
        return Err(GusdError::ProtocolPaused);
    }
    if amount == 0 {
        return Err(GusdError::InvalidAmount);
    }
    if amount > vault.collateral_amount {
        return Err(GusdError::InsufficientCollateral);
    }
    let remaining_collateral = vault.collateral_amount - amount;
    if vault.debt_amount > 0 {
        let remaining_value_usd = match calculate_usd_value(
            remaining_collateral,
            protocol.gor_price_usd,
            GOR_DECIMALS,
        ) {
            Ok(v) => v,
            Err(e) => { return Err(e) },
        };
        let required_collateral = match vault.debt_amount.checked_mul(MIN_COLLATERAL_RATIO_BPS) {
            Some(x) => x / BPS_DENOMINATOR,
            None => { return Err(GusdError::MathOverflow) },
        };
        if remaining_value_usd < required_collateral {
            return Err(GusdError::WouldUndercollateralize);
        }
    }
    let new_total = match protocol.total_collateral.checked_sub(amount) {
        Some(t) => t,
        None => { return Err(GusdError::MathOverflow) },
    };
    vault.collateral_amount = remaining_collateral;
    protocol.total_collateral = new_total;
    Ok(
        CollateralWithdrawn {
            owner: caller,
            amount,
            remaining_collateral,
        },
    )
}

/// Whether `close_vault` accepts, or the rejection it raises.
pub open spec fn close_error(v: Vault, caller: u64) -> Option<GusdError> {
    if v.owner != caller {
        Some(GusdError::InvalidVaultOwner)
    } else if v.debt_amount != 0 || v.collateral_amount != 0 {
        Some(GusdError::VaultNotEmpty)
    } else {
        None
    }
}

/// Decide whether the owner's vault may be closed: only a vault with zero
/// debt and zero tracked collateral may go. Deleting the record and draining
/// any residual custody balance back to the owner is the surrounding system's
/// part.
pub fn close_vault(vault: &Vault, caller: u64) -> (r: Result<(), GusdError>)
    ensures
        r is Ok <==> caller == vault.owner && vault.debt_amount == 0 && vault.collateral_amount
            == 0,
        r matches Err(e) ==> close_error(*vault, caller) == Some(e),
{
    if vault.owner != caller {
        return Err(GusdError::InvalidVaultOwner);
    }
    if vault.debt_amount != 0 {
        return Err(GusdError::VaultNotEmpty);
    }
    if vault.collateral_amount != 0 {
        return Err(GusdError::VaultNotEmpty);
    }
    Ok(())
}

/// The ratio reported by the health query: collateral value over debt in
/// basis points, or `u64::MAX` (an infinite ratio, by convention) with no
/// debt.
pub open spec fn health_ratio_bps(p: ProtocolState, v: Vault) -> int {
    if v.debt_amount > 0 {
        (usd_value(v.collateral_amount, p.gor_price_usd, GOR_DECIMALS) * BPS_DENOMINATOR) / (
        v.debt_amount as int)
    } else {
        u64::MAX as int
    }
}

/// The rejection `get_vault_health` raises, or `None`.
pub open spec fn health_error(p: ProtocolState, v: Vault) -> Option<GusdError> {
    let collateral_value = usd_value(v.collateral_amount, p.gor_price_usd, GOR_DECIMALS);
    if collateral_value > u64::MAX {
        Some(GusdError::MathOverflow)
    } else if v.debt_amount > 0 && collateral_value * BPS_DENOMINATOR > u64::MAX {
        Some(GusdError::MathOverflow)
    } else {
        None
    }
}

/// Pure read of a vault's risk position; mutates nothing.
pub fn get_vault_health(protocol: &ProtocolState, vault: &Vault) -> (r: Result<
    VaultHealth,
    GusdError,
>)
    ensures
        r is Ok <==> health_error(*protocol, *vault) is None,
        r matches Err(e) ==> health_error(*protocol, *vault) == Some(e),
        r matches Ok(h) ==> h == (VaultHealth {
            collateral_amount: vault.collateral_amount,
            collateral_value_usd: usd_value(
                vault.collateral_amount,
                protocol.gor_price_usd,
                GOR_DECIMALS,
            ) as u64,
            debt_amount: vault.debt_amount,
            collateral_ratio_bps: health_ratio_bps(*protocol, *vault) as u64,
            is_liquidatable: vault.debt_amount > 0 && health_ratio_bps(*protocol, *vault)
                < LIQUIDATION_THRESHOLD_BPS,
        }),
{
    let collateral_value_usd = match calculate_usd_value(
        vault.collateral_amount,
        protocol.gor_price_usd,
        GOR_DECIMALS,
    ) {
        Ok(v) => v,
        Err(e) => { return Err(e) },
    };
    let collateral_ratio = if vault.debt_amount > 0 {
        match collateral_value_usd.checked_mul(BPS_DENOMINATOR) {
            Some(x) => x / vault.debt_amount,
            None => { return Err(GusdError::MathOverflow) },
        }
    } else {
        u64::MAX
    };
    let is_liquidatable = vault.debt_amount > 0 && collateral_ratio < LIQUIDATION_THRESHOLD_BPS;
    Ok(
        VaultHealth {
            collateral_amount: vault.collateral_amount,
            collateral_value_usd,
            debt_amount: vault.debt_amount,
            collateral_ratio_bps: collateral_ratio,
            is_liquidatable,
        },
    )
}

} // verus!
