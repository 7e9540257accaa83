//! Engine-wide laws, stated and proved against the operation contracts.
//!
//! The running totals in [`ProtocolState`] are meaningful only if every
//! operation moves them in lockstep with the vault it touches. This module
//! states that accounting invariant over a ghost sequence of all vaults and
//! proves that each operation's state transition preserves it, along with the
//! inverse-pair law for repay and mint and the ratio law for mint.

use vstd::prelude::*;

use crate::errors::GusdError;
use crate::liquidation::lemma_liquidation_bounds;
use crate::liquidation::liquidate_apply;
use crate::liquidation::liquidate_error;
use crate::math::usd_value;
use crate::protocol::max_price_delta;
use crate::protocol::price_delta;
use crate::protocol::update_price_error;
use crate::state::ProtocolState;
use crate::state::Vault;
use crate::vault_ops::close_error;
use crate::vault_ops::deposit_apply;
use crate::vault_ops::deposit_error;
use crate::vault_ops::mint_apply;
use crate::vault_ops::mint_error;
use crate::vault_ops::repay_apply;
use crate::vault_ops::repay_error;
use crate::vault_ops::required_collateral_value;
use crate::vault_ops::withdraw_apply;
use crate::vault_ops::withdraw_error;
use crate::BPS_DENOMINATOR;
use crate::GOR_DECIMALS;
use crate::MIN_COLLATERAL_RATIO_BPS;
use crate::MIN_PRICE_UPDATE_INTERVAL_SECS;
use vstd::arithmetic::div_mod::lemma_fundamental_div_mod;
use vstd::arithmetic::mul::lemma_mul_inequality;

verus! {

/// Total collateral tracked across a sequence of vaults.
pub open spec fn sum_collateral(vaults: Seq<Vault>) -> int
    decreases vaults.len(),
{
    if vaults.len() == 0 {
        0
    } else {
        sum_collateral(vaults.drop_last()) + vaults.last().collateral_amount
    }
}

/// Total debt tracked across a sequence of vaults.
pub open spec fn sum_debt(vaults: Seq<Vault>) -> int
    decreases vaults.len(),
{
    if vaults.len() == 0 {
        0
    } else {
        sum_debt(vaults.drop_last()) + vaults.last().debt_amount
    }
}

/// The protocol totals agree with the vault-by-vault sums.
pub open spec fn accounting_ok(p: ProtocolState, vaults: Seq<Vault>) -> bool {
    p.total_collateral == sum_collateral(vaults) && p.total_debt == sum_debt(vaults)
}

pub proof fn lemma_sum_collateral_update(s: Seq<Vault>, i: int, v: Vault)
    requires
        0 <= i < s.len(),
    ensures
        sum_collateral(s.update(i, v)) == sum_collateral(s) - s[i].collateral_amount
            + v.collateral_amount,
    decreases s.len(),
{
    let t = s.update(i, v);
    if i == s.len() - 1 {
        assert(t.drop_last() =~= s.drop_last());
    } else {
        lemma_sum_collateral_update(s.drop_last(), i, v);
        assert(t.drop_last() =~= s.drop_last().update(i, v));
    }
}

pub proof fn lemma_sum_debt_update(s: Seq<Vault>, i: int, v: Vault)
    requires
        0 <= i < s.len(),
    ensures
        sum_debt(s.update(i, v)) == sum_debt(s) - s[i].debt_amount + v.debt_amount,
    decreases s.len(),
{
    let t = s.update(i, v);
    if i == s.len() - 1 {
        assert(t.drop_last() =~= s.drop_last());
    } else {
        lemma_sum_debt_update(s.drop_last(), i, v);
        assert(t.drop_last() =~= s.drop_last().update(i, v));
    }
}

pub proof fn lemma_sum_collateral_remove(s: Seq<Vault>, i: int)
    requires
        0 <= i < s.len(),
    ensures
        sum_collateral(s.remove(i)) == sum_collateral(s) - s[i].collateral_amount,
    decreases s.len(),
{
    let t = s.remove(i);
    if i == s.len() - 1 {
        assert(t =~= s.drop_last());
    } else {
        lemma_sum_collateral_remove(s.drop_last(), i);
        assert(t.drop_last() =~= s.drop_last().remove(i));
        assert(t.last() == s.last());
    }
}

pub proof fn lemma_sum_debt_remove(s: Seq<Vault>, i: int)
    requires
        0 <= i < s.len(),
    ensures
        sum_debt(s.remove(i)) == sum_debt(s) - s[i].debt_amount,
    decreases s.len(),
{
    let t = s.remove(i);
    if i == s.len() - 1 {
        assert(t =~= s.drop_last());
    } else {
        lemma_sum_debt_remove(s.drop_last(), i);
        assert(t.drop_last() =~= s.drop_last().remove(i));
        assert(t.last() == s.last());
    }
}

/// Any state change that moves the protocol totals by exactly the change in
/// the touched vault's balances preserves the accounting invariant.
pub proof fn lemma_matched_deltas_preserve_accounting(
    p1: ProtocolState,
    p2: ProtocolState,
    s: Seq<Vault>,
    i: int,
    v2: Vault,
)
    requires
        accounting_ok(p1, s),
        0 <= i < s.len(),
        p2.total_collateral - p1.total_collateral == v2.collateral_amount
            - s[i].collateral_amount,
        p2.total_debt - p1.total_debt == v2.debt_amount - s[i].debt_amount,
    ensures
        accounting_ok(p2, s.update(i, v2)),
{
    lemma_sum_collateral_update(s, i, v2);
    lemma_sum_debt_update(s, i, v2);
}

/// A successful deposit into any vault preserves the accounting invariant.
pub proof fn lemma_deposit_preserves_accounting(
    p: ProtocolState,
    s: Seq<Vault>,
    i: int,
    caller: u64,
    amount: u64,
)
    requires
        accounting_ok(p, s),
        0 <= i < s.len(),
        deposit_error(p, s[i], caller, amount) is None,
    ensures
        accounting_ok(
            deposit_apply(p, s[i], amount).0,
            s.update(i, deposit_apply(p, s[i], amount).1),
        ),
{
    lemma_matched_deltas_preserve_accounting(
        p,
        deposit_apply(p, s[i], amount).0,
        s,
        i,
        deposit_apply(p, s[i], amount).1,
    );
}

/// A successful mint against any vault preserves the accounting invariant.
pub proof fn lemma_mint_preserves_accounting(
    p: ProtocolState,
    s: Seq<Vault>,
    i: int,
    caller: u64,
    amount: u64,
)
    requires
        accounting_ok(p, s),
        0 <= i < s.len(),
        mint_error(p, s[i], caller, amount) is None,
    ensures
        accounting_ok(mint_apply(p, s[i], amount).0, s.update(i, mint_apply(p, s[i], amount).1)),
{
    lemma_matched_deltas_preserve_accounting(
        p,
        mint_apply(p, s[i], amount).0,
        s,
        i,
        mint_apply(p, s[i], amount).1,
    );
}

/// A successful repayment on any vault preserves the accounting invariant.
pub proof fn lemma_repay_preserves_accounting(
    p: ProtocolState,
    s: Seq<Vault>,
    i: int,
    caller: u64,
    amount: u64,
)
    requires
        accounting_ok(p, s),
        0 <= i < s.len(),
        repay_error(p, s[i], caller, amount) is None,
    ensures
        accounting_ok(repay_apply(p, s[i], amount).0, s.update(i, repay_apply(p, s[i], amount).1)),
{
    lemma_matched_deltas_preserve_accounting(
        p,
        repay_apply(p, s[i], amount).0,
        s,
        i,
        repay_apply(p, s[i], amount).1,
    );
}

/// A successful withdrawal from any vault preserves the accounting invariant.
pub proof fn lemma_withdraw_preserves_accounting(
    p: ProtocolState,
    s: Seq<Vault>,
    i: int,
    caller: u64,
    amount: u64,
)
    requires
        accounting_ok(p, s),
        0 <= i < s.len(),
        withdraw_error(p, s[i], caller, amount) is None,
    ensures
        accounting_ok(
            withdraw_apply(p, s[i], amount).0,
            s.update(i, withdraw_apply(p, s[i], amount).1),
        ),
{
    lemma_matched_deltas_preserve_accounting(
        p,
        withdraw_apply(p, s[i], amount).0,
        s,
        i,
        withdraw_apply(p, s[i], amount).1,
    );
}

/// A successful liquidation of any vault preserves the accounting invariant.
pub proof fn lemma_liquidate_preserves_accounting(
    p: ProtocolState,
    s: Seq<Vault>,
    i: int,
    liquidator: u64,
    vault_owner: u64,
)
    requires
        accounting_ok(p, s),
        0 <= i < s.len(),
        liquidate_error(p, s[i], liquidator, vault_owner) is None,
    ensures
        accounting_ok(liquidate_apply(p, s[i]).0, s.update(i, liquidate_apply(p, s[i]).1)),
{
    lemma_liquidation_bounds(p, s[i], liquidator, vault_owner);
    lemma_matched_deltas_preserve_accounting(
        p,
        liquidate_apply(p, s[i]).0,
        s,
        i,
        liquidate_apply(p, s[i]).1,
    );
}

/// Closing an empty vault removes it without disturbing the accounting
/// invariant.
pub proof fn lemma_close_preserves_accounting(p: ProtocolState, s: Seq<Vault>, i: int, caller: u64)
    requires
        accounting_ok(p, s),
        0 <= i < s.len(),
        close_error(s[i], caller) is None,
    ensures
        accounting_ok(p, s.remove(i)),
{
    lemma_sum_collateral_remove(s, i);
    lemma_sum_debt_remove(s, i);
}

/// A successful mint leaves the post-state vault collateralized at the full
/// minimum ratio, `collateral value * BPS_DENOMINATOR >= debt *
/// MIN_COLLATERAL_RATIO_BPS`, whenever the required value divides evenly.
/// (With a remainder, floor division deliberately gives the borrower the
/// benefit of the rounding, so the product inequality can miss by less than
/// one basis-point unit.)
pub proof fn lemma_mint_keeps_minimum_ratio(p: ProtocolState, v: Vault, caller: u64, amount: u64)
    requires
        mint_error(p, v, caller, amount) is None,
        ((v.debt_amount + amount) * MIN_COLLATERAL_RATIO_BPS) % (BPS_DENOMINATOR as int) == 0,
    ensures
        usd_value(mint_apply(p, v, amount).1.collateral_amount, p.gor_price_usd, GOR_DECIMALS)
            * BPS_DENOMINATOR >= mint_apply(p, v, amount).1.debt_amount
            * MIN_COLLATERAL_RATIO_BPS,
{
    let cv = usd_value(v.collateral_amount, p.gor_price_usd, GOR_DECIMALS);
    let num = (v.debt_amount + amount) * MIN_COLLATERAL_RATIO_BPS;
    let required = required_collateral_value((v.debt_amount + amount) as u64);
    lemma_fundamental_div_mod(num, BPS_DENOMINATOR as int);
    lemma_mul_inequality(required, cv, BPS_DENOMINATOR as int);
}

/// Repaying `amount` and then minting it back returns the vault's debt and
/// the protocol's total debt to their prior values, when the price does not
/// change in between; the balances of collateral are untouched throughout.
pub proof fn lemma_repay_then_mint_restores_debt(
    p: ProtocolState,
    v: Vault,
    caller: u64,
    amount: u64,
)
    requires
        amount <= v.debt_amount,
        repay_error(p, v, caller, amount) is None,
        ({
            let (p2, v2) = repay_apply(p, v, amount);
            mint_error(p2, v2, caller, amount) is None
        }),
    ensures
        ({
            let (p2, v2) = repay_apply(p, v, amount);
            let (p3, v3) = mint_apply(p2, v2, amount);
            v3.debt_amount == v.debt_amount && p3.total_debt == p.total_debt
                && v3.collateral_amount == v.collateral_amount && p3.total_collateral
                == p.total_collateral && v3.owner == v.owner
        }),
{
}

/// Minting `amount` and then repaying it returns the vault's debt and the
/// protocol's total debt to their prior values, when the price does not
/// change in between; the balances of collateral are untouched throughout.
pub proof fn lemma_mint_then_repay_restores_debt(
    p: ProtocolState,
    v: Vault,
    caller: u64,
    amount: u64,
)
    requires
        mint_error(p, v, caller, amount) is None,
        ({
            let (p2, v2) = mint_apply(p, v, amount);
            repay_error(p2, v2, caller, amount) is None
        }),
    ensures
        ({
            let (p2, v2) = mint_apply(p, v, amount);
            let (p3, v3) = repay_apply(p2, v2, amount);
            v3.debt_amount == v.debt_amount && p3.total_debt == p.total_debt
                && v3.collateral_amount == v.collateral_amount && p3.total_collateral
                == p.total_collateral && v3.owner == v.owner
        }),
{
}

/// The price guard accepts a movement of exactly the allowed maximum and
/// rejects precisely the larger ones, once the caller, the price, and the
/// interval checks are out of the way.
pub proof fn lemma_price_guard_boundary(p: ProtocolState, caller: u64, new_price: u64, now: i64)
    requires
        caller == p.admin,
        new_price > 0,
        now - p.last_price_update_ts >= MIN_PRICE_UPDATE_INTERVAL_SECS,
    ensures
        update_price_error(p, caller, new_price, now) is None <==> price_delta(
            p.gor_price_usd,
            new_price,
        ) <= max_price_delta(p.gor_price_usd),
        price_delta(p.gor_price_usd, new_price) > max_price_delta(p.gor_price_usd)
            ==> update_price_error(p, caller, new_price, now) == Some(
            GusdError::PriceChangeExceedsLimit,
        ),
{
}

} // verus!
