use gusd::errors::GusdError;
use gusd::liquidation::liquidate;
use gusd::protocol::initialize;
use gusd::protocol::pause_protocol;
use gusd::state::ProtocolState;
use gusd::state::Vault;
use gusd::vault_ops::close_vault;
use gusd::vault_ops::create_vault;
use gusd::vault_ops::deposit_collateral;
use gusd::vault_ops::get_vault_health;
use gusd::vault_ops::mint_gusd;
use gusd::vault_ops::repay_gusd;
use gusd::vault_ops::withdraw_collateral;

const ADMIN: u64 = 1;
const MINT: u64 = 2;
const ALICE: u64 = 7;
const BOB: u64 = 8;
const LIQUIDATOR: u64 = 9;

fn fresh_protocol(price: u64) -> ProtocolState {
    initialize(ADMIN, MINT, price, 0).expect("initialize")
}

fn funded_vault(p: &mut ProtocolState, owner: u64, collateral: u64, debt: u64) -> Vault {
    let (mut v, _) = create_vault(owner, 0);
    if collateral > 0 {
        deposit_collateral(p, &mut v, owner, collateral).expect("deposit");
    }
    if debt > 0 {
        mint_gusd(p, &mut v, owner, debt).expect("mint");
    }
    v
}

#[test]
fn zero_amounts_are_invalid() {
    let mut p = fresh_protocol(1_000_000);
    let mut v = funded_vault(&mut p, ALICE, 10_000_000_000_000, 1_000_000_000);
    assert_eq!(
        deposit_collateral(&mut p, &mut v, ALICE, 0),
        Err(GusdError::InvalidAmount)
    );
    assert_eq!(
        mint_gusd(&mut p, &mut v, ALICE, 0),
        Err(GusdError::InvalidAmount)
    );
    assert_eq!(
        repay_gusd(&mut p, &mut v, ALICE, 0),
        Err(GusdError::InvalidAmount)
    );
    assert_eq!(
        withdraw_collateral(&mut p, &mut v, ALICE, 0),
        Err(GusdError::InvalidAmount)
    );
}

#[test]
fn vault_operations_check_the_owner() {
    let mut p = fresh_protocol(1_000_000);
    let mut v = funded_vault(&mut p, ALICE, 10_000_000_000_000, 1_000_000_000);
    assert_eq!(
        deposit_collateral(&mut p, &mut v, BOB, 1),
        Err(GusdError::Unauthorized)
    );
    assert_eq!(
        mint_gusd(&mut p, &mut v, BOB, 1),
        Err(GusdError::Unauthorized)
    );
    assert_eq!(
        repay_gusd(&mut p, &mut v, BOB, 1),
        Err(GusdError::Unauthorized)
    );
    assert_eq!(
        withdraw_collateral(&mut p, &mut v, BOB, 1),
        Err(GusdError::Unauthorized)
    );
    // close and liquidate name the vault owner explicitly
    assert_eq!(close_vault(&v, BOB), Err(GusdError::InvalidVaultOwner));
    assert_eq!(
        liquidate(&mut p, &mut v, LIQUIDATOR, BOB),
        Err(GusdError::InvalidVaultOwner)
    );
}

#[test]
fn paused_protocol_rejects_mint_withdraw_and_liquidate() {
    let mut p = fresh_protocol(1_000_000);
    let mut v = funded_vault(&mut p, ALICE, 10_000_000_000_000, 1_000_000_000);
    pause_protocol(&mut p, ADMIN).expect("pause");
    assert_eq!(
        mint_gusd(&mut p, &mut v, ALICE, 1),
        Err(GusdError::ProtocolPaused)
    );
    assert_eq!(
        withdraw_collateral(&mut p, &mut v, ALICE, 1),
        Err(GusdError::ProtocolPaused)
    );
    assert_eq!(
        liquidate(&mut p, &mut v, LIQUIDATOR, ALICE),
        Err(GusdError::ProtocolPaused)
    );
    // deposit and repay remain allowed
    deposit_collateral(&mut p, &mut v, ALICE, 1).expect("deposit while paused");
    repay_gusd(&mut p, &mut v, ALICE, 1).expect("repay while paused");
}

#[test]
fn mint_without_collateral_is_insufficient() {
    let mut p = fresh_protocol(1_000_000);
    let (mut v, _) = create_vault(ALICE, 0);
    assert_eq!(
        mint_gusd(&mut p, &mut v, ALICE, 1_000_000),
        Err(GusdError::InsufficientCollateral)
    );
}

#[test]
fn withdraw_more_than_balance_is_insufficient() {
    let mut p = fresh_protocol(1_000_000);
    let mut v = funded_vault(&mut p, ALICE, 1_000, 0);
    assert_eq!(
        withdraw_collateral(&mut p, &mut v, ALICE, 1_001),
        Err(GusdError::InsufficientCollateral)
    );
}

#[test]
fn deposit_overflow_is_math_overflow() {
    let mut p = fresh_protocol(1_000_000);
    let mut v = Vault {
        owner: ALICE,
        collateral_amount: u64::MAX,
        debt_amount: 0,
    };
    assert_eq!(
        deposit_collateral(&mut p, &mut v, ALICE, 1),
        Err(GusdError::MathOverflow)
    );
    assert_eq!(v.collateral_amount, u64::MAX);
    assert_eq!(p.total_collateral, 0);
}

#[test]
fn mint_debt_overflow_is_math_overflow() {
    let mut p = fresh_protocol(1_000_000);
    let mut v = Vault {
        owner: ALICE,
        collateral_amount: 0,
        debt_amount: u64::MAX,
    };
    assert_eq!(
        mint_gusd(&mut p, &mut v, ALICE, 1),
        Err(GusdError::MathOverflow)
    );
}

#[test]
fn liquidate_needs_outstanding_debt() {
    let mut p = fresh_protocol(1_000_000);
    let mut v = funded_vault(&mut p, ALICE, 10_000_000_000_000, 0);
    assert_eq!(
        liquidate(&mut p, &mut v, LIQUIDATOR, ALICE),
        Err(GusdError::NoDebtToLiquidate)
    );
}

#[test]
fn healthy_vault_is_not_liquidatable() {
    let mut p = fresh_protocol(1_000_000);
    let mut v = funded_vault(&mut p, ALICE, 10_000_000_000_000, 6_000_000_000);
    // ratio 16,666 bps, well above the 12,000 threshold
    assert_eq!(
        liquidate(&mut p, &mut v, LIQUIDATOR, ALICE),
        Err(GusdError::VaultNotLiquidatable)
    );
}

#[test]
fn vault_at_exact_threshold_is_not_liquidatable() {
    let mut p = fresh_protocol(1_000_000);
    // collateral value $1.20 against $1.00 debt: ratio is exactly 12,000 bps
    let mut v = Vault {
        owner: ALICE,
        collateral_amount: 1_200_000_000,
        debt_amount: 1_000_000,
    };
    p.total_collateral = v.collateral_amount;
    p.total_debt = v.debt_amount;
    let h = get_vault_health(&p, &v).expect("health");
    assert_eq!(h.collateral_ratio_bps, 12_000);
    assert!(!h.is_liquidatable);
    assert_eq!(
        liquidate(&mut p, &mut v, LIQUIDATOR, ALICE),
        Err(GusdError::VaultNotLiquidatable)
    );
}

#[test]
fn health_reports_infinite_ratio_without_debt() {
    let mut p = fresh_protocol(1_000_000);
    let v = funded_vault(&mut p, ALICE, 1_000_000_000, 0);
    let h = get_vault_health(&p, &v).expect("health");
    assert_eq!(h.collateral_amount, 1_000_000_000);
    assert_eq!(h.collateral_value_usd, 1_000_000);
    assert_eq!(h.debt_amount, 0);
    assert_eq!(h.collateral_ratio_bps, u64::MAX);
    assert!(!h.is_liquidatable);
}

#[test]
fn health_overflow_is_math_overflow() {
    let p = fresh_protocol(u64::MAX);
    let v = Vault {
        owner: ALICE,
        collateral_amount: u64::MAX,
        debt_amount: 0,
    };
    assert_eq!(get_vault_health(&p, &v), Err(GusdError::MathOverflow));
}

#[test]
fn close_requires_empty_vault() {
    let mut p = fresh_protocol(1_000_000);
    let mut v = funded_vault(&mut p, ALICE, 1_000_000_000, 1);
    // with one unit of debt the vault cannot close
    assert_eq!(close_vault(&v, ALICE), Err(GusdError::VaultNotEmpty));
    repay_gusd(&mut p, &mut v, ALICE, 1).expect("repay the unit");
    // tracked collateral must be zero as well
    assert_eq!(close_vault(&v, ALICE), Err(GusdError::VaultNotEmpty));
    withdraw_collateral(&mut p, &mut v, ALICE, 1_000_000_000).expect("withdraw all");
    close_vault(&v, ALICE).expect("close");
}
