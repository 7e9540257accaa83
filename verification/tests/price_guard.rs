use gusd::errors::GusdError;
use gusd::protocol::initialize;
use gusd::protocol::pause_protocol;
use gusd::protocol::transfer_admin;
use gusd::protocol::unpause_protocol;
use gusd::protocol::update_price;
use gusd::state::ProtocolState;

const ADMIN: u64 = 1;
const MINT: u64 = 2;
const STRANGER: u64 = 3;

fn fresh_protocol(price: u64) -> ProtocolState {
    initialize(ADMIN, MINT, price, 0).expect("initialize")
}

#[test]
fn initialize_rejects_zero_price() {
    assert_eq!(
        initialize(ADMIN, MINT, 0, 0),
        Err(GusdError::InvalidPrice)
    );
}

#[test]
fn initialize_sets_every_field() {
    let p = fresh_protocol(4_776);
    assert_eq!(p.admin, ADMIN);
    assert_eq!(p.gusd_mint, MINT);
    assert_eq!(p.gor_price_usd, 4_776);
    assert_eq!(p.total_collateral, 0);
    assert_eq!(p.total_debt, 0);
    assert!(!p.is_paused);
    assert_eq!(p.last_price_update_ts, 0);
}

#[test]
fn update_price_rejects_zero_price() {
    let mut p = fresh_protocol(1_000_000);
    assert_eq!(
        update_price(&mut p, ADMIN, 0, 10),
        Err(GusdError::InvalidPrice)
    );
    assert_eq!(p.gor_price_usd, 1_000_000);
}

#[test]
fn update_price_rejects_non_admin() {
    let mut p = fresh_protocol(1_000_000);
    assert_eq!(
        update_price(&mut p, STRANGER, 1_100_000, 10),
        Err(GusdError::Unauthorized)
    );
}

#[test]
fn update_price_within_interval_is_too_frequent() {
    let mut p = fresh_protocol(1_000_000);
    update_price(&mut p, ADMIN, 1_100_000, 10).expect("first update");
    // a second call at the same timestamp fails regardless of the price asked
    assert_eq!(
        update_price(&mut p, ADMIN, 1_100_000, 10),
        Err(GusdError::PriceUpdateTooFrequent)
    );
    assert_eq!(
        update_price(&mut p, ADMIN, 1_000_001, 10),
        Err(GusdError::PriceUpdateTooFrequent)
    );
    // after the minimum interval it succeeds again
    update_price(&mut p, ADMIN, 1_000_000, 11).expect("after interval");
}

#[test]
fn update_price_with_clock_behind_is_too_frequent() {
    let mut p = fresh_protocol(1_000_000);
    update_price(&mut p, ADMIN, 1_100_000, 100).expect("first update");
    // a timestamp before the last accepted update is never recent enough
    assert_eq!(
        update_price(&mut p, ADMIN, 1_100_000, 50),
        Err(GusdError::PriceUpdateTooFrequent)
    );
    assert_eq!(
        update_price(&mut p, ADMIN, 1_100_000, -100),
        Err(GusdError::PriceUpdateTooFrequent)
    );
}

#[test]
fn update_price_boundary_is_exactly_twenty_percent() {
    // 20% of 1_000_000 is 200_000: the boundary itself is accepted
    let mut p = fresh_protocol(1_000_000);
    update_price(&mut p, ADMIN, 1_200_000, 10).expect("boundary up");
    assert_eq!(p.gor_price_usd, 1_200_000);

    let mut p = fresh_protocol(1_000_000);
    update_price(&mut p, ADMIN, 800_000, 10).expect("boundary down");
    assert_eq!(p.gor_price_usd, 800_000);

    // one more unit is rejected
    let mut p = fresh_protocol(1_000_000);
    assert_eq!(
        update_price(&mut p, ADMIN, 1_200_001, 10),
        Err(GusdError::PriceChangeExceedsLimit)
    );
    assert_eq!(p.gor_price_usd, 1_000_000);
    assert_eq!(
        update_price(&mut p, ADMIN, 799_999, 10),
        Err(GusdError::PriceChangeExceedsLimit)
    );
}

#[test]
fn update_price_bound_uses_ceiling_division() {
    // 20% of 10_001 is 2_000.2, so a delta of 2_001 is still allowed
    let mut p = fresh_protocol(10_001);
    update_price(&mut p, ADMIN, 12_002, 10).expect("ceiling boundary");
    let mut p = fresh_protocol(10_001);
    assert_eq!(
        update_price(&mut p, ADMIN, 12_003, 10),
        Err(GusdError::PriceChangeExceedsLimit)
    );
}

#[test]
fn tiny_prices_may_still_move_one_unit() {
    // 20% of 1 rounds up to 1, and the floor of one unit applies
    let mut p = fresh_protocol(1);
    update_price(&mut p, ADMIN, 2, 10).expect("one unit up");
    let mut p = fresh_protocol(1);
    assert_eq!(
        update_price(&mut p, ADMIN, 3, 10),
        Err(GusdError::PriceChangeExceedsLimit)
    );
}

#[test]
fn update_price_returns_old_and_new() {
    let mut p = fresh_protocol(1_000_000);
    let ev = update_price(&mut p, ADMIN, 900_000, 10).expect("update");
    assert_eq!(ev.old_price, 1_000_000);
    assert_eq!(ev.new_price, 900_000);
    assert_eq!(p.last_price_update_ts, 10);
}

#[test]
fn pause_and_unpause_toggle_the_flag() {
    let mut p = fresh_protocol(1_000_000);
    assert_eq!(
        pause_protocol(&mut p, STRANGER),
        Err(GusdError::Unauthorized)
    );
    pause_protocol(&mut p, ADMIN).expect("pause");
    assert!(p.is_paused);
    assert_eq!(
        unpause_protocol(&mut p, STRANGER),
        Err(GusdError::Unauthorized)
    );
    unpause_protocol(&mut p, ADMIN).expect("unpause");
    assert!(!p.is_paused);
}

#[test]
fn transfer_admin_requires_admin_and_nonzero_target() {
    let mut p = fresh_protocol(1_000_000);
    assert_eq!(
        transfer_admin(&mut p, STRANGER, STRANGER),
        Err(GusdError::Unauthorized)
    );
    assert_eq!(
        transfer_admin(&mut p, ADMIN, 0),
        Err(GusdError::InvalidAmount)
    );
    transfer_admin(&mut p, ADMIN, STRANGER).expect("transfer");
    assert_eq!(p.admin, STRANGER);
    // the old admin has lost the role
    assert_eq!(
        update_price(&mut p, ADMIN, 1_100_000, 10),
        Err(GusdError::Unauthorized)
    );
    update_price(&mut p, STRANGER, 1_100_000, 10).expect("new admin updates");
}
