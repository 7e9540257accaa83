//! Protocol-level operations: initialization, the price-guard controller,
//! pause control, and admin transfer.
//!
//! Each operation takes the caller's verified identity and checks it against
//! the stored admin; the time of a price update is an externally supplied
//! timestamp. The current time, real signatures, and durable storage belong
//! to the surrounding system.

use vstd::prelude::*;

use crate::errors::GusdError;
use crate::events::PriceUpdated;
use crate::state::ProtocolState;
use crate::BPS_DENOMINATOR;
use crate::MAX_PRICE_CHANGE_BPS;
use crate::MIN_PRICE_UPDATE_INTERVAL_SECS;
use vstd::arithmetic::div_mod::lemma_multiply_divide_lt;

verus! {

/// Absolute difference between the old and the requested price.
pub open spec fn price_delta(old_price: u64, new_price: u64) -> int {
    if new_price > old_price {
        new_price - old_price
    } else {
        old_price - new_price
    }
}

/// The largest price movement a single update may make:
/// `ceil(old_price * MAX_PRICE_CHANGE_BPS / BPS_DENOMINATOR)`, floored at 1 so
/// that even very small prices retain some allowed movement. Ceiling division
/// keeps the bound no stricter than the configured percentage.
pub open spec fn max_price_delta(old_price: u64) -> int {
    let ceiling = (old_price * MAX_PRICE_CHANGE_BPS + (BPS_DENOMINATOR - 1)) / (
    BPS_DENOMINATOR as int);
    if ceiling < 1 {
        1
    } else {
        ceiling
    }
}

/// The first rejection `update_price` raises, or `None` when the update is
/// accepted.
pub open spec fn update_price_error(
    p: ProtocolState,
    caller: u64,
    new_price: u64,
    now: i64,
) -> Option<GusdError> {
    if caller != p.admin {
        Some(GusdError::Unauthorized)
    } else if new_price == 0 {
        Some(GusdError::InvalidPrice)
    } else if now - p.last_price_update_ts < MIN_PRICE_UPDATE_INTERVAL_SECS {
        Some(GusdError::PriceUpdateTooFrequent)
    } else if price_delta(p.gor_price_usd, new_price) > max_price_delta(p.gor_price_usd) {
        Some(GusdError::PriceChangeExceedsLimit)
    } else {
        None
    }
}

/// Create the protocol's global state. The admin identity, the handle of the
/// stable-asset issuance authority, and the current time come from the
/// surrounding system; a zero initial price is rejected.
pub fn initialize(admin: u64, gusd_mint: u64, initial_gor_price_usd: u64, now: i64) -> (r: Result<
    ProtocolState,
    GusdError,
>)
    ensures
        initial_gor_price_usd == 0 ==> r == Err::<ProtocolState, GusdError>(GusdError::InvalidPrice),
        initial_gor_price_usd > 0 ==> r == Ok::<ProtocolState, GusdError>(
            ProtocolState {
                admin,
                gusd_mint,
                gor_price_usd: initial_gor_price_usd,
                total_collateral: 0,
                total_debt: 0,
                is_paused: false,
                last_price_update_ts: now,
            },
        ),
{
    if initial_gor_price_usd == 0 {
        return Err(GusdError::InvalidPrice);
    }
    Ok(
        ProtocolState {
            admin,
            gusd_mint,
            gor_price_usd: initial_gor_price_usd,
            total_collateral: 0,
            total_debt: 0,
            is_paused: false,
            last_price_update_ts: now,
        },
    )
}

/// Apply an admin price update under the guard rails: a zero price is
/// rejected, updates within the minimum interval are rejected, and the
/// absolute price movement may not exceed `max_price_delta` of the old price.
pub fn update_price(
    protocol: &mut ProtocolState,
    caller: u64,
    new_gor_price_usd: u64,
    now: i64,
) -> (r: Result<PriceUpdated, GusdError>)
    ensures
        r is Ok <==> update_price_error(*old(protocol), caller, new_gor_price_usd, now) is None,
        r matches Err(e) ==> update_price_error(*old(protocol), caller, new_gor_price_usd, now)
            == Some(e) && *final(protocol) == *old(protocol),
        r matches Ok(ev) ==> *final(protocol) == (ProtocolState {
            gor_price_usd: new_gor_price_usd,
            last_price_update_ts: now,
            ..*old(protocol)
        }) && ev == (PriceUpdated {
            old_price: old(protocol).gor_price_usd,
            new_price: new_gor_price_usd,
        }),
{
    if caller != protocol.admin {
        return Err(GusdError::Unauthorized);
    }
    if new_gor_price_usd == 0 {
        return Err(GusdError::InvalidPrice);
    }
    let elapsed: i128 = (now as i128) - (protocol.last_price_update_ts as i128);
    if elapsed < MIN_PRICE_UPDATE_INTERVAL_SECS as i128 {
        return Err(GusdError::PriceUpdateTooFrequent);
    }
    let old_price = protocol.gor_price_usd;
    let price_change: u64 = if new_gor_price_usd > old_price {
        new_gor_price_usd - old_price
    } else {
        old_price - new_gor_price_usd
    };
    let numerator: u128 = (old_price as u128) * (MAX_PRICE_CHANGE_BPS as u128) + ((BPS_DENOMINATOR
        - 1) as u128);
    let mut max_change_wide: u128 = numerator / (BPS_DENOMINATOR as u128);
    if max_change_wide < 1 {
        max_change_wide = 1;
    }
    proof {
        lemma_multiply_divide_lt(
            numerator as int,
            BPS_DENOMINATOR as int,
            0x1_0000_0000_0000_0000,
        );
    }
    let max_change: u64 = max_change_wide as u64;
    if price_change > max_change {
        return Err(GusdError::PriceChangeExceedsLimit);
    }
    protocol.gor_price_usd = new_gor_price_usd;
    protocol.last_price_update_ts = now;
    Ok(PriceUpdated { old_price, new_price: new_gor_price_usd })
}

/// Pause the protocol: mint and withdraw are rejected until `unpause_protocol`.
pub fn pause_protocol(protocol: &mut ProtocolState, caller: u64) -> (r: Result<(), GusdError>)
    ensures
        r is Ok <==> caller == old(protocol).admin,
        r matches Err(e) ==> e == GusdError::Unauthorized && *final(protocol) == *old(protocol),
        r is Ok ==> *final(protocol) == (ProtocolState { is_paused: true, ..*old(protocol) }),
{
    if caller != protocol.admin {
        return Err(GusdError::Unauthorized);
    }
    protocol.is_paused = true;
    Ok(())
}

/// Lift a pause.
pub fn unpause_protocol(protocol: &mut ProtocolState, caller: u64) -> (r: Result<(), GusdError>)
    ensures
        r is Ok <==> caller == old(protocol).admin,
        r matches Err(e) ==> e == GusdError::Unauthorized && *final(protocol) == *old(protocol),
        r is Ok ==> *final(protocol) == (ProtocolState { is_paused: false, ..*old(protocol) }),
{
    if caller != protocol.admin {
        return Err(GusdError::Unauthorized);
    }
    protocol.is_paused = false;
    Ok(())
}

/// Hand the admin role to a new identity; the null (zero) identity is refused.
pub fn transfer_admin(protocol: &mut ProtocolState, caller: u64, new_admin: u64) -> (r: Result<
    (),
    GusdError,
>)
    ensures
        r is Ok <==> caller == old(protocol).admin && new_admin != 0,
        r matches Err(e) ==> *final(protocol) == *old(protocol) && e == (if caller != old(
            protocol,
        ).admin {
            GusdError::Unauthorized
        } else {
            GusdError::InvalidAmount
        }),
        r is Ok ==> *final(protocol) == (ProtocolState { admin: new_admin, ..*old(protocol) }),
{
    if caller != protocol.admin {
        return Err(GusdError::Unauthorized);
    }
    if new_admin == 0 {
        return Err(GusdError::InvalidAmount);
    }
    protocol.admin = new_admin;
    Ok(())
}

} // verus!
