//! Fixed-point conversion of a collateral quantity into a USD value.
//!
//! This is the sole place collateral is priced: every component that needs a
//! USD value routes through [`calculate_usd_value`] rather than re-deriving
//! the formula.

use vstd::prelude::*;

use crate::errors::GusdError;

verus! {

/// `10^n`.
pub open spec fn pow10(n: nat) -> nat
    decreases n,
{
    if n == 0 {
        1
    } else {
        10 * pow10((n - 1) as nat)
    }
}

pub proof fn lemma_pow10_positive(n: nat)
    ensures
        pow10(n) >= 1,
    decreases n,
{
    if n > 0 {
        lemma_pow10_positive((n - 1) as nat);
    }
}

pub proof fn lemma_pow10_38_fits()
    ensures
        pow10(38) < u128::MAX,
{
    reveal_with_fuel(pow10, 40);
    assert(pow10(38) == 100_000_000_000_000_000_000_000_000_000_000_000_000);
}

pub proof fn lemma_pow10_9()
    ensures
        pow10(9) == 1_000_000_000,
{
    reveal_with_fuel(pow10, 10);
}

pub proof fn lemma_pow10_increases(a: nat, b: nat)
    requires
        a <= b,
    ensures
        pow10(a) <= pow10(b),
    decreases b,
{
    if a < b {
        lemma_pow10_increases(a, (b - 1) as nat);
        lemma_pow10_positive((b - 1) as nat);
    }
}

/// The USD value (6 implied decimals) of `gor_amount` smallest units of
/// collateral priced at `gor_price_usd` (6 implied decimals), where one whole
/// collateral unit is `10^gor_decimals` smallest units. Division truncates
/// toward zero.
pub open spec fn usd_value(gor_amount: u64, gor_price_usd: u64, gor_decimals: u8) -> int {
    (gor_amount * gor_price_usd) / (pow10(gor_decimals as nat) as int)
}

/// `10^n` as a `u128`, for any exponent whose power fits.
fn pow10_u128(n: u8) -> (r: u128)
    requires
        n <= 38,
    ensures
        r == pow10(n as nat),
{
    let mut r: u128 = 1;
    let mut i: u8 = 0;
    while i < n
        invariant
            i <= n,
            n <= 38,
            r == pow10(i as nat),
        decreases n - i,
    {
        proof {
            lemma_pow10_increases((i + 1) as nat, 38);
            lemma_pow10_38_fits();
        }
        r = r * 10;
        i = i + 1;
    }
    r
}

/// Calculate the USD value of a GOR amount, failing with `MathOverflow` when
/// the value does not fit the native unsigned width. The intermediate product
/// is taken at 128 bits, so the multiplication itself cannot overflow.
pub fn calculate_usd_value(gor_amount: u64, gor_price_usd: u64, gor_decimals: u8) -> (r: Result<
    u64,
    GusdError,
>)
    requires
        gor_decimals <= 38,
    ensures
        usd_value(gor_amount, gor_price_usd, gor_decimals) <= u64::MAX ==> (r matches Ok(v) && v
            == usd_value(gor_amount, gor_price_usd, gor_decimals)),
        usd_value(gor_amount, gor_price_usd, gor_decimals) > u64::MAX ==> r == Err::<
            u64,
            GusdError,
        >(GusdError::MathOverflow),
{
    let divisor: u128 = pow10_u128(gor_decimals);
    proof {
        lemma_pow10_positive(gor_decimals as nat);
        assert((gor_amount as int) * (gor_price_usd as int) < u128::MAX) by (nonlinear_arith)
            requires
                gor_amount <= 0xffff_ffff_ffff_ffffu64,
                gor_price_usd <= 0xffff_ffff_ffff_ffffu64,
        ;
    }
    let value: u128 = ((gor_amount as u128) * (gor_price_usd as u128)) / divisor;
    if value > u64::MAX as u128 {
        Err(GusdError::MathOverflow)
    } else {
        Ok(value as u64)
    }
}

} // verus!
