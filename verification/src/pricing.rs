//! Fee and price arithmetic, in integers wide enough that nothing wraps.

use vstd::prelude::*;

verus! {

/// Basis points in one whole: a rate of `BPS_DENOMINATOR` is 100%.
pub const BPS_DENOMINATOR: u64 = 10_000;

/// The fee on `amount` at `fee_bps` basis points, rounded down.
pub open spec fn fee_of(amount: int, fee_bps: int) -> int {
    amount * fee_bps / (BPS_DENOMINATOR as int)
}

/// What a fill of `fill_b` takes from the A leg at the price fixed by the
/// original amounts, rounded down.
pub open spec fn take_of(original_a: int, original_b: int, fill_b: int) -> int {
    original_a * fill_b / original_b
}

/// The product of two 64-bit values fits in 128 bits.
pub proof fn lemma_product_fits(x: int, y: int)
    requires
        0 <= x <= u64::MAX,
        0 <= y <= u64::MAX,
    ensures
        0 <= x * y <= u128::MAX,
{
    assert(0 <= x * y <= 0xffff_ffff_ffff_ffff * 0xffff_ffff_ffff_ffff) by (nonlinear_arith)
        requires
            0 <= x <= 0xffff_ffff_ffff_ffff,
            0 <= y <= 0xffff_ffff_ffff_ffff,
    ;
}

/// At a rate of at most 100% the fee is between nothing and the whole amount.
pub proof fn lemma_fee_within_amount(amount: int, fee_bps: int)
    requires
        0 <= amount,
        0 <= fee_bps <= 10_000,
    ensures
        0 <= fee_of(amount, fee_bps) <= amount,
{
    assert(0 <= amount * fee_bps <= amount * 10_000) by (nonlinear_arith)
        requires
            0 <= amount,
            0 <= fee_bps <= 10_000,
    ;
}

/// A fill of at most the original B leg takes at most the original A leg.
pub proof fn lemma_take_within_original(original_a: int, original_b: int, fill_b: int)
    requires
        0 <= original_a,
        0 <= fill_b <= original_b,
        0 < original_b,
    ensures
        0 <= take_of(original_a, original_b, fill_b) <= original_a,
{
    assert(0 <= original_a * fill_b / original_b <= original_a) by (nonlinear_arith)
        requires
            0 <= original_a,
            0 <= fill_b <= original_b,
            0 < original_b,
    ;
}

/// Where what is left of the two legs is in exactly the original ratio,
/// filling all that is left of the B leg takes all that is left of the A leg.
pub proof fn lemma_take_of_the_rest(original_a: int, original_b: int, amount_a: int, amount_b: int)
    requires
        0 < original_b,
        original_a * amount_b == amount_a * original_b,
    ensures
        take_of(original_a, original_b, amount_b) == amount_a,
{
    assert(amount_a * original_b / original_b == amount_a) by (nonlinear_arith)
        requires
            0 < original_b,
    ;
}

/// Where both legs started equal, a fill takes its own size from the A leg.
pub proof fn lemma_take_at_par(original: int, fill_b: int)
    requires
        0 < original,
    ensures
        take_of(original, original, fill_b) == fill_b,
{
    assert(original * fill_b / original == fill_b) by (nonlinear_arith)
        requires
            0 < original,
    ;
}

/// The fee on `amount` at `fee_bps` basis points; `None` where the fee would
/// exceed the amount it is charged on.
pub fn fee_amount(amount: u64, fee_bps: u16) -> (fee: Option<u64>)
    ensures
        match fee {
            Some(f) => f == fee_of(amount as int, fee_bps as int) && f <= amount,
            None => fee_of(amount as int, fee_bps as int) > amount,
        },
{
    proof {
        lemma_product_fits(amount as int, fee_bps as int);
    }
    let wide: u128 = (amount as u128) * (fee_bps as u128) / (BPS_DENOMINATOR as u128);
    if wide > amount as u128 {
        None
    } else {
        Some(wide as u64)
    }
}

/// What a fill of `fill_b` takes from the A leg; `None` where the price is
/// undefined because the original B leg is zero.
pub fn take_amount(original_a: u64, original_b: u64, fill_b: u64) -> (take: Option<u128>)
    ensures
        match take {
            Some(t) => original_b > 0 && t == take_of(
                original_a as int,
                original_b as int,
                fill_b as int,
            ),
            None => original_b == 0,
        },
{
    if original_b == 0 {
        return None;
    }
    proof {
        lemma_product_fits(original_a as int, fill_b as int);
    }
    let wide: u128 = (original_a as u128) * (fill_b as u128) / (original_b as u128);
    Some(wide)
}

} // verus!
