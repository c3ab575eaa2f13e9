use vstd::prelude::*;
use crate::types::{BPS_DENOMINATOR, MAX_VOLUME_DISCOUNT_BPS};

verus! {

/// `x + y` clamped to the range of `i128`.
pub open spec fn spec_sat_add(x: int, y: int) -> int {
    if x + y > i128::MAX {
        i128::MAX as int
    } else if x + y < i128::MIN {
        i128::MIN as int
    } else {
        x + y
    }
}

/// Adds two `i128` values, saturating at the bounds of the type.
pub fn saturating_add_i128(x: i128, y: i128) -> (r: i128)
    ensures
        r == spec_sat_add(x as int, y as int),
{
    match x.checked_add(y) {
        Some(s) => s,
        None => if y > 0 {
            i128::MAX
        } else {
            i128::MIN
        },
    }
}

/// The fee of `fee_bps` basis points on `amount`, rounded down and capped at
/// `i128::MAX`; zero for a non-positive amount or a zero rate.
pub open spec fn spec_fee_bps(amount: int, fee_bps: int) -> int {
    if amount <= 0 || fee_bps == 0 {
        0
    } else if amount * fee_bps / 10_000 > i128::MAX {
        i128::MAX as int
    } else {
        amount * fee_bps / 10_000
    }
}

proof fn lemma_split_fee(amount: int, fee_bps: int)
    requires
        amount > 0,
        fee_bps > 0,
    ensures
        (amount / 10_000) * fee_bps + ((amount % 10_000) * fee_bps) / 10_000
            == amount * fee_bps / 10_000,
        0 <= ((amount % 10_000) * fee_bps) / 10_000,
        0 <= (amount / 10_000) * fee_bps,
{
    let q = amount / 10_000;
    let r = amount % 10_000;
    assert(amount == q * 10_000 + r && 0 <= r < 10_000 && q >= 0) by (nonlinear_arith)
        requires
            q == amount / 10_000,
            r == amount % 10_000,
            amount > 0,
    ;
    assert(amount * fee_bps == (q * fee_bps) * 10_000 + r * fee_bps) by (nonlinear_arith)
        requires
            amount == q * 10_000 + r,
    ;
    assert(0 <= r * fee_bps) by (nonlinear_arith)
        requires
            0 <= r,
            fee_bps > 0,
    ;
    assert(0 <= q * fee_bps) by (nonlinear_arith)
        requires
            0 <= q,
            fee_bps > 0,
    ;
    assert(((q * fee_bps) * 10_000 + r * fee_bps) / 10_000 == q * fee_bps + (r * fee_bps) / 10_000)
        by {
        vstd::arithmetic::div_mod::lemma_fundamental_div_mod_converse(
            (q * fee_bps) * 10_000 + r * fee_bps,
            10_000,
            q * fee_bps + (r * fee_bps) / 10_000,
            (r * fee_bps) % 10_000,
        );
        vstd::arithmetic::div_mod::lemma_fundamental_div_mod(r * fee_bps, 10_000);
    }
    assert(0 <= (r * fee_bps) / 10_000) by (nonlinear_arith)
        requires
            0 <= r * fee_bps,
    ;
}

/// The fee of `fee_bps` basis points on `amount`, computed without
/// overflow: the amount is split into whole multiples of 10 000 and a
/// remainder, so no intermediate product exceeds the type.
pub fn calculate_fee_bps_safe(amount: i128, fee_bps: u32) -> (fee: i128)
    ensures
        fee == spec_fee_bps(amount as int, fee_bps as int),
{
    if amount <= 0 || fee_bps == 0 {
        return 0;
    }
    let quotient = amount / BPS_DENOMINATOR;
    let remainder = amount % BPS_DENOMINATOR;
    proof {
        lemma_split_fee(amount as int, fee_bps as int);
        assert(0 <= remainder < 10_000);
        assert(remainder * fee_bps <= 10_000 * 0xffff_ffff) by (nonlinear_arith)
            requires
                0 <= remainder < 10_000,
                fee_bps <= 0xffff_ffff,
        ;
    }
    let bps = fee_bps as i128;
    let whole = match quotient.checked_mul(bps) {
        Some(p) => p,
        None => i128::MAX,
    };
    let part = (remainder * bps) / BPS_DENOMINATOR;
    saturating_add_i128(whole, part)
}

/// The fee after the configured bounds: at least `min_fee`, at most
/// `max_fee` when that is positive, and never more than the amount.
pub open spec fn spec_capped_fee(raw: int, min_fee: int, max_fee: int, amount: int) -> int {
    let a = if raw < min_fee {
        min_fee
    } else {
        raw
    };
    let b = if max_fee > 0 && a > max_fee {
        max_fee
    } else {
        a
    };
    if b > amount {
        amount
    } else {
        b
    }
}

/// Applies the minimum, the maximum (when positive) and the amount as bounds
/// to a raw fee.
pub fn cap_fee(raw: i128, min_fee: i128, max_fee: i128, amount: i128) -> (fee: i128)
    ensures
        fee == spec_capped_fee(raw as int, min_fee as int, max_fee as int, amount as int),
{
    let mut fee = raw;
    if fee < min_fee {
        fee = min_fee;
    }
    if max_fee > 0 && fee > max_fee {
        fee = max_fee;
    }
    if fee > amount {
        fee = amount;
    }
    fee
}

/// The rate after a volume discount, which is capped at
/// `MAX_VOLUME_DISCOUNT_BPS` and cannot take the rate below zero.
pub open spec fn spec_discounted_bps(effective_bps: u32, discount_bps: u32) -> u32 {
    let d = if discount_bps < MAX_VOLUME_DISCOUNT_BPS {
        discount_bps
    } else {
        MAX_VOLUME_DISCOUNT_BPS
    };
    if effective_bps >= d {
        (effective_bps - d) as u32
    } else {
        0
    }
}

/// The fee charged when an escrow is released: nothing for a whitelisted
/// buyer; otherwise the discounted rate applied to the amount, then bounded
/// by the caps and by the amount.
pub open spec fn spec_release_fee(
    amount: i128,
    whitelisted: bool,
    effective_bps: u32,
    discount_bps: u32,
    min_fee: i128,
    max_fee: i128,
) -> int {
    if whitelisted {
        0
    } else {
        spec_capped_fee(
            spec_fee_bps(amount as int, spec_discounted_bps(effective_bps, discount_bps) as int),
            min_fee as int,
            max_fee as int,
            amount as int,
        )
    }
}

/// Computes the fee charged when an escrow is released.
pub fn release_fee(
    amount: i128,
    whitelisted: bool,
    effective_bps: u32,
    discount_bps: u32,
    min_fee: i128,
    max_fee: i128,
) -> (fee: i128)
    ensures
        fee == spec_release_fee(amount, whitelisted, effective_bps, discount_bps, min_fee, max_fee),
{
    if whitelisted {
        return 0;
    }
    let actual_discount = if discount_bps < MAX_VOLUME_DISCOUNT_BPS {
        discount_bps
    } else {
        MAX_VOLUME_DISCOUNT_BPS
    };
    let discounted = effective_bps.saturating_sub(actual_discount);
    let raw = calculate_fee_bps_safe(amount, discounted);
    cap_fee(raw, min_fee, max_fee, amount)
}

} // verus!
