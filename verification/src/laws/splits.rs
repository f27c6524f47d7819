//! How amounts are split.

use vstd::prelude::*;

use crate::fees::MAX_FEE_BPS;

verus! {

/// A release is split without loss: the fee and what the mentor gets make up the
/// amount, neither is negative, and the fee is at most a tenth of the amount.
pub proof fn fee_split(amount: int, fee_bps: int)
    requires
        amount >= 0,
        0 <= fee_bps <= MAX_FEE_BPS,
    ensures
        crate::fees::platform_fee(amount, fee_bps) + crate::fees::net_amount(amount, fee_bps)
            == amount,
        crate::fees::platform_fee(amount, fee_bps) == (amount * fee_bps) / 10_000,
        0 <= crate::fees::platform_fee(amount, fee_bps) <= amount / 10,
        0 <= crate::fees::net_amount(amount, fee_bps) <= amount,
{
    assert(0 <= amount * fee_bps <= amount * 1_000) by (nonlinear_arith)
        requires
            amount >= 0,
            0 <= fee_bps <= 1_000,
    ;
}

/// Releasing an amount in two parts never costs more in fees than releasing it
/// at once, and saves one unit at most.
pub proof fn fee_of_parts(first: int, second: int, fee_bps: int)
    requires
        first >= 0,
        second >= 0,
        fee_bps >= 0,
    ensures
        ({
            let parts = crate::fees::platform_fee(first, fee_bps) + crate::fees::platform_fee(
                second,
                fee_bps,
            );
            parts <= crate::fees::platform_fee(first + second, fee_bps) <= parts + 1
        }),
{
    assert((first + second) * fee_bps == first * fee_bps + second * fee_bps) by (nonlinear_arith);
    assert(first * fee_bps >= 0) by (nonlinear_arith)
        requires
            first >= 0,
            fee_bps >= 0,
    ;
    assert(second * fee_bps >= 0) by (nonlinear_arith)
        requires
            second >= 0,
            fee_bps >= 0,
    ;
}

/// A higher rate never lowers the fee, nor does a higher amount.
pub proof fn fee_is_monotonic(low: int, high: int, low_bps: int, high_bps: int)
    requires
        0 <= low <= high,
        0 <= low_bps <= high_bps,
    ensures
        crate::fees::platform_fee(low, low_bps) <= crate::fees::platform_fee(high, high_bps),
{
    assert(0 <= low * low_bps <= high * high_bps) by (nonlinear_arith)
        requires
            0 <= low <= high,
            0 <= low_bps <= high_bps,
    ;
}

/// A settled dispute is split without loss and without a fee: the shares make up
/// the amount and neither is negative. At 100 percent the mentor gets all of it,
/// at 0 percent the learner does, and at 50 percent each gets half, the odd unit
/// going to the learner.
pub proof fn dispute_split(amount: int, mentor_pct: int)
    requires
        amount >= 0,
        0 <= mentor_pct <= 100,
    ensures
        crate::fees::mentor_share(amount, mentor_pct) == (amount * mentor_pct) / 100,
        crate::fees::mentor_share(amount, mentor_pct) + crate::fees::learner_share(
            amount,
            mentor_pct,
        ) == amount,
        0 <= crate::fees::mentor_share(amount, mentor_pct) <= amount,
        0 <= crate::fees::learner_share(amount, mentor_pct) <= amount,
        crate::fees::mentor_share(amount, 0) == 0,
        crate::fees::mentor_share(amount, 50) == amount / 2,
        crate::fees::mentor_share(amount, 100) == amount,
{
    assert(0 <= amount * mentor_pct <= amount * 100) by (nonlinear_arith)
        requires
            amount >= 0,
            0 <= mentor_pct <= 100,
    ;
}

/// The fee is the product of amount and rate over 10 000, cut off towards zero,
/// for every amount and every rate; of an amount below zero it is the fee of its
/// opposite, below zero.
pub proof fn fee_is_cut_off(amount: int, fee_bps: int)
    requires
        fee_bps >= 0,
    ensures
        ({
            let fee = crate::fees::platform_fee(amount, fee_bps);
            let product = amount * fee_bps;
            &&& amount >= 0 ==> fee >= 0 && 10_000 * fee <= product < 10_000 * (fee + 1)
            &&& amount <= 0 ==> fee <= 0 && 10_000 * (fee - 1) < product <= 10_000 * fee
            &&& crate::fees::platform_fee(-amount, fee_bps) == -fee
            &&& crate::fees::net_amount(amount, fee_bps) == amount - fee
        }),
{
    assert((-amount) * fee_bps == -(amount * fee_bps)) by (nonlinear_arith);
    if amount >= 0 {
        assert(amount * fee_bps >= 0) by (nonlinear_arith)
            requires
                amount >= 0,
                fee_bps >= 0,
        ;
    } else {
        assert(amount * fee_bps <= 0) by (nonlinear_arith)
            requires
                amount <= 0,
                fee_bps >= 0,
        ;
    }
}

/// The mentor's share is the product of amount and percentage over 100, cut off
/// towards zero; of an amount below zero it is the share of its opposite, below
/// zero. The learner's share is the rest.
pub proof fn share_is_cut_off(amount: int, mentor_pct: int)
    requires
        mentor_pct >= 0,
    ensures
        ({
            let share = crate::fees::mentor_share(amount, mentor_pct);
            let product = amount * mentor_pct;
            &&& amount >= 0 ==> share >= 0 && 100 * share <= product < 100 * (share + 1)
            &&& amount <= 0 ==> share <= 0 && 100 * (share - 1) < product <= 100 * share
            &&& crate::fees::mentor_share(-amount, mentor_pct) == -share
            &&& crate::fees::learner_share(amount, mentor_pct) == amount - share
        }),
{
    assert((-amount) * mentor_pct == -(amount * mentor_pct)) by (nonlinear_arith);
    if amount >= 0 {
        assert(amount * mentor_pct >= 0) by (nonlinear_arith)
            requires
                amount >= 0,
                mentor_pct >= 0,
        ;
    } else {
        assert(amount * mentor_pct <= 0) by (nonlinear_arith)
            requires
                amount <= 0,
                mentor_pct >= 0,
        ;
    }
}

/// A fee can be computed exactly where the product of amount and rate is a token
/// amount.
pub proof fn computable_fee_fits(amount: i128, fee_bps: u32)
    ensures
        crate::fees::fits(amount * fee_bps) <==> -0x8000_0000_0000_0000_0000_0000_0000_0000int
            <= amount * fee_bps <= 0x7fff_ffff_ffff_ffff_ffff_ffff_ffff_ffffint,
{
}

} // verus!
