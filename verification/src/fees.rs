//! How an amount is split: the platform fee of a release, and the shares of a
//! settled dispute.

use vstd::prelude::*;

use crate::error::EscrowError;

verus! {

/// Maximum configurable fee: 10% = 1 000 basis points.
pub const MAX_FEE_BPS: u32 = 1_000;

/// The number of basis points in the whole.
pub const BPS_SCALE: i128 = 10_000;

/// Division that rounds towards zero.
pub open spec fn quotient(dividend: int, divisor: int) -> int {
    if dividend >= 0 {
        dividend / divisor
    } else {
        -((-dividend) / divisor)
    }
}

/// Whether `value` is a token amount.
pub open spec fn fits(value: int) -> bool {
    i128::MIN <= value <= i128::MAX
}

/// The platform fee on `amount` at `fee_bps` basis points, rounded towards zero.
pub open spec fn platform_fee(amount: int, fee_bps: int) -> int {
    quotient(amount * fee_bps, BPS_SCALE as int)
}

/// What is left of `amount` after the platform fee.
pub open spec fn net_amount(amount: int, fee_bps: int) -> int {
    amount - platform_fee(amount, fee_bps)
}

/// The mentor's share of `amount` at `mentor_pct` percent, rounded towards zero.
pub open spec fn mentor_share(amount: int, mentor_pct: int) -> int {
    quotient(amount * mentor_pct, 100)
}

/// The learner's share: all that the mentor does not get.
pub open spec fn learner_share(amount: int, mentor_pct: int) -> int {
    amount - mentor_share(amount, mentor_pct)
}

/// Where the product of amount and rate is a token amount, so are the platform
/// fee and what is left after it.
proof fn lemma_fee_fits(amount: i128, fee_bps: u32)
    requires
        fits(amount * fee_bps),
    ensures
        fits(platform_fee(amount as int, fee_bps as int)),
        fits(net_amount(amount as int, fee_bps as int)),
{
    let product = amount * fee_bps;
    if amount >= 0 {
        assert(product >= 0) by (nonlinear_arith)
            requires
                product == amount * fee_bps,
                amount >= 0,
                fee_bps >= 0,
        ;
    } else {
        assert(product <= 0) by (nonlinear_arith)
            requires
                product == amount * fee_bps,
                amount <= 0,
                fee_bps >= 0,
        ;
    }
}

/// Splits `amount` into the platform fee at `fee_bps` basis points and what is
/// left after it.
pub fn split_fee(amount: i128, fee_bps: u32) -> (split: Result<(i128, i128), EscrowError>)
    ensures
        match split {
            Ok((fee, net)) => {
                &&& fits(amount * fee_bps)
                &&& fee == platform_fee(amount as int, fee_bps as int)
                &&& net == net_amount(amount as int, fee_bps as int)
            },
            Err(error) => !fits(amount * fee_bps) && error == EscrowError::Overflow,
        },
{
    match amount.checked_mul(fee_bps as i128) {
        None => Err(EscrowError::Overflow),
        Some(product) => {
            proof {
                lemma_fee_fits(amount, fee_bps);
            }
            match product.checked_div(BPS_SCALE) {
                None => Err(EscrowError::Overflow),
                Some(fee) => Ok((fee, amount - fee)),
            }
        },
    }
}

/// Dividing the hundreds and the rest apart gives the mentor's share.
proof fn lemma_share_by_parts(amount: int, hundreds: int, rest: int, mentor_pct: int)
    requires
        amount == 100 * hundreds + rest,
        0 <= mentor_pct <= 100,
        amount >= 0 ==> hundreds >= 0 && 0 <= rest < 100,
        amount < 0 ==> hundreds <= 0 && -100 < rest <= 0,
    ensures
        mentor_share(amount, mentor_pct) == hundreds * mentor_pct + quotient(
            rest * mentor_pct,
            100,
        ),
        amount >= 0 ==> {
            &&& 0 <= hundreds * mentor_pct <= 100 * hundreds
            &&& 0 <= rest * mentor_pct <= 100 * rest
        },
        amount < 0 ==> {
            &&& 100 * hundreds <= hundreds * mentor_pct <= 0
            &&& 100 * rest <= rest * mentor_pct <= 0
        },
{
    assert(amount * mentor_pct == 100 * (hundreds * mentor_pct) + rest * mentor_pct)
        by (nonlinear_arith)
        requires
            amount == 100 * hundreds + rest,
    ;
    if amount >= 0 {
        assert(0 <= hundreds * mentor_pct <= 100 * hundreds && 0 <= rest * mentor_pct <= 100
            * rest) by (nonlinear_arith)
            requires
                hundreds >= 0,
                rest >= 0,
                0 <= mentor_pct <= 100,
        ;
    } else {
        assert(100 * hundreds <= hundreds * mentor_pct <= 0 && 100 * rest <= rest * mentor_pct <= 0)
            by (nonlinear_arith)
            requires
                hundreds <= 0,
                rest <= 0,
                0 <= mentor_pct <= 100,
        ;
    }
}

/// Splits `amount` into the mentor's share at `mentor_pct` percent and the
/// learner's share. Nothing is kept back.
pub fn split_dispute(amount: i128, mentor_pct: u32) -> (shares: (i128, i128))
    requires
        mentor_pct <= 100,
    ensures
        shares.0 == mentor_share(amount as int, mentor_pct as int),
        shares.1 == learner_share(amount as int, mentor_pct as int),
        shares.0 + shares.1 == amount,
        mentor_pct == 0 ==> shares == (0i128, amount),
        mentor_pct == 50 ==> shares.0 == quotient(amount as int, 2),
        mentor_pct == 100 ==> shares == (amount, 0i128),
        amount >= 0 ==> 0 <= shares.0 <= amount && 0 <= shares.1 <= amount,
{
    let pct: i128 = mentor_pct as i128;
    let hundreds: i128 = amount / 100;
    let rest: i128 = amount % 100;
    proof {
        lemma_share_by_parts(amount as int, hundreds as int, rest as int, pct as int);
        assert(pct == 0 ==> amount * pct == 0) by (nonlinear_arith);
        assert(pct == 50 ==> amount * pct == 50 * amount) by (nonlinear_arith);
        assert(pct == 100 ==> amount * pct == 100 * amount) by (nonlinear_arith);
    }
    let mentor: i128 = hundreds * pct + (rest * pct) / 100;
    (mentor, amount - mentor)
}

} // verus!
