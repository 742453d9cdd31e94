//! The platform fee: the rate a sender is charged, and what an amount is divided into.

use vstd::prelude::*;

use crate::laws::payments::is_share;
use crate::router::PaymentRouter;

verus! {

/// Quotient rounded towards zero, for a positive divisor.
pub open spec fn quotient(n: int, d: int) -> int {
    if n >= 0 {
        n / d
    } else {
        -((-n) / d)
    }
}

/// The smaller of two numbers.
pub open spec fn min(a: int, b: int) -> int {
    if a <= b {
        a
    } else {
        b
    }
}

/// The fee rate of a sender who has routed `volume` so far: half of `fee_bps` above the
/// threshold, all of it up to there.
pub open spec fn discounted_bps(fee_bps: int, volume: int) -> int {
    if volume > PaymentRouter::VOLUME_THRESHOLD {
        quotient(fee_bps, 2)
    } else {
        fee_bps
    }
}

/// The fee on `amount` at a rate of `bps`: its share of the amount, but never more than the cap
/// nor than the amount itself.
pub open spec fn fee_on(amount: int, bps: int, fee_cap: int) -> int {
    min(min(quotient(amount * bps, PaymentRouter::BPS_DIVISOR as int), fee_cap), amount)
}

/// Whether a number can be held in 128 bits, with a sign.
pub open spec fn fits(n: int) -> bool {
    i128::MIN <= n <= i128::MAX
}

/// Whether fee and remainder can be worked out in 128 bits.
pub open spec fn splits(amount: int, bps: int, fee_cap: int) -> bool {
    fits(amount * bps) && fits(amount - fee_on(amount, bps, fee_cap))
}

/// What a payment is divided into.
#[derive(Clone, Copy, Debug, PartialEq, Eq, Structural)]
pub struct Split {
    /// Goes to the platform treasury.
    pub fee: i128,
    /// Goes to the recipient.
    pub remainder: i128,
}

/// The fee rate after the volume discount.
pub fn effective_fee_bps(fee_bps: i128, volume: i128) -> (bps: i128)
    ensures
        bps == discounted_bps(fee_bps as int, volume as int),
        volume <= 100_000_000_000 ==> bps == fee_bps,
        volume > 100_000_000_000 && fee_bps >= 0 ==> 2 * bps <= fee_bps <= 2 * bps + 1,
        volume > 100_000_000_000 && fee_bps < 0 ==> 2 * bps - 1 <= fee_bps <= 2 * bps,
{
    if volume > PaymentRouter::VOLUME_THRESHOLD {
        fee_bps / 2
    } else {
        fee_bps
    }
}

/// Divides an amount into fee and remainder; `None` where the arithmetic overflows.
pub fn split_amount(amount: i128, bps: i128, fee_cap: i128) -> (split: Option<Split>)
    ensures
        split is Some <==> splits(amount as int, bps as int, fee_cap as int),
        split matches Some(s) ==> s.fee == fee_on(amount as int, bps as int, fee_cap as int)
            && s.remainder == amount - s.fee,
        split matches Some(s) ==> s.fee <= fee_cap && s.fee <= amount && (s.fee == fee_cap || s.fee
            == amount || is_share(amount as int, bps as int, s.fee as int)),
{
    match amount.checked_mul(bps) {
        None => None,
        Some(product) => {
            let mut fee: i128 = product / PaymentRouter::BPS_DIVISOR;
            if fee > fee_cap {
                fee = fee_cap;
            }
            if fee > amount {
                fee = amount;
            }
            match amount.checked_sub(fee) {
                None => None,
                Some(remainder) => Some(Split { fee, remainder }),
            }
        },
    }
}

} // verus!
