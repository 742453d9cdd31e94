//! Fees, the discount, and where the tokens go.

use vstd::prelude::*;

use crate::address::Address;
use crate::fees::{discounted_bps, fee_on, quotient};
use crate::ledger::{Account, HostCall, Instance};
use crate::router::PaymentRouter;
use crate::routing::{payment_calls, payment_fee, payment_result, FeeTerms};
use crate::types::{Halt, Payment};

verus! {

/// A fee is never more than the rate's share of the amount, than the cap or than the amount, and
/// it is one of the three. Where rate, cap and amount are not negative neither is the fee, and it
/// is at most the exact share, before rounding.
pub proof fn law_fee_is_bounded(amount: int, bps: int, fee_cap: int)
    ensures
        ({
            let fee = fee_on(amount, bps, fee_cap);
            let share = quotient(amount * bps, PaymentRouter::BPS_DIVISOR as int);
            &&& fee <= share && fee <= fee_cap && fee <= amount
            &&& fee == share || fee == fee_cap || fee == amount
        }),
        0 <= amount && 0 <= bps && 0 <= fee_cap ==> {
            &&& 0 <= fee_on(amount, bps, fee_cap)
            &&& fee_on(amount, bps, fee_cap) * PaymentRouter::BPS_DIVISOR <= amount * bps
        },
{
    if 0 <= amount && 0 <= bps {
        assert(0 <= amount * bps) by (nonlinear_arith)
            requires
                0 <= amount,
                0 <= bps,
        ;
    }
}

/// The discount halves the rate of senders whose volume is above the threshold, rounding towards
/// zero, and leaves the others'; a rate that is not negative never grows by it.
pub proof fn law_discount_halves(fee_bps: int, volume: int)
    ensures
        volume <= PaymentRouter::VOLUME_THRESHOLD ==> discounted_bps(fee_bps, volume) == fee_bps,
        volume > PaymentRouter::VOLUME_THRESHOLD && 0 <= fee_bps ==> {
            &&& 2 * discounted_bps(fee_bps, volume) <= fee_bps
            &&& fee_bps <= 2 * discounted_bps(fee_bps, volume) + 1
        },
        0 <= fee_bps ==> 0 <= discounted_bps(fee_bps, volume) <= fee_bps,
{
}

/// No payment costs a sender more fee after the discount than before it, unless the full rate's
/// share of the amount is negative and the fee itself: halving such a fee raises it.
pub proof fn law_discount_never_costs(amount: int, fee_bps: int, fee_cap: int, volume: int)
    requires
        0 <= amount,
        ({
            let share = quotient(amount * fee_bps, PaymentRouter::BPS_DIVISOR as int);
            volume <= PaymentRouter::VOLUME_THRESHOLD || 0 <= share || fee_cap <= share
        }),
    ensures
        fee_on(amount, discounted_bps(fee_bps, volume), fee_cap) <= fee_on(
            amount,
            fee_bps,
            fee_cap,
        ),
{
    let bps = discounted_bps(fee_bps, volume);
    if 0 <= fee_bps {
        assert(0 <= amount * bps <= amount * fee_bps) by (nonlinear_arith)
            requires
                0 <= amount,
                0 <= bps <= fee_bps,
        ;
    } else {
        assert(amount * fee_bps <= amount * bps <= 0) by (nonlinear_arith)
            requires
                0 <= amount,
                fee_bps <= bps <= 0,
        ;
    }
}

/// What the first `n` calls move of `token` from one address to another.
pub open spec fn moved(calls: Seq<HostCall>, token: Address, from: Address, to: Address, n: nat) -> int
    decreases n,
{
    if n == 0 {
        0
    } else {
        moved(calls, token, from, to, (n - 1) as nat) + match calls[n - 1] {
            HostCall::Transfer { token: t, from: f, to: r, amount } => if t == token && f == from
                && r == to {
                amount as int
            } else {
                0
            },
            _ => 0,
        }
    }
}

/// What the first `n` calls move of `token` away from an address.
pub open spec fn moved_away(calls: Seq<HostCall>, token: Address, from: Address, n: nat) -> int
    decreases n,
{
    if n == 0 {
        0
    } else {
        moved_away(calls, token, from, (n - 1) as nat) + match calls[n - 1] {
            HostCall::Transfer { token: t, from: f, to: _, amount } => if t == token && f == from {
                amount as int
            } else {
                0
            },
            _ => 0,
        }
    }
}

/// What the first `n` calls add to the balance that `holder` has of `token`: what is transferred
/// to it, less what is transferred away from it.
pub open spec fn balance_change(calls: Seq<HostCall>, token: Address, holder: Address, n: nat) -> int
    decreases n,
{
    if n == 0 {
        0
    } else {
        balance_change(calls, token, holder, (n - 1) as nat) + match calls[n - 1] {
            HostCall::Transfer { token: t, from, to, amount } => if t == token {
                (if to == holder {
                    amount as int
                } else {
                    0
                }) - (if from == holder {
                    amount as int
                } else {
                    0
                })
            } else {
                0
            },
            _ => 0,
        }
    }
}

/// A payment that is carried through takes exactly its amount from the sender: the fee goes to
/// the treasury and the rest to the recipient, and nobody else's balance changes. This holds of
/// every fee that is not negative.
pub proof fn law_payment_conserves_tokens(
    instance: Instance,
    now: u64,
    payment: Payment,
    terms: FeeTerms,
    sender: Account,
    recipient: Account,
    balance: i128,
)
    requires
        payment_result(instance, now, payment, terms, sender, recipient, balance) is Ok,
        0 <= payment_fee(payment, terms, sender),
    ensures
        ({
            let calls = payment_calls(instance, now, payment, terms, sender, recipient, balance);
            let fee = payment_fee(payment, terms, sender);
            let token = payment.token_address;
            &&& 0 <= fee <= payment.amount <= balance
            &&& moved_away(calls, token, payment.sender, calls.len()) == payment.amount
            &&& terms.platform_treasury == payment.recipient ==> moved(
                calls,
                token,
                payment.sender,
                payment.recipient,
                calls.len(),
            ) == payment.amount
            &&& terms.platform_treasury != payment.recipient ==> {
                &&& moved(
                    calls,
                    token,
                    payment.sender,
                    terms.platform_treasury,
                    calls.len(),
                ) == fee
                &&& moved(calls, token, payment.sender, payment.recipient, calls.len())
                    == payment.amount - fee
            }
            &&& forall|holder: Address| #[trigger]
                balance_change(calls, token, holder, calls.len()) == (if holder
                    == terms.platform_treasury {
                    fee
                } else {
                    0
                }) + (if holder == payment.recipient {
                    payment.amount - fee
                } else {
                    0
                }) - (if holder == payment.sender {
                    payment.amount as int
                } else {
                    0
                })
        }),
{
    reveal_with_fuel(moved, 10);
    reveal_with_fuel(moved_away, 10);
    reveal_with_fuel(balance_change, 10);
}

/// A payment begins with the sender's authorization and moves tokens of the named token contract
/// alone, out of the sender's holdings alone, to the treasury and to the recipient alone.
pub proof fn law_payment_moves_only_the_senders_tokens(
    instance: Instance,
    now: u64,
    payment: Payment,
    terms: FeeTerms,
    sender: Account,
    recipient: Account,
    balance: i128,
)
    ensures
        ({
            let calls = payment_calls(instance, now, payment, terms, sender, recipient, balance);
            &&& calls.len() > 0
            &&& calls[0] == HostCall::RequireAuth(payment.sender)
            &&& forall|i: int|
                #![trigger calls[i]]
                0 <= i < calls.len() ==> match calls[i] {
                    HostCall::Transfer { token, from, to, amount } => {
                        &&& token == payment.token_address
                        &&& from == payment.sender
                        &&& to == terms.platform_treasury || to == payment.recipient
                        &&& amount > 0
                    },
                    _ => true,
                }
        }),
{
}

/// A payment that is refused has moved no token.
pub proof fn law_refused_payment_moves_nothing(
    instance: Instance,
    now: u64,
    payment: Payment,
    terms: FeeTerms,
    sender: Account,
    recipient: Account,
    balance: i128,
    i: int,
)
    requires
        payment_result(instance, now, payment, terms, sender, recipient, balance) matches Err(
            Halt::Refused(_),
        ),
        0 <= i < payment_calls(
            instance,
            now,
            payment,
            terms,
            sender,
            recipient,
            balance,
        ).len(),
    ensures
        !(payment_calls(instance, now, payment, terms, sender, recipient, balance)[i] is Transfer),
{
}

} // verus!
