//! What one payment comes to, by its inputs alone: who is refused and why, what is charged, what
//! moves and what is recorded.

use vstd::prelude::*;

use crate::laws::fees::moved;
use crate::laws::limits::{clock_holds, law_spending_granted, routed_before, window_opened};
use crate::ledger::{Account, Event, HostCall, Instance, StoredValue};
use crate::routing::{
    admission, payment_calls, payment_fee, payment_result, sender_after, sender_bps, FeeTerms,
};
use crate::types::{DataKey, Error, Halt, Payment, UserSpending};

verus! {

/// Whether a number can be held in 128 bits, with a sign.
pub open spec fn in_range(n: int) -> bool {
    -0x8000_0000_0000_0000_0000_0000_0000_0000 <= n <= 0x7fff_ffff_ffff_ffff_ffff_ffff_ffff_ffff
}

/// The volume on record; 0 where there is no record.
pub open spec fn recorded(volume: Option<i128>) -> int {
    match volume {
        Some(volume) => volume as int,
        None => 0,
    }
}

/// Whether `rate` is what `fee_bps` comes to for a sender with this volume on record: all of it up
/// to 10,000 XLM, and above that the number whose double is `fee_bps` or one nearer to zero.
pub open spec fn is_rate(fee_bps: int, volume: Option<i128>, rate: int) -> bool {
    &&& recorded(volume) <= 100_000_000_000 ==> rate == fee_bps
    &&& recorded(volume) > 100_000_000_000 && fee_bps >= 0 ==> 2 * rate <= fee_bps <= 2 * rate + 1
    &&& recorded(volume) > 100_000_000_000 && fee_bps < 0 ==> 2 * rate - 1 <= fee_bps <= 2 * rate
}

/// Whether `share` is the whole part of `rate` ten-thousandths of `amount`.
pub open spec fn is_share(amount: int, rate: int, share: int) -> bool {
    &&& amount * rate >= 0 ==> 10_000 * share <= amount * rate < 10_000 * share + 10_000
    &&& amount * rate < 0 ==> 10_000 * share - 10_000 < amount * rate <= 10_000 * share
}

/// Whether `fee` is the least of the share, the cap and the amount.
pub open spec fn is_least(fee: int, share: int, fee_cap: int, amount: int) -> bool {
    &&& fee <= share && fee <= fee_cap && fee <= amount
    &&& fee == share || fee == fee_cap || fee == amount
}

/// Whether a payment by a sender with this volume on record is charged at `rate`, of which `share`
/// is the part of the amount, and pays `fee`.
pub open spec fn is_charged(
    payment: Payment,
    terms: FeeTerms,
    volume: Option<i128>,
    rate: int,
    share: int,
    fee: int,
) -> bool {
    &&& is_rate(terms.fee_bps as int, volume, rate)
    &&& is_share(payment.amount as int, rate, share)
    &&& is_least(fee, share, terms.fee_cap as int, payment.amount as int)
}

/// Whether the amount is positive and no larger than the largest allowed: what the admin has set,
/// or else 100M tokens.
pub open spec fn in_bounds(instance: Instance, amount: int) -> bool {
    &&& 0 < amount
    &&& match instance.max_amount {
        Some(max_amount) => amount <= max_amount,
        None => amount <= 1_000_000_000_000_000,
    }
}

/// Whether a payment can be admitted: it goes to somebody else who is not blacklisted, its amount
/// is in bounds, and it leaves the sender within 1M tokens for the window.
pub open spec fn admissible(
    instance: Instance,
    now: u64,
    payment: Payment,
    sender: Account,
    recipient: Account,
) -> bool {
    &&& payment.sender != payment.recipient
    &&& recipient.blacklisted != Some(true)
    &&& in_bounds(instance, payment.amount as int)
    &&& clock_holds(sender.spending, now)
    &&& routed_before(sender.spending, now) + payment.amount <= 10_000_000_000_000
}

/// A payment is admitted exactly if it goes to somebody other than the sender who is not
/// blacklisted, has an amount in bounds and stays within the sender's daily limit. Nothing else
/// that is stored counts. An admitted payment adds its amount to the sender's window.
pub proof fn law_admission(
    instance: Instance,
    now: u64,
    payment: Payment,
    sender: Account,
    recipient: Account,
)
    ensures
        admission(instance, now, payment, sender, recipient) is Ok <==> admissible(
            instance,
            now,
            payment,
            sender,
            recipient,
        ),
        admission(instance, now, payment, sender, recipient) matches Ok(spending) ==> {
            &&& spending.last_reset_time == window_opened(sender.spending, now)
            &&& spending.accumulated_amount == routed_before(sender.spending, now) + payment.amount
        },
{
    law_spending_granted(sender.spending, now, payment.amount);
}

/// Each error of a payment that is not admitted comes exactly where it should, and the checks come
/// in this order: self-routing, blacklist, bounds, daily limit.
pub proof fn law_admission_errors(
    instance: Instance,
    now: u64,
    payment: Payment,
    sender: Account,
    recipient: Account,
)
    ensures
        ({
            let result = admission(instance, now, payment, sender, recipient);
            let to_self = payment.sender == payment.recipient;
            let listed = recipient.blacklisted == Some(true);
            let bounded = in_bounds(instance, payment.amount as int);
            let sum = routed_before(sender.spending, now) + payment.amount;
            let counts = clock_holds(sender.spending, now) && in_range(sum);
            &&& result == Err::<UserSpending, Halt>(Halt::Refused(Error::InvalidRecipient))
                <==> to_self
            &&& result == Err::<UserSpending, Halt>(Halt::Refused(Error::Blacklisted)) <==> !to_self
                && listed
            &&& result == Err::<UserSpending, Halt>(Halt::Refused(Error::LimitExceeded))
                <==> !to_self && !listed && (!bounded || counts && sum > 10_000_000_000_000)
            &&& result == Err::<UserSpending, Halt>(Halt::Overflow) <==> !to_self && !listed
                && bounded && !counts
        }),
{
    law_spending_granted(sender.spending, now, payment.amount);
}

/// There is one rate, share and fee for every payment.
proof fn lemma_is_charged(payment: Payment, terms: FeeTerms, sender: Account)
    ensures
        ({
            let rate = sender_bps(terms.fee_bps, sender);
            exists|share: int| #[trigger]
                is_charged(
                    payment,
                    terms,
                    sender.volume,
                    rate,
                    share,
                    payment_fee(payment, terms, sender),
                )
        }),
{
    let rate = sender_bps(terms.fee_bps, sender);
    let product = payment.amount * rate;
    let share = if product >= 0 {
        product / 10_000
    } else {
        -((-product) / 10_000)
    };
    assert(is_charged(
        payment,
        terms,
        sender.volume,
        rate,
        share,
        payment_fee(payment, terms, sender),
    ));
}

/// A sender is charged the base rate up to a volume of 10,000 XLM and half of it above.
pub proof fn law_rate_charged(fee_bps: i128, sender: Account)
    ensures
        is_rate(fee_bps as int, sender.volume, sender_bps(fee_bps, sender)),
{
}

/// The fee of a payment is the least of the fee cap, the amount and the whole part of the amount
/// times the sender's rate over 10,000, for every sender.
pub proof fn law_fee_charged(
    payment: Payment,
    terms: FeeTerms,
    sender: Account,
    rate: int,
    share: int,
    fee: int,
)
    requires
        is_charged(payment, terms, sender.volume, rate, share, fee),
    ensures
        sender_bps(terms.fee_bps, sender) == rate,
        payment_fee(payment, terms, sender) == fee,
{
    assert(rate == sender_bps(terms.fee_bps, sender));
}

/// Whether the product, the remainder and the new volume all fit in 128 bits.
pub open spec fn computable(payment: Payment, volume: Option<i128>, rate: int, fee: int) -> bool {
    &&& in_range(payment.amount * rate)
    &&& in_range(payment.amount - fee)
    &&& in_range(recorded(volume) + payment.amount)
}

/// An admissible payment of a sender who holds the amount is carried through wherever the
/// arithmetic fits, and no other payment is. One that is admissible is refused for want of balance
/// exactly if the sender holds less than the amount.
pub proof fn law_payment_result(
    instance: Instance,
    now: u64,
    payment: Payment,
    terms: FeeTerms,
    sender: Account,
    recipient: Account,
    balance: i128,
    rate: int,
    share: int,
    fee: int,
)
    requires
        is_charged(payment, terms, sender.volume, rate, share, fee),
    ensures
        ({
            let result = payment_result(instance, now, payment, terms, sender, recipient, balance);
            let admitted = admissible(instance, now, payment, sender, recipient);
            let fits = computable(payment, sender.volume, rate, fee);
            &&& result is Ok <==> admitted && balance >= payment.amount && fits
            &&& result == Err::<(), Halt>(Halt::Refused(Error::InsufficientBalance)) <==> admitted
                && balance < payment.amount
            &&& admitted && balance >= payment.amount && !fits ==> result == Err::<(), Halt>(
                Halt::Overflow,
            )
            &&& !admitted ==> match admission(instance, now, payment, sender, recipient) {
                Err(halt) => result == Err::<(), Halt>(halt),
                Ok(_) => false,
            }
        }),
{
    law_admission(instance, now, payment, sender, recipient);
    law_admission_errors(instance, now, payment, sender, recipient);
    law_fee_charged(payment, terms, sender, rate, share, fee);
}

/// What a payment that is carried through asks of the host, from the sender's authorization to the
/// word that it was routed: the window is stored, the fee goes to the treasury, the rest to the
/// recipient, and the volume is stored. Nothing is transferred where there is nothing to transfer,
/// and each stored entry is given 30 days as soon as it has less than 29.
pub proof fn law_payment_made(
    instance: Instance,
    now: u64,
    payment: Payment,
    terms: FeeTerms,
    sender: Account,
    recipient: Account,
    balance: i128,
    rate: int,
    share: int,
    fee: i128,
    remainder: i128,
    spending: UserSpending,
    volume: i128,
)
    requires
        payment_result(instance, now, payment, terms, sender, recipient, balance) is Ok,
        is_charged(payment, terms, sender.volume, rate, share, fee as int),
        fee + remainder == payment.amount,
        spending.last_reset_time == window_opened(sender.spending, now),
        spending.accumulated_amount == routed_before(sender.spending, now) + payment.amount,
        volume == recorded(sender.volume) + payment.amount,
    ensures
        payment_calls(instance, now, payment, terms, sender, recipient, balance) =~= seq![
            HostCall::RequireAuth(payment.sender),
            HostCall::Publish(
                Event::PaymentInitiated { sender: payment.sender, amount: payment.amount },
            ),
            HostCall::SetPersistent(
                DataKey::UserSpending(payment.sender),
                StoredValue::Spending(spending),
            ),
            HostCall::ExtendPersistentTtl {
                key: DataKey::UserSpending(payment.sender),
                threshold: 501_120,
                extend_to: 518_400,
            },
        ] + (if fee > 0 {
            seq![
                HostCall::Transfer {
                    token: payment.token_address,
                    from: payment.sender,
                    to: terms.platform_treasury,
                    amount: fee,
                },
            ]
        } else {
            Seq::<HostCall>::empty()
        }) + (if remainder > 0 {
            seq![
                HostCall::Transfer {
                    token: payment.token_address,
                    from: payment.sender,
                    to: payment.recipient,
                    amount: remainder,
                },
            ]
        } else {
            Seq::<HostCall>::empty()
        }) + seq![
            HostCall::SetPersistent(
                DataKey::UserVolume(payment.sender),
                StoredValue::Amount(volume),
            ),
            HostCall::ExtendPersistentTtl {
                key: DataKey::UserVolume(payment.sender),
                threshold: 501_120,
                extend_to: 518_400,
            },
            HostCall::Publish(
                Event::Routed {
                    sender: payment.sender,
                    recipient: payment.recipient,
                    amount: payment.amount,
                },
            ),
        ],
        sender_after(instance, now, payment, terms, sender, recipient, balance) == (Account {
            volume: Some(volume),
            spending: Some(spending),
            blacklisted: sender.blacklisted,
        }),
{
    law_admission(instance, now, payment, sender, recipient);
    law_fee_charged(payment, terms, sender, rate, share, fee as int);
    assert(admission(instance, now, payment, sender, recipient) == Ok::<UserSpending, Halt>(
        spending,
    ));
}

/// A payment that is refused has asked for the sender's authorization and announced itself. Where
/// it was the balance that was too low, the window has been stored and extended too. Nothing else
/// has been asked for, and the sender's volume is as it was.
pub proof fn law_payment_refused(
    instance: Instance,
    now: u64,
    payment: Payment,
    terms: FeeTerms,
    sender: Account,
    recipient: Account,
    balance: i128,
    spending: UserSpending,
    error: Error,
)
    requires
        payment_result(instance, now, payment, terms, sender, recipient, balance) == Err::<
            (),
            Halt,
        >(Halt::Refused(error)),
        error == Error::InsufficientBalance ==> {
            &&& spending.last_reset_time == window_opened(sender.spending, now)
            &&& spending.accumulated_amount == routed_before(sender.spending, now) + payment.amount
        },
    ensures
        payment_calls(instance, now, payment, terms, sender, recipient, balance) =~= seq![
            HostCall::RequireAuth(payment.sender),
            HostCall::Publish(
                Event::PaymentInitiated { sender: payment.sender, amount: payment.amount },
            ),
        ] + (if error == Error::InsufficientBalance {
            seq![
                HostCall::SetPersistent(
                    DataKey::UserSpending(payment.sender),
                    StoredValue::Spending(spending),
                ),
                HostCall::ExtendPersistentTtl {
                    key: DataKey::UserSpending(payment.sender),
                    threshold: 501_120,
                    extend_to: 518_400,
                },
            ]
        } else {
            Seq::<HostCall>::empty()
        }),
        sender_after(instance, now, payment, terms, sender, recipient, balance).volume
            == sender.volume,
        error == Error::InvalidRecipient || error == Error::Blacklisted || error
            == Error::LimitExceeded || error == Error::InsufficientBalance,
{
    law_admission(instance, now, payment, sender, recipient);
    law_admission_errors(instance, now, payment, sender, recipient);
    if admission(instance, now, payment, sender, recipient) is Ok {
        assert(admission(instance, now, payment, sender, recipient) == Ok::<UserSpending, Halt>(
            spending,
        ));
    }
}

/// What a payment that is carried through takes to the treasury is the least of cap, amount and
/// share, or nothing where that is negative; so it is never more than a cap that is not negative,
/// for any sender. The recipient gets the rest.
pub proof fn law_treasury_gets_the_fee(
    instance: Instance,
    now: u64,
    payment: Payment,
    terms: FeeTerms,
    sender: Account,
    recipient: Account,
    balance: i128,
    rate: int,
    share: int,
    fee: int,
)
    requires
        payment_result(instance, now, payment, terms, sender, recipient, balance) is Ok,
        is_charged(payment, terms, sender.volume, rate, share, fee),
        terms.platform_treasury != payment.recipient,
    ensures
        ({
            let calls = payment_calls(instance, now, payment, terms, sender, recipient, balance);
            let token = payment.token_address;
            let to_treasury = moved(
                calls,
                token,
                payment.sender,
                terms.platform_treasury,
                calls.len(),
            );
            let to_recipient = moved(
                calls,
                token,
                payment.sender,
                payment.recipient,
                calls.len(),
            );
            &&& fee >= 0 ==> to_treasury == fee
            &&& fee < 0 ==> to_treasury == 0
            &&& terms.fee_cap >= 0 ==> to_treasury <= terms.fee_cap
            &&& to_recipient == payment.amount - fee
        }),
{
    law_fee_charged(payment, terms, sender, rate, share, fee);
    law_admission(instance, now, payment, sender, recipient);
    reveal_with_fuel(moved, 10);
}

/// Of the recipient's entries the blacklist flag alone counts, and of the sender's all but that:
/// whatever else is stored, a payment comes to the same and asks for the same.
pub proof fn law_only_these_entries_count(
    instance: Instance,
    now: u64,
    payment: Payment,
    terms: FeeTerms,
    sender: Account,
    other_sender: Account,
    recipient: Account,
    other_recipient: Account,
    balance: i128,
)
    requires
        sender.volume == other_sender.volume,
        sender.spending == other_sender.spending,
        recipient.blacklisted == other_recipient.blacklisted,
    ensures
        payment_result(instance, now, payment, terms, sender, recipient, balance)
            == payment_result(
            instance,
            now,
            payment,
            terms,
            other_sender,
            other_recipient,
            balance,
        ),
        payment_calls(instance, now, payment, terms, sender, recipient, balance) == payment_calls(
            instance,
            now,
            payment,
            terms,
            other_sender,
            other_recipient,
            balance,
        ),
{
}

/// A payment that is carried through is carried through, in the same way, for a sender who holds
/// more.
pub proof fn law_more_balance_never_hurts(
    instance: Instance,
    now: u64,
    payment: Payment,
    terms: FeeTerms,
    sender: Account,
    recipient: Account,
    balance: i128,
    more: i128,
)
    requires
        payment_result(instance, now, payment, terms, sender, recipient, balance) is Ok,
        balance <= more,
    ensures
        payment_result(instance, now, payment, terms, sender, recipient, more) is Ok,
        payment_calls(instance, now, payment, terms, sender, recipient, more) == payment_calls(
            instance,
            now,
            payment,
            terms,
            sender,
            recipient,
            balance,
        ),
{
}

/// Whether a payment is to be carried through: it is admissible, the sender holds the amount, and
/// the arithmetic fits at the rate and the fee that it is charged.
pub open spec fn acceptable(
    instance: Instance,
    now: u64,
    payment: Payment,
    terms: FeeTerms,
    sender: Account,
    recipient: Account,
    balance: i128,
) -> bool {
    &&& admissible(instance, now, payment, sender, recipient)
    &&& balance >= payment.amount
    &&& exists|rate: int, share: int, fee: int|
        {
            &&& #[trigger] is_charged(payment, terms, sender.volume, rate, share, fee)
            &&& computable(payment, sender.volume, rate, fee)
        }
}

/// A payment is carried through exactly if it is acceptable.
pub proof fn law_acceptable_payment_is_made(
    instance: Instance,
    now: u64,
    payment: Payment,
    terms: FeeTerms,
    sender: Account,
    recipient: Account,
    balance: i128,
)
    ensures
        payment_result(instance, now, payment, terms, sender, recipient, balance) is Ok
            <==> acceptable(instance, now, payment, terms, sender, recipient, balance),
{
    lemma_is_charged(payment, terms, sender);
    let rate = sender_bps(terms.fee_bps, sender);
    let fee = payment_fee(payment, terms, sender);
    let share = choose|share: int| #[trigger]
        is_charged(payment, terms, sender.volume, rate, share, fee);
    law_payment_result(
        instance,
        now,
        payment,
        terms,
        sender,
        recipient,
        balance,
        rate,
        share,
        fee,
    );
    if acceptable(instance, now, payment, terms, sender, recipient, balance) {
        let (r, s, f) = choose|r: int, s: int, f: int|
            {
                &&& #[trigger] is_charged(payment, terms, sender.volume, r, s, f)
                &&& computable(payment, sender.volume, r, f)
            };
        law_payment_result(instance, now, payment, terms, sender, recipient, balance, r, s, f);
    }
}

/// With a rate and a cap that are not negative, an admissible payment of a sender who holds the
/// amount is carried through unless the amount times the base rate or the new volume is too large
/// a number.
pub proof fn law_ordinary_payment_is_made(
    instance: Instance,
    now: u64,
    payment: Payment,
    terms: FeeTerms,
    sender: Account,
    recipient: Account,
    balance: i128,
)
    requires
        admissible(instance, now, payment, sender, recipient),
        balance >= payment.amount,
        0 <= terms.fee_bps,
        0 <= terms.fee_cap,
        in_range(payment.amount * terms.fee_bps),
        in_range(recorded(sender.volume) + payment.amount),
    ensures
        payment_result(instance, now, payment, terms, sender, recipient, balance) is Ok,
{
    lemma_is_charged(payment, terms, sender);
    let rate = sender_bps(terms.fee_bps, sender);
    let fee = payment_fee(payment, terms, sender);
    let share = choose|share: int| #[trigger]
        is_charged(payment, terms, sender.volume, rate, share, fee);
    assert(0 <= payment.amount * rate <= payment.amount * terms.fee_bps) by (nonlinear_arith)
        requires
            0 < payment.amount,
            0 <= rate <= terms.fee_bps,
    ;
    law_payment_result(
        instance,
        now,
        payment,
        terms,
        sender,
        recipient,
        balance,
        rate,
        share,
        fee,
    );
}

/// A sender's next payment is charged by the volume that this one leaves: the base rate while that
/// is 10,000 XLM or less, half of it above.
pub proof fn law_next_rate(
    instance: Instance,
    now: u64,
    payment: Payment,
    terms: FeeTerms,
    sender: Account,
    recipient: Account,
    balance: i128,
)
    requires
        payment_result(instance, now, payment, terms, sender, recipient, balance) is Ok,
    ensures
        ({
            let after = sender_after(instance, now, payment, terms, sender, recipient, balance);
            let rate = sender_bps(terms.fee_bps, after);
            let volume = recorded(sender.volume) + payment.amount;
            &&& recorded(after.volume) == volume
            &&& volume <= 100_000_000_000 ==> rate == terms.fee_bps
            &&& volume > 100_000_000_000 && terms.fee_bps >= 0 ==> 2 * rate <= terms.fee_bps <= 2
                * rate + 1
        }),
{
    law_admission(instance, now, payment, sender, recipient);
}

} // verus!
