//! One payment: what is checked, what is charged, what moves and what is recorded.
//! 
//! A payment needs three things that only the ledger knows: the entries kept under its two parties,
//! and the sender's token balance. It is therefore cut into parts that lie between the answers.

use vstd::prelude::*;

use crate::address::Address;
use crate::fees::{discounted_bps, effective_fee_bps, fee_on, fits, split_amount, splits, Split};
use crate::laws::payments::{acceptable, law_acceptable_payment_is_made};
use crate::ledger::{Account, Event, HostCall, Instance, Invocation, StoredValue};
use crate::limits::{spend, spent};
use crate::router::PaymentRouter;
use crate::types::{DataKey, Error, Halt, Payment, UserSpending};

verus! {

/// What payments are charged, and who gets it.
#[derive(Clone, Copy, Debug)]
pub struct FeeTerms {
    pub platform_treasury: Address,
    pub fee_bps: i128,
    pub fee_cap: i128,
}

/// The fee terms that the instance entries give, once all three are set.
pub open spec fn fee_terms(instance: Instance) -> Option<FeeTerms> {
    match (instance.platform_treasury, instance.fee_bps, instance.fee_cap) {
        (Some(platform_treasury), Some(fee_bps), Some(fee_cap)) => Some(
            FeeTerms { platform_treasury, fee_bps, fee_cap },
        ),
        _ => None,
    }
}

/// How the instance is kept alive: with less than six days to live, it is given seven.
pub open spec fn instance_ttl() -> HostCall {
    HostCall::ExtendInstanceTtl {
        threshold: PaymentRouter::INSTANCE_LIFETIME_THRESHOLD,
        extend_to: PaymentRouter::INSTANCE_BUMP_AMOUNT,
    }
}

/// How an entry of persistent storage is kept alive: with less than 29 days to live, it is given
/// 30.
pub open spec fn persistent_ttl(key: DataKey) -> HostCall {
    HostCall::ExtendPersistentTtl {
        key,
        threshold: PaymentRouter::PERSISTENT_LIFETIME_THRESHOLD,
        extend_to: PaymentRouter::PERSISTENT_BUMP_AMOUNT,
    }
}

/// Largest amount that one payment may have.
pub open spec fn largest_amount(instance: Instance) -> i128 {
    match instance.max_amount {
        Some(max_amount) => max_amount,
        None => PaymentRouter::MAX_AMOUNT,
    }
}

/// What an account has routed so far.
pub open spec fn volume_of(account: Account) -> i128 {
    match account.volume {
        Some(volume) => volume,
        None => 0,
    }
}

/// The rate at which a sender's payments are charged.
pub open spec fn sender_bps(fee_bps: i128, sender: Account) -> int {
    discounted_bps(fee_bps as int, volume_of(sender) as int)
}

/// What every payment asks of the host before anything is checked.
pub open spec fn opening_calls(payment: Payment) -> Seq<HostCall> {
    seq![
        HostCall::RequireAuth(payment.sender),
        HostCall::Publish(
            Event::PaymentInitiated { sender: payment.sender, amount: payment.amount },
        ),
    ]
}

/// What the checks that need no token balance come to: the sender's spending window with the
/// payment in it, or the reason to stop.
pub open spec fn admission(
    instance: Instance,
    now: u64,
    payment: Payment,
    sender: Account,
    recipient: Account,
) -> Result<UserSpending, Halt> {
    if payment.sender == payment.recipient {
        Err(Halt::Refused(Error::InvalidRecipient))
    } else if recipient.blacklisted == Some(true) {
        Err(Halt::Refused(Error::Blacklisted))
    } else if payment.amount <= 0 || payment.amount > largest_amount(instance) {
        Err(Halt::Refused(Error::LimitExceeded))
    } else {
        spent(sender.spending, now, payment.amount)
    }
}

/// An admitted payment has its spending window stored and kept alive.
pub open spec fn admission_calls(
    payment: Payment,
    admission: Result<UserSpending, Halt>,
) -> Seq<HostCall> {
    match admission {
        Ok(spending) => seq![
            HostCall::SetPersistent(
                DataKey::UserSpending(payment.sender),
                StoredValue::Spending(spending),
            ),
            persistent_ttl(DataKey::UserSpending(payment.sender)),
        ],
        Err(_) => seq![],
    }
}

/// The fee that a payment by `sender` is charged.
pub open spec fn payment_fee(payment: Payment, terms: FeeTerms, sender: Account) -> int {
    fee_on(
        payment.amount as int,
        sender_bps(terms.fee_bps, sender),
        terms.fee_cap as int,
    )
}

/// Whether fee and remainder of a payment by `sender` can be worked out.
pub open spec fn payment_splits(payment: Payment, terms: FeeTerms, sender: Account) -> bool {
    splits(
        payment.amount as int,
        sender_bps(terms.fee_bps, sender),
        terms.fee_cap as int,
    )
}

/// What an admitted payment comes to once the token has told the sender's balance: the sender's
/// new volume, or the reason to stop.
pub open spec fn settlement(
    payment: Payment,
    terms: FeeTerms,
    sender: Account,
    balance: i128,
) -> Result<i128, Halt> {
    if balance < payment.amount {
        Err(Halt::Refused(Error::InsufficientBalance))
    } else if !payment_splits(payment, terms, sender) || !fits(
        volume_of(sender) + payment.amount,
    ) {
        Err(Halt::Overflow)
    } else {
        Ok((volume_of(sender) + payment.amount) as i128)
    }
}

/// A token transfer, where there is anything to move.
pub open spec fn transfer_calls(token: Address, from: Address, to: Address, amount: int) -> Seq<
    HostCall,
> {
    if amount > 0 {
        seq![HostCall::Transfer { token, from, to, amount: amount as i128 }]
    } else {
        seq![]
    }
}

/// The fee goes to the treasury and the rest to the recipient.
pub open spec fn payout_calls(payment: Payment, terms: FeeTerms, fee: int) -> Seq<HostCall> {
    transfer_calls(payment.token_address, payment.sender, terms.platform_treasury, fee)
        + transfer_calls(
        payment.token_address,
        payment.sender,
        payment.recipient,
        payment.amount - fee,
    )
}

/// The sender's new volume is stored and kept alive, and the payment is announced.
pub open spec fn record_calls(payment: Payment, volume: i128) -> Seq<HostCall> {
    seq![
        HostCall::SetPersistent(DataKey::UserVolume(payment.sender), StoredValue::Amount(volume)),
        persistent_ttl(DataKey::UserVolume(payment.sender)),
        HostCall::Publish(
            Event::Routed {
                sender: payment.sender,
                recipient: payment.recipient,
                amount: payment.amount,
            },
        ),
    ]
}

/// What an admitted payment asks of the host once the token has told the sender's balance.
pub open spec fn settlement_calls(
    payment: Payment,
    terms: FeeTerms,
    sender: Account,
    balance: i128,
) -> Seq<HostCall> {
    if balance < payment.amount || !payment_splits(payment, terms, sender) {
        seq![]
    } else {
        payout_calls(payment, terms, payment_fee(payment, terms, sender)) + match settlement(
            payment,
            terms,
            sender,
            balance,
        ) {
            Ok(volume) => record_calls(payment, volume),
            Err(_) => seq![],
        }
    }
}

/// What one payment comes to.
pub open spec fn payment_result(
    instance: Instance,
    now: u64,
    payment: Payment,
    terms: FeeTerms,
    sender: Account,
    recipient: Account,
    balance: i128,
) -> Result<(), Halt> {
    match admission(instance, now, payment, sender, recipient) {
        Err(halt) => Err(halt),
        Ok(_) => match settlement(payment, terms, sender, balance) {
            Err(halt) => Err(halt),
            Ok(_) => Ok(()),
        },
    }
}

/// All that one payment asks of the host.
pub open spec fn payment_calls(
    instance: Instance,
    now: u64,
    payment: Payment,
    terms: FeeTerms,
    sender: Account,
    recipient: Account,
    balance: i128,
) -> Seq<HostCall> {
    opening_calls(payment) + match admission(instance, now, payment, sender, recipient) {
        Ok(spending) => admission_calls(payment, Ok(spending)) + settlement_calls(
            payment,
            terms,
            sender,
            balance,
        ),
        Err(_) => seq![],
    }
}

/// The sender's entries as one payment leaves them.
pub open spec fn sender_after(
    instance: Instance,
    now: u64,
    payment: Payment,
    terms: FeeTerms,
    sender: Account,
    recipient: Account,
    balance: i128,
) -> Account {
    match admission(instance, now, payment, sender, recipient) {
        Err(_) => sender,
        Ok(spending) => Account {
            spending: Some(spending),
            volume: match settlement(payment, terms, sender, balance) {
                Err(_) => sender.volume,
                Ok(volume) => Some(volume),
            },
            ..sender
        },
    }
}

impl PaymentRouter {
    /// Keeps the instance alive.
    pub(crate) fn extend_instance(env: &mut Invocation)
        ensures
            final(env).extends(*old(env), old(env).instance, seq![instance_ttl()]),
    {
        env.calls.push(
            HostCall::ExtendInstanceTtl {
                threshold: Self::INSTANCE_LIFETIME_THRESHOLD,
                extend_to: Self::INSTANCE_BUMP_AMOUNT,
            },
        );
    }

    /// Keeps an entry of persistent storage alive.
    pub(crate) fn extend_persistent(env: &mut Invocation, key: DataKey)
        ensures
            final(env).extends(*old(env), old(env).instance, seq![persistent_ttl(key)]),
    {
        env.calls.push(
            HostCall::ExtendPersistentTtl {
                key,
                threshold: Self::PERSISTENT_LIFETIME_THRESHOLD,
                extend_to: Self::PERSISTENT_BUMP_AMOUNT,
            },
        );
    }

    /// Reads the fee terms and keeps the instance alive.
    pub fn load_fee_config(env: &mut Invocation) -> (result: Result<FeeTerms, Error>)
        ensures
            match fee_terms(old(env).instance) {
                None => result == Err::<FeeTerms, Error>(Error::NotInitialized) && *final(env)
                    == *old(env),
                Some(terms) => result == Ok::<FeeTerms, Error>(terms) && final(env).extends(
                    *old(env),
                    old(env).instance,
                    seq![instance_ttl()],
                ),
            },
            result matches Ok(terms) ==> {
                &&& old(env).instance.platform_treasury == Some(terms.platform_treasury)
                &&& old(env).instance.fee_bps == Some(terms.fee_bps)
                &&& old(env).instance.fee_cap == Some(terms.fee_cap)
            },
            result is Err ==> {
                ||| old(env).instance.platform_treasury is None
                ||| old(env).instance.fee_bps is None
                ||| old(env).instance.fee_cap is None
            },
    {
        let platform_treasury: Address = match env.instance.platform_treasury {
            Some(platform_treasury) => platform_treasury,
            None => return Err(Error::NotInitialized),
        };
        let fee_bps: i128 = match env.instance.fee_bps {
            Some(fee_bps) => fee_bps,
            None => return Err(Error::NotInitialized),
        };
        let fee_cap: i128 = match env.instance.fee_cap {
            Some(fee_cap) => fee_cap,
            None => return Err(Error::NotInitialized),
        };
        Self::extend_instance(env);
        Ok(FeeTerms { platform_treasury, fee_bps, fee_cap })
    }

    /// First part of a payment: the sender's authorization, and word that a payment was begun.
    pub(crate) fn open_payment(env: &mut Invocation, payment: &Payment)
        ensures
            final(env).extends(*old(env), old(env).instance, opening_calls(*payment)),
    {
        env.calls.push(HostCall::RequireAuth(payment.sender));
        env.calls.push(
            HostCall::Publish(
                Event::PaymentInitiated { sender: payment.sender, amount: payment.amount },
            ),
        );
    }

    /// Second part of a payment: everything that is checked before the token is asked.
    pub(crate) fn admit_payment(
        env: &mut Invocation,
        payment: &Payment,
        sender: &Account,
        recipient: &Account,
    ) -> (result: Result<UserSpending, Halt>)
        ensures
            result == admission(
                old(env).instance,
                old(env).timestamp,
                *payment,
                *sender,
                *recipient,
            ),
            final(env).extends(
                *old(env),
                old(env).instance,
                admission_calls(*payment, result),
            ),
    {
        if payment.sender == payment.recipient {
            return Err(Halt::Refused(Error::InvalidRecipient));
        }
        if Self::is_blacklisted(recipient) {
            return Err(Halt::Refused(Error::Blacklisted));
        }
        let max_amount: i128 = match env.instance.max_amount {
            Some(max_amount) => max_amount,
            None => Self::MAX_AMOUNT,
        };
        if payment.amount <= 0 || payment.amount > max_amount {
            return Err(Halt::Refused(Error::LimitExceeded));
        }
        match spend(sender.spending, env.timestamp, payment.amount) {
            Err(halt) => Err(halt),
            Ok(spending) => {
                let key: DataKey = DataKey::UserSpending(payment.sender);
                env.calls.push(HostCall::SetPersistent(key, StoredValue::Spending(spending)));
                Self::extend_persistent(env, key);
                Ok(spending)
            },
        }
    }

    /// Last part of a payment: the fee is taken, the tokens move and the volume is recorded.
    /// Returns the sender's new volume.
    pub(crate) fn settle_payment(
        env: &mut Invocation,
        payment: &Payment,
        terms: &FeeTerms,
        sender: &Account,
        balance: i128,
    ) -> (result: Result<i128, Halt>)
        ensures
            result == settlement(*payment, *terms, *sender, balance),
            final(env).extends(
                *old(env),
                old(env).instance,
                settlement_calls(*payment, *terms, *sender, balance),
            ),
    {
        if balance < payment.amount {
            return Err(Halt::Refused(Error::InsufficientBalance));
        }
        let volume: i128 = Self::get_user_volume(sender);
        let bps: i128 = effective_fee_bps(terms.fee_bps, volume);
        let split: Split = match split_amount(payment.amount, bps, terms.fee_cap) {
            Some(split) => split,
            None => return Err(Halt::Overflow),
        };
        if split.fee > 0 {
            env.calls.push(
                HostCall::Transfer {
                    token: payment.token_address,
                    from: payment.sender,
                    to: terms.platform_treasury,
                    amount: split.fee,
                },
            );
        }
        if split.remainder > 0 {
            env.calls.push(
                HostCall::Transfer {
                    token: payment.token_address,
                    from: payment.sender,
                    to: payment.recipient,
                    amount: split.remainder,
                },
            );
        }
        match volume.checked_add(payment.amount) {
            None => Err(Halt::Overflow),
            Some(new_volume) => {
                let key: DataKey = DataKey::UserVolume(payment.sender);
                env.calls.push(HostCall::SetPersistent(key, StoredValue::Amount(new_volume)));
                Self::extend_persistent(env, key);
                env.calls.push(
                    HostCall::Publish(
                        Event::Routed {
                            sender: payment.sender,
                            recipient: payment.recipient,
                            amount: payment.amount,
                        },
                    ),
                );
                Ok(new_volume)
            },
        }
    }

    /// A whole payment, for a sender whose token balance will be found to be `balance`.
    pub fn process_single_payment(
        env: &mut Invocation,
        payment: &Payment,
        terms: &FeeTerms,
        sender: &mut Account,
        recipient: &Account,
        balance: i128,
    ) -> (result: Result<(), Halt>)
        ensures
            result == payment_result(
                old(env).instance,
                old(env).timestamp,
                *payment,
                *terms,
                *old(sender),
                *recipient,
                balance,
            ),
            result is Ok <==> acceptable(
                old(env).instance,
                old(env).timestamp,
                *payment,
                *terms,
                *old(sender),
                *recipient,
                balance,
            ),
            *final(sender) == sender_after(
                old(env).instance,
                old(env).timestamp,
                *payment,
                *terms,
                *old(sender),
                *recipient,
                balance,
            ),
            final(env).extends(
                *old(env),
                old(env).instance,
                payment_calls(
                    old(env).instance,
                    old(env).timestamp,
                    *payment,
                    *terms,
                    *old(sender),
                    *recipient,
                    balance,
                ),
            ),
    {
        proof {
            law_acceptable_payment_is_made(
                env.instance,
                env.timestamp,
                *payment,
                *terms,
                *sender,
                *recipient,
                balance,
            );
        }
        Self::open_payment(env, payment);
        match Self::admit_payment(env, payment, sender, recipient) {
            Err(halt) => Err(halt),
            Ok(spending) => {
                sender.spending = Some(spending);
                match Self::settle_payment(env, payment, terms, sender, balance) {
                    Err(halt) => Err(halt),
                    Ok(volume) => {
                        sender.volume = Some(volume);
                        Ok(())
                    },
                }
            },
        }
    }

    /// Returns whether the contract is currently paused.
    pub fn is_paused(env: &Invocation) -> (paused: bool)
        ensures
            paused == (env.instance.paused == Some(true)),
    {
        match env.instance.paused {
            Some(paused) => paused,
            None => false,
        }
    }

    /// Returns the cumulative amount a given sender has routed through the contract.
    pub fn get_user_volume(user: &Account) -> (volume: i128)
        ensures
            volume == volume_of(*user),
            user.volume matches Some(recorded) ==> volume == recorded,
            user.volume is None ==> volume == 0,
    {
        match user.volume {
            Some(volume) => volume,
            None => 0,
        }
    }

    /// Returns whether an address is blacklisted, from the entries kept under it.
    pub fn is_blacklisted(account: &Account) -> (blacklisted: bool)
        ensures
            blacklisted == (account.blacklisted == Some(true)),
    {
        match account.blacklisted {
            Some(blacklisted) => blacklisted,
            None => false,
        }
    }
}

} // verus!
