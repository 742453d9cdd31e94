//! Payments made one after the other, step by step.
//! 
//! A routing call stops wherever it needs to know something of the ledger and says what; it goes on
//! with the answer. Until then the host has carried out everything the call has asked for.

use vstd::prelude::*;

use crate::address::Address;
use crate::ledger::{Account, HostCall, Instance, Invocation};
use crate::router::PaymentRouter;
use crate::routing::{
    admission, admission_calls, fee_terms, instance_ttl, opening_calls, settlement,
    settlement_calls, FeeTerms,
};
use crate::types::{Error, Halt, Payment};

verus! {

/// Payments that are being routed one after the other.
pub struct Batch {
    /// What all of them are charged.
    pub terms: FeeTerms,
    /// The payment under way.
    pub current: Payment,
    /// All payments of the batch.
    pub payments: Vec<Payment>,
    /// Where the payments that come after the current one begin.
    pub next: usize,
}

impl Batch {
    /// The payments that come after the current one.
    pub open spec fn rest(self) -> Seq<Payment> {
        if self.next <= self.payments@.len() {
            self.payments@.skip(self.next as int)
        } else {
            seq![]
        }
    }
}

/// The current payment waits for the entries kept under its two parties.
pub struct AccountQuery {
    pub batch: Batch,
}

/// The current payment has been admitted and waits for the sender's token balance.
pub struct BalanceQuery {
    pub batch: Batch,
    /// The sender's entries from before the payment.
    pub sender: Account,
}

/// How far a routing call has come. What the invocation has collected by then is for the host to
/// carry out before the next answer is given.
pub enum Progress {
    /// The call waits for the entries kept under the two parties of a payment.
    NeedAccounts(AccountQuery),
    /// The call waits for a token balance.
    NeedBalance(BalanceQuery),
    /// The call is over.
    Done(Result<(), Halt>),
}

/// What a [`Progress`] stands for.
#[verifier::ext_equal]
pub enum Stage {
    /// Entries of the sender and of the recipient of `current` are wanted.
    Accounts { terms: FeeTerms, current: Payment, rest: Seq<Payment> },
    /// The balance of the sender of `current` is wanted.
    Balance { terms: FeeTerms, current: Payment, rest: Seq<Payment>, sender: Account },
    /// The call is over.
    Done(Result<(), Halt>),
}

impl Progress {
    /// How far the call has come.
    pub open spec fn stage(self) -> Stage {
        match self {
            Progress::NeedAccounts(query) => Stage::Accounts {
                terms: query.batch.terms,
                current: query.batch.current,
                rest: query.batch.rest(),
            },
            Progress::NeedBalance(query) => Stage::Balance {
                terms: query.batch.terms,
                current: query.batch.current,
                rest: query.batch.rest(),
                sender: query.sender,
            },
            Progress::Done(result) => Stage::Done(result),
        }
    }
}

/// Where a batch stands that has only `payments` left.
pub open spec fn next_stage(terms: FeeTerms, payments: Seq<Payment>) -> Stage {
    if payments.len() == 0 {
        Stage::Done(Ok(()))
    } else {
        Stage::Accounts { terms, current: payments[0], rest: payments.skip(1) }
    }
}

/// What a batch asks of the host on its way there.
pub open spec fn next_calls(payments: Seq<Payment>) -> Seq<HostCall> {
    if payments.len() == 0 {
        seq![]
    } else {
        opening_calls(payments[0])
    }
}

/// Where the batch stands once the entries of the two parties are known.
pub open spec fn stage_after_accounts(
    instance: Instance,
    now: u64,
    terms: FeeTerms,
    current: Payment,
    rest: Seq<Payment>,
    sender: Account,
    recipient: Account,
) -> Stage {
    match admission(instance, now, current, sender, recipient) {
        Err(halt) => Stage::Done(Err(halt)),
        Ok(_) => Stage::Balance { terms, current, rest, sender },
    }
}

/// Where the batch stands once the sender's balance is known.
pub open spec fn stage_after_balance(
    terms: FeeTerms,
    current: Payment,
    rest: Seq<Payment>,
    sender: Account,
    balance: i128,
) -> Stage {
    match settlement(current, terms, sender, balance) {
        Err(halt) => Stage::Done(Err(halt)),
        Ok(_) => next_stage(terms, rest),
    }
}

/// What the batch asks of the host once the sender's balance is known.
pub open spec fn calls_after_balance(
    terms: FeeTerms,
    current: Payment,
    rest: Seq<Payment>,
    sender: Account,
    balance: i128,
) -> Seq<HostCall> {
    settlement_calls(current, terms, sender, balance)
        + match settlement(current, terms, sender, balance) {
        Err(_) => seq![],
        Ok(_) => next_calls(rest),
    }
}

/// Where a routing call stands after its first step.
pub open spec fn first_stage(instance: Instance, payments: Seq<Payment>) -> Stage {
    if instance.paused == Some(true) {
        Stage::Done(Err(Halt::Refused(Error::Paused)))
    } else {
        match fee_terms(instance) {
            None => Stage::Done(Err(Halt::Refused(Error::NotInitialized))),
            Some(terms) => next_stage(terms, payments),
        }
    }
}

/// What a routing call asks of the host in its first step.
pub open spec fn first_calls(instance: Instance, payments: Seq<Payment>) -> Seq<HostCall> {
    if instance.paused == Some(true) || fee_terms(instance) is None {
        seq![]
    } else {
        seq![instance_ttl()] + next_calls(payments)
    }
}

impl PaymentRouter {
    /// Goes on to the first of the payments from `next` on.
    fn next_payment(
        env: &mut Invocation,
        terms: FeeTerms,
        payments: Vec<Payment>,
        next: usize,
    ) -> (progress: Progress)
        requires
            next <= payments@.len(),
        ensures
            progress.stage() == next_stage(terms, payments@.skip(next as int)),
            final(env).extends(
                *old(env),
                old(env).instance,
                next_calls(payments@.skip(next as int)),
            ),
    {
        if next == payments.len() {
            return Progress::Done(Ok(()));
        }
        let current: Payment = payments[next];
        Self::open_payment(env, &current);
        let batch: Batch = Batch { terms, current, payments, next: next + 1 };
        assert(batch.rest() =~= payments@.skip(next as int).skip(1));
        Progress::NeedAccounts(AccountQuery { batch })
    }

    /// Routes a payment from a sender to a recipient, deducting a platform fee.
    pub fn route_payment(
        env: &mut Invocation,
        sender: Address,
        recipient: Address,
        token_address: Address,
        amount: i128,
    ) -> (progress: Progress)
        ensures
            progress.stage() == first_stage(
                old(env).instance,
                seq![Payment { sender, recipient, token_address, amount }],
            ),
            final(env).extends(
                *old(env),
                old(env).instance,
                first_calls(
                    old(env).instance,
                    seq![Payment { sender, recipient, token_address, amount }],
                ),
            ),
    {
        let mut payments: Vec<Payment> = Vec::new();
        payments.push(Payment { sender, recipient, token_address, amount });
        assert(payments@ =~= seq![Payment { sender, recipient, token_address, amount }]);
        Self::route_payments(env, payments)
    }

    /// Routes multiple payments in a single transaction. If any payment fails,
    /// the entire batch is reverted atomically.
    pub fn route_payments(env: &mut Invocation, payments: Vec<Payment>) -> (progress: Progress)
        ensures
            progress.stage() == first_stage(old(env).instance, payments@),
            final(env).extends(
                *old(env),
                old(env).instance,
                first_calls(old(env).instance, payments@),
            ),
    {
        if Self::is_paused(env) {
            return Progress::Done(Err(Halt::Refused(Error::Paused)));
        }
        match Self::load_fee_config(env) {
            Err(error) => Progress::Done(Err(Halt::Refused(error))),
            Ok(terms) => {
                assert(payments@.skip(0) =~= payments@);
                Self::next_payment(env, terms, payments, 0)
            },
        }
    }
}

impl AccountQuery {
    /// Whose entries the answer's `sender` has to hold.
    pub fn sender(&self) -> (address: Address)
        ensures
            address == self.batch.current.sender,
    {
        self.batch.current.sender
    }

    /// Whose entries the answer's `recipient` has to hold.
    pub fn recipient(&self) -> (address: Address)
        ensures
            address == self.batch.current.recipient,
    {
        self.batch.current.recipient
    }

    /// Goes on with the entries kept under the two parties of the current payment.
    pub fn answer(self, env: &mut Invocation, sender: Account, recipient: Account) -> (progress:
        Progress)
        ensures
            progress.stage() == stage_after_accounts(
                old(env).instance,
                old(env).timestamp,
                self.batch.terms,
                self.batch.current,
                self.batch.rest(),
                sender,
                recipient,
            ),
            final(env).extends(
                *old(env),
                old(env).instance,
                admission_calls(
                    self.batch.current,
                    admission(
                        old(env).instance,
                        old(env).timestamp,
                        self.batch.current,
                        sender,
                        recipient,
                    ),
                ),
            ),
    {
        match PaymentRouter::admit_payment(env, &self.batch.current, &sender, &recipient) {
            Err(halt) => Progress::Done(Err(halt)),
            Ok(_) => Progress::NeedBalance(BalanceQuery { batch: self.batch, sender }),
        }
    }
}

impl BalanceQuery {
    /// The token contract that has to be asked.
    pub fn token(&self) -> (address: Address)
        ensures
            address == self.batch.current.token_address,
    {
        self.batch.current.token_address
    }

    /// Whose balance it has to be asked for.
    pub fn holder(&self) -> (address: Address)
        ensures
            address == self.batch.current.sender,
    {
        self.batch.current.sender
    }

    /// Goes on with the sender's balance.
    pub fn answer(self, env: &mut Invocation, balance: i128) -> (progress: Progress)
        ensures
            progress.stage() == stage_after_balance(
                self.batch.terms,
                self.batch.current,
                self.batch.rest(),
                self.sender,
                balance,
            ),
            final(env).extends(
                *old(env),
                old(env).instance,
                calls_after_balance(
                    self.batch.terms,
                    self.batch.current,
                    self.batch.rest(),
                    self.sender,
                    balance,
                ),
            ),
    {
        let batch: Batch = self.batch;
        match PaymentRouter::settle_payment(
            env,
            &batch.current,
            &batch.terms,
            &self.sender,
            balance,
        ) {
            Err(halt) => Progress::Done(Err(halt)),
            Ok(_) => {
                if batch.next > batch.payments.len() {
                    return Progress::Done(Ok(()));
                }
                PaymentRouter::next_payment(env, batch.terms, batch.payments, batch.next)
            },
        }
    }
}

} // verus!
