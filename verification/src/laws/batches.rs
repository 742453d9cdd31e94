//! Batches: what their payments add up to, and that they are made whole or not at all.

use vstd::prelude::*;

use crate::address::Address;
use crate::batch::{
    calls_after_balance, first_calls, first_stage, next_calls, next_stage, stage_after_accounts,
    stage_after_balance, AccountQuery, BalanceQuery, Batch, Progress, Stage,
};
use crate::laws::fees::{
    balance_change, law_payment_conserves_tokens, law_payment_moves_only_the_senders_tokens, moved,
    moved_away,
};
use crate::laws::limits::{routed_before, window_opened};
use crate::laws::payments::{acceptable, admissible, law_acceptable_payment_is_made, law_admission};
use crate::laws::storage::{law_payment_is_stored, law_replay_in_parts};
use crate::ledger::{
    account_of, committed, instance_of, kept_calls, replay, Account, Entries, Event, HostCall,
    Instance, StoredValue,
};
use crate::limits::current_window;
use crate::router::PaymentRouter;
use crate::routing::{
    admission, admission_calls, fee_terms, instance_ttl, payment_calls, payment_fee, payment_result,
    settlement, volume_of, FeeTerms,
};
use crate::types::{DataKey, Halt, Payment, UserSpending};

verus! {

/// What one payment of a batch is told.
pub struct Answers {
    /// The entries kept under the sender.
    pub sender: Account,
    /// The entries kept under the recipient.
    pub recipient: Account,
    /// The sender's token balance.
    pub balance: i128,
}

/// What a payment comes to with the given answers.
pub open spec fn answered_result(
    instance: Instance,
    now: u64,
    terms: FeeTerms,
    payment: Payment,
    answers: Answers,
) -> Result<(), Halt> {
    payment_result(
        instance,
        now,
        payment,
        terms,
        answers.sender,
        answers.recipient,
        answers.balance,
    )
}

/// What a payment asks of the host with the given answers.
pub open spec fn answered_calls(
    instance: Instance,
    now: u64,
    terms: FeeTerms,
    payment: Payment,
    answers: Answers,
) -> Seq<HostCall> {
    payment_calls(
        instance,
        now,
        payment,
        terms,
        answers.sender,
        answers.recipient,
        answers.balance,
    )
}

/// What a batch comes to: its payments are made one after the other until one stops.
pub open spec fn batch_result(
    instance: Instance,
    now: u64,
    terms: FeeTerms,
    payments: Seq<Payment>,
    answers: Seq<Answers>,
) -> Result<(), Halt>
    decreases payments.len(),
{
    if payments.len() == 0 {
        Ok(())
    } else {
        match answered_result(instance, now, terms, payments[0], answers[0]) {
            Err(halt) => Err(halt),
            Ok(_) => batch_result(instance, now, terms, payments.skip(1), answers.skip(1)),
        }
    }
}

/// What a batch asks of the host.
pub open spec fn batch_calls(
    instance: Instance,
    now: u64,
    terms: FeeTerms,
    payments: Seq<Payment>,
    answers: Seq<Answers>,
) -> Seq<HostCall>
    decreases payments.len(),
{
    if payments.len() == 0 {
        seq![]
    } else {
        answered_calls(instance, now, terms, payments[0], answers[0]) + match answered_result(
            instance,
            now,
            terms,
            payments[0],
            answers[0],
        ) {
            Err(_) => seq![],
            Ok(_) => batch_calls(instance, now, terms, payments.skip(1), answers.skip(1)),
        }
    }
}

/// Where a routing call ends that is given one set of answers after the other.
pub open spec fn run_stage(instance: Instance, now: u64, stage: Stage, answers: Seq<Answers>) -> Stage
    decreases answers.len(),
{
    if answers.len() == 0 {
        stage
    } else {
        match stage {
            Stage::Accounts { terms, current, rest } => match stage_after_accounts(
                instance,
                now,
                terms,
                current,
                rest,
                answers[0].sender,
                answers[0].recipient,
            ) {
                Stage::Balance { terms, current, rest, sender } => run_stage(
                    instance,
                    now,
                    stage_after_balance(terms, current, rest, sender, answers[0].balance),
                    answers.skip(1),
                ),
                other => other,
            },
            other => other,
        }
    }
}

/// What it asks of the host on the way.
pub open spec fn run_calls(
    instance: Instance,
    now: u64,
    stage: Stage,
    answers: Seq<Answers>,
) -> Seq<HostCall>
    decreases answers.len(),
{
    if answers.len() == 0 {
        seq![]
    } else {
        match stage {
            Stage::Accounts { terms, current, rest } => {
                admission_calls(
                    current,
                    admission(
                        instance,
                        now,
                        current,
                        answers[0].sender,
                        answers[0].recipient,
                    ),
                ) + match stage_after_accounts(
                    instance,
                    now,
                    terms,
                    current,
                    rest,
                    answers[0].sender,
                    answers[0].recipient,
                ) {
                    Stage::Balance { terms, current, rest, sender } => calls_after_balance(
                        terms,
                        current,
                        rest,
                        sender,
                        answers[0].balance,
                    ) + run_calls(
                        instance,
                        now,
                        stage_after_balance(terms, current, rest, sender, answers[0].balance),
                        answers.skip(1),
                    ),
                    _ => seq![],
                }
            },
            _ => seq![],
        }
    }
}

/// Answering a routing call step by step makes its payments one after the other: it ends with
/// the batch's result, having asked of the host what the batch asks, in that order.
pub proof fn law_steps_make_the_batch(
    instance: Instance,
    now: u64,
    terms: FeeTerms,
    payments: Seq<Payment>,
    answers: Seq<Answers>,
)
    requires
        payments.len() <= answers.len(),
    ensures
        run_stage(instance, now, next_stage(terms, payments), answers) == Stage::Done(
            batch_result(instance, now, terms, payments, answers),
        ),
        next_calls(payments) + run_calls(instance, now, next_stage(terms, payments), answers)
            == batch_calls(instance, now, terms, payments, answers),
    decreases payments.len(),
{
    reveal_with_fuel(run_stage, 2);
    reveal_with_fuel(run_calls, 2);
    if payments.len() > 0 {
        let given = answers[0];
        if admission(instance, now, payments[0], given.sender, given.recipient) is Ok
            && settlement(payments[0], terms, given.sender, given.balance) is Ok {
            law_steps_make_the_batch(instance, now, terms, payments.skip(1), answers.skip(1));
        }
    }
    assert(next_calls(payments) + run_calls(instance, now, next_stage(terms, payments), answers)
        =~= batch_calls(instance, now, terms, payments, answers));
}

/// A batch of one payment is that payment.
pub proof fn law_batch_of_one(
    instance: Instance,
    now: u64,
    terms: FeeTerms,
    payment: Payment,
    answers: Seq<Answers>,
)
    requires
        answers.len() > 0,
    ensures
        batch_result(instance, now, terms, seq![payment], answers) == answered_result(
            instance,
            now,
            terms,
            payment,
            answers[0],
        ),
        batch_calls(instance, now, terms, seq![payment], answers) == answered_calls(
            instance,
            now,
            terms,
            payment,
            answers[0],
        ),
{
    reveal_with_fuel(batch_result, 2);
    reveal_with_fuel(batch_calls, 2);
    assert(batch_calls(instance, now, terms, seq![payment], answers) =~= answered_calls(
        instance,
        now,
        terms,
        payment,
        answers[0],
    ));
}

/// A batch is carried through if and only if each of its payments is; the empty batch always is.
pub proof fn law_batch_needs_every_payment(
    instance: Instance,
    now: u64,
    terms: FeeTerms,
    payments: Seq<Payment>,
    answers: Seq<Answers>,
)
    requires
        payments.len() <= answers.len(),
    ensures
        batch_result(instance, now, terms, payments, answers) is Ok <==> forall|i: int|
            #![trigger payments[i]]
            0 <= i < payments.len() ==> answered_result(
                instance,
                now,
                terms,
                payments[i],
                answers[i],
            ) is Ok,
    decreases payments.len(),
{
    if payments.len() > 0 {
        let rest = payments.skip(1);
        let others = answers.skip(1);
        law_batch_needs_every_payment(instance, now, terms, rest, others);
        assert forall|i: int| 0 <= i < rest.len() implies #[trigger] rest[i] == payments[i + 1]
            && others[i] == answers[i + 1] by {}
        if batch_result(instance, now, terms, payments, answers) is Ok {
            assert forall|i: int| 0 <= i < payments.len() implies answered_result(
                instance,
                now,
                terms,
                #[trigger] payments[i],
                answers[i],
            ) is Ok by {
                if i > 0 {
                    assert(rest[i - 1] == payments[i]);
                }
            }
        }
    }
}

/// The first payment that stops decides what the batch comes to.
pub proof fn law_first_stop_decides(
    instance: Instance,
    now: u64,
    terms: FeeTerms,
    payments: Seq<Payment>,
    answers: Seq<Answers>,
    k: int,
    halt: Halt,
)
    requires
        payments.len() <= answers.len(),
        0 <= k < payments.len(),
        forall|i: int|
            #![trigger payments[i]]
            0 <= i < k ==> answered_result(
                instance,
                now,
                terms,
                payments[i],
                answers[i],
            ) is Ok,
        answered_result(instance, now, terms, payments[k], answers[k]) == Err::<(), Halt>(halt),
    ensures
        batch_result(instance, now, terms, payments, answers) == Err::<(), Halt>(halt),
    decreases payments.len(),
{
    if k > 0 {
        let rest = payments.skip(1);
        let others = answers.skip(1);
        assert(payments[0] == payments[0]);
        assert forall|i: int| 0 <= i < k - 1 implies answered_result(
            instance,
            now,
            terms,
            #[trigger] rest[i],
            others[i],
        ) is Ok by {
            assert(rest[i] == payments[i + 1]);
        }
        law_first_stop_decides(instance, now, terms, rest, others, k - 1, halt);
    }
}

/// A batch in two parts: if the first part is carried through, the second is made after it, and the
/// two together come to what the second part comes to. If not, the second part is never begun.
pub proof fn law_batches_can_be_joined(
    instance: Instance,
    now: u64,
    terms: FeeTerms,
    first: Seq<Payment>,
    second: Seq<Payment>,
    told_first: Seq<Answers>,
    told_second: Seq<Answers>,
)
    requires
        first.len() == told_first.len(),
        second.len() == told_second.len(),
    ensures
        ({
            let result = batch_result(instance, now, terms, first + second, told_first + told_second);
            let calls = batch_calls(instance, now, terms, first + second, told_first + told_second);
            match batch_result(instance, now, terms, first, told_first) {
                Ok(_) => {
                    &&& result == batch_result(instance, now, terms, second, told_second)
                    &&& calls == batch_calls(instance, now, terms, first, told_first) + batch_calls(
                        instance,
                        now,
                        terms,
                        second,
                        told_second,
                    )
                },
                Err(halt) => {
                    &&& result == Err::<(), Halt>(halt)
                    &&& calls == batch_calls(instance, now, terms, first, told_first)
                },
            }
        }),
    decreases first.len(),
{
    if first.len() == 0 {
        assert(first + second =~= second);
        assert(told_first + told_second =~= told_second);
        assert(batch_calls(instance, now, terms, first, told_first) + batch_calls(
            instance,
            now,
            terms,
            second,
            told_second,
        ) =~= batch_calls(instance, now, terms, second, told_second));
    } else {
        assert((first + second).skip(1) =~= first.skip(1) + second);
        assert((told_first + told_second).skip(1) =~= told_first.skip(1) + told_second);
        law_batches_can_be_joined(
            instance,
            now,
            terms,
            first.skip(1),
            second,
            told_first.skip(1),
            told_second,
        );
        assert((first + second)[0] == first[0]);
        assert((told_first + told_second)[0] == told_first[0]);
        let calls = answered_calls(instance, now, terms, first[0], told_first[0]);
        let middle = batch_calls(instance, now, terms, first.skip(1), told_first.skip(1));
        let last = batch_calls(instance, now, terms, second, told_second);
        assert(calls + (middle + last) =~= (calls + middle) + last);
    }
}

/// The stage of a routing call is what the call holds: its terms, the payment under way, those of
/// its payments that are yet to come, and what it has been told.
pub proof fn law_stage_is_what_is_held(batch: Batch, sender: Account, result: Result<(), Halt>)
    requires
        batch.next <= batch.payments@.len(),
    ensures
        Progress::NeedAccounts(AccountQuery { batch }).stage() == (Stage::Accounts {
            terms: batch.terms,
            current: batch.current,
            rest: batch.payments@.subrange(batch.next as int, batch.payments@.len() as int),
        }),
        Progress::NeedBalance(BalanceQuery { batch, sender }).stage() == (Stage::Balance {
            terms: batch.terms,
            current: batch.current,
            rest: batch.payments@.subrange(batch.next as int, batch.payments@.len() as int),
            sender,
        }),
        Progress::Done(result).stage() == Stage::Done(result),
{
}

/// A routing call on a router that is not paused and has a treasury, a rate and a cap gives the
/// instance seven days if it has less than six. It then begins with the first payment, at those
/// terms; without any payment it is over.
pub proof fn law_routing_begins(
    instance: Instance,
    payments: Seq<Payment>,
    platform_treasury: Address,
    fee_bps: i128,
    fee_cap: i128,
)
    requires
        instance.paused != Some(true),
        instance.platform_treasury == Some(platform_treasury),
        instance.fee_bps == Some(fee_bps),
        instance.fee_cap == Some(fee_cap),
    ensures
        ({
            let extended = seq![
                HostCall::ExtendInstanceTtl { threshold: 103_680, extend_to: 120_960 },
            ];
            if payments.len() == 0 {
                &&& first_stage(instance, payments) == Stage::Done(Ok(()))
                &&& first_calls(instance, payments) == extended
            } else {
                &&& first_stage(instance, payments) == (Stage::Accounts {
                    terms: FeeTerms { platform_treasury, fee_bps, fee_cap },
                    current: payments[0],
                    rest: payments.skip(1),
                })
                &&& first_calls(instance, payments) == extended + seq![
                    HostCall::RequireAuth(payments[0].sender),
                    HostCall::Publish(
                        Event::PaymentInitiated {
                            sender: payments[0].sender,
                            amount: payments[0].amount,
                        },
                    ),
                ]
            }
        }),
{
    if payments.len() == 0 {
        assert(first_calls(instance, payments) =~= seq![
            HostCall::ExtendInstanceTtl { threshold: 103_680, extend_to: 120_960 },
        ]);
    }
}

/// A payment that is admissible has its window stored and extended and then waits for the balance;
/// any other ends the call with an error, and nothing more is asked for.
pub proof fn law_admissible_payment_waits(
    instance: Instance,
    now: u64,
    terms: FeeTerms,
    current: Payment,
    rest: Seq<Payment>,
    sender: Account,
    recipient: Account,
    spending: UserSpending,
)
    requires
        admissible(instance, now, current, sender, recipient) ==> {
            &&& spending.last_reset_time == window_opened(sender.spending, now)
            &&& spending.accumulated_amount == routed_before(sender.spending, now) + current.amount
        },
    ensures
        ({
            let stage = stage_after_accounts(
                instance,
                now,
                terms,
                current,
                rest,
                sender,
                recipient,
            );
            let calls = admission_calls(
                current,
                admission(instance, now, current, sender, recipient),
            );
            if admissible(instance, now, current, sender, recipient) {
                &&& stage == (Stage::Balance { terms, current, rest, sender })
                &&& calls == seq![
                    HostCall::SetPersistent(
                        DataKey::UserSpending(current.sender),
                        StoredValue::Spending(spending),
                    ),
                    HostCall::ExtendPersistentTtl {
                        key: DataKey::UserSpending(current.sender),
                        threshold: 501_120,
                        extend_to: 518_400,
                    },
                ]
            } else {
                &&& stage matches Stage::Done(Err(_))
                &&& calls == Seq::<HostCall>::empty()
            }
        }),
{
    law_admission(instance, now, current, sender, recipient);
    if admissible(instance, now, current, sender, recipient) {
        assert(admission(instance, now, current, sender, recipient) == Ok::<UserSpending, Halt>(
            spending,
        ));
    }
}

/// A routing call on a router that is not paused and has its terms succeeds exactly if each of its
/// payments goes to somebody else who is not blacklisted, is in bounds and within the sender's
/// daily limit, is covered by the sender's balance, and can be worked out. Otherwise it ends in an
/// error.
pub proof fn law_routing_succeeds(
    instance: Instance,
    now: u64,
    payments: Seq<Payment>,
    answers: Seq<Answers>,
    platform_treasury: Address,
    fee_bps: i128,
    fee_cap: i128,
)
    requires
        instance.paused != Some(true),
        instance.platform_treasury == Some(platform_treasury),
        instance.fee_bps == Some(fee_bps),
        instance.fee_cap == Some(fee_cap),
        payments.len() <= answers.len(),
    ensures
        ({
            let terms = FeeTerms { platform_treasury, fee_bps, fee_cap };
            let end = run_stage(instance, now, first_stage(instance, payments), answers);
            let all = forall|i: int|
                #![trigger payments[i]]
                0 <= i < payments.len() ==> acceptable(
                    instance,
                    now,
                    payments[i],
                    terms,
                    answers[i].sender,
                    answers[i].recipient,
                    answers[i].balance,
                );
            &&& all ==> (end matches Stage::Done(Ok(_)))
            &&& !all ==> (end matches Stage::Done(Err(_)))
        }),
{
    let terms = FeeTerms { platform_treasury, fee_bps, fee_cap };
    law_routing_makes_the_batch(instance, now, payments, answers, terms);
    law_batch_needs_every_payment(instance, now, terms, payments, answers);
    assert forall|i: int| 0 <= i < payments.len() implies (answered_result(
        instance,
        now,
        terms,
        #[trigger] payments[i],
        answers[i],
    ) is Ok) == acceptable(
        instance,
        now,
        payments[i],
        terms,
        answers[i].sender,
        answers[i].recipient,
        answers[i].balance,
    ) by {
        law_acceptable_payment_is_made(
            instance,
            now,
            payments[i],
            terms,
            answers[i].sender,
            answers[i].recipient,
            answers[i].balance,
        );
    }
}

/// Whether an invocation leaves nothing behind that its calls have done: every entry is as it was,
/// no token has moved from anybody to anybody, and every token balance is as it was.
pub open spec fn leaves_nothing<E>(result: Result<(), E>, calls: Seq<HostCall>) -> bool {
    let kept = kept_calls(result, calls);
    &&& forall|entries: Entries| #[trigger] committed(entries, result, calls) == entries
    &&& forall|token: Address, from: Address, to: Address|
        #[trigger] moved(kept, token, from, to, kept.len()) == 0
    &&& forall|token: Address, from: Address|
        #[trigger] moved_away(kept, token, from, kept.len()) == 0
    &&& forall|token: Address, holder: Address|
        #[trigger] balance_change(kept, token, holder, kept.len()) == 0
}

/// A batch with a payment that stops comes back with an error and leaves nothing behind, neither
/// in storage nor in tokens: what the payments before it had stored and transferred is undone.
pub proof fn law_stopped_batch_is_reverted(
    instance: Instance,
    now: u64,
    terms: FeeTerms,
    payments: Seq<Payment>,
    answers: Seq<Answers>,
    k: int,
)
    requires
        payments.len() <= answers.len(),
        0 <= k < payments.len(),
        answered_result(instance, now, terms, payments[k], answers[k]) is Err,
    ensures
        ({
            let result = batch_result(instance, now, terms, payments, answers);
            &&& result is Err
            &&& leaves_nothing(result, batch_calls(instance, now, terms, payments, answers))
        }),
{
    law_batch_needs_every_payment(instance, now, terms, payments, answers);
    assert(payments[k] == payments[k]);
}

/// A routing call that succeeds keeps everything that its calls have done.
pub proof fn law_successful_routing_lasts(entries: Entries, calls: Seq<HostCall>)
    ensures
        kept_calls(Ok::<(), Halt>(()), calls) == calls,
        committed(entries, Ok::<(), Halt>(()), calls) == replay(entries, calls),
{
}

/// A routing call that ends in an error leaves nothing behind, whatever the error is and whatever
/// the call has been told: no entry changes and no token moves, though the host has carried out
/// calls on the way.
pub proof fn law_failed_routing_is_reverted(
    instance: Instance,
    now: u64,
    payments: Seq<Payment>,
    answers: Seq<Answers>,
    halt: Halt,
)
    requires
        run_stage(instance, now, first_stage(instance, payments), answers) == Stage::Done(
            Err(halt),
        ),
    ensures
        leaves_nothing(
            Err::<(), Halt>(halt),
            first_calls(instance, payments) + run_calls(
                instance,
                now,
                first_stage(instance, payments),
                answers,
            ),
        ),
{
}

/// Whether each payment of a batch is told what storage holds when its turn comes.
pub open spec fn told_truly(
    entries: Entries,
    instance: Instance,
    now: u64,
    terms: FeeTerms,
    payments: Seq<Payment>,
    answers: Seq<Answers>,
) -> bool
    decreases payments.len(),
{
    payments.len() > 0 ==> {
        &&& answers.len() > 0
        &&& answers[0].sender == account_of(entries, payments[0].sender)
        &&& answers[0].recipient == account_of(entries, payments[0].recipient)
        &&& told_truly(
            replay(entries, answered_calls(instance, now, terms, payments[0], answers[0])),
            instance,
            now,
            terms,
            payments.skip(1),
            answers.skip(1),
        )
    }
}

/// What an address sends in a list of payments.
pub open spec fn sent_by(payments: Seq<Payment>, address: Address) -> int
    decreases payments.len(),
{
    if payments.len() == 0 {
        0
    } else {
        (if payments[0].sender == address {
            payments[0].amount as int
        } else {
            0
        }) + sent_by(payments.skip(1), address)
    }
}

/// A batch that is carried through adds to everybody's volume what they sent in it, and changes
/// neither the instance nor the blacklist.
pub proof fn law_batch_adds_up_volume(
    entries: Entries,
    instance: Instance,
    now: u64,
    terms: FeeTerms,
    payments: Seq<Payment>,
    answers: Seq<Answers>,
    address: Address,
)
    requires
        told_truly(entries, instance, now, terms, payments, answers),
        batch_result(instance, now, terms, payments, answers) is Ok,
    ensures
        ({
            let after = replay(entries, batch_calls(instance, now, terms, payments, answers));
            &&& volume_of(account_of(after, address)) == volume_of(account_of(entries, address))
                + sent_by(payments, address)
            &&& account_of(after, address).blacklisted == account_of(entries, address).blacklisted
            &&& instance_of(after) == instance_of(entries)
        }),
    decreases payments.len(),
{
    if payments.len() > 0 {
        let payment = payments[0];
        let given = answers[0];
        let calls = answered_calls(instance, now, terms, payment, given);
        law_payment_is_stored(
            entries,
            instance,
            now,
            payment,
            terms,
            given.recipient,
            given.balance,
        );
        law_replay_in_parts(
            entries,
            calls,
            batch_calls(instance, now, terms, payments.skip(1), answers.skip(1)),
        );
        law_batch_adds_up_volume(
            replay(entries, calls),
            instance,
            now,
            terms,
            payments.skip(1),
            answers.skip(1),
            address,
        );
    }
}

/// Whether an address sends any of the payments.
pub open spec fn sends(payments: Seq<Payment>, address: Address) -> bool {
    exists|i: int| 0 <= i < payments.len() && (#[trigger] payments[i]).sender == address
}

/// A batch that is carried through leaves everybody who sent something in it with a spending
/// window that has grown by just that and holds no more than the daily limit. Everybody else's
/// window stays as it was.
pub proof fn law_batch_stays_within_limit(
    entries: Entries,
    instance: Instance,
    now: u64,
    terms: FeeTerms,
    payments: Seq<Payment>,
    answers: Seq<Answers>,
    address: Address,
)
    requires
        told_truly(entries, instance, now, terms, payments, answers),
        batch_result(instance, now, terms, payments, answers) is Ok,
    ensures
        ({
            let stored = account_of(entries, address).spending;
            let after = account_of(
                replay(entries, batch_calls(instance, now, terms, payments, answers)),
                address,
            ).spending;
            if sends(payments, address) {
                let window = current_window(stored, now);
                &&& after matches Some(spending)
                &&& spending.last_reset_time == window.last_reset_time
                &&& spending.accumulated_amount == window.accumulated_amount + sent_by(
                    payments,
                    address,
                )
                &&& spending.accumulated_amount <= PaymentRouter::DAILY_MAX_LIMIT
            } else {
                after == stored
            }
        }),
    decreases payments.len(),
{
    if payments.len() > 0 {
        let payment = payments[0];
        let given = answers[0];
        let rest = payments.skip(1);
        let calls = answered_calls(instance, now, terms, payment, given);
        law_payment_is_stored(
            entries,
            instance,
            now,
            payment,
            terms,
            given.recipient,
            given.balance,
        );
        law_replay_in_parts(
            entries,
            calls,
            batch_calls(instance, now, terms, rest, answers.skip(1)),
        );
        law_batch_stays_within_limit(
            replay(entries, calls),
            instance,
            now,
            terms,
            rest,
            answers.skip(1),
            address,
        );
        if sends(rest, address) {
            let i = choose|i: int| 0 <= i < rest.len() && (#[trigger] rest[i]).sender == address;
            assert(payments[i + 1].sender == address);
        } else {
            lemma_idle_sends_nothing(rest, address);
            assert forall|i: int| 1 <= i < payments.len() implies (#[trigger] payments[i]).sender
                != address by {
                assert(rest[i - 1] == payments[i]);
            }
        }
    }
}

/// An address that sends no payment sends no amount.
proof fn lemma_idle_sends_nothing(payments: Seq<Payment>, address: Address)
    requires
        !sends(payments, address),
    ensures
        sent_by(payments, address) == 0,
    decreases payments.len(),
{
    if payments.len() > 0 {
        let rest = payments.skip(1);
        assert forall|i: int| 0 <= i < rest.len() implies (#[trigger] rest[i]).sender
            != address by {
            assert(rest[i] == payments[i + 1]);
        }
        assert(payments[0].sender != address);
        lemma_idle_sends_nothing(rest, address);
    }
}

/// Every token that a batch moves belongs to somebody who was asked for authorization before.
pub proof fn law_batch_moves_only_what_is_authorized(
    instance: Instance,
    now: u64,
    terms: FeeTerms,
    payments: Seq<Payment>,
    answers: Seq<Answers>,
    i: int,
)
    requires
        0 <= i < batch_calls(instance, now, terms, payments, answers).len(),
    ensures
        batch_calls(instance, now, terms, payments, answers)[i] matches HostCall::Transfer {
            from,
            ..
        } ==> exists|j: int|
            0 <= j < i && #[trigger] batch_calls(instance, now, terms, payments, answers)[j]
                == HostCall::RequireAuth(from),
    decreases payments.len(),
{
    let calls = batch_calls(instance, now, terms, payments, answers);
    if payments.len() > 0 {
        let first = answered_calls(instance, now, terms, payments[0], answers[0]);
        if i < first.len() {
            law_payment_moves_only_the_senders_tokens(
                instance,
                now,
                payments[0],
                terms,
                answers[0].sender,
                answers[0].recipient,
                answers[0].balance,
            );
            assert(calls[0] == first[0]);
            assert(calls[i] == first[i]);
        } else {
            let others = batch_calls(instance, now, terms, payments.skip(1), answers.skip(1));
            law_batch_moves_only_what_is_authorized(
                instance,
                now,
                terms,
                payments.skip(1),
                answers.skip(1),
                i - first.len(),
            );
            assert(calls[i] == others[i - first.len()]);
            if let HostCall::Transfer { from, .. } = calls[i] {
                let j = choose|j: int|
                    0 <= j < i - first.len() && #[trigger] others[j] == HostCall::RequireAuth(from);
                assert(calls[first.len() + j] == HostCall::RequireAuth(from));
            }
        }
    }
}

/// What an address sends of one token in a list of payments.
pub open spec fn sent_of(payments: Seq<Payment>, token: Address, address: Address) -> int
    decreases payments.len(),
{
    if payments.len() == 0 {
        0
    } else {
        (if payments[0].sender == address && payments[0].token_address == token {
            payments[0].amount as int
        } else {
            0
        }) + sent_of(payments.skip(1), token, address)
    }
}

/// Moves add up over two lists of calls.
proof fn lemma_moved_away_in_parts(
    first: Seq<HostCall>,
    second: Seq<HostCall>,
    token: Address,
    from: Address,
    n: nat,
)
    requires
        n <= second.len(),
    ensures
        moved_away(first + second, token, from, first.len() + n) == moved_away(
            first,
            token,
            from,
            first.len(),
        ) + moved_away(second, token, from, n),
    decreases n,
{
    if n == 0 {
        lemma_moved_away_prefix(first, second, token, from, first.len());
    } else {
        lemma_moved_away_in_parts(first, second, token, from, (n - 1) as nat);
    }
}

/// What comes later adds nothing to what the first calls move.
proof fn lemma_moved_away_prefix(
    first: Seq<HostCall>,
    second: Seq<HostCall>,
    token: Address,
    from: Address,
    n: nat,
)
    requires
        n <= first.len(),
    ensures
        moved_away(first + second, token, from, n) == moved_away(first, token, from, n),
    decreases n,
{
    if n > 0 {
        lemma_moved_away_prefix(first, second, token, from, (n - 1) as nat);
    }
}

/// Nothing moves away from an address that no call names as the source of the token.
proof fn lemma_nothing_moved_away(calls: Seq<HostCall>, token: Address, from: Address, n: nat)
    requires
        n <= calls.len(),
        forall|i: int|
            #![trigger calls[i]]
            0 <= i < calls.len() ==> match calls[i] {
                HostCall::Transfer { token: t, from: f, .. } => t != token || f != from,
                _ => true,
            },
    ensures
        moved_away(calls, token, from, n) == 0,
    decreases n,
{
    if n > 0 {
        lemma_nothing_moved_away(calls, token, from, (n - 1) as nat);
    }
}

/// A batch that is carried through takes from everybody, of every token, exactly what they sent
/// of it. This holds wherever none of the payments in question has a negative fee.
pub proof fn law_batch_conserves_tokens(
    instance: Instance,
    now: u64,
    terms: FeeTerms,
    payments: Seq<Payment>,
    answers: Seq<Answers>,
    token: Address,
    address: Address,
)
    requires
        payments.len() <= answers.len(),
        batch_result(instance, now, terms, payments, answers) is Ok,
        forall|i: int|
            #![trigger payments[i]]
            0 <= i < payments.len() && payments[i].sender == address && payments[i].token_address
                == token ==> 0 <= payment_fee(payments[i], terms, answers[i].sender),
    ensures
        ({
            let calls = batch_calls(instance, now, terms, payments, answers);
            moved_away(calls, token, address, calls.len()) == sent_of(payments, token, address)
        }),
    decreases payments.len(),
{
    if payments.len() > 0 {
        let payment = payments[0];
        let given = answers[0];
        let rest = payments.skip(1);
        let first = answered_calls(instance, now, terms, payment, given);
        let others = batch_calls(instance, now, terms, rest, answers.skip(1));
        assert forall|i: int|
            0 <= i < rest.len() && (#[trigger] rest[i]).sender == address && rest[i].token_address
                == token implies 0 <= payment_fee(rest[i], terms, answers.skip(1)[i].sender) by {
            assert(rest[i] == payments[i + 1]);
        }
        law_batch_conserves_tokens(
            instance,
            now,
            terms,
            rest,
            answers.skip(1),
            token,
            address,
        );
        lemma_moved_away_in_parts(first, others, token, address, others.len());
        if payment.sender == address && payment.token_address == token {
            law_payment_conserves_tokens(
                instance,
                now,
                payment,
                terms,
                given.sender,
                given.recipient,
                given.balance,
            );
        } else {
            law_payment_moves_only_the_senders_tokens(
                instance,
                now,
                payment,
                terms,
                given.sender,
                given.recipient,
                given.balance,
            );
            lemma_nothing_moved_away(first, token, address, first.len());
        }
    }
}

/// A routing call that is not paused and has its fee terms keeps the instance alive, then makes
/// the batch.
pub proof fn law_routing_makes_the_batch(
    instance: Instance,
    now: u64,
    payments: Seq<Payment>,
    answers: Seq<Answers>,
    terms: FeeTerms,
)
    requires
        instance.paused != Some(true),
        fee_terms(instance) == Some(terms),
        payments.len() <= answers.len(),
    ensures
        run_stage(instance, now, first_stage(instance, payments), answers) == Stage::Done(
            batch_result(instance, now, terms, payments, answers),
        ),
        first_calls(instance, payments) + run_calls(
            instance,
            now,
            first_stage(instance, payments),
            answers,
        ) == seq![instance_ttl()] + batch_calls(instance, now, terms, payments, answers),
{
    law_steps_make_the_batch(instance, now, terms, payments, answers);
    assert(first_calls(instance, payments) + run_calls(
        instance,
        now,
        first_stage(instance, payments),
        answers,
    ) =~= seq![instance_ttl()] + (next_calls(payments) + run_calls(
        instance,
        now,
        first_stage(instance, payments),
        answers,
    )));
}

} // verus!
