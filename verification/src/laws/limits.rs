//! The daily limit over any number of payments.

use vstd::prelude::*;

use crate::limits::{current_window, spent};
use crate::router::PaymentRouter;
use crate::types::{Error, Halt, UserSpending};

verus! {

/// Whether the clock has not run backwards since the stored window was opened.
pub open spec fn clock_holds(stored: Option<UserSpending>, now: u64) -> bool {
    match stored {
        Some(spending) => spending.last_reset_time <= now,
        None => true,
    }
}

/// What a sender has routed before in the 24 hours that are running at `now`.
pub open spec fn routed_before(stored: Option<UserSpending>, now: u64) -> int {
    match stored {
        Some(spending) => if now < spending.last_reset_time + 86_400 {
            spending.accumulated_amount as int
        } else {
            0
        },
        None => 0,
    }
}

/// When the 24 hours that are running at `now` began.
pub open spec fn window_opened(stored: Option<UserSpending>, now: u64) -> int {
    match stored {
        Some(spending) => if now < spending.last_reset_time + 86_400 {
            spending.last_reset_time as int
        } else {
            now as int
        },
        None => now as int,
    }
}

/// An amount is granted exactly if what the sender has routed in the running 24 hours stays at or
/// below 1M tokens with it, at whatever time within them. It is refused exactly if the sum is
/// above. An amount that is granted is added, and the window keeps its beginning.
pub proof fn law_spending_granted(stored: Option<UserSpending>, now: u64, amount: i128)
    ensures
        ({
            let sum = routed_before(stored, now) + amount;
            let counts = clock_holds(stored, now) && i128::MIN <= sum <= i128::MAX;
            &&& spent(stored, now, amount) is Ok <==> counts && sum <= 10_000_000_000_000
            &&& spent(stored, now, amount) == Err::<UserSpending, Halt>(
                Halt::Refused(Error::LimitExceeded),
            ) <==> counts && sum > 10_000_000_000_000
            &&& spent(stored, now, amount) == Err::<UserSpending, Halt>(Halt::Overflow) <==> !counts
            &&& spent(stored, now, amount) matches Ok(spending) ==> {
                &&& spending.last_reset_time == window_opened(stored, now)
                &&& spending.accumulated_amount == sum
            }
        }),
{
}

/// Two amounts within one window are granted one after the other exactly if their sum would be
/// granted at once, and leave the same window behind.
pub proof fn law_amounts_add_up(
    stored: Option<UserSpending>,
    now: u64,
    later: u64,
    first: i128,
    second: i128,
    both: i128,
)
    requires
        0 < first,
        0 < second,
        both == first + second,
        now <= later < window_opened(stored, now) + 86_400,
    ensures
        spent(stored, now, both) is Ok <==> match spent(stored, now, first) {
            Ok(spending) => spent(Some(spending), later, second) is Ok,
            Err(_) => false,
        },
        spent(stored, now, both) is Ok ==> match spent(stored, now, first) {
            Ok(spending) => spent(Some(spending), later, second) == spent(stored, now, both),
            Err(_) => false,
        },
{
}

/// Amounts that a sender has asked to route, each with the ledger time.
pub type History = Seq<(u64, i128)>;

/// The sender's spending entry after the first `n` amounts.
pub open spec fn spending_after(
    stored: Option<UserSpending>,
    history: History,
    n: nat,
) -> Option<UserSpending>
    decreases n,
{
    if n == 0 {
        stored
    } else {
        let before = spending_after(stored, history, (n - 1) as nat);
        match spent(before, history[n - 1].0, history[n - 1].1) {
            Ok(spending) => Some(spending),
            Err(_) => before,
        }
    }
}

/// Whether the limit lets each of the first `n` amounts pass.
pub open spec fn all_pass(stored: Option<UserSpending>, history: History, n: nat) -> bool {
    forall|i: int|
        #![trigger history[i]]
        0 <= i < n ==> spent(
            spending_after(stored, history, i as nat),
            history[i].0,
            history[i].1,
        ) is Ok
}

/// The first `n` amounts added up.
pub open spec fn total(history: History, n: nat) -> int
    decreases n,
{
    if n == 0 {
        0
    } else {
        total(history, (n - 1) as nat) + history[n - 1].1
    }
}

/// Amounts that pass within one window add up in it, and the window never holds more than the
/// daily limit.
pub proof fn law_window_stays_within_limit(
    stored: Option<UserSpending>,
    history: History,
    n: nat,
)
    requires
        0 < n <= history.len(),
        all_pass(stored, history, n),
        forall|i: int|
            #![trigger history[i]]
            0 <= i < n ==> history[i].0 - current_window(stored, history[0].0).last_reset_time
                < PaymentRouter::SECONDS_IN_24H,
    ensures
        ({
            let window = current_window(stored, history[0].0);
            &&& window.accumulated_amount + total(history, n) <= PaymentRouter::DAILY_MAX_LIMIT
            &&& spending_after(stored, history, n) matches Some(spending)
            &&& spending.last_reset_time == window.last_reset_time
            &&& spending.accumulated_amount == window.accumulated_amount + total(history, n)
        }),
    decreases n,
{
    let before = spending_after(stored, history, (n - 1) as nat);
    assert(spent(before, history[n - 1].0, history[n - 1].1) is Ok);
    if n > 1 {
        law_window_stays_within_limit(stored, history, (n - 1) as nat);
    } else {
        reveal_with_fuel(total, 2);
    }
}

/// A sender without an earlier window cannot route more than the daily limit within 24 hours of
/// the first payment.
pub proof fn law_daily_limit(history: History)
    requires
        history.len() > 0,
        all_pass(None, history, history.len()),
        forall|i: int|
            #![trigger history[i]]
            0 <= i < history.len() ==> history[i].0 - history[0].0 < PaymentRouter::SECONDS_IN_24H,
    ensures
        total(history, history.len()) <= PaymentRouter::DAILY_MAX_LIMIT,
{
    law_window_stays_within_limit(None, history, history.len());
}

/// A sender without an earlier window who asks for positive amounts within 24 hours of the first,
/// no more than the daily limit in all, is granted every one of them.
pub proof fn law_daily_limit_is_granted(history: History, n: nat)
    requires
        n <= history.len(),
        forall|i: int|
            #![trigger history[i]]
            0 <= i < n ==> history[0].0 <= history[i].0 < history[0].0 + 86_400 && history[i].1 > 0,
        total(history, n) <= 10_000_000_000_000,
    ensures
        all_pass(None, history, n),
        n > 0 ==> {
            &&& spending_after(None, history, n) matches Some(spending)
            &&& spending.last_reset_time == history[0].0
            &&& spending.accumulated_amount == total(history, n)
            &&& 0 < total(history, n)
        },
    decreases n,
{
    if n > 0 {
        assert(history[n - 1].1 > 0);
        assert(history[0].0 <= history[n - 1].0);
        law_daily_limit_is_granted(history, (n - 1) as nat);
        if n == 1 {
            reveal_with_fuel(total, 2);
            reveal_with_fuel(spending_after, 2);
        }
        law_spending_granted(
            spending_after(None, history, (n - 1) as nat),
            history[n - 1].0,
            history[n - 1].1,
        );
        assert forall|i: int| 0 <= i < n implies spent(
            spending_after(None, history, i as nat),
            (#[trigger] history[i]).0,
            history[i].1,
        ) is Ok by {}
    }
}

/// From 24 hours after the window was opened on, what was spent in it no longer counts.
pub proof fn law_limit_resets(spending: UserSpending, now: u64, amount: i128)
    requires
        now - spending.last_reset_time >= PaymentRouter::SECONDS_IN_24H,
    ensures
        spent(Some(spending), now, amount) == spent(None, now, amount),
{
}

/// Every window that positive amounts leave behind was opened no later than now and holds
/// something, but no more than the daily limit.
pub proof fn law_stored_window_is_sound(
    stored: Option<UserSpending>,
    now: u64,
    amount: i128,
)
    requires
        amount > 0,
        stored matches Some(spending) ==> spending.accumulated_amount >= 0,
    ensures
        spent(stored, now, amount) matches Ok(spending) ==> {
            &&& spending.last_reset_time <= now
            &&& now - spending.last_reset_time < PaymentRouter::SECONDS_IN_24H
            &&& 0 < spending.accumulated_amount <= PaymentRouter::DAILY_MAX_LIMIT
        },
{
}

} // verus!
