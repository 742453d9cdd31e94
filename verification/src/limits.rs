//! The daily spending limit: what a sender has routed in the current 24-hour window.

use vstd::prelude::*;

use crate::laws::limits::{clock_holds, routed_before, window_opened};
use crate::router::PaymentRouter;
use crate::types::{Error, Halt, UserSpending};

verus! {

/// The spending window that holds at `now`: a new one for a sender who has none, or whose last
/// one is a day old.
pub open spec fn current_window(stored: Option<UserSpending>, now: u64) -> UserSpending {
    match stored {
        Some(spending) if now - spending.last_reset_time < PaymentRouter::SECONDS_IN_24H => spending,
        _ => UserSpending { last_reset_time: now, accumulated_amount: 0 },
    }
}

/// What a sender has spent in the window of `now` once `amount` is added.
pub open spec fn window_total(stored: Option<UserSpending>, now: u64, amount: int) -> int {
    current_window(stored, now).accumulated_amount + amount
}

/// Whether the window can be worked out at all: the clock has not run backwards and the total
/// fits in 128 bits.
pub open spec fn window_computes(stored: Option<UserSpending>, now: u64, amount: int) -> bool {
    &&& stored matches Some(spending) ==> spending.last_reset_time <= now
    &&& i128::MIN <= window_total(stored, now, amount) <= i128::MAX
}

/// What adding `amount` to the window of `now` comes to.
pub open spec fn spent(stored: Option<UserSpending>, now: u64, amount: i128) -> Result<
    UserSpending,
    Halt,
> {
    if !window_computes(stored, now, amount as int) {
        Err(Halt::Overflow)
    } else if window_total(stored, now, amount as int) > PaymentRouter::DAILY_MAX_LIMIT {
        Err(Halt::Refused(Error::LimitExceeded))
    } else {
        Ok(
            UserSpending {
                last_reset_time: current_window(stored, now).last_reset_time,
                accumulated_amount: window_total(stored, now, amount as int) as i128,
            },
        )
    }
}

/// Adds `amount` to what a sender has spent in the window that holds at `now`.
pub fn spend(stored: Option<UserSpending>, now: u64, amount: i128) -> (result: Result<
    UserSpending,
    Halt,
>)
    ensures
        result == spent(stored, now, amount),
        result is Ok <==> clock_holds(stored, now) && i128::MIN <= routed_before(stored, now)
            + amount <= 10_000_000_000_000,
        result matches Ok(spending) ==> spending.accumulated_amount == routed_before(stored, now)
            + amount && spending.last_reset_time == window_opened(stored, now),
{
    let mut spending: UserSpending = match stored {
        Some(spending) => spending,
        None => UserSpending { last_reset_time: now, accumulated_amount: 0 },
    };
    if spending.last_reset_time > now {
        return Err(Halt::Overflow);
    }
    if now - spending.last_reset_time >= PaymentRouter::SECONDS_IN_24H {
        spending.last_reset_time = now;
        spending.accumulated_amount = 0;
    }
    match spending.accumulated_amount.checked_add(amount) {
        None => Err(Halt::Overflow),
        Some(total) => {
            if total > PaymentRouter::DAILY_MAX_LIMIT {
                return Err(Halt::Refused(Error::LimitExceeded));
            }
            spending.accumulated_amount = total;
            Ok(spending)
        },
    }
}

} // verus!
