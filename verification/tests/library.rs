//! The library by itself: exact values, every error, every overflow, and the order of what is asked
//! of the host.

use payment_router::address::Address;
use payment_router::batch::Progress;
use payment_router::fees::{effective_fee_bps, split_amount, Split};
use payment_router::ledger::{Account, Event, HostCall, Instance, Invocation, StoredValue};
use payment_router::limits::spend;
use payment_router::router::PaymentRouter;
use payment_router::routing::FeeTerms;
use payment_router::types::{DataKey, Error, Halt, Payment, UserSpending};

fn address(letter: u8) -> Address {
    Address { strkey: [letter; 56] }
}

const NOBODY: Account = Account { volume: None, spending: None, blacklisted: None };

const UNSET: Instance = Instance {
    admin: None,
    platform_treasury: None,
    fee_bps: None,
    fee_cap: None,
    paused: None,
    max_amount: None,
};

/// Admin `A`, treasury `T`, 1% fee with a cap of 50, contract `C`, at time 1000.
fn ready() -> Invocation {
    let instance = Instance {
        admin: Some(address(b'A')),
        platform_treasury: Some(address(b'T')),
        fee_bps: Some(100),
        fee_cap: Some(50),
        paused: Some(false),
        max_amount: Some(PaymentRouter::MAX_AMOUNT),
    };
    Invocation::new(instance, address(b'C'), 1000)
}

fn unset() -> Invocation {
    Invocation::new(UNSET, address(b'C'), 1000)
}

/// From `S` to `R` in the token `X`.
fn payment(amount: i128) -> Payment {
    Payment {
        sender: address(b'S'),
        recipient: address(b'R'),
        token_address: address(b'X'),
        amount,
    }
}

fn terms(fee_bps: i128, fee_cap: i128) -> FeeTerms {
    FeeTerms { platform_treasury: address(b'T'), fee_bps, fee_cap }
}

fn window(last_reset_time: u64, accumulated_amount: i128) -> UserSpending {
    UserSpending { last_reset_time, accumulated_amount }
}

/// Calls by what they show, so that lists of them can be held against each other.
fn shown(calls: &[HostCall]) -> Vec<String> {
    calls.iter().map(|call| format!("{:?}", call)).collect()
}

fn asked(env: &mut Invocation) -> Vec<String> {
    shown(&env.take_calls())
}

fn instance_ttl() -> HostCall {
    HostCall::ExtendInstanceTtl { threshold: 103_680, extend_to: 120_960 }
}

fn persistent_ttl(key: DataKey) -> HostCall {
    HostCall::ExtendPersistentTtl { key, threshold: 501_120, extend_to: 518_400 }
}

fn opening(payment: &Payment) -> Vec<HostCall> {
    vec![
        HostCall::RequireAuth(payment.sender),
        HostCall::Publish(Event::PaymentInitiated {
            sender: payment.sender,
            amount: payment.amount,
        }),
    ]
}

fn admitting(payment: &Payment, spending: UserSpending) -> Vec<HostCall> {
    let key = DataKey::UserSpending(payment.sender);
    vec![HostCall::SetPersistent(key, StoredValue::Spending(spending)), persistent_ttl(key)]
}

fn recording(payment: &Payment, volume: i128) -> Vec<HostCall> {
    let key = DataKey::UserVolume(payment.sender);
    vec![
        HostCall::SetPersistent(key, StoredValue::Amount(volume)),
        persistent_ttl(key),
        HostCall::Publish(Event::Routed {
            sender: payment.sender,
            recipient: payment.recipient,
            amount: payment.amount,
        }),
    ]
}

fn transfer(payment: &Payment, to: Address, amount: i128) -> HostCall {
    HostCall::Transfer { token: payment.token_address, from: payment.sender, to, amount }
}

// ── Addresses and errors ────────────────────────────────────────────────────

#[test]
fn addresses_differ_in_any_character() {
    let a = address(b'A');
    assert!(a == a);
    for i in [0, 1, 27, 55] {
        let mut strkey = a.strkey;
        strkey[i] = b'B';
        assert!(a != Address { strkey });
    }
}

#[test]
fn payments_and_keys_can_be_told_apart() {
    assert_eq!(payment(10), payment(10));
    assert_ne!(payment(10), payment(11));
    assert_ne!(payment(10), Payment { recipient: address(b'Q'), ..payment(10) });
    assert_eq!(DataKey::UserVolume(address(b'S')), DataKey::UserVolume(address(b'S')));
    assert_ne!(DataKey::UserVolume(address(b'S')), DataKey::UserVolume(address(b'R')));
    assert_ne!(DataKey::UserVolume(address(b'S')), DataKey::Blacklist(address(b'S')));
    assert_ne!(DataKey::FeeBps, DataKey::FeeCap);
}

#[test]
fn errors_have_stable_codes() {
    assert_eq!(Error::Unauthorized.code(), 1);
    assert_eq!(Error::InsufficientBalance.code(), 2);
    assert_eq!(Error::LimitExceeded.code(), 3);
    assert_eq!(Error::AlreadyInitialized.code(), 4);
    assert_eq!(Error::NotInitialized.code(), 5);
    assert_eq!(Error::Paused.code(), 6);
    assert_eq!(Error::InvalidFeeRate.code(), 7);
    assert_eq!(Error::InvalidRecipient.code(), 8);
    assert_eq!(Error::Blacklisted.code(), 9);
}

#[test]
fn events_have_names() {
    let s = address(b'S');
    assert_eq!(Event::PaymentInitiated { sender: s, amount: 1 }.name(), "payment_initiated");
    assert_eq!(Event::Routed { sender: s, recipient: s, amount: 1 }.name(), "routed");
    assert_eq!(Event::Pause { paused: true }.name(), "pause");
}

#[test]
fn constants_have_their_values() {
    assert_eq!(PaymentRouter::BPS_DIVISOR, 10_000);
    assert_eq!(PaymentRouter::XLM_DECIMALS, 10_000_000);
    assert_eq!(PaymentRouter::MAX_AMOUNT, 1_000_000_000_000_000);
    assert_eq!(PaymentRouter::DAILY_MAX_LIMIT, 10_000_000_000_000);
    assert_eq!(PaymentRouter::VOLUME_THRESHOLD, 100_000_000_000);
    assert_eq!(PaymentRouter::SECONDS_IN_24H, 86_400);
    assert_eq!(PaymentRouter::VERSION, 1);
    assert_eq!(PaymentRouter::DAY_IN_LEDGERS, 17_280);
    assert_eq!(PaymentRouter::INSTANCE_BUMP_AMOUNT, 120_960);
    assert_eq!(PaymentRouter::INSTANCE_LIFETIME_THRESHOLD, 103_680);
    assert_eq!(PaymentRouter::USER_BUMP_AMOUNT, 518_400);
    assert_eq!(PaymentRouter::USER_LIFETIME_THRESHOLD, 501_120);
    assert_eq!(PaymentRouter::PERSISTENT_BUMP_AMOUNT, 518_400);
    assert_eq!(PaymentRouter::PERSISTENT_LIFETIME_THRESHOLD, 501_120);
}

// ── Fees ────────────────────────────────────────────────────────────────────

#[test]
fn discount_begins_above_the_threshold() {
    let threshold = PaymentRouter::VOLUME_THRESHOLD;
    assert_eq!(effective_fee_bps(100, 0), 100);
    assert_eq!(effective_fee_bps(100, threshold), 100);
    assert_eq!(effective_fee_bps(100, threshold + 1), 50);
    // Half a rate is rounded towards zero
    assert_eq!(effective_fee_bps(101, threshold + 1), 50);
    assert_eq!(effective_fee_bps(-101, threshold + 1), -50);
    assert_eq!(effective_fee_bps(1, threshold + 1), 0);
    assert_eq!(effective_fee_bps(i128::MIN, threshold + 1), i128::MIN / 2);
}

#[test]
fn fee_is_the_share_the_cap_or_the_amount() {
    assert_eq!(split_amount(2_000, 100, 50), Some(Split { fee: 20, remainder: 1_980 }));
    assert_eq!(split_amount(8_000, 100, 50), Some(Split { fee: 50, remainder: 7_950 }));
    assert_eq!(split_amount(1_000, 10_000, i128::MAX), Some(Split { fee: 1_000, remainder: 0 }));
    assert_eq!(split_amount(1_000, 20_000, i128::MAX), Some(Split { fee: 1_000, remainder: 0 }));
    // Rounded towards zero, on either side of it
    assert_eq!(split_amount(199, 100, 50), Some(Split { fee: 1, remainder: 198 }));
    assert_eq!(split_amount(99, 100, 50), Some(Split { fee: 0, remainder: 99 }));
    assert_eq!(split_amount(199, -100, 50), Some(Split { fee: -1, remainder: 200 }));
    assert_eq!(split_amount(1_000, 100, -7), Some(Split { fee: -7, remainder: 1_007 }));
}

#[test]
fn split_overflows_are_reported() {
    // The product
    assert_eq!(split_amount(2, i128::MAX, 50), None);
    assert_eq!(split_amount(i128::MAX, 10_000, 50), None);
    // The remainder
    assert_eq!(split_amount(1, 1, i128::MIN), None);
    // Both just fit
    assert_eq!(
        split_amount(1, i128::MAX, i128::MAX),
        Some(Split { fee: 1, remainder: 0 })
    );
    assert_eq!(
        split_amount(1, 1, -i128::MAX + 1),
        Some(Split { fee: -i128::MAX + 1, remainder: i128::MAX })
    );
}

#[test]
fn discount_never_costs_the_sender() {
    for amount in [0, 1, 99, 10_000, 123_456_789] {
        for fee_bps in [0, 1, 99, 100, 10_000, 20_001] {
            let full = split_amount(amount, effective_fee_bps(fee_bps, 0), 1_000).unwrap();
            let volume = PaymentRouter::VOLUME_THRESHOLD + 1;
            let reduced = split_amount(amount, effective_fee_bps(fee_bps, volume), 1_000).unwrap();
            assert!(reduced.fee <= full.fee);
        }
    }
}

// ── The daily limit ─────────────────────────────────────────────────────────

#[test]
fn window_ends_after_a_day() {
    let stored = Some(window(1_000, 700));
    assert_eq!(spend(None, 1_000, 5), Ok(window(1_000, 5)));
    assert_eq!(spend(stored, 1_000, 5), Ok(window(1_000, 705)));
    assert_eq!(spend(stored, 1_000 + 86_399, 5), Ok(window(1_000, 705)));
    assert_eq!(spend(stored, 1_000 + 86_400, 5), Ok(window(87_400, 5)));
}

#[test]
fn window_holds_up_to_the_limit() {
    let limit = PaymentRouter::DAILY_MAX_LIMIT;
    assert_eq!(spend(None, 0, limit), Ok(window(0, limit)));
    assert_eq!(spend(None, 0, limit + 1), Err(Halt::Refused(Error::LimitExceeded)));
    let full = Some(window(0, limit));
    assert_eq!(spend(full, 86_399, 1), Err(Halt::Refused(Error::LimitExceeded)));
    assert_eq!(spend(full, 86_400, 1), Ok(window(86_400, 1)));
    // A day after it was opened, a window is as good as none
    assert_eq!(spend(full, 90_000, limit), spend(None, 90_000, limit));
}

#[test]
fn window_overflows_are_reported() {
    // The clock has run backwards
    assert_eq!(spend(Some(window(1_001, 0)), 1_000, 5), Err(Halt::Overflow));
    // The sum
    assert_eq!(spend(Some(window(1_000, 6)), 1_000, i128::MAX - 5), Err(Halt::Overflow));
    assert_eq!(
        spend(Some(window(1_000, 5)), 1_000, i128::MAX - 5),
        Err(Halt::Refused(Error::LimitExceeded))
    );
}

// ── One payment ─────────────────────────────────────────────────────────────

#[test]
fn payment_asks_the_host_in_order() {
    let mut env = ready();
    let p = payment(2_000);
    let mut sender = Account { volume: Some(30), spending: Some(window(900, 7)), ..NOBODY };
    let result = PaymentRouter::process_single_payment(
        &mut env,
        &p,
        &terms(100, 50),
        &mut sender,
        &NOBODY,
        2_000,
    );
    assert_eq!(result, Ok(()));
    assert_eq!(sender.volume, Some(2_030));
    assert_eq!(sender.spending, Some(window(900, 2_007)));
    let mut expected = opening(&p);
    expected.extend(admitting(&p, window(900, 2_007)));
    expected.push(transfer(&p, address(b'T'), 20));
    expected.push(transfer(&p, address(b'R'), 1_980));
    expected.extend(recording(&p, 2_030));
    assert_eq!(asked(&mut env), shown(&expected));
}

#[test]
fn payment_leaves_out_empty_transfers() {
    let moved = |fee_bps: i128| {
        let mut env = ready();
        let result = PaymentRouter::process_single_payment(
            &mut env,
            &payment(1_000),
            &terms(fee_bps, i128::MAX),
            &mut NOBODY.clone(),
            &NOBODY,
            1_000,
        );
        assert_eq!(result, Ok(()));
        let calls = env.take_calls();
        let transfers: Vec<HostCall> =
            calls.into_iter().filter(|call| matches!(call, HostCall::Transfer { .. })).collect();
        shown(&transfers)
    };
    let p = payment(1_000);
    assert_eq!(moved(0), shown(&[transfer(&p, address(b'R'), 1_000)]));
    assert_eq!(moved(10_000), shown(&[transfer(&p, address(b'T'), 1_000)]));
    assert_eq!(
        moved(100),
        shown(&[transfer(&p, address(b'T'), 10), transfer(&p, address(b'R'), 990)])
    );
}

/// What a payment comes to, and how many calls it has asked for by then.
fn outcome(
    p: Payment,
    terms: FeeTerms,
    sender: Account,
    recipient: Account,
    balance: i128,
) -> (Result<(), Halt>, usize, Account) {
    let mut env = ready();
    let mut account = sender;
    let result = PaymentRouter::process_single_payment(
        &mut env,
        &p,
        &terms,
        &mut account,
        &recipient,
        balance,
    );
    (result, env.take_calls().len(), account)
}

#[test]
fn payment_refusals_come_in_order() {
    let t = terms(100, 50);
    let listed = Account { blacklisted: Some(true), ..NOBODY };
    let to_self = Payment { recipient: address(b'S'), ..payment(-5) };
    let refused = |error: Error| Err(Halt::Refused(error));

    let (result, calls, _) = outcome(to_self, t, NOBODY, listed, 0);
    assert_eq!((result, calls), (refused(Error::InvalidRecipient), 2));

    let (result, calls, _) = outcome(payment(-5), t, NOBODY, listed, 0);
    assert_eq!((result, calls), (refused(Error::Blacklisted), 2));

    for amount in [i128::MIN, -5, 0, PaymentRouter::MAX_AMOUNT + 1] {
        let (result, calls, _) = outcome(payment(amount), t, NOBODY, NOBODY, 0);
        assert_eq!((result, calls), (refused(Error::LimitExceeded), 2));
    }

    let over = payment(PaymentRouter::DAILY_MAX_LIMIT + 1);
    let (result, calls, account) = outcome(over, t, NOBODY, NOBODY, 0);
    assert_eq!((result, calls), (refused(Error::LimitExceeded), 2));
    assert!(account.spending.is_none());

    let (result, calls, account) = outcome(payment(10), t, NOBODY, NOBODY, 9);
    assert_eq!((result, calls), (refused(Error::InsufficientBalance), 4));
    assert_eq!(account.spending, Some(window(1_000, 10)));
    assert_eq!(account.volume, None);

    // A flag that was set to false does not blacklist anybody, nor does the sender's own flag
    let cleared = Account { blacklisted: Some(false), ..NOBODY };
    let (result, _, _) = outcome(payment(10), t, listed, cleared, 10);
    assert_eq!(result, Ok(()));
}

#[test]
fn payment_overflows_are_reported() {
    // The fee
    let (result, calls, _) = outcome(payment(2), terms(i128::MAX, 50), NOBODY, NOBODY, 2);
    assert_eq!((result, calls), (Err(Halt::Overflow), 4));
    // The balance is looked at first
    let (result, _, _) = outcome(payment(2), terms(i128::MAX, 50), NOBODY, NOBODY, 1);
    assert_eq!(result, Err(Halt::Refused(Error::InsufficientBalance)));
    // The volume, when the tokens have moved
    let rich = Account { volume: Some(i128::MAX), ..NOBODY };
    let (result, calls, account) = outcome(payment(200), terms(100, 50), rich, NOBODY, 200);
    assert_eq!((result, calls), (Err(Halt::Overflow), 6));
    assert_eq!(account.volume, Some(i128::MAX));
    // The clock
    let early = Account { spending: Some(window(1_001, 0)), ..NOBODY };
    let (result, calls, _) = outcome(payment(2), terms(100, 50), early, NOBODY, 2);
    assert_eq!((result, calls), (Err(Halt::Overflow), 2));
}

#[test]
fn payment_goes_by_the_volume_before_it() {
    let at = Account { volume: Some(PaymentRouter::VOLUME_THRESHOLD), ..NOBODY };
    let above = Account { volume: Some(PaymentRouter::VOLUME_THRESHOLD + 1), ..NOBODY };
    let fee = |sender: Account| {
        let mut env = ready();
        let result = PaymentRouter::process_single_payment(
            &mut env,
            &payment(10_000),
            &terms(100, i128::MAX),
            &mut sender.clone(),
            &NOBODY,
            10_000,
        );
        assert_eq!(result, Ok(()));
        shown(&env.take_calls()[4..5])
    };
    assert_eq!(fee(at), shown(&[transfer(&payment(0), address(b'T'), 100)]));
    assert_eq!(fee(above), shown(&[transfer(&payment(0), address(b'T'), 50)]));
}

// ── Routing step by step ────────────────────────────────────────────────────

/// Routes with the given accounts and balance for every payment, and collects what is asked for.
fn carried(
    env: &mut Invocation,
    mut progress: Progress,
    sender: &mut Account,
    recipient: Account,
    balances: &[i128],
) -> (Result<(), Halt>, Vec<HostCall>) {
    let mut calls: Vec<HostCall> = Vec::new();
    let mut told = 0;
    loop {
        for call in env.take_calls() {
            match call {
                HostCall::SetPersistent(DataKey::UserSpending(_), StoredValue::Spending(spending)) => {
                    sender.spending = Some(spending)
                }
                HostCall::SetPersistent(DataKey::UserVolume(_), StoredValue::Amount(volume)) => {
                    sender.volume = Some(volume)
                }
                _ => {}
            }
            calls.push(call);
        }
        progress = match progress {
            Progress::NeedAccounts(query) => {
                assert!(query.sender() == address(b'S'));
                query.answer(env, *sender, recipient)
            }
            Progress::NeedBalance(query) => {
                assert!(query.token() == address(b'X'));
                assert!(query.holder() == address(b'S'));
                told += 1;
                query.answer(env, balances[told - 1])
            }
            Progress::Done(result) => return (result, calls),
        };
    }
}

fn routed(
    payments: Vec<Payment>,
    balances: &[i128],
    sender: &mut Account,
) -> (Result<(), Halt>, Vec<HostCall>) {
    let mut env = ready();
    let progress = PaymentRouter::route_payments(&mut env, payments);
    carried(&mut env, progress, sender, NOBODY, balances)
}

#[test]
fn batch_makes_its_payments_in_turn() {
    let (p, q) = (payment(2_000), payment(300));
    let mut sender = NOBODY;
    let (result, calls) = routed(vec![p, q], &[2_300, 300], &mut sender);
    assert_eq!(result, Ok(()));
    assert_eq!(sender.volume, Some(2_300));
    assert_eq!(sender.spending, Some(window(1_000, 2_300)));

    // The same as the two payments by themselves, behind the instance's extension
    let mut env = ready();
    let mut account = NOBODY;
    for (payment, balance) in [(p, 2_300), (q, 300)] {
        let result = PaymentRouter::process_single_payment(
            &mut env,
            &payment,
            &terms(100, 50),
            &mut account,
            &NOBODY,
            balance,
        );
        assert_eq!(result, Ok(()));
    }
    let mut expected = vec![instance_ttl()];
    expected.extend(env.take_calls());
    assert_eq!(shown(&calls), shown(&expected));
}

#[test]
fn batch_of_one_is_a_payment() {
    let p = payment(2_000);
    let (result, calls) = routed(vec![p], &[2_000], &mut NOBODY.clone());
    let mut env = ready();
    let progress = PaymentRouter::route_payment(
        &mut env,
        p.sender,
        p.recipient,
        p.token_address,
        p.amount,
    );
    let (single, single_calls) =
        carried(&mut env, progress, &mut NOBODY.clone(), NOBODY, &[2_000]);
    assert_eq!(result, Ok(()));
    assert_eq!(result, single);
    assert_eq!(shown(&calls), shown(&single_calls));
}

#[test]
fn batch_stops_at_the_first_payment_that_stops() {
    let payments = vec![payment(10), payment(20), payment(-1)];
    // The second payment finds too little: the third is never begun
    let (result, calls) = routed(payments, &[10, 19], &mut NOBODY.clone());
    assert_eq!(result, Err(Halt::Refused(Error::InsufficientBalance)));
    let begun = calls.iter().filter(|call| matches!(call, HostCall::RequireAuth(_))).count();
    assert_eq!(begun, 2);
}

#[test]
fn batch_stays_within_the_daily_limit() {
    let half = PaymentRouter::DAILY_MAX_LIMIT / 2;
    let payments = vec![payment(half), payment(half), payment(1)];
    let mut sender = NOBODY;
    let (result, _) = routed(payments, &[half, half], &mut sender);
    assert_eq!(result, Err(Halt::Refused(Error::LimitExceeded)));
    assert_eq!(sender.spending, Some(window(1_000, 2 * half)));
}

#[test]
fn batch_moves_only_authorized_tokens() {
    let (result, calls) = routed(vec![payment(700), payment(900)], &[1_600, 900], &mut NOBODY.clone());
    assert_eq!(result, Ok(()));
    let mut authorized: Vec<Address> = Vec::new();
    let mut total = 0;
    for call in calls {
        match call {
            HostCall::RequireAuth(who) => authorized.push(who),
            HostCall::Transfer { from, amount, .. } => {
                assert!(authorized.contains(&from));
                total += amount;
            }
            _ => {}
        }
    }
    assert_eq!(total, 1_600);
}

#[test]
fn empty_batch_only_extends_the_instance() {
    let mut env = ready();
    let progress = PaymentRouter::route_payments(&mut env, vec![]);
    assert!(matches!(progress, Progress::Done(Ok(()))));
    assert_eq!(asked(&mut env), shown(&[instance_ttl()]));
}

#[test]
fn paused_router_asks_for_nothing() {
    for payments in [vec![], vec![payment(10)]] {
        let mut env = ready();
        env.instance.paused = Some(true);
        let progress = PaymentRouter::route_payments(&mut env, payments.clone());
        assert!(matches!(progress, Progress::Done(Err(Halt::Refused(Error::Paused)))));
        assert_eq!(env.take_calls().len(), 0);

        // Unpausing undoes it
        env.instance.paused = Some(false);
        let progress = PaymentRouter::route_payments(&mut env, payments);
        assert!(!matches!(progress, Progress::Done(Err(_))));
    }
}

#[test]
fn router_without_terms_is_not_initialized() {
    let mut no_treasury = ready();
    no_treasury.instance.platform_treasury = None;
    let mut no_rate = ready();
    no_rate.instance.fee_bps = None;
    let mut no_cap = ready();
    no_cap.instance.fee_cap = None;
    for mut env in [no_treasury, no_rate, no_cap, unset()] {
        assert!(matches!(
            PaymentRouter::load_fee_config(&mut env),
            Err(Error::NotInitialized)
        ));
        let progress = PaymentRouter::route_payments(&mut env, vec![payment(10)]);
        assert!(matches!(progress, Progress::Done(Err(Halt::Refused(Error::NotInitialized)))));
        assert_eq!(env.take_calls().len(), 0);
    }
    // Without an admin or a largest amount it still routes, up to the default
    let mut env = ready();
    env.instance.admin = None;
    env.instance.max_amount = None;
    let mut account = NOBODY;
    for (amount, result) in [
        (PaymentRouter::DAILY_MAX_LIMIT, Ok(())),
        (PaymentRouter::MAX_AMOUNT + 1, Err(Halt::Refused(Error::LimitExceeded))),
    ] {
        let progress = PaymentRouter::route_payments(&mut env, vec![payment(amount)]);
        let (found, _) = carried(&mut env, progress, &mut account, NOBODY, &[amount]);
        assert_eq!(found, result);
    }
}

#[test]
fn largest_amount_can_be_set() {
    let mut env = ready();
    env.instance.max_amount = Some(5_000);
    for (amount, result) in
        [(5_000, Ok(())), (5_001, Err(Halt::Refused(Error::LimitExceeded)))]
    {
        let progress = PaymentRouter::route_payments(&mut env, vec![payment(amount)]);
        let (found, _) = carried(&mut env, progress, &mut NOBODY.clone(), NOBODY, &[amount]);
        assert_eq!(found, result);
    }
}

// ── Setup and admin ─────────────────────────────────────────────────────────

#[test]
fn initialize_sets_everything_once() {
    let mut env = unset();
    let (a, t) = (address(b'A'), address(b'T'));
    assert_eq!(PaymentRouter::initialize(&mut env, a, t, 100, 50, 7_000), Ok(()));
    assert_eq!(
        asked(&mut env),
        shown(&[
            HostCall::RequireAuth(a),
            HostCall::SetInstance(DataKey::Admin, StoredValue::Address(a)),
            HostCall::SetInstance(DataKey::PlatformTreasury, StoredValue::Address(t)),
            HostCall::SetInstance(DataKey::FeeBps, StoredValue::Amount(100)),
            HostCall::SetInstance(DataKey::FeeCap, StoredValue::Amount(50)),
            HostCall::SetInstance(DataKey::MaxAmount, StoredValue::Amount(7_000)),
            HostCall::SetInstance(DataKey::Paused, StoredValue::Flag(false)),
            instance_ttl(),
        ])
    );
    assert!(matches!(PaymentRouter::require_admin(&env), Ok(admin) if admin == a));
    assert_eq!(PaymentRouter::get_fee(&env), 100);
    assert!(!PaymentRouter::is_paused(&env));
    assert_eq!(env.instance.max_amount, Some(7_000));

    let again = PaymentRouter::initialize(&mut env, t, a, 1, 2, 3);
    assert_eq!(again, Err(Error::AlreadyInitialized));
    assert_eq!(env.take_calls().len(), 0);
    assert_eq!(PaymentRouter::get_fee(&env), 100);
}

/// Runs an admin function on a contract with admin `A` and on one without.
fn as_admin(
    function: impl Fn(&mut Invocation) -> Result<(), Error>,
    calls: &[HostCall],
) -> Invocation {
    let mut env = unset();
    assert_eq!(function(&mut env), Err(Error::NotInitialized));
    assert_eq!(env.take_calls().len(), 0);

    let mut env = ready();
    assert_eq!(function(&mut env), Ok(()));
    let mut expected = vec![HostCall::RequireAuth(address(b'A'))];
    expected.extend_from_slice(calls);
    assert_eq!(asked(&mut env), shown(&expected));
    env
}

fn set(key: DataKey, value: StoredValue) -> HostCall {
    HostCall::SetInstance(key, value)
}

#[test]
fn admin_setters_set_and_extend() {
    let n = address(b'N');
    let env = as_admin(
        |env| PaymentRouter::set_platform_treasury(env, n),
        &[set(DataKey::PlatformTreasury, StoredValue::Address(n)), instance_ttl()],
    );
    assert!(env.instance.platform_treasury == Some(n));

    let fees = [
        set(DataKey::FeeBps, StoredValue::Amount(300)),
        set(DataKey::FeeCap, StoredValue::Amount(-1)),
        instance_ttl(),
    ];
    let env = as_admin(|env| PaymentRouter::set_fee_config_legacy(env, 300, -1), &fees);
    assert_eq!((env.instance.fee_bps, env.instance.fee_cap), (Some(300), Some(-1)));
    let env = as_admin(|env| PaymentRouter::set_fee_config(env, 300, -1), &fees);
    assert_eq!((env.instance.fee_bps, env.instance.fee_cap), (Some(300), Some(-1)));

    let env = as_admin(
        |env| PaymentRouter::set_fee_bps(env, 5),
        &[set(DataKey::FeeBps, StoredValue::Amount(5)), instance_ttl()],
    );
    assert_eq!((env.instance.fee_bps, env.instance.fee_cap), (Some(5), Some(50)));
}

#[test]
fn pausing_is_announced() {
    for paused in [true, false] {
        let calls = [
            set(DataKey::Paused, StoredValue::Flag(paused)),
            instance_ttl(),
            HostCall::Publish(Event::Pause { paused }),
        ];
        let env = as_admin(|env| PaymentRouter::set_pause(env, paused), &calls);
        assert_eq!(PaymentRouter::is_paused(&env), paused);
        let env = as_admin(|env| PaymentRouter::set_paused(env, paused), &calls);
        assert_eq!(PaymentRouter::is_paused(&env), paused);
    }
}

#[test]
fn blacklisting_and_back() {
    let (b, key) = (address(b'B'), DataKey::Blacklist(address(b'B')));
    as_admin(
        |env| PaymentRouter::blacklist_address(env, b, &mut NOBODY.clone()),
        &[HostCall::SetPersistent(key, StoredValue::Flag(true)), persistent_ttl(key)],
    );
    as_admin(
        |env| PaymentRouter::unblacklist_address(env, b, &mut NOBODY.clone()),
        &[HostCall::RemovePersistent(key)],
    );

    let mut env = ready();
    let mut account = Account { volume: Some(9), ..NOBODY };
    assert_eq!(PaymentRouter::blacklist_address(&mut env, b, &mut account), Ok(()));
    assert!(PaymentRouter::is_blacklisted(&account));
    assert_eq!(PaymentRouter::unblacklist_address(&mut env, b, &mut account), Ok(()));
    assert!(!PaymentRouter::is_blacklisted(&account));
    assert_eq!(account.volume, Some(9));
}

#[test]
fn new_admin_takes_over() {
    let n = address(b'N');
    let handover = [set(DataKey::Admin, StoredValue::Address(n)), instance_ttl()];
    let mut env = as_admin(|env| PaymentRouter::transfer_admin(env, n), &handover);
    assert_eq!(PaymentRouter::set_fee_bps(&mut env, 5), Ok(()));
    assert_eq!(shown(&env.take_calls()[..1]), shown(&[HostCall::RequireAuth(n)]));

    // Without an admin anybody can set one, and nobody is asked
    let mut env = unset();
    assert_eq!(PaymentRouter::set_admin(&mut env, n), Ok(()));
    assert_eq!(asked(&mut env), shown(&handover));
    // With one it is asked
    assert_eq!(PaymentRouter::set_admin(&mut env, address(b'M')), Ok(()));
    assert_eq!(shown(&env.take_calls()[..1]), shown(&[HostCall::RequireAuth(n)]));
    assert!(env.instance.admin == Some(address(b'M')));
}

#[test]
fn admin_takes_tokens_out_of_the_contract() {
    let x = address(b'X');
    let out = [HostCall::Transfer {
        token: x,
        from: address(b'C'),
        to: address(b'A'),
        amount: 33,
    }];
    as_admin(|env| PaymentRouter::recover_tokens(env, x, 33), &out);
    as_admin(|env| PaymentRouter::emergency_withdraw(env, x, 33), &out);
}

#[test]
fn admin_upgrades_the_code() {
    as_admin(|env| PaymentRouter::upgrade(env, [7; 32]), &[HostCall::UpdateWasm([7; 32])]);
}

#[test]
fn supported_tokens_are_not_recorded() {
    let mut env = unset();
    assert_eq!(PaymentRouter::add_supported_token(&mut env, address(b'X')), Ok(()));
    assert_eq!(env.take_calls().len(), 0);
    assert_eq!(PaymentRouter::version(&env), 1);
}

#[test]
fn getters_have_defaults() {
    let env = unset();
    assert_eq!(PaymentRouter::get_fee(&env), 0);
    assert!(!PaymentRouter::is_paused(&env));
    assert_eq!(PaymentRouter::get_user_volume(&NOBODY), 0);
    assert!(!PaymentRouter::is_blacklisted(&NOBODY));
    assert_eq!(PaymentRouter::get_effective_fee_bps(&env, &NOBODY), 0);
    let known = Account { volume: Some(PaymentRouter::VOLUME_THRESHOLD + 1), ..NOBODY };
    assert_eq!(PaymentRouter::get_user_volume(&known), 100_000_000_001);
    assert_eq!(PaymentRouter::get_effective_fee_bps(&ready(), &known), 50);
    assert_eq!(PaymentRouter::get_effective_fee_bps(&ready(), &NOBODY), 100);
}

#[test]
fn calls_are_handed_out_once() {
    let mut env = ready();
    assert_eq!(PaymentRouter::set_fee_bps(&mut env, 5), Ok(()));
    assert_eq!(env.take_calls().len(), 3);
    assert_eq!(env.take_calls().len(), 0);
    assert_eq!(env.timestamp, 1_000);
    assert!(env.contract == address(b'C'));
}
