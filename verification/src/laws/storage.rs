//! What the host is asked to store is what the contract says that it holds.

use vstd::prelude::*;

use crate::address::Address;
use crate::ledger::{
    account_of, instance_of, replay, replay_first, Account, Entries, HostCall, Instance,
    StoredValue,
};
use crate::router::{
    blacklist_calls, fee_config_calls, initial_instance, initialize_calls, pause_calls,
    set_admin_calls, set_instance_calls, unblacklist_calls,
};
use crate::routing::{
    admission, admission_calls, opening_calls, payment_calls, payment_fee, payout_calls,
    persistent_ttl, record_calls, sender_after, settlement, settlement_calls, transfer_calls,
    FeeTerms,
};
use crate::types::{DataKey, Error, Halt, Payment, UserSpending};

verus! {

/// The first calls of two lists decide alone, where the lists agree on them.
proof fn lemma_replay_prefix(entries: Entries, calls: Seq<HostCall>, other: Seq<HostCall>, n: nat)
    requires
        n <= calls.len(),
        n <= other.len(),
        forall|i: int| 0 <= i < n ==> calls[i] == other[i],
    ensures
        replay_first(entries, calls, n) == replay_first(entries, other, n),
    decreases n,
{
    if n > 0 {
        lemma_replay_prefix(entries, calls, other, (n - 1) as nat);
    }
}

/// The calls of a second list work on what the first has left.
proof fn lemma_replay_suffix(
    entries: Entries,
    first: Seq<HostCall>,
    second: Seq<HostCall>,
    n: nat,
)
    requires
        n <= second.len(),
    ensures
        replay_first(entries, first + second, first.len() + n) == replay_first(
            replay(entries, first),
            second,
            n,
        ),
    decreases n,
{
    if n == 0 {
        lemma_replay_prefix(entries, first + second, first, first.len());
    } else {
        lemma_replay_suffix(entries, first, second, (n - 1) as nat);
    }
}

/// Carrying out two lists of calls one after the other is carrying out their concatenation.
pub proof fn law_replay_in_parts(entries: Entries, first: Seq<HostCall>, second: Seq<HostCall>)
    ensures
        replay(entries, first + second) == replay(replay(entries, first), second),
{
    lemma_replay_suffix(entries, first, second, second.len());
}

/// Whether every account holds the same entries before and after.
pub open spec fn same_accounts(before: Entries, after: Entries) -> bool {
    forall|address: Address| #[trigger] account_of(after, address) == account_of(before, address)
}

/// What `initialize` has the host store is what it says that the instance holds, and it leaves
/// every account as it was.
pub proof fn law_initialize_is_stored(
    entries: Entries,
    admin: Address,
    platform_treasury: Address,
    fee_bps: i128,
    fee_cap: i128,
    max_amount: i128,
)
    ensures
        ({
            let after = replay(
                entries,
                initialize_calls(admin, platform_treasury, fee_bps, fee_cap, max_amount),
            );
            &&& instance_of(after) == initial_instance(
                admin,
                platform_treasury,
                fee_bps,
                fee_cap,
                max_amount,
            )
            &&& same_accounts(entries, after)
        }),
{
    reveal_with_fuel(replay_first, 9);
}

/// What the admin's setters have the host store is what they say that the instance holds, and
/// they leave the other instance entries and every account as they were.
pub proof fn law_settings_are_stored(
    entries: Entries,
    admin: Address,
    other: Address,
    fee_bps: i128,
    fee_cap: i128,
    paused: bool,
)
    ensures
        ({
            let after = replay(
                entries,
                seq![HostCall::RequireAuth(admin)] + set_instance_calls(
                    DataKey::PlatformTreasury,
                    StoredValue::Address(other),
                ),
            );
            &&& instance_of(after) == (Instance {
                platform_treasury: Some(other),
                ..instance_of(entries)
            })
            &&& same_accounts(entries, after)
        }),
        ({
            let after = replay(
                entries,
                seq![HostCall::RequireAuth(admin)] + fee_config_calls(fee_bps, fee_cap),
            );
            &&& instance_of(after) == (Instance {
                fee_bps: Some(fee_bps),
                fee_cap: Some(fee_cap),
                ..instance_of(entries)
            })
            &&& same_accounts(entries, after)
        }),
        ({
            let after = replay(
                entries,
                seq![HostCall::RequireAuth(admin)] + set_instance_calls(
                    DataKey::FeeBps,
                    StoredValue::Amount(fee_bps),
                ),
            );
            &&& instance_of(after) == (Instance {
                fee_bps: Some(fee_bps),
                ..instance_of(entries)
            })
            &&& same_accounts(entries, after)
        }),
        ({
            let after = replay(entries, seq![HostCall::RequireAuth(admin)] + pause_calls(paused));
            &&& instance_of(after) == (Instance { paused: Some(paused), ..instance_of(entries) })
            &&& same_accounts(entries, after)
        }),
        ({
            let after = replay(
                entries,
                seq![HostCall::RequireAuth(admin)] + set_instance_calls(
                    DataKey::Admin,
                    StoredValue::Address(other),
                ),
            );
            &&& instance_of(after) == (Instance { admin: Some(other), ..instance_of(entries) })
            &&& same_accounts(entries, after)
        }),
        ({
            let after = replay(entries, set_admin_calls(instance_of(entries).admin, other));
            &&& instance_of(after) == (Instance { admin: Some(other), ..instance_of(entries) })
            &&& same_accounts(entries, after)
        }),
{
    reveal_with_fuel(replay_first, 4);

    let gate = seq![HostCall::RequireAuth(admin)];
    assert(replay(entries, gate) == entries);
    law_replay_in_parts(
        entries,
        gate,
        set_instance_calls(DataKey::PlatformTreasury, StoredValue::Address(other)),
    );
    law_replay_in_parts(entries, gate, fee_config_calls(fee_bps, fee_cap));
    law_replay_in_parts(
        entries,
        gate,
        set_instance_calls(DataKey::FeeBps, StoredValue::Amount(fee_bps)),
    );
    law_replay_in_parts(entries, gate, pause_calls(paused));
    let set_admin = set_instance_calls(DataKey::Admin, StoredValue::Address(other));
    law_replay_in_parts(entries, gate, set_admin);
    match instance_of(entries).admin {
        Some(current) => {
            let current_gate = seq![HostCall::RequireAuth(current)];
            assert(replay(entries, current_gate) == entries);
            law_replay_in_parts(entries, current_gate, set_admin);
        },
        None => {
            assert(set_admin_calls(None, other) =~= set_admin);
        },
    }
}

/// A blacklisted address is found blacklisted, one taken off the list is found free, and nothing
/// else that is stored changes.
pub proof fn law_blacklist_is_stored(entries: Entries, admin: Address, address: Address)
    ensures
        ({
            let after = replay(
                entries,
                seq![HostCall::RequireAuth(admin)] + blacklist_calls(address),
            );
            &&& account_of(after, address) == (Account {
                blacklisted: Some(true),
                ..account_of(entries, address)
            })
            &&& instance_of(after) == instance_of(entries)
            &&& forall|other: Address|
                other != address ==> #[trigger] account_of(after, other) == account_of(
                    entries,
                    other,
                )
        }),
        ({
            let after = replay(
                entries,
                seq![HostCall::RequireAuth(admin)] + unblacklist_calls(address),
            );
            &&& account_of(after, address) == (Account {
                blacklisted: None,
                ..account_of(entries, address)
            })
            &&& instance_of(after) == instance_of(entries)
            &&& forall|other: Address|
                other != address ==> #[trigger] account_of(after, other) == account_of(
                    entries,
                    other,
                )
        }),
{
    reveal_with_fuel(replay_first, 4);

    let gate = seq![HostCall::RequireAuth(admin)];
    assert(replay(entries, gate) == entries);
    law_replay_in_parts(entries, gate, blacklist_calls(address));
    law_replay_in_parts(entries, gate, unblacklist_calls(address));
}

/// Nobody can pay an address once it is blacklisted. Taking it off the list undoes that: payments
/// to it are then admitted or refused as if it had never been on it.
pub proof fn law_blacklisting_stops_payments(
    entries: Entries,
    admin: Address,
    instance: Instance,
    now: u64,
    payment: Payment,
    sender: Account,
)
    requires
        payment.sender != payment.recipient,
    ensures
        ({
            let gate = seq![HostCall::RequireAuth(admin)];
            let listed = replay(entries, gate + blacklist_calls(payment.recipient));
            let cleared = replay(listed, gate + unblacklist_calls(payment.recipient));
            &&& admission(instance, now, payment, sender, account_of(listed, payment.recipient))
                == Err::<UserSpending, Halt>(Halt::Refused(Error::Blacklisted))
            &&& account_of(entries, payment.recipient).blacklisted != Some(true) ==> admission(
                instance,
                now,
                payment,
                sender,
                account_of(cleared, payment.recipient),
            ) == admission(
                instance,
                now,
                payment,
                sender,
                account_of(entries, payment.recipient),
            )
        }),
{
    let listed = replay(
        entries,
        seq![HostCall::RequireAuth(admin)] + blacklist_calls(payment.recipient),
    );
    law_blacklist_is_stored(entries, admin, payment.recipient);
    law_blacklist_is_stored(listed, admin, payment.recipient);
}

/// Calls that store nothing leave the entries alone.
proof fn lemma_payout_stores_nothing(
    entries: Entries,
    payment: Payment,
    terms: FeeTerms,
    fee: int,
)
    ensures
        replay(entries, payout_calls(payment, terms, fee)) == entries,
{
    reveal_with_fuel(replay_first, 4);

    let to_treasury = transfer_calls(
        payment.token_address,
        payment.sender,
        terms.platform_treasury,
        fee,
    );
    let to_recipient = transfer_calls(
        payment.token_address,
        payment.sender,
        payment.recipient,
        payment.amount - fee,
    );
    law_replay_in_parts(entries, to_treasury, to_recipient);
    assert(replay(entries, to_treasury) == entries);
    assert(replay(entries, to_recipient) == entries);
}

/// What a payment has the host store is what it says of the sender's entries, whether it is
/// carried through or stops halfway; the instance and all other accounts are left alone.
pub proof fn law_payment_is_stored(
    entries: Entries,
    instance: Instance,
    now: u64,
    payment: Payment,
    terms: FeeTerms,
    recipient: Account,
    balance: i128,
)
    ensures
        ({
            let sender = account_of(entries, payment.sender);
            let after = replay(
                entries,
                payment_calls(instance, now, payment, terms, sender, recipient, balance),
            );
            &&& account_of(after, payment.sender) == sender_after(
                instance,
                now,
                payment,
                terms,
                sender,
                recipient,
                balance,
            )
            &&& instance_of(after) == instance_of(entries)
            &&& forall|other: Address|
                other != payment.sender ==> #[trigger] account_of(after, other) == account_of(
                    entries,
                    other,
                )
        }),
{
    reveal_with_fuel(replay_first, 4);

    let sender = account_of(entries, payment.sender);
    let opening = opening_calls(payment);
    assert(replay(entries, opening) == entries);
    match admission(instance, now, payment, sender, recipient) {
        Err(_) => {
            assert(opening + seq![] =~= opening);
        },
        Ok(spending) => {
            let admitting = admission_calls(payment, Ok(spending));
            let settling = settlement_calls(payment, terms, sender, balance);
            let admitted = replay(entries, admitting);
            law_replay_in_parts(entries, opening, admitting + settling);
            law_replay_in_parts(entries, admitting, settling);
            let fee = payment_fee(payment, terms, sender);
            lemma_payout_stores_nothing(admitted, payment, terms, fee);
            match settlement(payment, terms, sender, balance) {
                Ok(volume) => {
                    law_replay_in_parts(
                        admitted,
                        payout_calls(payment, terms, fee),
                        record_calls(payment, volume),
                    );
                },
                Err(_) => {
                    assert(payout_calls(payment, terms, fee) + seq![] =~= payout_calls(
                        payment,
                        terms,
                        fee,
                    ));
                    assert(replay(admitted, settling) == admitted);
                },
            }
        },
    }
}

/// Whether every entry of persistent storage that the calls set is kept alive by the call that
/// follows.
pub open spec fn kept_alive(calls: Seq<HostCall>) -> bool {
    forall|i: int|
        #![trigger calls[i]]
        0 <= i < calls.len() ==> match calls[i] {
            HostCall::SetPersistent(key, _) => i + 1 < calls.len() && calls[i + 1]
                == persistent_ttl(key),
            _ => true,
        }
}

/// Every entry that a payment or the blacklist stores has its lifetime extended at once.
pub proof fn law_stored_entries_are_kept_alive(
    instance: Instance,
    now: u64,
    payment: Payment,
    terms: FeeTerms,
    sender: Account,
    recipient: Account,
    balance: i128,
    admin: Address,
    address: Address,
)
    ensures
        kept_alive(payment_calls(instance, now, payment, terms, sender, recipient, balance)),
        kept_alive(seq![HostCall::RequireAuth(admin)] + blacklist_calls(address)),
{
}

} // verus!
