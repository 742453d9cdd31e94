//! Setup, admin rights and the pause.

use vstd::prelude::*;

use crate::address::Address;
use crate::batch::{first_calls, first_stage, Stage};
use crate::ledger::{Event, HostCall, Instance, Invocation, StoredValue};
use crate::router::{
    admin_only, blacklist_calls, current_fee, fee_config_calls, initialized, pause_calls,
    set_admin_calls, set_instance_calls, unblacklist_calls,
};
use crate::routing::{fee_terms, largest_amount, FeeTerms};
use crate::types::{DataKey, Error, Halt, Payment};

verus! {

/// An admin-only function either fails for want of an admin and does nothing, or has the admin
/// authorize the invocation before it asks the host for anything else.
pub proof fn law_admin_authorizes_first(
    before: Invocation,
    result: Result<(), Error>,
    after: Invocation,
    instance: Instance,
    calls: spec_fn(Address) -> Seq<HostCall>,
)
    requires
        admin_only(before, result, after, instance, calls),
    ensures
        match before.instance.admin {
            None => result == Err::<(), Error>(Error::NotInitialized) && after == before,
            Some(admin) => {
                &&& result == Ok::<(), Error>(())
                &&& after.calls@.len() > before.calls@.len()
                &&& after.calls@.take(before.calls@.len() as int) == before.calls@
                &&& after.calls@[before.calls@.len() as int] == HostCall::RequireAuth(admin)
            },
        },
{
    if before.instance.admin is Some {
        assert(after.calls@.take(before.calls@.len() as int) =~= before.calls@);
    }
}

/// An admin-only function with an admin succeeds, asks for the admin's authorization and then for
/// just what it is there for, and sets the instance entries to just what it says; it changes
/// neither the contract's address nor the time, and takes nothing back that was asked for before.
pub proof fn law_admin_function_is_carried_out(
    before: Invocation,
    admin: Address,
    result: Result<(), Error>,
    after: Invocation,
    instance: Instance,
    calls: spec_fn(Address) -> Seq<HostCall>,
)
    requires
        before.instance.admin == Some(admin),
        admin_only(before, result, after, instance, calls),
    ensures
        result is Ok,
        after.instance == instance,
        after.contract == before.contract,
        after.timestamp == before.timestamp,
        after.calls@ =~= before.calls@ + seq![HostCall::RequireAuth(admin)] + calls(admin),
{
}

/// An invocation that extends another has asked for all that the other had, then for the calls.
pub proof fn law_extending_adds_calls(
    before: Invocation,
    after: Invocation,
    instance: Instance,
    calls: Seq<HostCall>,
)
    requires
        after.extends(before, instance, calls),
    ensures
        after.instance == instance,
        after.contract == before.contract,
        after.timestamp == before.timestamp,
        after.calls@ =~= before.calls@ + calls,
{
}

/// What the admin's functions ask of the host, the admin's authorization aside: entries are set,
/// and everything that is set is kept alive, the instance for seven days and a blacklist entry for
/// 30; a pause is announced.
pub proof fn law_admin_calls(
    key: DataKey,
    value: StoredValue,
    fee_bps: i128,
    fee_cap: i128,
    paused: bool,
    address: Address,
    admin: Address,
    new_admin: Address,
)
    ensures
        ({
            let kept = HostCall::ExtendInstanceTtl { threshold: 103_680, extend_to: 120_960 };
            let set_admin = HostCall::SetInstance(
                DataKey::Admin,
                StoredValue::Address(new_admin),
            );
            &&& set_instance_calls(key, value) =~= seq![HostCall::SetInstance(key, value), kept]
            &&& fee_config_calls(fee_bps, fee_cap) =~= seq![
                HostCall::SetInstance(DataKey::FeeBps, StoredValue::Amount(fee_bps)),
                HostCall::SetInstance(DataKey::FeeCap, StoredValue::Amount(fee_cap)),
                kept,
            ]
            &&& pause_calls(paused) =~= seq![
                HostCall::SetInstance(DataKey::Paused, StoredValue::Flag(paused)),
                kept,
                HostCall::Publish(Event::Pause { paused }),
            ]
            &&& set_admin_calls(None, new_admin) =~= seq![set_admin, kept]
            &&& set_admin_calls(Some(admin), new_admin) =~= seq![
                HostCall::RequireAuth(admin),
                set_admin,
                kept,
            ]
            &&& blacklist_calls(address) =~= seq![
                HostCall::SetPersistent(DataKey::Blacklist(address), StoredValue::Flag(true)),
                HostCall::ExtendPersistentTtl {
                    key: DataKey::Blacklist(address),
                    threshold: 501_120,
                    extend_to: 518_400,
                },
            ]
            &&& unblacklist_calls(address) =~= seq![
                HostCall::RemovePersistent(DataKey::Blacklist(address)),
            ]
        }),
{
}

/// `initialize` succeeds exactly on a contract without an admin. It then asks for the authorization
/// of the new admin and sets all six instance entries to what it was given, unpaused; on a contract
/// with an admin it does nothing.
pub proof fn law_initialize_sets_what_it_is_given(
    before: Invocation,
    result: Result<(), Error>,
    after: Invocation,
    admin: Address,
    platform_treasury: Address,
    fee_bps: i128,
    fee_cap: i128,
    max_amount: i128,
)
    requires
        initialized(
            before,
            result,
            after,
            admin,
            platform_treasury,
            fee_bps,
            fee_cap,
            max_amount,
        ),
    ensures
        before.instance.admin is Some ==> {
            &&& result == Err::<(), Error>(Error::AlreadyInitialized)
            &&& after == before
        },
        before.instance.admin is None ==> {
            &&& result == Ok::<(), Error>(())
            &&& after.instance.admin == Some(admin)
            &&& after.instance.platform_treasury == Some(platform_treasury)
            &&& after.instance.fee_bps == Some(fee_bps)
            &&& after.instance.fee_cap == Some(fee_cap)
            &&& after.instance.max_amount == Some(max_amount)
            &&& after.instance.paused == Some(false)
            &&& after.contract == before.contract
            &&& after.timestamp == before.timestamp
            &&& after.calls@ =~= before.calls@ + seq![
                HostCall::RequireAuth(admin),
                HostCall::SetInstance(DataKey::Admin, StoredValue::Address(admin)),
                HostCall::SetInstance(
                    DataKey::PlatformTreasury,
                    StoredValue::Address(platform_treasury),
                ),
                HostCall::SetInstance(DataKey::FeeBps, StoredValue::Amount(fee_bps)),
                HostCall::SetInstance(DataKey::FeeCap, StoredValue::Amount(fee_cap)),
                HostCall::SetInstance(DataKey::MaxAmount, StoredValue::Amount(max_amount)),
                HostCall::SetInstance(DataKey::Paused, StoredValue::Flag(false)),
                HostCall::ExtendInstanceTtl { threshold: 103_680, extend_to: 120_960 },
            ]
        },
{
}

/// Once admin rights have passed to a new address, be it by `set_admin` or by `transfer_admin`, it
/// is that address which every admin-only function asks for authorization.
pub proof fn law_new_admin_takes_over(
    start: Invocation,
    middle: Invocation,
    new_admin: Address,
    handover: Seq<HostCall>,
    result: Result<(), Error>,
    end: Invocation,
    instance: Instance,
    calls: spec_fn(Address) -> Seq<HostCall>,
)
    requires
        middle.extends(
            start,
            (Instance { admin: Some(new_admin), ..start.instance }),
            handover,
        ),
        admin_only(middle, result, end, instance, calls),
    ensures
        result is Ok,
        end.calls@.len() > middle.calls@.len(),
        end.calls@[middle.calls@.len() as int] == HostCall::RequireAuth(new_admin),
{
}

/// Once a contract has been initialized, every further `initialize` fails and does nothing.
pub proof fn law_initialize_once(
    start: Invocation,
    first: Result<(), Error>,
    middle: Invocation,
    admin: Address,
    platform_treasury: Address,
    fee_bps: i128,
    fee_cap: i128,
    max_amount: i128,
    second: Result<(), Error>,
    end: Invocation,
    other_admin: Address,
    other_treasury: Address,
    other_bps: i128,
    other_cap: i128,
    other_max: i128,
)
    requires
        initialized(
            start,
            first,
            middle,
            admin,
            platform_treasury,
            fee_bps,
            fee_cap,
            max_amount,
        ),
        initialized(
            middle,
            second,
            end,
            other_admin,
            other_treasury,
            other_bps,
            other_cap,
            other_max,
        ),
    ensures
        second == Err::<(), Error>(Error::AlreadyInitialized),
        end == middle,
{
}

/// A contract that was just initialized has the admin, fee and terms that it was given and is
/// not paused.
pub proof fn law_initialize_takes_effect(
    before: Invocation,
    result: Result<(), Error>,
    after: Invocation,
    admin: Address,
    platform_treasury: Address,
    fee_bps: i128,
    fee_cap: i128,
    max_amount: i128,
)
    requires
        before.instance.admin is None,
        initialized(
            before,
            result,
            after,
            admin,
            platform_treasury,
            fee_bps,
            fee_cap,
            max_amount,
        ),
    ensures
        result is Ok,
        after.instance.admin == Some(admin),
        current_fee(after.instance) == fee_bps,
        after.instance.paused == Some(false),
        fee_terms(after.instance) == Some(
            FeeTerms { platform_treasury, fee_bps, fee_cap },
        ),
        largest_amount(after.instance) == max_amount,
{
}

/// A paused router refuses every batch, the empty one too, and asks nothing of the host.
pub proof fn law_paused_router_refuses(instance: Instance, payments: Seq<Payment>)
    requires
        instance.paused == Some(true),
    ensures
        first_stage(instance, payments) == Stage::Done(Err(Halt::Refused(Error::Paused))),
        first_calls(instance, payments) == Seq::<HostCall>::empty(),
{
}

/// A router that is not paused and lacks a treasury, a fee rate or a fee cap refuses every batch
/// as not initialized, and asks nothing of the host.
pub proof fn law_unset_router_refuses(instance: Instance, payments: Seq<Payment>)
    requires
        instance.paused != Some(true),
        instance.platform_treasury is None || instance.fee_bps is None || instance.fee_cap is None,
    ensures
        first_stage(instance, payments) == Stage::Done(Err(Halt::Refused(Error::NotInitialized))),
        first_calls(instance, payments) == Seq::<HostCall>::empty(),
{
}

/// Pausing stops all routing, and unpausing undoes it: routing then goes by the fee terms as if
/// the router had never been paused.
pub proof fn law_unpausing_undoes_pausing(instance: Instance, payments: Seq<Payment>)
    requires
        instance.paused != Some(true),
    ensures
        ({
            let paused = Instance { paused: Some(true), ..instance };
            let unpaused = Instance { paused: Some(false), ..paused };
            &&& first_stage(paused, payments) == Stage::Done(Err(Halt::Refused(Error::Paused)))
            &&& first_stage(unpaused, payments) == first_stage(instance, payments)
            &&& first_calls(unpaused, payments) == first_calls(instance, payments)
        }),
{
}

} // verus!
