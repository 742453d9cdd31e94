//! What the contract keeps on the ledger and what it has the ledger host do.

use vstd::prelude::*;

use crate::address::Address;
use crate::types::{DataKey, UserSpending};

verus! {

/// A value that the contract keeps under a [`DataKey`].
#[derive(Clone, Copy, Debug)]
pub enum StoredValue {
    Address(Address),
    Amount(i128),
    Flag(bool),
    Spending(UserSpending),
}

/// What instance storage holds; `None` where an entry has never been set.
#[derive(Clone, Copy, Debug)]
pub struct Instance {
    pub admin: Option<Address>,
    pub platform_treasury: Option<Address>,
    pub fee_bps: Option<i128>,
    pub fee_cap: Option<i128>,
    pub paused: Option<bool>,
    pub max_amount: Option<i128>,
}

/// What persistent storage holds under one address; `None` where there is no entry.
#[derive(Clone, Copy, Debug)]
pub struct Account {
    /// Kept under [`DataKey::UserVolume`].
    pub volume: Option<i128>,
    /// Kept under [`DataKey::UserSpending`].
    pub spending: Option<UserSpending>,
    /// Kept under [`DataKey::Blacklist`].
    pub blacklisted: Option<bool>,
}

/// An event that the contract publishes.
#[derive(Clone, Copy, Debug)]
pub enum Event {
    /// Topics: the name and the sender. Data: the amount.
    PaymentInitiated { sender: Address, amount: i128 },
    /// Topics: the name, the sender and the recipient. Data: the amount.
    Routed { sender: Address, recipient: Address, amount: i128 },
    /// Topics: the name alone. Data: the flag.
    Pause { paused: bool },
}

/// The first topic of an event.
pub open spec fn event_name(event: Event) -> Seq<char> {
    match event {
        Event::PaymentInitiated { .. } => "payment_initiated"@,
        Event::Routed { .. } => "routed"@,
        Event::Pause { .. } => "pause"@,
    }
}

impl Event {
    /// The first topic of the event.
    pub fn name(&self) -> (name: &'static str)
        ensures
            name@ == event_name(*self),
    {
        match self {
            Event::PaymentInitiated { .. } => "payment_initiated",
            Event::Routed { .. } => "routed",
            Event::Pause { .. } => "pause",
        }
    }
}

/// One thing that the contract has the ledger host do.
#[derive(Clone, Copy, Debug)]
pub enum HostCall {
    /// Go on only if this address has authorized the invocation; trap otherwise.
    RequireAuth(Address),
    /// Set an entry of instance storage.
    SetInstance(DataKey, StoredValue),
    /// Set an entry of persistent storage.
    SetPersistent(DataKey, StoredValue),
    /// Remove an entry of persistent storage.
    RemovePersistent(DataKey),
    /// Where the instance has fewer than `threshold` ledgers to live, give it `extend_to`.
    ExtendInstanceTtl { threshold: u32, extend_to: u32 },
    /// The same for an entry of persistent storage.
    ExtendPersistentTtl { key: DataKey, threshold: u32, extend_to: u32 },
    /// Publish an event.
    Publish(Event),
    /// Have the token contract move `amount` from one address to another; trap if it does not.
    Transfer { token: Address, from: Address, to: Address, amount: i128 },
    /// Replace the contract's code by the uploaded code with this hash.
    UpdateWasm([u8; 32]),
}

/// A contract call that is being worked out.
pub struct Invocation {
    /// What instance storage holds.
    pub instance: Instance,
    /// The contract's own address.
    pub contract: Address,
    /// Time of the ledger in which the call runs.
    pub timestamp: u64,
    /// What the host has yet to do, first things first.
    pub calls: Vec<HostCall>,
}

impl Invocation {
    /// A call that has asked nothing of the host yet.
    pub fn new(instance: Instance, contract: Address, timestamp: u64) -> (env: Invocation)
        ensures
            env.instance == instance,
            env.contract == contract,
            env.timestamp == timestamp,
            env.calls@ == Seq::<HostCall>::empty(),
    {
        Invocation { instance, contract, timestamp, calls: Vec::new() }
    }

    /// Hands out what the host has yet to do.
    pub fn take_calls(&mut self) -> (calls: Vec<HostCall>)
        ensures
            calls@ == old(self).calls@,
            final(self).calls@ == Seq::<HostCall>::empty(),
            final(self).same_setting(*old(self)),
            final(self).instance == old(self).instance,
    {
        let mut calls: Vec<HostCall> = Vec::new();
        std::mem::swap(&mut calls, &mut self.calls);
        calls
    }

    /// Whether two calls run for the same contract at the same time.
    pub open spec fn same_setting(self, other: Invocation) -> bool {
        self.contract == other.contract && self.timestamp == other.timestamp
    }

    /// Whether `self` is `before` with the instance entries `instance` and with `calls` asked of
    /// the host on top of what had been asked.
    pub open spec fn extends(
        self,
        before: Invocation,
        instance: Instance,
        calls: Seq<HostCall>,
    ) -> bool {
        &&& self.same_setting(before)
        &&& self.instance == instance
        &&& self.calls@ =~= before.calls@ + calls
    }
}

/// The entries of the contract: what its storage holds under each key.
pub type Entries = Map<DataKey, StoredValue>;

/// The entries once the host has carried out one call.
pub open spec fn apply(entries: Entries, call: HostCall) -> Entries {
    match call {
        HostCall::SetInstance(key, value) => entries.insert(key, value),
        HostCall::SetPersistent(key, value) => entries.insert(key, value),
        HostCall::RemovePersistent(key) => entries.remove(key),
        _ => entries,
    }
}

/// The entries once the host has carried out the first `n` of the calls.
pub open spec fn replay_first(entries: Entries, calls: Seq<HostCall>, n: nat) -> Entries
    decreases n,
{
    if n == 0 {
        entries
    } else {
        apply(replay_first(entries, calls, (n - 1) as nat), calls[n - 1])
    }
}

/// The entries once the host has carried out the calls, first to last.
pub open spec fn replay(entries: Entries, calls: Seq<HostCall>) -> Entries {
    replay_first(entries, calls, calls.len())
}

/// The calls whose effects last once an invocation is over: all of them if the invocation comes
/// back without an error. Otherwise the host takes everything back that it has carried out, what
/// was stored and what was transferred, and none of them last.
pub open spec fn kept_calls<E>(result: Result<(), E>, calls: Seq<HostCall>) -> Seq<HostCall> {
    match result {
        Ok(_) => calls,
        Err(_) => seq![],
    }
}

/// The entries once an invocation is over.
pub open spec fn committed<E>(
    entries: Entries,
    result: Result<(), E>,
    calls: Seq<HostCall>,
) -> Entries {
    replay(entries, kept_calls(result, calls))
}

/// The address kept under `key`, if there is one.
pub open spec fn address_at(entries: Entries, key: DataKey) -> Option<Address> {
    if entries.dom().contains(key) {
        match entries[key] {
            StoredValue::Address(address) => Some(address),
            _ => None,
        }
    } else {
        None
    }
}

/// The amount kept under `key`, if there is one.
pub open spec fn amount_at(entries: Entries, key: DataKey) -> Option<i128> {
    if entries.dom().contains(key) {
        match entries[key] {
            StoredValue::Amount(amount) => Some(amount),
            _ => None,
        }
    } else {
        None
    }
}

/// The flag kept under `key`, if there is one.
pub open spec fn flag_at(entries: Entries, key: DataKey) -> Option<bool> {
    if entries.dom().contains(key) {
        match entries[key] {
            StoredValue::Flag(flag) => Some(flag),
            _ => None,
        }
    } else {
        None
    }
}

/// The spending window kept under `key`, if there is one.
pub open spec fn spending_at(entries: Entries, key: DataKey) -> Option<UserSpending> {
    if entries.dom().contains(key) {
        match entries[key] {
            StoredValue::Spending(spending) => Some(spending),
            _ => None,
        }
    } else {
        None
    }
}

/// The instance entries among `entries`.
pub open spec fn instance_of(entries: Entries) -> Instance {
    Instance {
        admin: address_at(entries, DataKey::Admin),
        platform_treasury: address_at(entries, DataKey::PlatformTreasury),
        fee_bps: amount_at(entries, DataKey::FeeBps),
        fee_cap: amount_at(entries, DataKey::FeeCap),
        paused: flag_at(entries, DataKey::Paused),
        max_amount: amount_at(entries, DataKey::MaxAmount),
    }
}

/// The entries kept under `address`.
pub open spec fn account_of(entries: Entries, address: Address) -> Account {
    Account {
        volume: amount_at(entries, DataKey::UserVolume(address)),
        spending: spending_at(entries, DataKey::UserSpending(address)),
        blacklisted: flag_at(entries, DataKey::Blacklist(address)),
    }
}

} // verus!
