//! The contract: its constants, its setup and what its admin can do.

use vstd::prelude::*;

use crate::address::Address;
use crate::fees::effective_fee_bps;
use crate::laws::payments::is_rate;
use crate::ledger::{Account, Event, HostCall, Instance, Invocation, StoredValue};
use crate::routing::{instance_ttl, persistent_ttl, sender_bps};
use crate::types::{DataKey, Error};

verus! {

/// The payment router contract.
#[derive(Clone, Copy, Debug)]
pub struct PaymentRouter;

impl PaymentRouter {
    /// Basis points in the whole.
    pub const BPS_DIVISOR: i128 = 10_000;

    /// Smallest units in one XLM.
    pub const XLM_DECIMALS: i128 = 10_000_000;

    /// Largest payment where the admin has set no other: 100M tokens with 7 decimals.
    pub const MAX_AMOUNT: i128 = 1_000_000_000_000_000;

    /// Most that a sender may route in one 24-hour window: 1M tokens.
    pub const DAILY_MAX_LIMIT: i128 = 1_000_000 * Self::XLM_DECIMALS;

    /// Volume above which a sender's fee is halved: 10,000 XLM.
    pub const VOLUME_THRESHOLD: i128 = 10_000 * Self::XLM_DECIMALS;

    /// Length of a spending window.
    pub const SECONDS_IN_24H: u64 = 24 * 3600;

    /// Version of the contract.
    pub const VERSION: u32 = 1;

    /// Ledgers closed in a day.
    pub const DAY_IN_LEDGERS: u32 = 17280;

    /// Ledgers that the instance is given to live.
    pub const INSTANCE_BUMP_AMOUNT: u32 = 7 * Self::DAY_IN_LEDGERS;

    /// Ledgers left to live below which the instance is given more.
    pub const INSTANCE_LIFETIME_THRESHOLD: u32 = Self::INSTANCE_BUMP_AMOUNT - Self::DAY_IN_LEDGERS;

    /// Ledgers that an entry of a user is given to live.
    pub const USER_BUMP_AMOUNT: u32 = 30 * Self::DAY_IN_LEDGERS;

    /// Ledgers left to live below which an entry of a user is given more.
    pub const USER_LIFETIME_THRESHOLD: u32 = Self::USER_BUMP_AMOUNT - Self::DAY_IN_LEDGERS;

    /// The same for every entry of persistent storage.
    pub const PERSISTENT_BUMP_AMOUNT: u32 = Self::USER_BUMP_AMOUNT;

    /// The same for every entry of persistent storage.
    pub const PERSISTENT_LIFETIME_THRESHOLD: u32 = Self::USER_LIFETIME_THRESHOLD;
}

/// What an admin-only function does: without an admin it fails and does nothing; with one it asks
/// for the admin's authorization first, then for `calls(admin)`, and leaves the instance entries
/// `instance`.
pub open spec fn admin_only(
    before: Invocation,
    result: Result<(), Error>,
    after: Invocation,
    instance: Instance,
    calls: spec_fn(Address) -> Seq<HostCall>,
) -> bool {
    match before.instance.admin {
        None => {
            &&& result == Err::<(), Error>(Error::NotInitialized)
            &&& after == before
        },
        Some(admin) => {
            &&& result == Ok::<(), Error>(())
            &&& after.extends(before, instance, seq![HostCall::RequireAuth(admin)] + calls(admin))
        },
    }
}

/// An instance entry is set and the instance kept alive.
pub open spec fn set_instance_calls(key: DataKey, value: StoredValue) -> Seq<HostCall> {
    seq![HostCall::SetInstance(key, value), instance_ttl()]
}

/// The current fee rate; 0 where none is set.
pub open spec fn current_fee(instance: Instance) -> i128 {
    match instance.fee_bps {
        Some(fee_bps) => fee_bps,
        None => 0,
    }
}

/// The instance entries that `initialize` sets.
pub open spec fn initial_instance(
    admin: Address,
    platform_treasury: Address,
    fee_bps: i128,
    fee_cap: i128,
    max_amount: i128,
) -> Instance {
    Instance {
        admin: Some(admin),
        platform_treasury: Some(platform_treasury),
        fee_bps: Some(fee_bps),
        fee_cap: Some(fee_cap),
        paused: Some(false),
        max_amount: Some(max_amount),
    }
}

/// What `initialize` asks of the host.
pub open spec fn initialize_calls(
    admin: Address,
    platform_treasury: Address,
    fee_bps: i128,
    fee_cap: i128,
    max_amount: i128,
) -> Seq<HostCall> {
    seq![
        HostCall::RequireAuth(admin),
        HostCall::SetInstance(DataKey::Admin, StoredValue::Address(admin)),
        HostCall::SetInstance(DataKey::PlatformTreasury, StoredValue::Address(platform_treasury)),
        HostCall::SetInstance(DataKey::FeeBps, StoredValue::Amount(fee_bps)),
        HostCall::SetInstance(DataKey::FeeCap, StoredValue::Amount(fee_cap)),
        HostCall::SetInstance(DataKey::MaxAmount, StoredValue::Amount(max_amount)),
        HostCall::SetInstance(DataKey::Paused, StoredValue::Flag(false)),
        instance_ttl(),
    ]
}

/// What `initialize` does: with an admin it fails and does nothing; without one it sets all
/// instance entries.
pub open spec fn initialized(
    before: Invocation,
    result: Result<(), Error>,
    after: Invocation,
    admin: Address,
    platform_treasury: Address,
    fee_bps: i128,
    fee_cap: i128,
    max_amount: i128,
) -> bool {
    match before.instance.admin {
        Some(_) => {
            &&& result == Err::<(), Error>(Error::AlreadyInitialized)
            &&& after == before
        },
        None => {
            &&& result == Ok::<(), Error>(())
            &&& after.extends(
                before,
                initial_instance(admin, platform_treasury, fee_bps, fee_cap, max_amount),
                initialize_calls(admin, platform_treasury, fee_bps, fee_cap, max_amount),
            )
        },
    }
}

/// What `set_fee_config` asks of the host, the admin's authorization aside.
pub open spec fn fee_config_calls(fee_bps: i128, fee_cap: i128) -> Seq<HostCall> {
    seq![
        HostCall::SetInstance(DataKey::FeeBps, StoredValue::Amount(fee_bps)),
        HostCall::SetInstance(DataKey::FeeCap, StoredValue::Amount(fee_cap)),
        instance_ttl(),
    ]
}

/// What `set_pause` asks of the host, the admin's authorization aside.
pub open spec fn pause_calls(paused: bool) -> Seq<HostCall> {
    seq![
        HostCall::SetInstance(DataKey::Paused, StoredValue::Flag(paused)),
        instance_ttl(),
        HostCall::Publish(Event::Pause { paused }),
    ]
}

/// What `blacklist_address` asks of the host, the admin's authorization aside.
pub open spec fn blacklist_calls(address: Address) -> Seq<HostCall> {
    seq![
        HostCall::SetPersistent(DataKey::Blacklist(address), StoredValue::Flag(true)),
        persistent_ttl(DataKey::Blacklist(address)),
    ]
}

/// What `unblacklist_address` asks of the host, the admin's authorization aside.
pub open spec fn unblacklist_calls(address: Address) -> Seq<HostCall> {
    seq![HostCall::RemovePersistent(DataKey::Blacklist(address))]
}

/// What `set_admin` asks of the host.
pub open spec fn set_admin_calls(admin: Option<Address>, new_admin: Address) -> Seq<HostCall> {
    (match admin {
        Some(admin) => seq![HostCall::RequireAuth(admin)],
        None => seq![],
    }) + set_instance_calls(DataKey::Admin, StoredValue::Address(new_admin))
}

impl PaymentRouter {
    /// The admin, once there is one.
    pub fn require_admin(env: &Invocation) -> (result: Result<Address, Error>)
        ensures
            result == match env.instance.admin {
                Some(admin) => Ok::<Address, Error>(admin),
                None => Err::<Address, Error>(Error::NotInitialized),
            },
    {
        match env.instance.admin {
            Some(admin) => Ok(admin),
            None => Err(Error::NotInitialized),
        }
    }

    /// One-time setup: records the admin and the initial fee configuration
    /// in instance storage. Must be called before `route_payment`.
    pub fn initialize(
        env: &mut Invocation,
        admin: Address,
        platform_treasury: Address,
        fee_bps: i128,
        fee_cap: i128,
        max_amount: i128,
    ) -> (result: Result<(), Error>)
        ensures
            initialized(
                *old(env),
                result,
                *final(env),
                admin,
                platform_treasury,
                fee_bps,
                fee_cap,
                max_amount,
            ),
    {
        if env.instance.admin.is_some() {
            return Err(Error::AlreadyInitialized);
        }
        env.calls.push(HostCall::RequireAuth(admin));
        env.instance.admin = Some(admin);
        env.calls.push(HostCall::SetInstance(DataKey::Admin, StoredValue::Address(admin)));
        env.instance.platform_treasury = Some(platform_treasury);
        env.calls.push(
            HostCall::SetInstance(
                DataKey::PlatformTreasury,
                StoredValue::Address(platform_treasury),
            ),
        );
        env.instance.fee_bps = Some(fee_bps);
        env.calls.push(HostCall::SetInstance(DataKey::FeeBps, StoredValue::Amount(fee_bps)));
        env.instance.fee_cap = Some(fee_cap);
        env.calls.push(HostCall::SetInstance(DataKey::FeeCap, StoredValue::Amount(fee_cap)));
        env.instance.max_amount = Some(max_amount);
        env.calls.push(HostCall::SetInstance(DataKey::MaxAmount, StoredValue::Amount(max_amount)));
        env.instance.paused = Some(false);
        env.calls.push(HostCall::SetInstance(DataKey::Paused, StoredValue::Flag(false)));
        Self::extend_instance(env);
        Ok(())
    }

    /// Updates the treasury address that receives the platform fee. Admin-only.
    pub fn set_platform_treasury(env: &mut Invocation, new_treasury: Address) -> (result: Result<
        (),
        Error,
    >)
        ensures
            admin_only(
                *old(env),
                result,
                *final(env),
                (Instance { platform_treasury: Some(new_treasury), ..old(env).instance }),
                |_admin: Address|
                    set_instance_calls(
                        DataKey::PlatformTreasury,
                        StoredValue::Address(new_treasury),
                    ),
            ),
    {
        match Self::require_admin(env) {
            Err(error) => Err(error),
            Ok(admin) => {
                env.calls.push(HostCall::RequireAuth(admin));
                env.instance.platform_treasury = Some(new_treasury);
                env.calls.push(
                    HostCall::SetInstance(
                        DataKey::PlatformTreasury,
                        StoredValue::Address(new_treasury),
                    ),
                );
                Self::extend_instance(env);
                Ok(())
            },
        }
    }

    /// Updates the fee basis points and fee cap. Admin-only.
    pub fn set_fee_config_legacy(env: &mut Invocation, fee_bps: i128, fee_cap: i128) -> (result:
        Result<(), Error>)
        ensures
            admin_only(
                *old(env),
                result,
                *final(env),
                (Instance {
                    fee_bps: Some(fee_bps),
                    fee_cap: Some(fee_cap),
                    ..old(env).instance
                }),
                |_admin: Address| fee_config_calls(fee_bps, fee_cap),
            ),
    {
        match Self::require_admin(env) {
            Err(error) => Err(error),
            Ok(admin) => {
                env.calls.push(HostCall::RequireAuth(admin));
                env.instance.fee_bps = Some(fee_bps);
                env.calls.push(
                    HostCall::SetInstance(DataKey::FeeBps, StoredValue::Amount(fee_bps)),
                );
                env.instance.fee_cap = Some(fee_cap);
                env.calls.push(
                    HostCall::SetInstance(DataKey::FeeCap, StoredValue::Amount(fee_cap)),
                );
                Self::extend_instance(env);
                Ok(())
            },
        }
    }

    /// Alias for `set_fee_config_legacy`. Admin-only.
    pub fn set_fee_config(env: &mut Invocation, fee_bps: i128, fee_cap: i128) -> (result: Result<
        (),
        Error,
    >)
        ensures
            admin_only(
                *old(env),
                result,
                *final(env),
                (Instance {
                    fee_bps: Some(fee_bps),
                    fee_cap: Some(fee_cap),
                    ..old(env).instance
                }),
                |_admin: Address| fee_config_calls(fee_bps, fee_cap),
            ),
    {
        Self::set_fee_config_legacy(env, fee_bps, fee_cap)
    }

    /// Updates the fee basis points. Admin-only.
    pub fn set_fee_bps(env: &mut Invocation, new_fee_bps: i128) -> (result: Result<(), Error>)
        ensures
            admin_only(
                *old(env),
                result,
                *final(env),
                (Instance { fee_bps: Some(new_fee_bps), ..old(env).instance }),
                |_admin: Address|
                    set_instance_calls(DataKey::FeeBps, StoredValue::Amount(new_fee_bps)),
            ),
    {
        match Self::require_admin(env) {
            Err(error) => Err(error),
            Ok(admin) => {
                env.calls.push(HostCall::RequireAuth(admin));
                env.instance.fee_bps = Some(new_fee_bps);
                env.calls.push(
                    HostCall::SetInstance(DataKey::FeeBps, StoredValue::Amount(new_fee_bps)),
                );
                Self::extend_instance(env);
                Ok(())
            },
        }
    }

    /// Returns the current protocol fee percentage in basis points.
    pub fn get_fee(env: &Invocation) -> (fee_bps: i128)
        ensures
            fee_bps == current_fee(env.instance),
            env.instance.fee_bps matches Some(set) ==> fee_bps == set,
            env.instance.fee_bps is None ==> fee_bps == 0,
    {
        match env.instance.fee_bps {
            Some(fee_bps) => fee_bps,
            None => 0,
        }
    }

    /// Pauses or unpauses the payment router. Admin-only.
    pub fn set_pause(env: &mut Invocation, paused: bool) -> (result: Result<(), Error>)
        ensures
            admin_only(
                *old(env),
                result,
                *final(env),
                (Instance { paused: Some(paused), ..old(env).instance }),
                |_admin: Address| pause_calls(paused),
            ),
    {
        match Self::require_admin(env) {
            Err(error) => Err(error),
            Ok(admin) => {
                env.calls.push(HostCall::RequireAuth(admin));
                env.instance.paused = Some(paused);
                env.calls.push(HostCall::SetInstance(DataKey::Paused, StoredValue::Flag(paused)));
                Self::extend_instance(env);
                env.calls.push(HostCall::Publish(Event::Pause { paused }));
                Ok(())
            },
        }
    }

    /// Alias for `set_pause`. Admin-only.
    pub fn set_paused(env: &mut Invocation, paused: bool) -> (result: Result<(), Error>)
        ensures
            admin_only(
                *old(env),
                result,
                *final(env),
                (Instance { paused: Some(paused), ..old(env).instance }),
                |_admin: Address| pause_calls(paused),
            ),
    {
        Self::set_pause(env, paused)
    }

    /// Adds an address to the blacklist; `account` holds the entries kept under it. Admin-only.
    pub fn blacklist_address(env: &mut Invocation, address: Address, account: &mut Account) -> (result:
        Result<(), Error>)
        ensures
            admin_only(
                *old(env),
                result,
                *final(env),
                old(env).instance,
                |_admin: Address| blacklist_calls(address),
            ),
            *final(account) == match result {
                Ok(_) => Account { blacklisted: Some(true), ..*old(account) },
                Err(_) => *old(account),
            },
    {
        match Self::require_admin(env) {
            Err(error) => Err(error),
            Ok(admin) => {
                env.calls.push(HostCall::RequireAuth(admin));
                let key: DataKey = DataKey::Blacklist(address);
                account.blacklisted = Some(true);
                env.calls.push(HostCall::SetPersistent(key, StoredValue::Flag(true)));
                Self::extend_persistent(env, key);
                Ok(())
            },
        }
    }

    /// Removes an address from the blacklist; `account` holds the entries kept under it.
    /// Admin-only.
    pub fn unblacklist_address(
        env: &mut Invocation,
        address: Address,
        account: &mut Account,
    ) -> (result: Result<(), Error>)
        ensures
            admin_only(
                *old(env),
                result,
                *final(env),
                old(env).instance,
                |_admin: Address| unblacklist_calls(address),
            ),
            *final(account) == match result {
                Ok(_) => Account { blacklisted: None, ..*old(account) },
                Err(_) => *old(account),
            },
    {
        match Self::require_admin(env) {
            Err(error) => Err(error),
            Ok(admin) => {
                env.calls.push(HostCall::RequireAuth(admin));
                account.blacklisted = None;
                env.calls.push(HostCall::RemovePersistent(DataKey::Blacklist(address)));
                Ok(())
            },
        }
    }

    /// Returns the effective fee_bps for a sender after applying any
    /// volume-based tiered discount; `sender` holds the entries kept under its address.
    pub fn get_effective_fee_bps(env: &Invocation, sender: &Account) -> (bps: i128)
        ensures
            bps == sender_bps(current_fee(env.instance), *sender),
            env.instance.fee_bps matches Some(set) ==> is_rate(
                set as int,
                sender.volume,
                bps as int,
            ),
            env.instance.fee_bps is None ==> bps == 0,
    {
        effective_fee_bps(Self::get_fee(env), Self::get_user_volume(sender))
    }

    /// Set a new admin. Gated by the current admin if one exists.
    pub fn set_admin(env: &mut Invocation, new_admin: Address) -> (result: Result<(), Error>)
        ensures
            result == Ok::<(), Error>(()),
            final(env).extends(
                *old(env),
                (Instance { admin: Some(new_admin), ..old(env).instance }),
                set_admin_calls(old(env).instance.admin, new_admin),
            ),
    {
        if let Some(admin) = env.instance.admin {
            env.calls.push(HostCall::RequireAuth(admin));
        }
        env.instance.admin = Some(new_admin);
        env.calls.push(HostCall::SetInstance(DataKey::Admin, StoredValue::Address(new_admin)));
        Self::extend_instance(env);
        Ok(())
    }

    /// Transfers admin rights to a new address. Requires the current admin's authorization.
    pub fn transfer_admin(env: &mut Invocation, new_admin: Address) -> (result: Result<(), Error>)
        ensures
            admin_only(
                *old(env),
                result,
                *final(env),
                (Instance { admin: Some(new_admin), ..old(env).instance }),
                |_admin: Address|
                    set_instance_calls(DataKey::Admin, StoredValue::Address(new_admin)),
            ),
    {
        match Self::require_admin(env) {
            Err(error) => Err(error),
            Ok(current_admin) => {
                env.calls.push(HostCall::RequireAuth(current_admin));
                env.instance.admin = Some(new_admin);
                env.calls.push(
                    HostCall::SetInstance(DataKey::Admin, StoredValue::Address(new_admin)),
                );
                Self::extend_instance(env);
                Ok(())
            },
        }
    }

    /// Recovers tokens accidentally sent directly to the contract address. Admin-only.
    pub fn recover_tokens(env: &mut Invocation, token: Address, amount: i128) -> (result: Result<
        (),
        Error,
    >)
        ensures
            admin_only(
                *old(env),
                result,
                *final(env),
                old(env).instance,
                |admin: Address|
                    seq![
                        HostCall::Transfer { token, from: old(env).contract, to: admin, amount },
                    ],
            ),
    {
        match Self::require_admin(env) {
            Err(error) => Err(error),
            Ok(admin) => {
                env.calls.push(HostCall::RequireAuth(admin));
                env.calls.push(
                    HostCall::Transfer { token, from: env.contract, to: admin, amount },
                );
                Ok(())
            },
        }
    }

    /// Records a token as supported (no-op; routing accepts any token contract ID).
    pub fn add_supported_token(env: &mut Invocation, _token: Address) -> (result: Result<
        (),
        Error,
    >)
        ensures
            result == Ok::<(), Error>(()),
            *final(env) == *old(env),
    {
        Ok(())
    }

    /// Admin-only emergency withdrawal of tokens held by this contract.
    pub fn emergency_withdraw(env: &mut Invocation, token: Address, amount: i128) -> (result:
        Result<(), Error>)
        ensures
            admin_only(
                *old(env),
                result,
                *final(env),
                old(env).instance,
                |admin: Address|
                    seq![
                        HostCall::Transfer { token, from: old(env).contract, to: admin, amount },
                    ],
            ),
    {
        match Self::require_admin(env) {
            Err(error) => Err(error),
            Ok(admin) => {
                env.calls.push(HostCall::RequireAuth(admin));
                env.calls.push(
                    HostCall::Transfer { token, from: env.contract, to: admin, amount },
                );
                Ok(())
            },
        }
    }

    /// Replaces this contract's WASM with a previously uploaded version. Admin-only.
    pub fn upgrade(env: &mut Invocation, new_wasm_hash: [u8; 32]) -> (result: Result<(), Error>)
        ensures
            admin_only(
                *old(env),
                result,
                *final(env),
                old(env).instance,
                |_admin: Address| seq![HostCall::UpdateWasm(new_wasm_hash)],
            ),
    {
        match Self::require_admin(env) {
            Err(error) => Err(error),
            Ok(admin) => {
                env.calls.push(HostCall::RequireAuth(admin));
                env.calls.push(HostCall::UpdateWasm(new_wasm_hash));
                Ok(())
            },
        }
    }

    /// Returns the contract version.
    pub fn version(_env: &Invocation) -> (version: u32)
        ensures
            version == 1,
    {
        Self::VERSION
    }
}

} // verus!
