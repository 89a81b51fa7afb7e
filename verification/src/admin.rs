//! Administration: the operations that only the administrator may call.
//!
//! Each of them makes one test before anything else: the caller is the
//! administrator that the configuration names. A caller who is not is
//! refused with `Unauthorized`, and nothing is changed, ordered or notified.

use vstd::prelude::*;
use crate::error::ErrorCode;
use crate::events::{ConfigUpdateEvent, ConfigUpdateView, EmergencyPauseEvent, EmergencyPauseView};
use crate::identity::{base58_text, Identity};
use crate::settlement::{Authority, Settlement, Wallet};
use crate::state::{ConfigAccount, TokenAccount};
use crate::text::{bool_text, bool_to_text, decimal_text, u64_to_text};

verus! {

/// The name under which a change of `staking_enabled` is notified.
pub const FIELD_STAKING_ENABLED: &'static str = "staking_enabled";

/// The name under which a change of `staking_reward_rate` is notified.
pub const FIELD_STAKING_REWARD_RATE: &'static str = "staking_reward_rate";

/// The name under which a change of `admin` is notified.
pub const FIELD_ADMIN: &'static str = "admin";

/// The name under which a change of `max_stake_amount` is notified.
pub const FIELD_MAX_STAKE_AMOUNT: &'static str = "max_stake_amount";

/// The test before every administrative operation: `Unauthorized` where
/// `caller` is not the administrator of `config`, and no objection where it
/// is.
pub open spec fn admin_test(caller: Identity, config: ConfigAccount) -> Option<ErrorCode> {
    if config.is_admin(&caller) {
        None
    } else {
        Some(ErrorCode::Unauthorized)
    }
}

/// The accounts of `configure_staking`.
#[derive(Clone, Copy, Debug, PartialEq, Eq)]
pub struct ConfigureStaking {
    /// The caller.
    pub admin: Identity,
    /// The configuration of the deployment.
    pub config: ConfigAccount,
}

impl ConfigureStaking {
    /// Why the call is refused, if it is.
    pub open spec fn refusal(&self) -> Option<ErrorCode> {
        admin_test(self.admin, self.config)
    }

    /// The accounts once the call has returned.
    pub open spec fn after(&self, enabled: bool, reward_rate: u64) -> ConfigureStaking {
        if self.refusal() is None {
            ConfigureStaking {
                config: ConfigAccount {
                    staking_enabled: enabled,
                    staking_reward_rate: reward_rate,
                    ..self.config
                },
                ..*self
            }
        } else {
            *self
        }
    }

    /// The notification of the write to `staking_enabled`.
    pub open spec fn enabled_event(&self, enabled: bool, now: i64) -> ConfigUpdateView {
        ConfigUpdateView {
            admin: self.admin,
            field: FIELD_STAKING_ENABLED@,
            old_value: bool_text(self.config.staking_enabled),
            new_value: bool_text(enabled),
            timestamp: now,
        }
    }

    /// The notification of the write to `staking_reward_rate`.
    pub open spec fn rate_event(&self, reward_rate: u64, now: i64) -> ConfigUpdateView {
        ConfigUpdateView {
            admin: self.admin,
            field: FIELD_STAKING_REWARD_RATE@,
            old_value: decimal_text(self.config.staking_reward_rate as nat),
            new_value: decimal_text(reward_rate as nat),
            timestamp: now,
        }
    }
}

/// Opens or closes staking and sets the base reward rate, in basis points.
/// Both fields are written, and one notification is given for each, the
/// first for `staking_enabled`, whether or not the value is a new one.
pub fn configure_staking(ctx: &mut ConfigureStaking, enabled: bool, reward_rate: u64, now: i64) -> (r:
    Result<(ConfigUpdateEvent, ConfigUpdateEvent), ErrorCode>)
    ensures
        *final(ctx) == old(ctx).after(enabled, reward_rate),
        match r {
            Ok(events) => {
                &&& old(ctx).refusal() is None
                &&& events.0@ == old(ctx).enabled_event(enabled, now)
                &&& events.1@ == old(ctx).rate_event(reward_rate, now)
            },
            Err(e) => old(ctx).refusal() == Some(e),
        },
{
    if !ctx.config.is_admin(&ctx.admin) {
        return Err(ErrorCode::Unauthorized);
    }
    let enabled_event = ConfigUpdateEvent {
        admin: ctx.admin,
        field: String::from_str(FIELD_STAKING_ENABLED),
        old_value: bool_to_text(ctx.config.staking_enabled),
        new_value: bool_to_text(enabled),
        timestamp: now,
    };
    let rate_event = ConfigUpdateEvent {
        admin: ctx.admin,
        field: String::from_str(FIELD_STAKING_REWARD_RATE),
        old_value: u64_to_text(ctx.config.staking_reward_rate),
        new_value: u64_to_text(reward_rate),
        timestamp: now,
    };
    ctx.config.staking_enabled = enabled;
    ctx.config.staking_reward_rate = reward_rate;
    Ok((enabled_event, rate_event))
}

/// The accounts of `set_emergency_pause`.
#[derive(Clone, Copy, Debug, PartialEq, Eq)]
pub struct EmergencyPause {
    /// The caller.
    pub admin: Identity,
    /// The configuration of the deployment.
    pub config: ConfigAccount,
}

impl EmergencyPause {
    /// Why the call is refused, if it is.
    pub open spec fn refusal(&self) -> Option<ErrorCode> {
        admin_test(self.admin, self.config)
    }

    /// The accounts once the call has returned.
    pub open spec fn after(&self, paused: bool) -> EmergencyPause {
        if self.refusal() is None {
            EmergencyPause {
                config: ConfigAccount { emergency_paused: paused, ..self.config },
                ..*self
            }
        } else {
            *self
        }
    }
}

/// Sets or lifts the emergency pause, and notifies it with the reason given.
pub fn set_emergency_pause(ctx: &mut EmergencyPause, paused: bool, reason: String, now: i64) -> (r:
    Result<EmergencyPauseEvent, ErrorCode>)
    ensures
        *final(ctx) == old(ctx).after(paused),
        match r {
            Ok(event) => {
                &&& old(ctx).refusal() is None
                &&& event@ == (EmergencyPauseView {
                    admin: old(ctx).admin,
                    paused,
                    reason: reason@,
                    timestamp: now,
                })
            },
            Err(e) => old(ctx).refusal() == Some(e),
        },
{
    if !ctx.config.is_admin(&ctx.admin) {
        return Err(ErrorCode::Unauthorized);
    }
    ctx.config.emergency_paused = paused;
    Ok(EmergencyPauseEvent { admin: ctx.admin, paused, reason, timestamp: now })
}

/// The accounts of `update_admin`.
#[derive(Clone, Copy, Debug, PartialEq, Eq)]
pub struct UpdateAdmin {
    /// The caller.
    pub admin: Identity,
    /// The configuration of the deployment.
    pub config: ConfigAccount,
}

impl UpdateAdmin {
    /// Why the call is refused, if it is.
    pub open spec fn refusal(&self) -> Option<ErrorCode> {
        admin_test(self.admin, self.config)
    }

    /// The accounts once the call has returned.
    pub open spec fn after(&self, new_admin: Identity) -> UpdateAdmin {
        if self.refusal() is None {
            UpdateAdmin { config: ConfigAccount { admin: new_admin, ..self.config }, ..*self }
        } else {
            *self
        }
    }

    /// The notification of the handover.
    pub open spec fn event(&self, new_admin: Identity, now: i64) -> ConfigUpdateView {
        ConfigUpdateView {
            admin: self.admin,
            field: FIELD_ADMIN@,
            old_value: base58_text(self.config.admin@),
            new_value: base58_text(new_admin@),
            timestamp: now,
        }
    }
}

/// Hands the administration over to `new_admin`, in one step: from the
/// return of this call on `new_admin` is the administrator and the caller
/// is not, unless they are the same.
pub fn update_admin(ctx: &mut UpdateAdmin, new_admin: Identity, now: i64) -> (r: Result<
    ConfigUpdateEvent,
    ErrorCode,
>)
    ensures
        *final(ctx) == old(ctx).after(new_admin),
        match r {
            Ok(event) => {
                &&& old(ctx).refusal() is None
                &&& event@ == old(ctx).event(new_admin, now)
            },
            Err(e) => old(ctx).refusal() == Some(e),
        },
{
    if !ctx.config.is_admin(&ctx.admin) {
        return Err(ErrorCode::Unauthorized);
    }
    let event = ConfigUpdateEvent {
        admin: ctx.admin,
        field: String::from_str(FIELD_ADMIN),
        old_value: ctx.config.admin.to_text(),
        new_value: new_admin.to_text(),
        timestamp: now,
    };
    ctx.config.admin = new_admin;
    Ok(event)
}

/// The accounts of `update_max_stake`.
#[derive(Clone, Copy, Debug, PartialEq, Eq)]
pub struct UpdateMaxStake {
    /// The caller.
    pub admin: Identity,
    /// The configuration of the deployment.
    pub config: ConfigAccount,
}

impl UpdateMaxStake {
    /// Why the call is refused, if it is.
    pub open spec fn refusal(&self) -> Option<ErrorCode> {
        admin_test(self.admin, self.config)
    }

    /// The accounts once the call has returned.
    pub open spec fn after(&self, max_amount: u64) -> UpdateMaxStake {
        if self.refusal() is None {
            UpdateMaxStake {
                config: ConfigAccount { max_stake_amount: max_amount, ..self.config },
                ..*self
            }
        } else {
            *self
        }
    }

    /// The notification of the new cap.
    pub open spec fn event(&self, max_amount: u64, now: i64) -> ConfigUpdateView {
        ConfigUpdateView {
            admin: self.admin,
            field: FIELD_MAX_STAKE_AMOUNT@,
            old_value: decimal_text(self.config.max_stake_amount as nat),
            new_value: decimal_text(max_amount as nat),
            timestamp: now,
        }
    }
}

/// Sets the cap on the amount of a single stake.
pub fn update_max_stake(ctx: &mut UpdateMaxStake, max_amount: u64, now: i64) -> (r: Result<
    ConfigUpdateEvent,
    ErrorCode,
>)
    ensures
        *final(ctx) == old(ctx).after(max_amount),
        match r {
            Ok(event) => {
                &&& old(ctx).refusal() is None
                &&& event@ == old(ctx).event(max_amount, now)
            },
            Err(e) => old(ctx).refusal() == Some(e),
        },
{
    if !ctx.config.is_admin(&ctx.admin) {
        return Err(ErrorCode::Unauthorized);
    }
    let event = ConfigUpdateEvent {
        admin: ctx.admin,
        field: String::from_str(FIELD_MAX_STAKE_AMOUNT),
        old_value: u64_to_text(ctx.config.max_stake_amount),
        new_value: u64_to_text(max_amount),
        timestamp: now,
    };
    ctx.config.max_stake_amount = max_amount;
    Ok(event)
}

/// The accounts of `set_payment_token`.
#[derive(Clone, Copy, Debug, PartialEq, Eq)]
pub struct SetPaymentToken {
    /// The caller.
    pub admin: Identity,
    /// The configuration of the deployment.
    pub config: ConfigAccount,
}

impl SetPaymentToken {
    /// Why the call is refused, if it is.
    pub open spec fn refusal(&self) -> Option<ErrorCode> {
        admin_test(self.admin, self.config)
    }

    /// The accounts once the call has returned.
    pub open spec fn after(&self, payment_token_mint: Identity) -> SetPaymentToken {
        if self.refusal() is None {
            SetPaymentToken {
                config: ConfigAccount { payment_token_mint, ..self.config },
                ..*self
            }
        } else {
            *self
        }
    }
}

/// Names the token that pays for certificates.
pub fn set_payment_token(ctx: &mut SetPaymentToken, payment_token_mint: Identity) -> (r: Result<
    (),
    ErrorCode,
>)
    ensures
        *final(ctx) == old(ctx).after(payment_token_mint),
        match r {
            Ok(_) => old(ctx).refusal() is None,
            Err(e) => old(ctx).refusal() == Some(e),
        },
{
    if !ctx.config.is_admin(&ctx.admin) {
        return Err(ErrorCode::Unauthorized);
    }
    ctx.config.payment_token_mint = payment_token_mint;
    Ok(())
}

/// The accounts of `set_reward_reserve`.
#[derive(Clone, Copy, Debug, PartialEq, Eq)]
pub struct SetRewardReserve {
    /// The caller.
    pub admin: Identity,
    /// The configuration of the deployment.
    pub config: ConfigAccount,
}

impl SetRewardReserve {
    /// Why the call is refused, if it is.
    pub open spec fn refusal(&self) -> Option<ErrorCode> {
        admin_test(self.admin, self.config)
    }

    /// The accounts once the call has returned.
    pub open spec fn after(&self, reward_reserve: Identity) -> SetRewardReserve {
        if self.refusal() is None {
            SetRewardReserve { config: ConfigAccount { reward_reserve, ..self.config }, ..*self }
        } else {
            *self
        }
    }
}

/// Names the token account that holds the reward pool.
pub fn set_reward_reserve(ctx: &mut SetRewardReserve, reward_reserve: Identity) -> (r: Result<
    (),
    ErrorCode,
>)
    ensures
        *final(ctx) == old(ctx).after(reward_reserve),
        match r {
            Ok(_) => old(ctx).refusal() is None,
            Err(e) => old(ctx).refusal() == Some(e),
        },
{
    if !ctx.config.is_admin(&ctx.admin) {
        return Err(ErrorCode::Unauthorized);
    }
    ctx.config.reward_reserve = reward_reserve;
    Ok(())
}

/// The accounts of `initialize_reward_reserve`.
#[derive(Clone, Copy, Debug, PartialEq, Eq)]
pub struct InitializeRewardReserve {
    /// The caller.
    pub admin: Identity,
    /// The token account that was created for the reward pool.
    pub reward_reserve_account: TokenAccount,
    /// The configuration of the deployment.
    pub config: ConfigAccount,
}

impl InitializeRewardReserve {
    /// Why the call is refused, if it is.
    pub open spec fn refusal(&self) -> Option<ErrorCode> {
        admin_test(self.admin, self.config)
    }

    /// The accounts once the call has returned.
    pub open spec fn after(&self) -> InitializeRewardReserve {
        if self.refusal() is None {
            InitializeRewardReserve {
                config: ConfigAccount {
                    reward_reserve: self.reward_reserve_account.key,
                    ..self.config
                },
                ..*self
            }
        } else {
            *self
        }
    }
}

/// Takes the token account that was created with this call as the reward
/// reserve.
pub fn initialize_reward_reserve(ctx: &mut InitializeRewardReserve) -> (r: Result<(), ErrorCode>)
    ensures
        *final(ctx) == old(ctx).after(),
        match r {
            Ok(_) => old(ctx).refusal() is None,
            Err(e) => old(ctx).refusal() == Some(e),
        },
{
    if !ctx.config.is_admin(&ctx.admin) {
        return Err(ErrorCode::Unauthorized);
    }
    ctx.config.reward_reserve = ctx.reward_reserve_account.key;
    Ok(())
}

/// The accounts of `deposit_reward_reserve`.
#[derive(Clone, Copy, Debug, PartialEq, Eq)]
pub struct DepositRewardReserve {
    /// The caller.
    pub admin: Identity,
    /// The configuration of the deployment.
    pub config: ConfigAccount,
}

impl DepositRewardReserve {
    /// Why the call is refused, if it is.
    pub open spec fn refusal(&self) -> Option<ErrorCode> {
        admin_test(self.admin, self.config)
    }

    /// The order that settles a deposit of `amount`: out of the caller's
    /// token account into the reward reserve, signed by the caller.
    pub open spec fn order(amount: u64) -> Settlement {
        Settlement::Transfer {
            from: Wallet::Holder,
            to: Wallet::RewardReserve,
            amount,
            authority: Authority::Holder,
        }
    }
}

/// Funds the reward reserve with `amount` from the administrator's own
/// token account. Nothing is recorded; the answer is the order to carry out.
pub fn deposit_reward_reserve(ctx: &DepositRewardReserve, amount: u64) -> (r: Result<
    Settlement,
    ErrorCode,
>)
    ensures
        match r {
            Ok(order) => {
                &&& ctx.refusal() is None
                &&& order == DepositRewardReserve::order(amount)
                &&& order.is_sound()
            },
            Err(e) => ctx.refusal() == Some(e),
        },
{
    if !ctx.config.is_admin(&ctx.admin) {
        return Err(ErrorCode::Unauthorized);
    }
    Ok(
        Settlement::Transfer {
            from: Wallet::Holder,
            to: Wallet::RewardReserve,
            amount,
            authority: Authority::Holder,
        },
    )
}

} // verus!
