//! Staking and unstaking: the life of a stake record.
//!
//! A record is vacant, then locked by a stake, locked again by every further
//! stake (which merges with the running lock and restarts it), claimed by an
//! unstake once the lock has ended, and locked anew by the next stake. There
//! is no way out of a lock before its end.

use vstd::prelude::*;
use crate::error::ErrorCode;
use crate::events::{StakingEvent, UnstakingEvent};
use crate::identity::Identity;
use crate::period::StakingPeriod;
use crate::reward::{calculate_reward, reward_amount, reward_overflows};
use crate::settlement::{Authority, Settlement, Wallet};
use crate::state::{ConfigAccount, StakeAccount, TokenAccount};

verus! {

/// The accounts of a stake, as they are when the call begins.
#[derive(Clone, Copy, Debug, PartialEq, Eq)]
pub struct StakeTokens {
    /// The holder who stakes.
    pub staker: Identity,
    /// The holder's token account, from which the stake is taken.
    pub staker_token_account: TokenAccount,
    /// The address of the holder's stake record.
    pub stake_account_key: Identity,
    /// The holder's stake record; vacant before the first stake.
    pub stake_account: StakeAccount,
    /// The configuration of the deployment.
    pub config: ConfigAccount,
}

/// What a stake did to the record.
#[derive(Clone, Copy, Debug, PartialEq, Eq, Structural, Hash)]
pub enum StakeNotice {
    /// A new lock was opened.
    Opened,
    /// The amount was added to a running lock of the same period.
    Added,
    /// The amount was added to a running lock and the period was changed.
    Updated,
}

/// The answer to a stake that was accepted.
#[derive(Clone, Debug, PartialEq, Eq)]
pub struct StakeReceipt {
    /// The orders that settle the stake, in order.
    pub orders: Vec<Settlement>,
    /// What happened to the record.
    pub notice: StakeNotice,
    /// The notification to publish.
    pub event: StakingEvent,
}

impl StakeTokens {
    /// Why a stake of `amount` for `period` at time `now` is refused: the
    /// first test that fails, in the order in which they are made; `None`
    /// where the stake is accepted.
    pub open spec fn refusal(&self, amount: u64, period: StakingPeriod, now: i64) -> Option<
        ErrorCode,
    > {
        if self.config.emergency_paused {
            Some(ErrorCode::SystemPaused)
        } else if !self.config.staking_enabled {
            Some(ErrorCode::StakingNotEnabled)
        } else if amount == 0 {
            Some(ErrorCode::InvalidStakeAmount)
        } else if amount > self.config.max_stake_amount {
            Some(ErrorCode::StakeAmountTooLarge)
        } else if self.staker_token_account.amount < amount {
            Some(ErrorCode::InsufficientFunds)
        } else if now + period.duration_in_seconds() > i64::MAX {
            Some(ErrorCode::MathOverflow)
        } else if self.stake_account.is_active() && self.stake_account.amount + amount
            > u64::MAX {
            Some(ErrorCode::MathOverflow)
        } else {
            None
        }
    }

    /// The principal that is locked once the stake is accepted: the amount
    /// alone for a new lock, the running principal and the amount together
    /// for a merge.
    pub open spec fn locked_after(&self, amount: u64) -> int {
        if self.stake_account.is_active() {
            self.stake_account.amount + amount
        } else {
            amount as int
        }
    }

    /// The record once the stake is accepted. The lock runs from `now` for
    /// the whole of `period`, whatever was locked before.
    pub open spec fn record_after(&self, amount: u64, period: StakingPeriod, now: i64)
        -> StakeAccount {
        StakeAccount {
            owner: if self.stake_account.is_active() {
                self.stake_account.owner
            } else {
                self.staker
            },
            amount: self.locked_after(amount) as u64,
            start_time: now,
            unlock_time: (now + period.duration_in_seconds()) as i64,
            period,
            claimed: false,
        }
    }

    /// The orders that settle the stake. A new lock takes the amount from
    /// the holder into custody. A merge first hands the running principal
    /// back to the holder, all of it, and then takes the new total into
    /// custody in one transfer.
    pub open spec fn orders(&self, amount: u64) -> Seq<Settlement> {
        if self.stake_account.is_active() {
            seq![
                Settlement::Transfer {
                    from: Wallet::Custody,
                    to: Wallet::Holder,
                    amount: self.stake_account.amount,
                    authority: Authority::Vault,
                },
                Settlement::Transfer {
                    from: Wallet::Holder,
                    to: Wallet::Custody,
                    amount: self.locked_after(amount) as u64,
                    authority: Authority::Holder,
                },
            ]
        } else {
            seq![
                Settlement::Transfer {
                    from: Wallet::Holder,
                    to: Wallet::Custody,
                    amount,
                    authority: Authority::Holder,
                },
            ]
        }
    }

    /// The accounts once the call has returned: the record rewritten where
    /// the stake is accepted, everything as it was where it is refused.
    pub open spec fn after(&self, amount: u64, period: StakingPeriod, now: i64) -> StakeTokens {
        if self.refusal(amount, period, now) is None {
            StakeTokens { stake_account: self.record_after(amount, period, now), ..*self }
        } else {
            *self
        }
    }

    /// The orders that the call hands out: none where the stake is refused.
    pub open spec fn settlement(&self, amount: u64, period: StakingPeriod, now: i64) -> Seq<
        Settlement,
    > {
        if self.refusal(amount, period, now) is None {
            self.orders(amount)
        } else {
            Seq::empty()
        }
    }

    /// What the stake does to the record.
    pub open spec fn notice(&self, period: StakingPeriod) -> StakeNotice {
        if !self.stake_account.is_active() {
            StakeNotice::Opened
        } else if self.stake_account.period == period {
            StakeNotice::Added
        } else {
            StakeNotice::Updated
        }
    }

    /// The notification of the stake.
    pub open spec fn event(&self, amount: u64, period: StakingPeriod, now: i64) -> StakingEvent {
        StakingEvent {
            staker: self.staker,
            amount: self.locked_after(amount) as u64,
            period,
            start_time: now,
            unlock_time: (now + period.duration_in_seconds()) as i64,
            stake_account: self.stake_account_key,
        }
    }
}

/// Stakes `amount` for `period` at time `now`.
///
/// The tests are made in a fixed order and the first that fails decides the
/// answer: the emergency pause, whether staking is enabled, that the amount
/// is not zero, that it is within the cap, that the holder has it, and that
/// neither the end of the lock nor the merged principal overflows. A stake
/// that is refused changes nothing and orders nothing.
///
/// A stake that is accepted opens a lock where the record holds none, and
/// otherwise merges: the locked principal becomes the sum of the old and the
/// new, and the lock starts over at `now` with the period given here.
pub fn stake_tokens(ctx: &mut StakeTokens, amount: u64, period: StakingPeriod, now: i64) -> (r:
    Result<StakeReceipt, ErrorCode>)
    ensures
        *final(ctx) == old(ctx).after(amount, period, now),
        match r {
            Ok(receipt) => {
                &&& old(ctx).refusal(amount, period, now) is None
                &&& receipt.orders@ == old(ctx).settlement(amount, period, now)
                &&& receipt.notice == old(ctx).notice(period)
                &&& receipt.event == old(ctx).event(amount, period, now)
                &&& final(ctx).stake_account.wf()
                &&& final(ctx).stake_account.is_active()
            },
            Err(e) => old(ctx).refusal(amount, period, now) == Some(e),
        },
{
    if ctx.config.emergency_paused {
        return Err(ErrorCode::SystemPaused);
    }
    if !ctx.config.staking_enabled {
        return Err(ErrorCode::StakingNotEnabled);
    }
    if amount == 0 {
        return Err(ErrorCode::InvalidStakeAmount);
    }
    if amount > ctx.config.max_stake_amount {
        return Err(ErrorCode::StakeAmountTooLarge);
    }
    if ctx.staker_token_account.amount < amount {
        return Err(ErrorCode::InsufficientFunds);
    }
    let unlock_time: i64 = match now.checked_add(period.duration_in_seconds()) {
        Some(t) => t,
        None => {
            return Err(ErrorCode::MathOverflow);
        },
    };
    let mut orders: Vec<Settlement> = Vec::new();
    let notice: StakeNotice;
    let locked: u64;
    if ctx.stake_account.is_active() {
        let running: u64 = ctx.stake_account.amount;
        locked = match running.checked_add(amount) {
            Some(sum) => sum,
            None => {
                return Err(ErrorCode::MathOverflow);
            },
        };
        orders.push(
            Settlement::Transfer {
                from: Wallet::Custody,
                to: Wallet::Holder,
                amount: running,
                authority: Authority::Vault,
            },
        );
        orders.push(
            Settlement::Transfer {
                from: Wallet::Holder,
                to: Wallet::Custody,
                amount: locked,
                authority: Authority::Holder,
            },
        );
        notice = if ctx.stake_account.period == period {
            StakeNotice::Added
        } else {
            StakeNotice::Updated
        };
    } else {
        locked = amount;
        orders.push(
            Settlement::Transfer {
                from: Wallet::Holder,
                to: Wallet::Custody,
                amount,
                authority: Authority::Holder,
            },
        );
        notice = StakeNotice::Opened;
        ctx.stake_account.owner = ctx.staker;
        ctx.stake_account.claimed = false;
    }
    ctx.stake_account.amount = locked;
    ctx.stake_account.period = period;
    ctx.stake_account.start_time = now;
    ctx.stake_account.unlock_time = unlock_time;
    let event = StakingEvent {
        staker: ctx.staker,
        amount: locked,
        period,
        start_time: now,
        unlock_time,
        stake_account: ctx.stake_account_key,
    };
    proof {
        assert(orders@ =~= old(ctx).orders(amount));
    }
    Ok(StakeReceipt { orders, notice, event })
}

/// The accounts of an unstake, as they are when the call begins.
#[derive(Clone, Copy, Debug, PartialEq, Eq)]
pub struct UnstakeTokens {
    /// The holder who unstakes.
    pub staker: Identity,
    /// The token account from which the reward is paid.
    pub reward_reserve_account: TokenAccount,
    /// The address of the stake record.
    pub stake_account_key: Identity,
    /// The stake record to pay out.
    pub stake_account: StakeAccount,
    /// The configuration of the deployment.
    pub config: ConfigAccount,
}

/// The answer to an unstake that was accepted.
#[derive(Clone, Debug, PartialEq, Eq)]
pub struct UnstakeReceipt {
    /// The orders that settle the unstake, in order.
    pub orders: Vec<Settlement>,
    /// The notification to publish.
    pub event: UnstakingEvent,
}

impl UnstakeTokens {
    /// The reward that the record has earned: the reward formula at the
    /// configured base rate and the multiplier of the record's period.
    pub open spec fn reward(&self) -> nat {
        reward_amount(
            self.stake_account.amount as nat,
            self.config.staking_reward_rate as nat,
            self.stake_account.period.reward_multiplier() as nat,
        )
    }

    /// Whether the reward of the record cannot be computed in 64 bits.
    pub open spec fn reward_overflows(&self) -> bool {
        reward_overflows(
            self.stake_account.amount as nat,
            self.config.staking_reward_rate as nat,
            self.stake_account.period.reward_multiplier() as nat,
        )
    }

    /// Why an unstake at time `now` is refused: the first test that fails,
    /// in the order in which they are made; `None` where it is accepted.
    pub open spec fn refusal(&self, now: i64) -> Option<ErrorCode> {
        if self.config.emergency_paused {
            Some(ErrorCode::SystemPaused)
        } else if self.stake_account.owner != self.staker {
            Some(ErrorCode::Unauthorized)
        } else if self.reward_reserve_account.key != self.config.reward_reserve {
            Some(ErrorCode::InvalidRewardReserve)
        } else if now < self.stake_account.unlock_time {
            Some(ErrorCode::StakingPeriodNotCompleted)
        } else if self.stake_account.claimed {
            Some(ErrorCode::RewardsAlreadyClaimed)
        } else if self.reward_overflows() {
            Some(ErrorCode::MathOverflow)
        } else if self.reward_reserve_account.amount < self.reward() {
            Some(ErrorCode::InsufficientRewardReserve)
        } else if self.stake_account.amount + self.reward() > u64::MAX {
            Some(ErrorCode::MathOverflow)
        } else {
            None
        }
    }

    /// The record once the unstake is accepted: claimed, and otherwise as it
    /// was. The principal stays in the record as the amount that was paid
    /// out; a claimed record holds no active lock.
    pub open spec fn record_after(&self) -> StakeAccount {
        StakeAccount { claimed: true, ..self.stake_account }
    }

    /// The orders that settle the unstake: the whole principal goes from
    /// custody to the holder, and the reward, unless it is zero, from the
    /// reserve to the holder.
    pub open spec fn orders(&self) -> Seq<Settlement> {
        let principal = Settlement::Transfer {
            from: Wallet::Custody,
            to: Wallet::Holder,
            amount: self.stake_account.amount,
            authority: Authority::Vault,
        };
        if self.reward() > 0 {
            seq![
                principal,
                Settlement::Transfer {
                    from: Wallet::RewardReserve,
                    to: Wallet::Holder,
                    amount: self.reward() as u64,
                    authority: Authority::Vault,
                },
            ]
        } else {
            seq![principal]
        }
    }

    /// The accounts once the call has returned: the record claimed where
    /// the unstake is accepted, everything as it was where it is refused.
    pub open spec fn after(&self, now: i64) -> UnstakeTokens {
        if self.refusal(now) is None {
            UnstakeTokens { stake_account: self.record_after(), ..*self }
        } else {
            *self
        }
    }

    /// The orders that the call hands out: none where the unstake is
    /// refused.
    pub open spec fn settlement(&self, now: i64) -> Seq<Settlement> {
        if self.refusal(now) is None {
            self.orders()
        } else {
            Seq::empty()
        }
    }

    /// The notification of the unstake.
    pub open spec fn event(&self, now: i64) -> UnstakingEvent {
        UnstakingEvent {
            staker: self.staker,
            stake_account: self.stake_account_key,
            original_amount: self.stake_account.amount,
            reward_amount: self.reward() as u64,
            total_amount: (self.stake_account.amount + self.reward()) as u64,
            timestamp: now,
        }
    }
}

/// Pays out the stake record at time `now`.
///
/// The tests are made in a fixed order and the first that fails decides the
/// answer: the emergency pause, that the caller owns the record, that the
/// reserve account is the configured one, that the lock has ended, that the
/// record was not claimed before, that the reward can be computed, that the
/// reserve holds it, and that principal and reward together fit in 64 bits.
/// An unstake that is refused changes nothing and orders nothing.
///
/// An unstake that is accepted marks the record as claimed and orders the
/// principal and the reward to be paid to the holder.
pub fn unstake_tokens(ctx: &mut UnstakeTokens, now: i64) -> (r: Result<UnstakeReceipt, ErrorCode>)
    ensures
        *final(ctx) == old(ctx).after(now),
        old(ctx).stake_account.wf() ==> final(ctx).stake_account.wf(),
        match r {
            Ok(receipt) => {
                &&& old(ctx).refusal(now) is None
                &&& receipt.orders@ == old(ctx).settlement(now)
                &&& receipt.event == old(ctx).event(now)
                &&& !final(ctx).stake_account.is_active()
            },
            Err(e) => old(ctx).refusal(now) == Some(e),
        },
{
    if ctx.config.emergency_paused {
        return Err(ErrorCode::SystemPaused);
    }
    if ctx.stake_account.owner != ctx.staker {
        return Err(ErrorCode::Unauthorized);
    }
    if ctx.reward_reserve_account.key != ctx.config.reward_reserve {
        return Err(ErrorCode::InvalidRewardReserve);
    }
    if now < ctx.stake_account.unlock_time {
        return Err(ErrorCode::StakingPeriodNotCompleted);
    }
    if ctx.stake_account.claimed {
        return Err(ErrorCode::RewardsAlreadyClaimed);
    }
    let staked_amount: u64 = ctx.stake_account.amount;
    let reward: u64 = match calculate_reward(
        staked_amount,
        ctx.config.staking_reward_rate,
        ctx.stake_account.period.reward_multiplier(),
    ) {
        Ok(reward) => reward,
        Err(_) => {
            return Err(ErrorCode::MathOverflow);
        },
    };
    if ctx.reward_reserve_account.amount < reward {
        return Err(ErrorCode::InsufficientRewardReserve);
    }
    let total_amount: u64 = match staked_amount.checked_add(reward) {
        Some(total) => total,
        None => {
            return Err(ErrorCode::MathOverflow);
        },
    };
    let mut orders: Vec<Settlement> = Vec::new();
    orders.push(
        Settlement::Transfer {
            from: Wallet::Custody,
            to: Wallet::Holder,
            amount: staked_amount,
            authority: Authority::Vault,
        },
    );
    if reward > 0 {
        orders.push(
            Settlement::Transfer {
                from: Wallet::RewardReserve,
                to: Wallet::Holder,
                amount: reward,
                authority: Authority::Vault,
            },
        );
    }
    ctx.stake_account.claimed = true;
    let event = UnstakingEvent {
        staker: ctx.staker,
        stake_account: ctx.stake_account_key,
        original_amount: staked_amount,
        reward_amount: reward,
        total_amount,
        timestamp: now,
    };
    proof {
        assert(orders@ =~= old(ctx).orders());
    }
    Ok(UnstakeReceipt { orders, event })
}

} // verus!
