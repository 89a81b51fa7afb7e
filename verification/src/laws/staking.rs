//! What holds of every stake and every unstake, whatever the accounts hold.

use vstd::prelude::*;
use crate::error::ErrorCode;
use crate::period::StakingPeriod;
use crate::settlement::{net_change, Settlement, Wallet};
use crate::staking::{StakeTokens, UnstakeTokens};

verus! {

/// While the emergency pause is set, a stake and an unstake are both refused
/// with `SystemPaused`, whatever else holds of the accounts, and neither
/// changes or orders anything.
pub proof fn pause_stops_stake_and_unstake(
    stake: StakeTokens,
    amount: u64,
    period: StakingPeriod,
    unstake: UnstakeTokens,
    now: i64,
)
    requires
        stake.config.emergency_paused,
        unstake.config.emergency_paused,
    ensures
        stake.refusal(amount, period, now) == Some(ErrorCode::SystemPaused),
        stake.after(amount, period, now) == stake,
        stake.settlement(amount, period, now) == Seq::<Settlement>::empty(),
        unstake.refusal(now) == Some(ErrorCode::SystemPaused),
        unstake.after(now) == unstake,
        unstake.settlement(now) == Seq::<Settlement>::empty(),
{
}

/// A stake is accepted exactly when the system is not paused, staking is
/// enabled, the amount is neither zero nor above the cap, the holder has it,
/// and neither the end of the lock nor the merged principal overflows.
pub proof fn when_a_stake_is_accepted(
    ctx: StakeTokens,
    amount: u64,
    period: StakingPeriod,
    now: i64,
)
    ensures
        ctx.refusal(amount, period, now) is None <==> {
            &&& !ctx.config.emergency_paused
            &&& ctx.config.staking_enabled
            &&& 0 < amount <= ctx.config.max_stake_amount
            &&& amount <= ctx.staker_token_account.amount
            &&& now + period.duration_in_seconds() <= i64::MAX
            &&& ctx.stake_account.is_active() ==> ctx.stake_account.amount + amount <= u64::MAX
        },
{
}

/// An unstake is accepted exactly when the system is not paused, the caller
/// owns the record, the reserve account is the configured one, the lock has
/// ended, the record was not claimed, and the reward can be computed, is
/// covered by the reserve and fits in 64 bits together with the principal.
pub proof fn when_an_unstake_is_accepted(ctx: UnstakeTokens, now: i64)
    ensures
        ctx.refusal(now) is None <==> {
            &&& !ctx.config.emergency_paused
            &&& ctx.stake_account.owner == ctx.staker
            &&& ctx.reward_reserve_account.key == ctx.config.reward_reserve
            &&& ctx.stake_account.unlock_time <= now
            &&& !ctx.stake_account.claimed
            &&& !ctx.reward_overflows()
            &&& ctx.reward() <= ctx.reward_reserve_account.amount
            &&& ctx.stake_account.amount + ctx.reward() <= u64::MAX
        },
{
}

/// A stake above the cap is refused with `StakeAmountTooLarge` wherever
/// staking is open, that is enabled and not paused. The record stays as it
/// was, no order is given, and so no balance changes.
pub proof fn cap_is_enforced(ctx: StakeTokens, amount: u64, period: StakingPeriod, now: i64)
    requires
        amount > ctx.config.max_stake_amount,
        !ctx.config.emergency_paused,
        ctx.config.staking_enabled,
    ensures
        ctx.refusal(amount, period, now) == Some(ErrorCode::StakeAmountTooLarge),
        ctx.after(amount, period, now) == ctx,
        ctx.settlement(amount, period, now) == Seq::<Settlement>::empty(),
        forall|wallet: Wallet| net_change(ctx.settlement(amount, period, now), wallet) == 0,
{
}

/// Before the lock has ended, an unstake by the owner of the record is
/// refused with `StakingPeriodNotCompleted` unless the system is paused. The
/// record stays as it was and no order is given.
pub proof fn lock_is_respected(ctx: UnstakeTokens, now: i64)
    requires
        now < ctx.stake_account.unlock_time,
        !ctx.config.emergency_paused,
        ctx.stake_account.owner == ctx.staker,
        ctx.reward_reserve_account.key == ctx.config.reward_reserve,
    ensures
        ctx.refusal(now) == Some(ErrorCode::StakingPeriodNotCompleted),
        ctx.after(now) == ctx,
        ctx.settlement(now) == Seq::<Settlement>::empty(),
        forall|wallet: Wallet| net_change(ctx.settlement(now), wallet) == 0,
{
}

/// A lock is paid out once. After an unstake that was accepted, the next
/// unstake of the same record by the same holder, at the same time or later
/// and under the same configuration, is refused with
/// `RewardsAlreadyClaimed`, whatever the reserve holds by then.
pub proof fn no_double_claim(first: UnstakeTokens, now: i64, second: UnstakeTokens, later: i64)
    requires
        first.refusal(now) is None,
        second.stake_account == first.after(now).stake_account,
        second.staker == first.staker,
        second.config == first.config,
        second.reward_reserve_account.key == first.reward_reserve_account.key,
        now <= later,
    ensures
        second.refusal(later) == Some(ErrorCode::RewardsAlreadyClaimed),
        second.after(later) == second,
        second.settlement(later) == Seq::<Settlement>::empty(),
{
}

/// A stake into a running lock merges with it and restarts it: the record
/// holds the sum of the running principal and the new amount, the lock
/// begins at the time of this call, and it ends one period of this call
/// later. Owner and record stay the same.
pub proof fn merge_restarts_the_lock(
    ctx: StakeTokens,
    amount: u64,
    period: StakingPeriod,
    now: i64,
)
    requires
        ctx.stake_account.is_active(),
        ctx.refusal(amount, period, now) is None,
    ensures
        ({
            let record = ctx.after(amount, period, now).stake_account;
            &&& record.amount == ctx.stake_account.amount + amount
            &&& record.start_time == now
            &&& record.unlock_time == now + period.duration_in_seconds()
            &&& record.period == period
            &&& record.owner == ctx.stake_account.owner
            &&& !record.claimed
        }),
{
}

/// Two stakes in a row leave one record. Where a holder without a lock
/// stakes `first_amount` and then, before claiming, `second_amount`, the
/// record holds both amounts together, and its lock runs from the time of
/// the second call for the period of the second call.
pub proof fn second_stake_merges(
    first: StakeTokens,
    first_amount: u64,
    first_period: StakingPeriod,
    first_time: i64,
    second: StakeTokens,
    second_amount: u64,
    second_period: StakingPeriod,
    second_time: i64,
)
    requires
        !first.stake_account.is_active(),
        first.refusal(first_amount, first_period, first_time) is None,
        second.stake_account == first.after(first_amount, first_period, first_time).stake_account,
        second.refusal(second_amount, second_period, second_time) is None,
    ensures
        ({
            let record = second.after(second_amount, second_period, second_time).stake_account;
            &&& record.amount == first_amount + second_amount
            &&& record.start_time == second_time
            &&& record.unlock_time == second_time + second_period.duration_in_seconds()
            &&& record.period == second_period
            &&& record.owner == first.staker
            &&& !record.claimed
            &&& record.wf()
        }),
{
}

/// There is no way out of a lock before its end. After a stake that was
/// accepted at time `now`, an unstake by the owner at any time before one
/// whole period has passed is refused with `StakingPeriodNotCompleted`,
/// unless the system is paused.
pub proof fn a_new_lock_holds_for_its_period(
    stake: StakeTokens,
    amount: u64,
    period: StakingPeriod,
    now: i64,
    unstake: UnstakeTokens,
    then: i64,
)
    requires
        stake.refusal(amount, period, now) is None,
        unstake.stake_account == stake.after(amount, period, now).stake_account,
        unstake.staker == unstake.stake_account.owner,
        unstake.reward_reserve_account.key == unstake.config.reward_reserve,
        !unstake.config.emergency_paused,
        then < now + period.duration_in_seconds(),
    ensures
        unstake.refusal(then) == Some(ErrorCode::StakingPeriodNotCompleted),
        unstake.after(then) == unstake,
        unstake.settlement(then) == Seq::<Settlement>::empty(),
{
}

/// A claimed record is free again: the next stake opens a new lock that
/// holds the new amount alone.
pub proof fn stake_after_claim_opens_anew(
    claimed: UnstakeTokens,
    claim_time: i64,
    ctx: StakeTokens,
    amount: u64,
    period: StakingPeriod,
    now: i64,
)
    requires
        claimed.refusal(claim_time) is None,
        ctx.stake_account == claimed.after(claim_time).stake_account,
        ctx.refusal(amount, period, now) is None,
    ensures
        ({
            let record = ctx.after(amount, period, now).stake_account;
            &&& record.amount == amount
            &&& record.owner == ctx.staker
            &&& record.start_time == now
            &&& record.unlock_time == now + period.duration_in_seconds()
            &&& record.is_active()
        }),
{
}

/// A record that is well formed stays so through every stake and every
/// unstake, and a stake that is accepted leaves a well-formed record
/// whatever it found.
pub proof fn records_stay_well_formed(
    stake: StakeTokens,
    amount: u64,
    period: StakingPeriod,
    unstake: UnstakeTokens,
    now: i64,
)
    ensures
        stake.stake_account.wf() ==> stake.after(amount, period, now).stake_account.wf(),
        stake.refusal(amount, period, now) is None ==> stake.after(
            amount,
            period,
            now,
        ).stake_account.wf(),
        unstake.stake_account.wf() ==> unstake.after(now).stake_account.wf(),
{
}

} // verus!
