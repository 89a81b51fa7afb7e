//! Read-only summaries of the records, for display.

use vstd::prelude::*;
use crate::error::ErrorCode;
use crate::identity::Identity;
use crate::period::StakingPeriod;
use crate::reward::{calculate_reward, reward_amount, reward_overflows};
use crate::state::{ConfigAccount, NFTMetadata, NftCounter, StakeAccount};

verus! {

/// A stake record as a holder sees it at one moment.
#[derive(Clone, Copy, Debug, PartialEq, Eq)]
pub struct StakingSummary {
    /// Whether the record holds an active lock.
    pub is_staking: bool,
    pub amount: u64,
    pub start_time: i64,
    pub unlock_time: i64,
    pub period: StakingPeriod,
    pub claimed: bool,
    /// Whether the lock has ended and was not claimed.
    pub can_unstake: bool,
    /// The reward that an unstake would pay at the present base rate.
    pub estimated_reward: u64,
    /// The seconds until the lock ends; zero once it has.
    pub time_remaining: i64,
}

/// The configuration as a client sees it.
#[derive(Clone, Copy, Debug, PartialEq, Eq)]
pub struct ConfigSummary {
    pub payment_token_mint: Identity,
    pub admin: Identity,
    pub staking_enabled: bool,
    pub staking_reward_rate: u64,
    pub max_stake_amount: u64,
    pub emergency_paused: bool,
}

/// The summary of a holder who has no stake record.
pub open spec fn no_stake_summary() -> StakingSummary {
    StakingSummary {
        is_staking: false,
        amount: 0,
        start_time: 0,
        unlock_time: 0,
        period: StakingPeriod::Minutes1,
        claimed: false,
        can_unstake: false,
        estimated_reward: 0,
        time_remaining: 0,
    }
}

/// The summary of the record `stake` under `config` at time `now`.
pub open spec fn stake_summary(stake: StakeAccount, config: ConfigAccount, now: i64)
    -> StakingSummary {
    StakingSummary {
        is_staking: stake.is_active(),
        amount: stake.amount,
        start_time: stake.start_time,
        unlock_time: stake.unlock_time,
        period: stake.period,
        claimed: stake.claimed,
        can_unstake: now >= stake.unlock_time && !stake.claimed,
        estimated_reward: reward_amount(
            stake.amount as nat,
            config.staking_reward_rate as nat,
            stake.period.reward_multiplier() as nat,
        ) as u64,
        time_remaining: if now >= stake.unlock_time {
            0
        } else {
            (stake.unlock_time - now) as i64
        },
    }
}

/// Whether the reward of `stake` under `config` cannot be computed in 64
/// bits.
pub open spec fn estimate_overflows(stake: StakeAccount, config: ConfigAccount) -> bool {
    reward_overflows(
        stake.amount as nat,
        config.staking_reward_rate as nat,
        stake.period.reward_multiplier() as nat,
    )
}

/// Summarizes the stake of `staker` in `token_mint` at time `now`. The two
/// identities say whose record is asked for; the summary is that of the
/// record given, or the empty one where there is none. Fails with
/// `MathOverflow`, and only then, when there is a record whose reward cannot
/// be computed. The time that remains has to fit in 64 bits.
pub fn get_stake_summary(
    staker: &Identity,
    token_mint: &Identity,
    stake_account: Option<StakeAccount>,
    config: ConfigAccount,
    now: i64,
) -> (r: Result<StakingSummary, ErrorCode>)
    requires
        stake_account matches Some(stake) ==> stake.unlock_time - now <= i64::MAX,
    ensures
        match r {
            Ok(summary) => match stake_account {
                Some(stake) => !estimate_overflows(stake, config) && summary == stake_summary(
                    stake,
                    config,
                    now,
                ),
                None => summary == no_stake_summary(),
            },
            Err(e) => {
                &&& e == ErrorCode::MathOverflow
                &&& stake_account matches Some(stake) && estimate_overflows(stake, config)
            },
        },
{
    let stake = match stake_account {
        Some(stake) => stake,
        None => {
            return Ok(
                StakingSummary {
                    is_staking: false,
                    amount: 0,
                    start_time: 0,
                    unlock_time: 0,
                    period: StakingPeriod::Minutes1,
                    claimed: false,
                    can_unstake: false,
                    estimated_reward: 0,
                    time_remaining: 0,
                },
            );
        },
    };
    let estimated_reward: u64 = match calculate_reward(
        stake.amount,
        config.staking_reward_rate,
        stake.period.reward_multiplier(),
    ) {
        Ok(reward) => reward,
        Err(e) => {
            return Err(e);
        },
    };
    let time_remaining: i64 = if now >= stake.unlock_time {
        0
    } else {
        stake.unlock_time - now
    };
    Ok(
        StakingSummary {
            is_staking: stake.is_active(),
            amount: stake.amount,
            start_time: stake.start_time,
            unlock_time: stake.unlock_time,
            period: stake.period,
            claimed: stake.claimed,
            can_unstake: now >= stake.unlock_time && !stake.claimed,
            estimated_reward,
            time_remaining,
        },
    )
}

/// Summarizes the configuration.
pub fn get_config_summary(config: ConfigAccount) -> (r: ConfigSummary)
    ensures
        r == (ConfigSummary {
            payment_token_mint: config.payment_token_mint,
            admin: config.admin,
            staking_enabled: config.staking_enabled,
            staking_reward_rate: config.staking_reward_rate,
            max_stake_amount: config.max_stake_amount,
            emergency_paused: config.emergency_paused,
        }),
{
    ConfigSummary {
        payment_token_mint: config.payment_token_mint,
        admin: config.admin,
        staking_enabled: config.staking_enabled,
        staking_reward_rate: config.staking_reward_rate,
        max_stake_amount: config.max_stake_amount,
        emergency_paused: config.emergency_paused,
    }
}

/// Name, symbol and address of the collection, and the number of
/// certificates minted so far.
pub fn get_collection_info(collection_metadata: &NFTMetadata, nft_counter: &NftCounter) -> (r: (
    String,
    String,
    String,
    u64,
))
    ensures
        r.0@ == collection_metadata.name@,
        r.1@ == collection_metadata.symbol@,
        r.2@ == collection_metadata.uri@,
        r.3 == nft_counter.count,
{
    (
        collection_metadata.name.clone(),
        collection_metadata.symbol.clone(),
        collection_metadata.uri.clone(),
        nft_counter.count,
    )
}

} // verus!
