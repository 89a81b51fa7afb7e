//! The reward formula.

use vstd::prelude::*;
use crate::error::ErrorCode;

verus! {

/// The unit of the base rate: 10000 basis points are 100%.
pub const BASIS_POINTS: u64 = 10000;

/// The unit of a period's multiplier: 100 percent is the base reward itself.
pub const PERCENT: u64 = 100;

/// The base reward of a stake, before the period's multiplier: the staked
/// amount times the base rate in basis points, rounded down.
pub open spec fn base_reward(staked_amount: nat, base_rate: nat) -> nat {
    (staked_amount * base_rate) / (BASIS_POINTS as nat)
}

/// The reward of a stake: the base reward times the multiplier in percent,
/// rounded down once more. The two divisions are taken in this order.
pub open spec fn reward_amount(staked_amount: nat, base_rate: nat, multiplier: nat) -> nat {
    (base_reward(staked_amount, base_rate) * multiplier) / (PERCENT as nat)
}

/// Whether one of the two products of the formula leaves the range of `u64`.
pub open spec fn reward_overflows(staked_amount: nat, base_rate: nat, multiplier: nat) -> bool {
    ||| staked_amount * base_rate > u64::MAX
    ||| base_reward(staked_amount, base_rate) * multiplier > u64::MAX
}

/// Computes the reward of `staked_amount` at `base_rate` basis points and a
/// multiplier in percent. Fails with `MathOverflow`, and only then, when a
/// product of the formula does not fit in 64 bits.
pub fn calculate_reward(staked_amount: u64, base_rate: u64, multiplier: u64) -> (r: Result<
    u64,
    ErrorCode,
>)
    ensures
        match r {
            Ok(reward) => {
                &&& !reward_overflows(staked_amount as nat, base_rate as nat, multiplier as nat)
                &&& reward == reward_amount(
                    staked_amount as nat,
                    base_rate as nat,
                    multiplier as nat,
                )
            },
            Err(e) => {
                &&& e == ErrorCode::MathOverflow
                &&& reward_overflows(staked_amount as nat, base_rate as nat, multiplier as nat)
            },
        },
{
    let scaled: u64 = match staked_amount.checked_mul(base_rate) {
        Some(v) => v,
        None => {
            return Err(ErrorCode::MathOverflow);
        },
    };
    let base: u64 = scaled / BASIS_POINTS;
    let boosted: u64 = match base.checked_mul(multiplier) {
        Some(v) => v,
        None => {
            return Err(ErrorCode::MathOverflow);
        },
    };
    Ok(boosted / PERCENT)
}

} // verus!
