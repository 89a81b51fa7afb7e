//! The closed set of staking periods.

use vstd::prelude::*;

verus! {

/// How long a stake stays locked. Each period carries a reward multiplier in
/// percent of the base reward: 105 stands for the base reward plus 5%.
#[derive(Clone, Copy, Debug, PartialEq, Eq, Structural, Hash)]
pub enum StakingPeriod {
    Minutes1,
    Minutes2,
    Minutes5,
    Minutes10,
    Minutes30,
}

impl StakingPeriod {
    /// The length of the period in minutes.
    pub open spec fn minutes(&self) -> int {
        match self {
            StakingPeriod::Minutes1 => 1,
            StakingPeriod::Minutes2 => 2,
            StakingPeriod::Minutes5 => 5,
            StakingPeriod::Minutes10 => 10,
            StakingPeriod::Minutes30 => 30,
        }
    }

    /// The length of the period in seconds.
    pub open spec fn spec_duration_in_seconds(&self) -> i64 {
        (self.minutes() * 60) as i64
    }

    /// The reward multiplier of the period, in percent.
    pub open spec fn spec_reward_multiplier(&self) -> u64 {
        match self {
            StakingPeriod::Minutes1 => 105,
            StakingPeriod::Minutes2 => 110,
            StakingPeriod::Minutes5 => 120,
            StakingPeriod::Minutes10 => 140,
            StakingPeriod::Minutes30 => 150,
        }
    }

    /// The length of the period in seconds.
    #[verifier::when_used_as_spec(spec_duration_in_seconds)]
    pub fn duration_in_seconds(&self) -> (r: i64)
        ensures
            r == self.minutes() * 60,
            r == self.spec_duration_in_seconds(),
            60 <= r <= 1800,
    {
        let minutes: i64 = match self {
            StakingPeriod::Minutes1 => 1,
            StakingPeriod::Minutes2 => 2,
            StakingPeriod::Minutes5 => 5,
            StakingPeriod::Minutes10 => 10,
            StakingPeriod::Minutes30 => 30,
        };
        minutes * 60
    }

    /// The reward multiplier of the period, in percent.
    #[verifier::when_used_as_spec(spec_reward_multiplier)]
    pub fn reward_multiplier(&self) -> (r: u64)
        ensures
            r == self.spec_reward_multiplier(),
            105 <= r <= 150,
    {
        match self {
            StakingPeriod::Minutes1 => 105,
            StakingPeriod::Minutes2 => 110,
            StakingPeriod::Minutes5 => 120,
            StakingPeriod::Minutes10 => 140,
            StakingPeriod::Minutes30 => 150,
        }
    }
}

} // verus!
