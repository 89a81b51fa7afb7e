use adr_token_mint::{calculate_reward, ErrorCode, StakingPeriod};

#[test]
fn reward_of_one_million_at_ten_percent_with_twenty_percent_bonus() {
    // ((1_000_000 * 1000) / 10000) * 120 / 100
    assert_eq!(calculate_reward(1_000_000, 1000, 120), Ok(120_000));
}

#[test]
fn reward_of_a_base_of_one_hundred_with_twenty_percent_bonus() {
    // (1000 * 1000) / 10000 = 100, and 100 * 120 / 100 = 120
    assert_eq!(calculate_reward(1000, 1000, 120), Ok(120));
}

#[test]
fn reward_is_the_same_on_every_run() {
    let first = calculate_reward(1_000_000, 1000, 120);
    for _ in 0..100 {
        assert_eq!(calculate_reward(1_000_000, 1000, 120), first);
    }
}

#[test]
fn reward_divides_by_basis_points_before_it_multiplies() {
    // 9999 * 1 / 10000 is 0, so the multiplier has nothing to work on;
    // multiplying first would give 9999 * 150 / 1_000_000 = 1.
    assert_eq!(calculate_reward(9999, 1, 150), Ok(0));
    // 19_999 * 1 / 10000 = 1, and 1 * 150 / 100 = 1.
    assert_eq!(calculate_reward(19_999, 1, 150), Ok(1));
    // 3 * 5000 / 10000 = 1, and 1 * 199 / 100 = 1.
    assert_eq!(calculate_reward(3, 5000, 199), Ok(1));
}

#[test]
fn reward_rounds_down_twice() {
    // 12_345 * 777 = 9_592_065; / 10000 = 959; * 105 = 100_695; / 100 = 1006
    assert_eq!(calculate_reward(12_345, 777, 105), Ok(1006));
}

#[test]
fn reward_of_nothing_is_nothing() {
    assert_eq!(calculate_reward(0, 1000, 150), Ok(0));
    assert_eq!(calculate_reward(1_000_000, 0, 150), Ok(0));
    assert_eq!(calculate_reward(1_000_000, 1000, 0), Ok(0));
    assert_eq!(calculate_reward(0, u64::MAX, u64::MAX), Ok(0));
}

#[test]
fn reward_fails_when_the_first_product_overflows() {
    assert_eq!(calculate_reward(u64::MAX, 2, 100), Err(ErrorCode::MathOverflow));
    assert_eq!(calculate_reward(1 << 32, 1 << 32, 100), Err(ErrorCode::MathOverflow));
}

#[test]
fn reward_fails_when_the_second_product_overflows() {
    // u64::MAX / 10000 = 1_844_674_407_370_955, times 10001 is above u64::MAX
    assert_eq!(calculate_reward(u64::MAX, 1, 10_001), Err(ErrorCode::MathOverflow));
    // times 10000 it still fits
    assert_eq!(
        calculate_reward(u64::MAX, 1, 10_000),
        Ok(1_844_674_407_370_955 * 10_000 / 100)
    );
}

#[test]
fn reward_at_the_edge_of_the_first_product() {
    assert_eq!(calculate_reward(u64::MAX, 1, 100), Ok(1_844_674_407_370_955));
    assert_eq!(calculate_reward(u64::MAX / 2, 2, 100), Ok(1_844_674_407_370_955));
    assert_eq!(calculate_reward(u64::MAX / 2 + 1, 2, 100), Err(ErrorCode::MathOverflow));
}

#[test]
fn reward_with_each_period_multiplier() {
    let base = 1_000_000u64;
    let rate = 1000u64;
    assert_eq!(
        calculate_reward(base, rate, StakingPeriod::Minutes1.reward_multiplier()),
        Ok(105_000)
    );
    assert_eq!(
        calculate_reward(base, rate, StakingPeriod::Minutes2.reward_multiplier()),
        Ok(110_000)
    );
    assert_eq!(
        calculate_reward(base, rate, StakingPeriod::Minutes5.reward_multiplier()),
        Ok(120_000)
    );
    assert_eq!(
        calculate_reward(base, rate, StakingPeriod::Minutes10.reward_multiplier()),
        Ok(140_000)
    );
    assert_eq!(
        calculate_reward(base, rate, StakingPeriod::Minutes30.reward_multiplier()),
        Ok(150_000)
    );
}

#[test]
fn reward_grows_with_the_stake() {
    let mut last = 0u64;
    for staked in [0u64, 1, 9, 10, 99, 100, 12_345, 1_000_000, 1 << 40] {
        let reward = calculate_reward(staked, 777, 140).unwrap();
        assert!(reward >= last);
        last = reward;
    }
}

#[test]
fn period_durations_in_seconds() {
    assert_eq!(StakingPeriod::Minutes1.duration_in_seconds(), 60);
    assert_eq!(StakingPeriod::Minutes2.duration_in_seconds(), 120);
    assert_eq!(StakingPeriod::Minutes5.duration_in_seconds(), 300);
    assert_eq!(StakingPeriod::Minutes10.duration_in_seconds(), 600);
    assert_eq!(StakingPeriod::Minutes30.duration_in_seconds(), 1800);
}

#[test]
fn period_multipliers_in_percent() {
    assert_eq!(StakingPeriod::Minutes1.reward_multiplier(), 105);
    assert_eq!(StakingPeriod::Minutes2.reward_multiplier(), 110);
    assert_eq!(StakingPeriod::Minutes5.reward_multiplier(), 120);
    assert_eq!(StakingPeriod::Minutes10.reward_multiplier(), 140);
    assert_eq!(StakingPeriod::Minutes30.reward_multiplier(), 150);
}

#[test]
fn longer_periods_pay_more() {
    let periods = [
        StakingPeriod::Minutes1,
        StakingPeriod::Minutes2,
        StakingPeriod::Minutes5,
        StakingPeriod::Minutes10,
        StakingPeriod::Minutes30,
    ];
    for pair in periods.windows(2) {
        assert!(pair[0].duration_in_seconds() < pair[1].duration_in_seconds());
        assert!(pair[0].reward_multiplier() < pair[1].reward_multiplier());
    }
}
