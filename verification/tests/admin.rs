use adr_token_mint::{
    configure_staking, deposit_reward_reserve, initialize_reward_reserve, set_emergency_pause,
    set_payment_token, set_reward_reserve, update_admin, update_max_stake, Authority,
    ConfigAccount, ConfigureStaking, DepositRewardReserve, EmergencyPause, ErrorCode, Identity,
    InitializeRewardReserve, SetPaymentToken, SetRewardReserve, Settlement, TokenAccount,
    UpdateAdmin, UpdateMaxStake, Wallet,
};
use anchor_lang::prelude::Pubkey;

fn id(n: u8) -> Identity {
    Identity::new([n; 32])
}

fn config() -> ConfigAccount {
    ConfigAccount {
        payment_token_mint: id(9),
        admin: id(1),
        staking_enabled: false,
        staking_reward_rate: 250,
        max_stake_amount: 1_000_000,
        emergency_paused: false,
        reward_reserve: id(7),
    }
}

#[test]
fn configure_writes_both_fields_and_notifies_each() {
    let mut ctx = ConfigureStaking { admin: id(1), config: config() };
    let (enabled, rate) = configure_staking(&mut ctx, true, 1000, 77).unwrap();
    assert!(ctx.config.staking_enabled);
    assert_eq!(ctx.config.staking_reward_rate, 1000);
    assert_eq!(
        ctx.config,
        ConfigAccount { staking_enabled: true, staking_reward_rate: 1000, ..config() }
    );
    assert_eq!(enabled.admin, id(1));
    assert_eq!(enabled.field, "staking_enabled");
    assert_eq!(enabled.old_value, "false");
    assert_eq!(enabled.new_value, "true");
    assert_eq!(enabled.timestamp, 77);
    assert_eq!(rate.admin, id(1));
    assert_eq!(rate.field, "staking_reward_rate");
    assert_eq!(rate.old_value, "250");
    assert_eq!(rate.new_value, "1000");
    assert_eq!(rate.timestamp, 77);
}

#[test]
fn configure_notifies_values_that_did_not_change() {
    let mut ctx = ConfigureStaking { admin: id(1), config: config() };
    let (enabled, rate) = configure_staking(&mut ctx, false, 250, 0).unwrap();
    assert_eq!(ctx.config, config());
    assert_eq!(enabled.old_value, "false");
    assert_eq!(enabled.new_value, "false");
    assert_eq!(rate.old_value, "250");
    assert_eq!(rate.new_value, "250");
}

#[test]
fn configure_writes_the_largest_rate_in_full() {
    let mut ctx = ConfigureStaking { admin: id(1), config: config() };
    let (_, rate) = configure_staking(&mut ctx, true, u64::MAX, 0).unwrap();
    assert_eq!(rate.new_value, "18446744073709551615");
    let (enabled, rate) = configure_staking(&mut ctx, false, 0, 1).unwrap();
    assert_eq!(enabled.old_value, "true");
    assert_eq!(rate.old_value, "18446744073709551615");
    assert_eq!(rate.new_value, "0");
}

#[test]
fn configure_by_a_stranger_is_refused() {
    let mut ctx = ConfigureStaking { admin: id(2), config: config() };
    assert_eq!(configure_staking(&mut ctx, true, 1000, 77), Err(ErrorCode::Unauthorized));
    assert_eq!(ctx, ConfigureStaking { admin: id(2), config: config() });
}

#[test]
fn identities_that_differ_in_one_byte_are_not_the_same() {
    for at in [0usize, 15, 31] {
        let mut bytes = [1u8; 32];
        bytes[at] = 2;
        let mut ctx = ConfigureStaking { admin: Identity::new(bytes), config: config() };
        assert_eq!(configure_staking(&mut ctx, true, 1000, 77), Err(ErrorCode::Unauthorized));
        assert_eq!(ctx.config, config());
    }
}

#[test]
fn pause_is_set_and_lifted() {
    let mut ctx = EmergencyPause { admin: id(1), config: config() };
    let event = set_emergency_pause(&mut ctx, true, String::from("audit"), 5).unwrap();
    assert!(ctx.config.emergency_paused);
    assert_eq!(ctx.config, ConfigAccount { emergency_paused: true, ..config() });
    assert_eq!(event.admin, id(1));
    assert!(event.paused);
    assert_eq!(event.reason, "audit");
    assert_eq!(event.timestamp, 5);
    let event = set_emergency_pause(&mut ctx, false, String::new(), 6).unwrap();
    assert_eq!(ctx.config, config());
    assert!(!event.paused);
    assert_eq!(event.reason, "");
    assert_eq!(event.timestamp, 6);
}

#[test]
fn pause_by_a_stranger_is_refused() {
    let mut ctx = EmergencyPause { admin: id(2), config: config() };
    assert_eq!(
        set_emergency_pause(&mut ctx, true, String::from("mischief"), 5),
        Err(ErrorCode::Unauthorized)
    );
    assert_eq!(ctx, EmergencyPause { admin: id(2), config: config() });
}

#[test]
fn admin_is_handed_over_in_one_step() {
    let mut ctx = UpdateAdmin { admin: id(1), config: config() };
    let event = update_admin(&mut ctx, id(2), 9).unwrap();
    assert_eq!(ctx.config, ConfigAccount { admin: id(2), ..config() });
    assert_eq!(event.admin, id(1));
    assert_eq!(event.field, "admin");
    assert_eq!(event.old_value, Pubkey::new_from_array([1; 32]).to_string());
    assert_eq!(event.new_value, Pubkey::new_from_array([2; 32]).to_string());
    assert_eq!(event.old_value, "4vJ9JU1bJJE96FWSJKvHsmmFADCg4gpZQff4P3bkLKi");
    assert_eq!(event.timestamp, 9);

    // The old administrator has lost every right, the new one has them.
    assert_eq!(update_admin(&mut ctx, id(1), 10), Err(ErrorCode::Unauthorized));
    let mut pause = EmergencyPause { admin: id(1), config: ctx.config };
    assert_eq!(
        set_emergency_pause(&mut pause, true, String::new(), 10),
        Err(ErrorCode::Unauthorized)
    );
    let mut pause = EmergencyPause { admin: id(2), config: ctx.config };
    assert!(set_emergency_pause(&mut pause, true, String::new(), 10).is_ok());
}

#[test]
fn admin_handover_by_a_stranger_is_refused() {
    let mut ctx = UpdateAdmin { admin: id(2), config: config() };
    assert_eq!(update_admin(&mut ctx, id(2), 9), Err(ErrorCode::Unauthorized));
    assert_eq!(ctx, UpdateAdmin { admin: id(2), config: config() });
}

#[test]
fn cap_is_updated() {
    let mut ctx = UpdateMaxStake { admin: id(1), config: config() };
    let event = update_max_stake(&mut ctx, 5, 3).unwrap();
    assert_eq!(ctx.config, ConfigAccount { max_stake_amount: 5, ..config() });
    assert_eq!(event.admin, id(1));
    assert_eq!(event.field, "max_stake_amount");
    assert_eq!(event.old_value, "1000000");
    assert_eq!(event.new_value, "5");
    assert_eq!(event.timestamp, 3);
}

#[test]
fn cap_update_by_a_stranger_is_refused() {
    let mut ctx = UpdateMaxStake { admin: id(2), config: config() };
    assert_eq!(update_max_stake(&mut ctx, 5, 3), Err(ErrorCode::Unauthorized));
    assert_eq!(ctx, UpdateMaxStake { admin: id(2), config: config() });
}

#[test]
fn payment_token_is_set() {
    let mut ctx = SetPaymentToken { admin: id(1), config: config() };
    assert_eq!(set_payment_token(&mut ctx, id(33)), Ok(()));
    assert_eq!(ctx.config, ConfigAccount { payment_token_mint: id(33), ..config() });
}

#[test]
fn payment_token_set_by_a_stranger_is_refused() {
    let mut ctx = SetPaymentToken { admin: id(2), config: config() };
    assert_eq!(set_payment_token(&mut ctx, id(33)), Err(ErrorCode::Unauthorized));
    assert_eq!(ctx, SetPaymentToken { admin: id(2), config: config() });
}

#[test]
fn reward_reserve_is_set() {
    let mut ctx = SetRewardReserve { admin: id(1), config: config() };
    assert_eq!(set_reward_reserve(&mut ctx, id(44)), Ok(()));
    assert_eq!(ctx.config, ConfigAccount { reward_reserve: id(44), ..config() });
}

#[test]
fn reward_reserve_set_by_a_stranger_is_refused() {
    let mut ctx = SetRewardReserve { admin: id(2), config: config() };
    assert_eq!(set_reward_reserve(&mut ctx, id(44)), Err(ErrorCode::Unauthorized));
    assert_eq!(ctx, SetRewardReserve { admin: id(2), config: config() });
}

#[test]
fn reward_reserve_is_initialized_with_the_new_account() {
    let account = TokenAccount { key: id(55), owner: id(56), amount: 0 };
    let mut ctx =
        InitializeRewardReserve { admin: id(1), reward_reserve_account: account, config: config() };
    assert_eq!(initialize_reward_reserve(&mut ctx), Ok(()));
    assert_eq!(ctx.config, ConfigAccount { reward_reserve: id(55), ..config() });
    assert_eq!(ctx.reward_reserve_account, account);
}

#[test]
fn reward_reserve_initialized_by_a_stranger_is_refused() {
    let account = TokenAccount { key: id(55), owner: id(56), amount: 0 };
    let mut ctx =
        InitializeRewardReserve { admin: id(2), reward_reserve_account: account, config: config() };
    let before = ctx;
    assert_eq!(initialize_reward_reserve(&mut ctx), Err(ErrorCode::Unauthorized));
    assert_eq!(ctx, before);
}

#[test]
fn deposit_orders_a_transfer_into_the_reserve() {
    let ctx = DepositRewardReserve { admin: id(1), config: config() };
    assert_eq!(
        deposit_reward_reserve(&ctx, 12_345),
        Ok(Settlement::Transfer {
            from: Wallet::Holder,
            to: Wallet::RewardReserve,
            amount: 12_345,
            authority: Authority::Holder,
        })
    );
}

#[test]
fn deposit_by_a_stranger_is_refused() {
    let ctx = DepositRewardReserve { admin: id(2), config: config() };
    assert_eq!(deposit_reward_reserve(&ctx, 12_345), Err(ErrorCode::Unauthorized));
}

#[test]
fn is_admin_knows_the_administrator() {
    assert!(config().is_admin(&id(1)));
    assert!(!config().is_admin(&id(2)));
    assert!(!config().is_admin(&Identity::default()));
}
