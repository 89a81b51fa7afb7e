use adr_token_mint::{
    approve_delegate, get_collection_info, get_config_summary, get_stake_summary,
    initialize_collection, mint_nft_with_payment, ApproveDelegate, ConfigAccount, ConfigSummary,
    ErrorCode, Identity, InitializeCollection, MintNFTWithPayment, NFTMetadata, NftCounter,
    Settlement, StakeAccount, StakingPeriod, StakingSummary, TokenAccount, TokenBurnEvent,
};

fn id(n: u8) -> Identity {
    Identity::new([n; 32])
}

fn blank_metadata() -> NFTMetadata {
    NFTMetadata {
        authority: Identity::default(),
        name: String::new(),
        symbol: String::new(),
        uri: String::new(),
        collection: None,
    }
}

fn blank_config() -> ConfigAccount {
    ConfigAccount {
        payment_token_mint: Identity::default(),
        admin: Identity::default(),
        staking_enabled: false,
        staking_reward_rate: 0,
        max_stake_amount: 0,
        emergency_paused: false,
        reward_reserve: Identity::default(),
    }
}

fn new_deployment() -> InitializeCollection {
    InitializeCollection {
        payer: id(1),
        collection_metadata: blank_metadata(),
        config: blank_config(),
        nft_counter: NftCounter { count: 17 },
    }
}

fn mint_ctx(balance: u64) -> MintNFTWithPayment {
    MintNFTWithPayment {
        payer: id(2),
        nft_counter: NftCounter { count: 4 },
        nft_mint: id(30),
        nft_metadata: blank_metadata(),
        collection_metadata: id(31),
        payment_token_mint: id(9),
        payer_payment_token_account: TokenAccount { key: id(32), owner: id(2), amount: balance },
        config: ConfigAccount {
            payment_token_mint: id(9),
            admin: id(1),
            staking_enabled: true,
            staking_reward_rate: 1000,
            max_stake_amount: 1_000_000,
            emergency_paused: false,
            reward_reserve: id(7),
        },
    }
}

fn text(s: &str) -> String {
    String::from(s)
}

#[test]
fn initialize_sets_a_deployment_up() {
    let mut ctx = new_deployment();
    assert_eq!(
        initialize_collection(&mut ctx, text("Certificates"), text("CRT"), text("https://c.example")),
        Ok(())
    );
    assert_eq!(
        ctx.collection_metadata,
        NFTMetadata {
            authority: id(1),
            name: text("Certificates"),
            symbol: text("CRT"),
            uri: text("https://c.example"),
            collection: None,
        }
    );
    assert_eq!(
        ctx.config,
        ConfigAccount {
            payment_token_mint: Identity::default(),
            admin: id(1),
            staking_enabled: false,
            staking_reward_rate: 0,
            max_stake_amount: 1_000_000_000_000_000,
            emergency_paused: false,
            reward_reserve: Identity::default(),
        }
    );
    assert_eq!(ctx.nft_counter, NftCounter { count: 0 });
    assert_eq!(ctx.payer, id(1));
}

#[test]
fn initialize_with_an_empty_text_is_refused() {
    for (name, symbol, uri) in [("", "CRT", "u"), ("n", "", "u"), ("n", "CRT", ""), ("", "", "")] {
        let mut ctx = new_deployment();
        assert_eq!(
            initialize_collection(&mut ctx, text(name), text(symbol), text(uri)),
            Err(ErrorCode::InvalidInput)
        );
        assert_eq!(ctx, new_deployment());
    }
}

#[test]
fn mint_burns_the_payment_and_mints_one_certificate() {
    let mut ctx = mint_ctx(100);
    let receipt =
        mint_nft_with_payment(&mut ctx, text("No. 5"), text("CRT"), text("https://c/5"), 100, 88)
            .unwrap();
    assert_eq!(
        receipt.orders,
        vec![Settlement::Burn { amount: 100 }, Settlement::MintTo { amount: 1 }]
    );
    assert_eq!(
        receipt.event,
        TokenBurnEvent {
            payer: id(2),
            token_mint: id(9),
            amount: 100,
            nft_mint: id(30),
            timestamp: 88,
        }
    );
    assert_eq!(
        ctx.nft_metadata,
        NFTMetadata {
            authority: id(2),
            name: text("No. 5"),
            symbol: text("CRT"),
            uri: text("https://c/5"),
            collection: Some(id(31)),
        }
    );
    assert_eq!(ctx.nft_counter, NftCounter { count: 5 });
    let untouched = mint_ctx(100);
    assert_eq!(ctx.config, untouched.config);
    assert_eq!(ctx.payer_payment_token_account, untouched.payer_payment_token_account);
}

#[test]
fn mint_for_nothing_is_accepted() {
    let mut ctx = mint_ctx(0);
    let receipt = mint_nft_with_payment(&mut ctx, text("n"), text("s"), text("u"), 0, 0).unwrap();
    assert_eq!(
        receipt.orders,
        vec![Settlement::Burn { amount: 0 }, Settlement::MintTo { amount: 1 }]
    );
}

#[test]
fn mint_without_a_payment_token_is_refused() {
    let mut ctx = mint_ctx(100);
    ctx.config.payment_token_mint = Identity::default();
    let before = ctx.clone();
    assert_eq!(
        mint_nft_with_payment(&mut ctx, text(""), text("s"), text("u"), 1_000, 0),
        Err(ErrorCode::PaymentTokenNotConfigured)
    );
    assert_eq!(ctx, before);
}

#[test]
fn mint_while_paused_is_refused() {
    let mut ctx = mint_ctx(100);
    ctx.config.emergency_paused = true;
    ctx.config.payment_token_mint = Identity::default();
    let before = ctx.clone();
    assert_eq!(
        mint_nft_with_payment(&mut ctx, text(""), text("s"), text("u"), 1_000, 0),
        Err(ErrorCode::SystemPaused)
    );
    assert_eq!(ctx, before);
}

#[test]
fn mint_with_an_empty_text_is_refused() {
    for (name, symbol, uri) in [("", "s", "u"), ("n", "", "u"), ("n", "s", "")] {
        let mut ctx = mint_ctx(100);
        assert_eq!(
            mint_nft_with_payment(&mut ctx, text(name), text(symbol), text(uri), 1_000, 0),
            Err(ErrorCode::InvalidInput)
        );
        assert_eq!(ctx, mint_ctx(100));
    }
}

#[test]
fn mint_beyond_the_balance_is_refused() {
    let mut ctx = mint_ctx(99);
    assert_eq!(
        mint_nft_with_payment(&mut ctx, text("n"), text("s"), text("u"), 100, 0),
        Err(ErrorCode::InsufficientFunds)
    );
    assert_eq!(ctx, mint_ctx(99));
}

#[test]
fn mint_beyond_the_last_number_is_refused() {
    let mut ctx = mint_ctx(100);
    ctx.nft_counter.count = u64::MAX;
    let before = ctx.clone();
    assert_eq!(
        mint_nft_with_payment(&mut ctx, text("n"), text("s"), text("u"), 100, 0),
        Err(ErrorCode::MathOverflow)
    );
    assert_eq!(ctx, before);
    ctx.nft_counter.count = u64::MAX - 1;
    assert!(mint_nft_with_payment(&mut ctx, text("n"), text("s"), text("u"), 100, 0).is_ok());
    assert_eq!(ctx.nft_counter.count, u64::MAX);
}

#[test]
fn approval_is_ordered_for_the_owner() {
    let ctx = ApproveDelegate {
        owner: id(2),
        token_account: TokenAccount { key: id(32), owner: id(2), amount: 5 },
    };
    assert_eq!(approve_delegate(&ctx, 1_000), Ok(Settlement::Approve { amount: 1_000 }));
}

#[test]
fn approval_by_a_stranger_is_refused() {
    let ctx = ApproveDelegate {
        owner: id(3),
        token_account: TokenAccount { key: id(32), owner: id(2), amount: 5 },
    };
    assert_eq!(approve_delegate(&ctx, 1_000), Err(ErrorCode::Unauthorized));
}

#[test]
fn collection_info_repeats_the_description() {
    let metadata = NFTMetadata {
        authority: id(1),
        name: text("Certificates"),
        symbol: text("CRT"),
        uri: text("https://c.example"),
        collection: None,
    };
    assert_eq!(
        get_collection_info(&metadata, &NftCounter { count: 12 }),
        (text("Certificates"), text("CRT"), text("https://c.example"), 12)
    );
}

#[test]
fn config_summary_repeats_the_configuration() {
    let config = mint_ctx(0).config;
    assert_eq!(
        get_config_summary(config),
        ConfigSummary {
            payment_token_mint: id(9),
            admin: id(1),
            staking_enabled: true,
            staking_reward_rate: 1000,
            max_stake_amount: 1_000_000,
            emergency_paused: false,
        }
    );
}

#[test]
fn summary_without_a_record_is_empty() {
    assert_eq!(
        get_stake_summary(&id(2), &id(9), None, mint_ctx(0).config, 1_000),
        Ok(StakingSummary {
            is_staking: false,
            amount: 0,
            start_time: 0,
            unlock_time: 0,
            period: StakingPeriod::Minutes1,
            claimed: false,
            can_unstake: false,
            estimated_reward: 0,
            time_remaining: 0,
        })
    );
}

#[test]
fn summary_of_a_running_lock() {
    let record = StakeAccount {
        owner: id(2),
        amount: 1_000_000,
        start_time: 1_000,
        unlock_time: 1_300,
        period: StakingPeriod::Minutes5,
        claimed: false,
    };
    assert_eq!(
        get_stake_summary(&id(2), &id(9), Some(record), mint_ctx(0).config, 1_100),
        Ok(StakingSummary {
            is_staking: true,
            amount: 1_000_000,
            start_time: 1_000,
            unlock_time: 1_300,
            period: StakingPeriod::Minutes5,
            claimed: false,
            can_unstake: false,
            estimated_reward: 120_000,
            time_remaining: 200,
        })
    );
}

#[test]
fn summary_of_a_lock_that_has_ended() {
    let record = StakeAccount {
        owner: id(2),
        amount: 1_000_000,
        start_time: 1_000,
        unlock_time: 1_300,
        period: StakingPeriod::Minutes5,
        claimed: false,
    };
    let summary =
        get_stake_summary(&id(2), &id(9), Some(record), mint_ctx(0).config, 1_300).unwrap();
    assert!(summary.can_unstake);
    assert!(summary.is_staking);
    assert_eq!(summary.time_remaining, 0);
}

#[test]
fn summary_of_a_claimed_record() {
    let record = StakeAccount {
        owner: id(2),
        amount: 1_000_000,
        start_time: 1_000,
        unlock_time: 1_300,
        period: StakingPeriod::Minutes30,
        claimed: true,
    };
    let summary =
        get_stake_summary(&id(2), &id(9), Some(record), mint_ctx(0).config, 5_000).unwrap();
    assert!(!summary.can_unstake);
    assert!(!summary.is_staking);
    assert!(summary.claimed);
    assert_eq!(summary.estimated_reward, 150_000);
    assert_eq!(summary.time_remaining, 0);
}

#[test]
fn summary_whose_reward_overflows_fails() {
    let record = StakeAccount {
        owner: id(2),
        amount: u64::MAX,
        start_time: 1_000,
        unlock_time: 1_300,
        period: StakingPeriod::Minutes5,
        claimed: false,
    };
    assert_eq!(
        get_stake_summary(&id(2), &id(9), Some(record), mint_ctx(0).config, 1_100),
        Err(ErrorCode::MathOverflow)
    );
}
