//! A token-staking ledger with a fixed-point reward engine.
//!
//! A holder locks a balance of a fungible token for one of a closed set of
//! periods and, once the period has elapsed, reclaims the principal together
//! with a period-dependent reward. Beside the ledger stands a collection of
//! certificates that are minted against a payment in tokens, which is burnt.
//!
//! The crate decides and records; it never moves a balance itself. Every
//! operation takes the accounts it works on as plain values, makes all its
//! tests before it changes anything, and answers with the settlement orders
//! and the notifications that the caller has to carry out. The time is an
//! argument, never read.
//!
//! Two choices are fixed throughout. A stake into a running lock always
//! merges with it, whatever the period of either, and the merged lock starts
//! over. Rewards are paid out of a reserve that was funded beforehand; the
//! ledger never mints a reward.

pub mod address;
pub mod admin;
pub mod collection;
pub mod error;
pub mod events;
pub mod identity;
pub mod laws;
pub mod period;
pub mod reward;
pub mod settlement;
pub mod staking;
pub mod state;
pub mod text;
pub mod views;

pub use address::{
    find_nft_counter_pda, find_nft_metadata_pda, find_nft_mint_pda, find_stake_account_pda,
    find_stake_authority_pda, try_find_nft_counter_pda, try_find_nft_metadata_pda,
    try_find_nft_mint_pda, try_find_stake_account_pda, try_find_stake_authority_pda,
};
pub use admin::{
    configure_staking, deposit_reward_reserve, initialize_reward_reserve, set_emergency_pause,
    set_payment_token, set_reward_reserve, update_admin, update_max_stake, ConfigureStaking,
    DepositRewardReserve, EmergencyPause, InitializeRewardReserve, SetPaymentToken,
    SetRewardReserve, UpdateAdmin, UpdateMaxStake,
};
pub use collection::{
    approve_delegate, initialize_collection, mint_nft_with_payment, ApproveDelegate,
    InitializeCollection, MintNFTWithPayment, MintReceipt,
};
pub use error::ErrorCode;
pub use events::{
    ConfigUpdateEvent, EmergencyPauseEvent, StakingEvent, TokenBurnEvent, UnstakingEvent,
};
pub use identity::Identity;
pub use period::StakingPeriod;
pub use reward::calculate_reward;
pub use settlement::{Authority, Settlement, Wallet};
pub use staking::{
    stake_tokens, unstake_tokens, StakeNotice, StakeReceipt, StakeTokens, UnstakeReceipt,
    UnstakeTokens,
};
pub use state::{ConfigAccount, NFTMetadata, NftCounter, StakeAccount, TokenAccount};
pub use views::{
    get_collection_info, get_config_summary, get_stake_summary, ConfigSummary, StakingSummary,
};
