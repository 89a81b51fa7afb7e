//! The notifications that the operations hand back for the caller to publish.

use vstd::prelude::*;
use crate::identity::Identity;
use crate::period::StakingPeriod;

verus! {

/// Tokens were burnt in payment for a certificate.
#[derive(Clone, Copy, Debug, PartialEq, Eq)]
pub struct TokenBurnEvent {
    pub payer: Identity,
    pub token_mint: Identity,
    pub amount: u64,
    pub nft_mint: Identity,
    pub timestamp: i64,
}

/// A lock was opened or changed. `amount` is the whole principal that is
/// locked from now on.
#[derive(Clone, Copy, Debug, PartialEq, Eq)]
pub struct StakingEvent {
    pub staker: Identity,
    pub amount: u64,
    pub period: StakingPeriod,
    pub start_time: i64,
    pub unlock_time: i64,
    pub stake_account: Identity,
}

/// A lock was paid out.
#[derive(Clone, Copy, Debug, PartialEq, Eq)]
pub struct UnstakingEvent {
    pub staker: Identity,
    pub stake_account: Identity,
    pub original_amount: u64,
    pub reward_amount: u64,
    pub total_amount: u64,
    pub timestamp: i64,
}

/// One field of the configuration was written. The old and the new value
/// are given as text.
#[derive(Clone, Debug, PartialEq, Eq)]
pub struct ConfigUpdateEvent {
    pub admin: Identity,
    pub field: String,
    pub old_value: String,
    pub new_value: String,
    pub timestamp: i64,
}

/// What a configuration notification says.
pub ghost struct ConfigUpdateView {
    pub admin: Identity,
    pub field: Seq<char>,
    pub old_value: Seq<char>,
    pub new_value: Seq<char>,
    pub timestamp: i64,
}

impl View for ConfigUpdateEvent {
    type V = ConfigUpdateView;

    open spec fn view(&self) -> ConfigUpdateView {
        ConfigUpdateView {
            admin: self.admin,
            field: self.field@,
            old_value: self.old_value@,
            new_value: self.new_value@,
            timestamp: self.timestamp,
        }
    }
}

/// The emergency pause was set or lifted.
#[derive(Clone, Debug, PartialEq, Eq)]
pub struct EmergencyPauseEvent {
    pub admin: Identity,
    pub paused: bool,
    pub reason: String,
    pub timestamp: i64,
}

/// What a pause notification says.
pub ghost struct EmergencyPauseView {
    pub admin: Identity,
    pub paused: bool,
    pub reason: Seq<char>,
    pub timestamp: i64,
}

impl View for EmergencyPauseEvent {
    type V = EmergencyPauseView;

    open spec fn view(&self) -> EmergencyPauseView {
        EmergencyPauseView {
            admin: self.admin,
            paused: self.paused,
            reason: self.reason@,
            timestamp: self.timestamp,
        }
    }
}

} // verus!
