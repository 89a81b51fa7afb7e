//! The records that the ledger keeps, and the token accounts it reads.

use vstd::prelude::*;
use crate::identity::Identity;
use crate::period::StakingPeriod;

verus! {

/// The cap on a single stake that a new configuration starts with: one
/// million tokens of nine decimals.
pub const DEFAULT_MAX_STAKE_AMOUNT: u64 = 1_000_000_000_000_000;

/// The configuration of a deployment. There is one, created when the
/// deployment is initialized, and only its administrator changes it.
#[derive(Clone, Copy, Debug, PartialEq, Eq)]
pub struct ConfigAccount {
    /// The token that pays for certificates; empty until it is set.
    pub payment_token_mint: Identity,
    /// The identity that alone may change this configuration.
    pub admin: Identity,
    /// Whether new stakes are accepted.
    pub staking_enabled: bool,
    /// The base reward rate in basis points, before a period's multiplier.
    pub staking_reward_rate: u64,
    /// The largest amount that one call may stake.
    pub max_stake_amount: u64,
    /// While set, neither staking nor unstaking is possible.
    pub emergency_paused: bool,
    /// The token account that holds the reward pool; empty until it is set.
    pub reward_reserve: Identity,
}

impl ConfigAccount {
    /// A configuration is well formed when it has an administrator.
    pub open spec fn wf(&self) -> bool {
        !self.admin.is_empty()
    }

    /// Whether this is the configuration that a deployment of `admin`
    /// starts with: staking disabled, no reward, the default cap, not
    /// paused, and neither payment token nor reward reserve set.
    pub open spec fn is_initial(&self, admin: Identity) -> bool {
        &&& self.payment_token_mint.is_empty()
        &&& self.admin == admin
        &&& !self.staking_enabled
        &&& self.staking_reward_rate == 0
        &&& self.max_stake_amount == DEFAULT_MAX_STAKE_AMOUNT
        &&& !self.emergency_paused
        &&& self.reward_reserve.is_empty()
    }

    /// Whether `caller` is the administrator.
    pub open spec fn spec_is_admin(&self, caller: &Identity) -> bool {
        self.admin == *caller
    }

    /// Whether `caller` is the administrator: the one test behind every
    /// operation that changes the configuration.
    #[verifier::when_used_as_spec(spec_is_admin)]
    pub fn is_admin(&self, caller: &Identity) -> (r: bool)
        ensures
            r == self.spec_is_admin(caller),
    {
        self.admin == *caller
    }
}

/// The stake of one holder in one token. A record is created empty, filled
/// by the first stake, and used again for every later lock of the same
/// holder; it is never removed.
#[derive(Clone, Copy, Debug, PartialEq, Eq)]
pub struct StakeAccount {
    /// The holder whose stake this is.
    pub owner: Identity,
    /// The locked principal.
    pub amount: u64,
    /// When the current lock began.
    pub start_time: i64,
    /// When the current lock ends.
    pub unlock_time: i64,
    /// The period of the current lock.
    pub period: StakingPeriod,
    /// Whether principal and reward of the current lock were paid out.
    pub claimed: bool,
}

impl StakeAccount {
    /// A record holds an active lock while it has a principal that was not
    /// claimed. A stake into an active lock is merged with it; any other
    /// stake starts a new lock.
    pub open spec fn spec_is_active(&self) -> bool {
        self.amount > 0 && !self.claimed
    }

    /// Whether the record holds an active lock.
    #[verifier::when_used_as_spec(spec_is_active)]
    pub fn is_active(&self) -> (r: bool)
        ensures
            r == self.spec_is_active(),
    {
        self.amount > 0 && !self.claimed
    }

    /// The principal that custody keeps for the record: the amount until
    /// it is claimed, and nothing from then on.
    pub open spec fn locked(&self) -> nat {
        if self.claimed {
            0
        } else {
            self.amount as nat
        }
    }

    /// A record is well formed when its lock does not end before it begins
    /// and, once it has held a principal, ends one period after it began.
    pub open spec fn wf(&self) -> bool {
        &&& self.unlock_time >= self.start_time
        &&& self.amount > 0 ==> self.unlock_time == self.start_time
            + self.period.duration_in_seconds()
    }

    /// The record of a holder who has not staked yet.
    pub open spec fn spec_is_vacant(&self) -> bool {
        &&& self.owner.is_empty()
        &&& self.amount == 0
        &&& self.start_time == 0
        &&& self.unlock_time == 0
        &&& self.period == StakingPeriod::Minutes1
        &&& !self.claimed
    }

    /// The record of a holder who has not staked yet.
    pub fn vacant() -> (r: StakeAccount)
        ensures
            r.spec_is_vacant(),
            r.wf(),
            !r.is_active(),
    {
        StakeAccount {
            owner: Identity::default(),
            amount: 0,
            start_time: 0,
            unlock_time: 0,
            period: StakingPeriod::Minutes1,
            claimed: false,
        }
    }
}

/// The image of a token account: where it is, whose it is, and what it
/// holds when an operation begins.
#[derive(Clone, Copy, Debug, PartialEq, Eq)]
pub struct TokenAccount {
    /// The address of the token account.
    pub key: Identity,
    /// The identity that may spend from it.
    pub owner: Identity,
    /// Its balance.
    pub amount: u64,
}

/// The number of certificates minted so far.
#[derive(Clone, Copy, Debug, PartialEq, Eq)]
pub struct NftCounter {
    pub count: u64,
}

/// The description of a collection, or of one certificate in it.
#[derive(Clone, Debug, PartialEq, Eq)]
pub struct NFTMetadata {
    /// The identity that created the entry.
    pub authority: Identity,
    pub name: String,
    pub symbol: String,
    pub uri: String,
    /// The collection that a certificate belongs to; none for a collection.
    pub collection: Option<Identity>,
}

/// What a metadata entry says, with its texts as sequences of characters.
pub ghost struct MetadataView {
    pub authority: Identity,
    pub name: Seq<char>,
    pub symbol: Seq<char>,
    pub uri: Seq<char>,
    pub collection: Option<Identity>,
}

impl View for NFTMetadata {
    type V = MetadataView;

    open spec fn view(&self) -> MetadataView {
        MetadataView {
            authority: self.authority,
            name: self.name@,
            symbol: self.symbol@,
            uri: self.uri@,
            collection: self.collection,
        }
    }
}

} // verus!
