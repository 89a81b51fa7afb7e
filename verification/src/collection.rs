//! The collection of certificates: its set-up, and minting against payment.

use vstd::prelude::*;
use crate::error::ErrorCode;
use crate::events::TokenBurnEvent;
use crate::identity::Identity;
use crate::settlement::Settlement;
use crate::state::{
    ConfigAccount, MetadataView, NFTMetadata, NftCounter, TokenAccount, DEFAULT_MAX_STAKE_AMOUNT,
};

verus! {

/// The accounts of `initialize_collection`. Metadata, configuration and
/// counter are the accounts that were created with the call.
#[derive(Clone, Debug, PartialEq, Eq)]
pub struct InitializeCollection {
    /// The caller, who becomes the administrator.
    pub payer: Identity,
    /// The description of the collection.
    pub collection_metadata: NFTMetadata,
    /// The configuration of the deployment.
    pub config: ConfigAccount,
    /// The certificate counter.
    pub nft_counter: NftCounter,
}

/// Whether one of the three texts of a description is empty.
pub open spec fn has_empty_text(name: Seq<char>, symbol: Seq<char>, uri: Seq<char>) -> bool {
    name.len() == 0 || symbol.len() == 0 || uri.len() == 0
}

/// Sets a deployment up: describes the collection, makes the caller the
/// administrator of a configuration with staking disabled, and starts the
/// certificate counter at zero. Refused with `InvalidInput`, and only then,
/// when name, symbol or address of the description is empty.
pub fn initialize_collection(
    ctx: &mut InitializeCollection,
    name: String,
    symbol: String,
    uri: String,
) -> (r: Result<(), ErrorCode>)
    ensures
        match r {
            Ok(_) => {
                &&& !has_empty_text(name@, symbol@, uri@)
                &&& final(ctx).payer == old(ctx).payer
                &&& final(ctx).collection_metadata@ == (MetadataView {
                    authority: old(ctx).payer,
                    name: name@,
                    symbol: symbol@,
                    uri: uri@,
                    collection: old(ctx).collection_metadata.collection,
                })
                &&& final(ctx).config.is_initial(old(ctx).payer)
                &&& final(ctx).nft_counter.count == 0
                &&& !old(ctx).payer.is_empty() ==> final(ctx).config.wf()
            },
            Err(e) => {
                &&& e == ErrorCode::InvalidInput
                &&& has_empty_text(name@, symbol@, uri@)
                &&& *final(ctx) == *old(ctx)
            },
        },
{
    if name.as_str().is_empty() || symbol.as_str().is_empty() || uri.as_str().is_empty() {
        return Err(ErrorCode::InvalidInput);
    }
    ctx.collection_metadata.name = name;
    ctx.collection_metadata.symbol = symbol;
    ctx.collection_metadata.uri = uri;
    ctx.collection_metadata.authority = ctx.payer;
    ctx.config = ConfigAccount {
        payment_token_mint: Identity::default(),
        admin: ctx.payer,
        staking_enabled: false,
        staking_reward_rate: 0,
        max_stake_amount: DEFAULT_MAX_STAKE_AMOUNT,
        emergency_paused: false,
        reward_reserve: Identity::default(),
    };
    ctx.nft_counter.count = 0;
    Ok(())
}

/// The accounts of `mint_nft_with_payment`.
#[derive(Clone, Debug, PartialEq, Eq)]
pub struct MintNFTWithPayment {
    /// The caller, who pays and receives the certificate.
    pub payer: Identity,
    /// The certificate counter.
    pub nft_counter: NftCounter,
    /// The address of the mint of the new certificate.
    pub nft_mint: Identity,
    /// The description of the new certificate, created with the call.
    pub nft_metadata: NFTMetadata,
    /// The address of the description of the collection.
    pub collection_metadata: Identity,
    /// The address of the mint of the payment token.
    pub payment_token_mint: Identity,
    /// The caller's account of the payment token.
    pub payer_payment_token_account: TokenAccount,
    /// The configuration of the deployment.
    pub config: ConfigAccount,
}

/// The answer to a mint that was accepted.
#[derive(Clone, Debug, PartialEq, Eq)]
pub struct MintReceipt {
    /// The orders that settle the mint, in order.
    pub orders: Vec<Settlement>,
    /// The notification of the payment.
    pub event: TokenBurnEvent,
}

impl MintNFTWithPayment {
    /// Why a mint of a certificate with these texts against a payment of
    /// `amount` is refused: the first test that fails, in the order in which
    /// they are made; `None` where the mint is accepted.
    pub open spec fn refusal(&self, name: Seq<char>, symbol: Seq<char>, uri: Seq<char>, amount: u64)
        -> Option<ErrorCode> {
        if self.config.emergency_paused {
            Some(ErrorCode::SystemPaused)
        } else if self.config.payment_token_mint.is_empty() {
            Some(ErrorCode::PaymentTokenNotConfigured)
        } else if has_empty_text(name, symbol, uri) {
            Some(ErrorCode::InvalidInput)
        } else if self.payer_payment_token_account.amount < amount {
            Some(ErrorCode::InsufficientFunds)
        } else if self.nft_counter.count == u64::MAX {
            Some(ErrorCode::MathOverflow)
        } else {
            None
        }
    }

    /// The orders that settle the mint: the payment is burnt, then one
    /// certificate is minted to the caller.
    pub open spec fn orders(amount: u64) -> Seq<Settlement> {
        seq![Settlement::Burn { amount }, Settlement::MintTo { amount: 1 }]
    }

    /// The notification of the payment.
    pub open spec fn event(&self, amount: u64, now: i64) -> TokenBurnEvent {
        TokenBurnEvent {
            payer: self.payer,
            token_mint: self.payment_token_mint,
            amount,
            nft_mint: self.nft_mint,
            timestamp: now,
        }
    }
}

/// Mints one certificate of the collection to the caller against a payment
/// of `amount`, which is burnt.
///
/// The tests are made in a fixed order and the first that fails decides the
/// answer: the emergency pause, that a payment token is configured, that no
/// text of the description is empty, that the caller holds the payment, and
/// that the counter can still count. A mint that is refused changes nothing
/// and orders nothing. A mint that is accepted describes the certificate as
/// one of the collection and counts it.
pub fn mint_nft_with_payment(
    ctx: &mut MintNFTWithPayment,
    name: String,
    symbol: String,
    uri: String,
    amount: u64,
    now: i64,
) -> (r: Result<MintReceipt, ErrorCode>)
    ensures
        match r {
            Ok(receipt) => {
                &&& old(ctx).refusal(name@, symbol@, uri@, amount) is None
                &&& receipt.orders@ == MintNFTWithPayment::orders(amount)
                &&& receipt.event == old(ctx).event(amount, now)
                &&& final(ctx).nft_metadata@ == (MetadataView {
                    authority: old(ctx).payer,
                    name: name@,
                    symbol: symbol@,
                    uri: uri@,
                    collection: Some(old(ctx).collection_metadata),
                })
                &&& final(ctx).nft_counter.count == old(ctx).nft_counter.count + 1
                &&& final(ctx).payer == old(ctx).payer
                &&& final(ctx).nft_mint == old(ctx).nft_mint
                &&& final(ctx).collection_metadata == old(ctx).collection_metadata
                &&& final(ctx).payment_token_mint == old(ctx).payment_token_mint
                &&& final(ctx).payer_payment_token_account == old(ctx).payer_payment_token_account
                &&& final(ctx).config == old(ctx).config
            },
            Err(e) => {
                &&& old(ctx).refusal(name@, symbol@, uri@, amount) == Some(e)
                &&& *final(ctx) == *old(ctx)
            },
        },
{
    if ctx.config.emergency_paused {
        return Err(ErrorCode::SystemPaused);
    }
    if ctx.config.payment_token_mint.is_empty() {
        return Err(ErrorCode::PaymentTokenNotConfigured);
    }
    if name.as_str().is_empty() || symbol.as_str().is_empty() || uri.as_str().is_empty() {
        return Err(ErrorCode::InvalidInput);
    }
    if ctx.payer_payment_token_account.amount < amount {
        return Err(ErrorCode::InsufficientFunds);
    }
    let count: u64 = match ctx.nft_counter.count.checked_add(1) {
        Some(count) => count,
        None => {
            return Err(ErrorCode::MathOverflow);
        },
    };
    let mut orders: Vec<Settlement> = Vec::new();
    orders.push(Settlement::Burn { amount });
    orders.push(Settlement::MintTo { amount: 1 });
    let event = TokenBurnEvent {
        payer: ctx.payer,
        token_mint: ctx.payment_token_mint,
        amount,
        nft_mint: ctx.nft_mint,
        timestamp: now,
    };
    ctx.nft_metadata.name = name;
    ctx.nft_metadata.symbol = symbol;
    ctx.nft_metadata.uri = uri;
    ctx.nft_metadata.authority = ctx.payer;
    ctx.nft_metadata.collection = Some(ctx.collection_metadata);
    ctx.nft_counter.count = count;
    proof {
        assert(orders@ =~= MintNFTWithPayment::orders(amount));
    }
    Ok(MintReceipt { orders, event })
}

/// The accounts of `approve_delegate`.
#[derive(Clone, Copy, Debug, PartialEq, Eq)]
pub struct ApproveDelegate {
    /// The caller.
    pub owner: Identity,
    /// The token account that the delegate is to spend from.
    pub token_account: TokenAccount,
}

impl ApproveDelegate {
    /// Why the call is refused, if it is: the caller does not own the token
    /// account.
    pub open spec fn refusal(&self) -> Option<ErrorCode> {
        if self.token_account.owner == self.owner {
            None
        } else {
            Some(ErrorCode::Unauthorized)
        }
    }
}

/// Lets a delegate spend up to `amount` from the caller's token account.
/// Nothing is recorded; the answer is the order to carry out.
pub fn approve_delegate(ctx: &ApproveDelegate, amount: u64) -> (r: Result<Settlement, ErrorCode>)
    ensures
        match r {
            Ok(order) => ctx.refusal() is None && order == (Settlement::Approve { amount }),
            Err(e) => ctx.refusal() == Some(e),
        },
{
    if ctx.token_account.owner != ctx.owner {
        return Err(ErrorCode::Unauthorized);
    }
    Ok(Settlement::Approve { amount })
}

} // verus!
