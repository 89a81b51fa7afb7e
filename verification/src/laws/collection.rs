//! What holds of every mint.

use vstd::prelude::*;
use crate::collection::MintNFTWithPayment;
use crate::error::ErrorCode;

verus! {

/// While the emergency pause is set, a mint is refused with `SystemPaused`,
/// whatever else holds of the accounts and of the description.
pub proof fn pause_stops_minting(
    ctx: MintNFTWithPayment,
    name: Seq<char>,
    symbol: Seq<char>,
    uri: Seq<char>,
    amount: u64,
)
    requires
        ctx.config.emergency_paused,
    ensures
        ctx.refusal(name, symbol, uri, amount) == Some(ErrorCode::SystemPaused),
{
}

/// A mint is accepted exactly when the system is not paused, a payment token
/// is configured, the description is complete, the caller holds the payment
/// and the counter has not reached its last number.
pub proof fn when_a_mint_is_accepted(
    ctx: MintNFTWithPayment,
    name: Seq<char>,
    symbol: Seq<char>,
    uri: Seq<char>,
    amount: u64,
)
    ensures
        ctx.refusal(name, symbol, uri, amount) is None <==> {
            &&& !ctx.config.emergency_paused
            &&& !ctx.config.payment_token_mint.is_empty()
            &&& name.len() > 0
            &&& symbol.len() > 0
            &&& uri.len() > 0
            &&& amount <= ctx.payer_payment_token_account.amount
            &&& ctx.nft_counter.count < u64::MAX
        },
{
}

} // verus!
