//! What the orders of a stake and of an unstake move.

use vstd::prelude::*;
use crate::period::StakingPeriod;
use crate::settlement::{net_change, Settlement, Wallet};
use crate::staking::{StakeTokens, UnstakeTokens};

verus! {

/// The change that one order makes.
proof fn lemma_net_change_one(a: Settlement, wallet: Wallet)
    ensures
        net_change(seq![a], wallet) == a.change_of(wallet),
{
    reveal_with_fuel(net_change, 2);
    assert(seq![a].drop_last() =~= Seq::<Settlement>::empty());
}

/// The change that two orders make.
proof fn lemma_net_change_two(a: Settlement, b: Settlement, wallet: Wallet)
    ensures
        net_change(seq![a, b], wallet) == a.change_of(wallet) + b.change_of(wallet),
{
    assert(seq![a, b].drop_last() =~= seq![a]);
    lemma_net_change_one(a, wallet);
}

/// Every order of a stake is signed by the owner of the funds it moves, and
/// together the orders move exactly the staked amount from the holder into
/// custody: a merge hands back the running principal and takes it again with
/// the new amount. The reward reserve is not touched.
pub proof fn stake_settles_the_amount(
    ctx: StakeTokens,
    amount: u64,
    period: StakingPeriod,
    now: i64,
)
    requires
        ctx.refusal(amount, period, now) is None,
    ensures
        ({
            let orders = ctx.settlement(amount, period, now);
            &&& forall|i: int| 0 <= i < orders.len() ==> (#[trigger] orders[i]).is_sound()
            &&& net_change(orders, Wallet::Holder) == -amount
            &&& net_change(orders, Wallet::Custody) == amount
            &&& net_change(orders, Wallet::RewardReserve) == 0
        }),
{
    let orders = ctx.settlement(amount, period, now);
    if ctx.stake_account.is_active() {
        lemma_net_change_two(orders[0], orders[1], Wallet::Holder);
        lemma_net_change_two(orders[0], orders[1], Wallet::Custody);
        lemma_net_change_two(orders[0], orders[1], Wallet::RewardReserve);
        assert(orders =~= seq![orders[0], orders[1]]);
    } else {
        lemma_net_change_one(orders[0], Wallet::Holder);
        lemma_net_change_one(orders[0], Wallet::Custody);
        lemma_net_change_one(orders[0], Wallet::RewardReserve);
        assert(orders =~= seq![orders[0]]);
    }
}

/// Every order of an unstake is signed by the vault authority, and together
/// the orders pay the holder the whole principal out of custody and the
/// whole reward out of the reserve, which holds at least that much.
pub proof fn unstake_settles_principal_and_reward(ctx: UnstakeTokens, now: i64)
    requires
        ctx.refusal(now) is None,
    ensures
        ({
            let orders = ctx.settlement(now);
            &&& forall|i: int| 0 <= i < orders.len() ==> (#[trigger] orders[i]).is_sound()
            &&& net_change(orders, Wallet::Custody) == -ctx.stake_account.amount
            &&& net_change(orders, Wallet::RewardReserve) == -ctx.reward()
            &&& net_change(orders, Wallet::Holder) == ctx.stake_account.amount + ctx.reward()
            &&& ctx.reward() <= ctx.reward_reserve_account.amount
        }),
{
    let orders = ctx.settlement(now);
    if ctx.reward() > 0 {
        lemma_net_change_two(orders[0], orders[1], Wallet::Holder);
        lemma_net_change_two(orders[0], orders[1], Wallet::Custody);
        lemma_net_change_two(orders[0], orders[1], Wallet::RewardReserve);
        assert(orders =~= seq![orders[0], orders[1]]);
    } else {
        lemma_net_change_one(orders[0], Wallet::Holder);
        lemma_net_change_one(orders[0], Wallet::Custody);
        lemma_net_change_one(orders[0], Wallet::RewardReserve);
        assert(orders =~= seq![orders[0]]);
    }
}

/// Custody follows the records. Whatever a stake or an unstake orders,
/// accepted or refused, it changes the balance of custody by exactly as much
/// as it changes the principal that the record says is locked. Custody that
/// covers the records before a call covers them after it.
pub proof fn custody_follows_the_record(
    stake: StakeTokens,
    amount: u64,
    period: StakingPeriod,
    unstake: UnstakeTokens,
    now: i64,
)
    ensures
        net_change(stake.settlement(amount, period, now), Wallet::Custody) == stake.after(
            amount,
            period,
            now,
        ).stake_account.locked() - stake.stake_account.locked(),
        net_change(unstake.settlement(now), Wallet::Custody) == unstake.after(
            now,
        ).stake_account.locked() - unstake.stake_account.locked(),
{
    if stake.refusal(amount, period, now) is None {
        stake_settles_the_amount(stake, amount, period, now);
    }
    if unstake.refusal(now) is None {
        unstake_settles_principal_and_reward(unstake, now);
    }
}

/// Staking makes no tokens and loses none. What the orders of a stake or of
/// an unstake take from one of the three token accounts they give to
/// another: the changes of holder, custody and reserve add up to nothing.
pub proof fn staking_conserves_tokens(
    stake: StakeTokens,
    amount: u64,
    period: StakingPeriod,
    unstake: UnstakeTokens,
    now: i64,
)
    ensures
        net_change(stake.settlement(amount, period, now), Wallet::Holder) + net_change(
            stake.settlement(amount, period, now),
            Wallet::Custody,
        ) + net_change(stake.settlement(amount, period, now), Wallet::RewardReserve) == 0,
        net_change(unstake.settlement(now), Wallet::Holder) + net_change(
            unstake.settlement(now),
            Wallet::Custody,
        ) + net_change(unstake.settlement(now), Wallet::RewardReserve) == 0,
{
    if stake.refusal(amount, period, now) is None {
        stake_settles_the_amount(stake, amount, period, now);
    }
    if unstake.refusal(now) is None {
        unstake_settles_principal_and_reward(unstake, now);
    }
}

} // verus!
