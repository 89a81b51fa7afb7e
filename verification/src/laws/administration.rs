//! What holds of every administrative operation.

use vstd::prelude::*;
use crate::admin::{
    admin_test, ConfigureStaking, DepositRewardReserve, EmergencyPause, InitializeRewardReserve,
    SetPaymentToken, SetRewardReserve, UpdateAdmin, UpdateMaxStake,
};
use crate::error::ErrorCode;
use crate::identity::Identity;
use crate::period::StakingPeriod;
use crate::staking::{StakeTokens, UnstakeTokens};
use crate::state::ConfigAccount;

verus! {

/// Only the administrator configures. Every operation that writes the
/// configuration, and the deposit into the reserve, refuses a caller who is
/// not the administrator with `Unauthorized` and leaves the accounts as they
/// were; a call that is refused gives no notification and no order.
pub proof fn only_the_admin_configures(
    configure: ConfigureStaking,
    enabled: bool,
    reward_rate: u64,
    pause: EmergencyPause,
    paused: bool,
    handover: UpdateAdmin,
    new_admin: Identity,
    cap: UpdateMaxStake,
    max_amount: u64,
    payment: SetPaymentToken,
    payment_token_mint: Identity,
    reserve: SetRewardReserve,
    reward_reserve: Identity,
    opening: InitializeRewardReserve,
    deposit: DepositRewardReserve,
)
    requires
        configure.admin != configure.config.admin,
        pause.admin != pause.config.admin,
        handover.admin != handover.config.admin,
        cap.admin != cap.config.admin,
        payment.admin != payment.config.admin,
        reserve.admin != reserve.config.admin,
        opening.admin != opening.config.admin,
        deposit.admin != deposit.config.admin,
    ensures
        configure.refusal() == Some(ErrorCode::Unauthorized),
        configure.after(enabled, reward_rate) == configure,
        pause.refusal() == Some(ErrorCode::Unauthorized),
        pause.after(paused) == pause,
        handover.refusal() == Some(ErrorCode::Unauthorized),
        handover.after(new_admin) == handover,
        cap.refusal() == Some(ErrorCode::Unauthorized),
        cap.after(max_amount) == cap,
        payment.refusal() == Some(ErrorCode::Unauthorized),
        payment.after(payment_token_mint) == payment,
        reserve.refusal() == Some(ErrorCode::Unauthorized),
        reserve.after(reward_reserve) == reserve,
        opening.refusal() == Some(ErrorCode::Unauthorized),
        opening.after() == opening,
        deposit.refusal() == Some(ErrorCode::Unauthorized),
{
}

/// The administrator is never refused for who they are: no administrative
/// operation objects to the identity that the configuration names.
pub proof fn the_admin_is_admitted(
    configure: ConfigureStaking,
    pause: EmergencyPause,
    handover: UpdateAdmin,
    cap: UpdateMaxStake,
    payment: SetPaymentToken,
    reserve: SetRewardReserve,
    opening: InitializeRewardReserve,
    deposit: DepositRewardReserve,
)
    requires
        configure.admin == configure.config.admin,
        pause.admin == pause.config.admin,
        handover.admin == handover.config.admin,
        cap.admin == cap.config.admin,
        payment.admin == payment.config.admin,
        reserve.admin == reserve.config.admin,
        opening.admin == opening.config.admin,
        deposit.admin == deposit.config.admin,
    ensures
        configure.refusal() is None,
        pause.refusal() is None,
        handover.refusal() is None,
        cap.refusal() is None,
        payment.refusal() is None,
        reserve.refusal() is None,
        opening.refusal() is None,
        deposit.refusal() is None,
{
}

/// A handover takes effect at once and for good. Once `update_admin` has
/// been accepted, the new administrator is admitted and the old one,
/// unless it is the same identity, is not; and nothing but the
/// administrator has changed in the configuration.
pub proof fn handover_is_immediate(ctx: UpdateAdmin, new_admin: Identity)
    requires
        ctx.refusal() is None,
    ensures
        ({
            let config = ctx.after(new_admin).config;
            &&& config == (ConfigAccount { admin: new_admin, ..ctx.config })
            &&& admin_test(new_admin, config) is None
            &&& ctx.admin != new_admin ==> admin_test(ctx.admin, config) == Some(
                ErrorCode::Unauthorized,
            )
            &&& !new_admin.is_empty() ==> config.wf()
        }),
{
}

/// Nothing but a handover changes the administrator. A configuration that
/// has an administrator keeps it through every other administrative
/// operation, accepted or refused, and through every stake and unstake,
/// which do not write the configuration at all.
pub proof fn the_admin_stays(
    configure: ConfigureStaking,
    enabled: bool,
    reward_rate: u64,
    pause: EmergencyPause,
    paused: bool,
    cap: UpdateMaxStake,
    max_amount: u64,
    payment: SetPaymentToken,
    payment_token_mint: Identity,
    reserve: SetRewardReserve,
    reward_reserve: Identity,
    opening: InitializeRewardReserve,
    stake: StakeTokens,
    amount: u64,
    period: StakingPeriod,
    unstake: UnstakeTokens,
    now: i64,
)
    ensures
        configure.after(enabled, reward_rate).config.admin == configure.config.admin,
        pause.after(paused).config.admin == pause.config.admin,
        cap.after(max_amount).config.admin == cap.config.admin,
        payment.after(payment_token_mint).config.admin == payment.config.admin,
        reserve.after(reward_reserve).config.admin == reserve.config.admin,
        opening.after().config.admin == opening.config.admin,
        stake.after(amount, period, now).config == stake.config,
        unstake.after(now).config == unstake.config,
        configure.config.wf() ==> configure.after(enabled, reward_rate).config.wf(),
        pause.config.wf() ==> pause.after(paused).config.wf(),
        cap.config.wf() ==> cap.after(max_amount).config.wf(),
        payment.config.wf() ==> payment.after(payment_token_mint).config.wf(),
        reserve.config.wf() ==> reserve.after(reward_reserve).config.wf(),
        opening.config.wf() ==> opening.after().config.wf(),
{
}

} // verus!
