//! What holds of the values that the ledger works with: identities,
//! periods, rewards and texts.

use vstd::prelude::*;
use crate::identity::Identity;
use crate::period::StakingPeriod;
use crate::reward::{base_reward, reward_amount, reward_overflows};
use crate::text::decimal_text;

verus! {

/// An identity is its 32 bytes: two identities are the same exactly when
/// their bytes are.
pub proof fn identity_is_its_bytes(a: Identity, b: Identity)
    ensures
        a@.len() == 32,
        (a@ == b@) <==> (a == b),
{
    if a@ == b@ {
        assert(a.bytes =~= b.bytes);
    }
}

/// There is one empty identity.
pub proof fn one_empty_identity(a: Identity, b: Identity)
    requires
        a.is_empty(),
        b.is_empty(),
    ensures
        a == b,
{
    assert(a.bytes =~= b.bytes);
}

/// A longer period never pays a smaller multiplier, and every multiplier
/// pays the base reward in full and a bonus on top.
pub proof fn longer_periods_pay_no_less(a: StakingPeriod, b: StakingPeriod)
    requires
        a.minutes() <= b.minutes(),
    ensures
        a.reward_multiplier() <= b.reward_multiplier(),
        a.duration_in_seconds() <= b.duration_in_seconds(),
        100 < a.reward_multiplier(),
        0 < a.duration_in_seconds(),
{
}

/// Nothing staked, or a base rate of zero, earns nothing, and the
/// computation cannot overflow.
pub proof fn nothing_earns_nothing(staked_amount: nat, base_rate: nat, multiplier: nat)
    requires
        staked_amount == 0 || base_rate == 0,
    ensures
        !reward_overflows(staked_amount, base_rate, multiplier),
        reward_amount(staked_amount, base_rate, multiplier) == 0,
{
    assert(staked_amount * base_rate == 0) by (nonlinear_arith)
        requires
            staked_amount == 0 || base_rate == 0,
    ;
    assert(0nat * multiplier == 0) by (nonlinear_arith);
}

/// A larger stake never earns less, at the same rate and multiplier.
pub proof fn reward_grows_with_the_stake(a: nat, b: nat, base_rate: nat, multiplier: nat)
    requires
        a <= b,
    ensures
        reward_amount(a, base_rate, multiplier) <= reward_amount(b, base_rate, multiplier),
{
    assert(a * base_rate <= b * base_rate) by (nonlinear_arith)
        requires
            a <= b,
    ;
    let x = base_reward(a, base_rate);
    let y = base_reward(b, base_rate);
    assert(x <= y) by (nonlinear_arith)
        requires
            a * base_rate <= b * base_rate,
            x == (a * base_rate) / 10000,
            y == (b * base_rate) / 10000,
    ;
    assert(x * multiplier <= y * multiplier) by (nonlinear_arith)
        requires
            x <= y,
    ;
    assert((x * multiplier) / 100 <= (y * multiplier) / 100) by (nonlinear_arith)
        requires
            x * multiplier <= y * multiplier,
    ;
}

/// The reward never exceeds the stake taken at the base rate and the
/// multiplier without rounding: a hundred times ten thousand rewards are at
/// most the product of the three.
pub proof fn reward_is_rounded_down(staked_amount: nat, base_rate: nat, multiplier: nat)
    ensures
        reward_amount(staked_amount, base_rate, multiplier) * 100 * 10000 <= staked_amount
            * base_rate * multiplier,
{
    let product = staked_amount * base_rate;
    let base = base_reward(staked_amount, base_rate);
    let reward = reward_amount(staked_amount, base_rate, multiplier);
    assert(base * 10000 <= product) by (nonlinear_arith)
        requires
            base == product / 10000,
    ;
    assert(reward * 100 <= base * multiplier) by (nonlinear_arith)
        requires
            reward == (base * multiplier) / 100,
    ;
    assert(reward * 100 * 10000 <= product * multiplier) by (nonlinear_arith)
        requires
            base * 10000 <= product,
            reward * 100 <= base * multiplier,
    ;
}

/// A number in decimal has at least one digit, has digits only, and begins
/// with a zero only where it is zero.
pub proof fn decimal_text_is_canonical(n: nat)
    ensures
        decimal_text(n).len() >= 1,
        forall|i: int|
            0 <= i < decimal_text(n).len() ==> '0' <= #[trigger] decimal_text(n)[i] <= '9',
        n > 0 ==> decimal_text(n)[0] != '0',
    decreases n,
{
    if n >= 10 {
        decimal_text_is_canonical(n / 10);
    }
}

} // verus!
