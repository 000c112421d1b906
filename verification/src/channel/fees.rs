//! The imbalance fee schedule of a channel.
use vstd::prelude::*;

use crate::primitives::{u256_max, U256};
use crate::types::state::{ChannelState, FeeAmount, FeeScheduleState, MediationFeeConfig, TokenAmount};

verus! {

/// The `k`-th of `num` points spread evenly from `start` to `stop`, rounded
/// down to whole tokens.
pub open spec fn spec_linspace_point(start: nat, stop: nat, num: nat, k: int) -> int {
    start + (k * (stop - start)) / (num - 1)
}

/// `k * d / n` is `k * (d / n)` plus `k * (d % n) / n`.
proof fn lemma_linspace_split(k: int, d: int, n: int, q: int, rem: int)
    requires
        0 <= k,
        0 <= d,
        0 < n,
        q == d / n,
        rem == d - q * n,
    ensures
        (k * d) / n == k * q + (k * rem) / n,
        0 <= rem < n,
{
    vstd::arithmetic::div_mod::lemma_fundamental_div_mod(d, n);
    vstd::arithmetic::div_mod::lemma_mod_bound(d, n);
    assert(q * n == n * q) by (nonlinear_arith);
    assert(k * d == k * rem + (k * q) * n) by (nonlinear_arith)
        requires
            d == q * n + rem,
    ;
    vstd::arithmetic::div_mod::lemma_hoist_over_denominator(k * rem, k * q, n as nat);
}

/// The bounds that each point of `linspace` keeps within.
proof fn lemma_linspace_bounds(i: int, d: int, n1: int, step: int, rem: int)
    requires
        0 <= i <= n1,
        0 <= d,
        n1 >= 1,
        n1 < usize::MAX,
        step == d / n1,
        rem == d - step * n1,
    ensures
        i * rem <= u256_max(),
        rem < n1,
        0 <= rem,
        i * step + (i * rem) / n1 == (i * d) / n1,
        (i * d) / n1 <= d,
{
    lemma_linspace_split(i, d, n1, step, rem);
    assert(usize::MAX <= 0xffff_ffff_ffff_ffff);
    assert(i * rem <= 0xffff_ffff_ffff_ffff * 0xffff_ffff_ffff_ffff) by (nonlinear_arith)
        requires
            0 <= i <= 0xffff_ffff_ffff_ffff,
            0 <= rem <= 0xffff_ffff_ffff_ffff,
    ;
    assert(i * d <= n1 * d) by (nonlinear_arith)
        requires
            i <= n1,
            0 <= d,
    ;
    vstd::arithmetic::div_mod::lemma_div_is_ordered(i * d, n1 * d, n1);
    vstd::arithmetic::div_mod::lemma_div_by_multiple(d, n1);
    assert(n1 * d == d * n1) by (nonlinear_arith);
}

/// Returns a list of numbers from start to stop (inclusive).
pub fn linspace(start: TokenAmount, stop: TokenAmount, num: TokenAmount) -> (r: Vec<TokenAmount>)
    requires
        start@ <= stop@,
        num@ >= 2,
        num@ <= usize::MAX,
    ensures
        r@.len() == num@,
        forall|k: int| 0 <= k < num@ ==> #[trigger] r@[k]@ == spec_linspace_point(start@, stop@, num@, k),
{
    let d = stop.sub(start);
    let n1 = num.sub(U256::one());
    let step = d.div(n1);
    assert(step@ * n1@ <= d@) by (nonlinear_arith)
        requires
            step@ == d@ / n1@,
            n1@ >= 1,
    ;
    let rem = d.sub(step.mul(n1));
    let mut result: Vec<TokenAmount> = Vec::new();
    let mut i = U256::zero();
    while i.less_than(&num)
        invariant
            i@ <= num@,
            num@ >= 2,
            num@ <= usize::MAX,
            start@ <= stop@,
            d@ == stop@ - start@,
            n1@ == num@ - 1,
            step@ == d@ / n1@,
            rem@ == d@ - step@ * n1@,
            result@.len() == i@,
            forall|k: int| 0 <= k < i@ ==> #[trigger] result@[k]@ == spec_linspace_point(start@, stop@, num@, k),
        decreases num@ - i@,
    {
        proof {
            lemma_linspace_bounds(i@ as int, d@ as int, n1@ as int, step@ as int, rem@ as int);
            assert(i@ * step@ <= (i@ * d@) as int / (n1@ as int)) by {
                vstd::arithmetic::div_mod::lemma_div_pos_is_pos((i@ * rem@) as int, n1@ as int);
            }
        }
        let a = i.mul(step);
        let b = i.mul(rem).div(n1);
        let x = start.add(a).add(b);
        result.push(x);
        i = i.add(U256::one());
    }
    result
}

/// The inputs on which `calculate_imbalance_fees` returns: no imbalance fee,
/// no capacity, a product that overflows, or a channel of capacity one with
/// a fee of at least one token.
pub open spec fn spec_imbalance_fees_defined(capacity: nat, fee: nat) -> bool {
    ||| fee == 0
    ||| capacity == 0
    ||| capacity * fee > u256_max()
    ||| capacity == 1 && fee >= 1_000_000
}

/// The product of `a` and `b` where it fits, and whether it overflowed.
fn product_with_overflow(a: U256, b: U256) -> (r: (U256, bool))
    ensures
        r.1 == (a@ * b@ > u256_max()),
        !r.1 ==> r.0@ == a@ * b@,
{
    let r = a.overflowing_mul(b);
    proof {
        if a@ * b@ <= u256_max() {
            vstd::arithmetic::div_mod::lemma_small_mod(
                (a@ * b@) as nat,
                crate::primitives::u256_modulus(),
            );
        }
    }
    r
}

/// Calculates the points of the imbalance penalty function of a channel.
pub fn calculate_imbalance_fees(channel_capacity: TokenAmount, proportional_imbalance_fee: TokenAmount) -> (r:
    Option<Vec<(TokenAmount, FeeAmount)>>)
    requires
        spec_imbalance_fees_defined(channel_capacity@, proportional_imbalance_fee@),
    ensures
        r.is_none() == (proportional_imbalance_fee@ == 0 || channel_capacity@ == 0
            || channel_capacity@ * proportional_imbalance_fee@ > u256_max()),
        r.is_some() ==> {
            let v = r.unwrap()@;
            &&& v.len() == 2
            &&& v[0].0@ == 0
            &&& v[0].1@ == proportional_imbalance_fee@ / 1_000_000
            &&& v[1].0@ == 1
            &&& v[1].1@ == proportional_imbalance_fee@ / 1_000_000
        },
{
    if proportional_imbalance_fee.is_zero() {
        return None;
    }
    if channel_capacity.is_zero() {
        return None;
    }
    let maximum_slope = U256::from_u64(10);
    let (max_imbalance_fee, overflow) = product_with_overflow(
        channel_capacity,
        proportional_imbalance_fee,
    );
    if overflow {
        return None;
    }
    assert(channel_capacity@ == 1 && proportional_imbalance_fee@ >= 1_000_000);
    assert(max_imbalance_fee@ == proportional_imbalance_fee@) by (nonlinear_arith)
        requires
            channel_capacity@ == 1,
            max_imbalance_fee@ == channel_capacity@ * proportional_imbalance_fee@,
    ;
    let max_imbalance_fee = max_imbalance_fee.div(U256::from_u64(1_000_000));
    let s = maximum_slope;
    let c = max_imbalance_fee;
    assert(c@ >= 1);
    let o = channel_capacity.div(U256::from_u64(2));
    assert(o@ == 0);
    let b = o.div(s);
    assert(b@ == 0);
    proof {
        vstd::arithmetic::div_mod::lemma_div_of0(c@ as int);
    }
    let b = b.div(c);
    let b = b.min(U256::from_u64(10));
    assert(b@ == 0);
    proof {
        vstd::arithmetic::power::lemma_pow0(o@ as int);
    }
    let a = c.div(o.pow(b));
    assert(a@ == c@);
    let num_base_points = U256::from_u64(21).min(channel_capacity.add(U256::one()));
    let x_values = linspace(U256::zero(), channel_capacity, num_base_points);
    let mut points: Vec<(TokenAmount, FeeAmount)> = Vec::new();
    let mut i: usize = 0;
    while i < x_values.len()
        invariant
            i <= x_values@.len(),
            x_values@.len() == 2,
            x_values@[0]@ == 0,
            x_values@[1]@ == 1,
            o@ == 0,
            b@ == 0,
            a@ == c@,
            points@.len() == i,
            forall|k: int| 0 <= k < i ==> #[trigger] points@[k].0 == x_values@[k] && points@[k].1@ == a@,
        decreases x_values@.len() - i,
    {
        let x = x_values[i];
        proof {
            vstd::arithmetic::power::lemma_pow0((x@ - o@) as int);
        }
        let y = a.mul(x.sub(o).pow(b));
        points.push((x, y));
        i = i + 1;
    }
    Some(points)
}

/// Recomputes the imbalance penalty of the channel after its capacity changed.
pub fn update_fee_schedule_after_balance_change(channel_state: &mut ChannelState, fee_config: MediationFeeConfig)
    requires
        old(channel_state).spec_capacity_defined(),
        spec_imbalance_fees_defined(
            old(channel_state).spec_capacity() as nat,
            crate::types::state::fee_or_default(
                fee_config.token_to_proportional_imbalance_fee@,
                old(channel_state).token_address,
                crate::types::state::spec_default_mediation_proportional_imbalance_fee(),
            ),
        ),
    ensures
        ({
            let fee = crate::types::state::fee_or_default(
                fee_config.token_to_proportional_imbalance_fee@,
                old(channel_state).token_address,
                crate::types::state::spec_default_mediation_proportional_imbalance_fee(),
            );
            let capacity = old(channel_state).spec_capacity();
            let p = final(channel_state).fee_schedule.imbalance_penalty;
            &&& p.is_none() == (fee == 0 || capacity == 0 || capacity * fee > u256_max())
            &&& p.is_some() ==> {
                &&& p.unwrap()@.len() == 2
                &&& p.unwrap()@[0].0@ == 0
                &&& p.unwrap()@[0].1@ == fee / 1_000_000
                &&& p.unwrap()@[1].0@ == 1
                &&& p.unwrap()@[1].1@ == fee / 1_000_000
            }
        }),
        final(channel_state).fee_schedule.cap_fees == old(channel_state).fee_schedule.cap_fees,
        final(channel_state).fee_schedule.flat == old(channel_state).fee_schedule.flat,
        final(channel_state).fee_schedule.proportional == old(channel_state).fee_schedule.proportional,
        *final(channel_state) == (ChannelState {
            fee_schedule: final(channel_state).fee_schedule,
            ..*old(channel_state)
        }),
{
    let proportional_imbalance_fee = fee_config.get_proportional_imbalance_fee(
        &channel_state.token_address,
    );
    let imbalance_penalty = calculate_imbalance_fees(
        channel_state.capacity(),
        proportional_imbalance_fee,
    );
    channel_state.fee_schedule = FeeScheduleState {
        cap_fees: channel_state.fee_schedule.cap_fees,
        flat: channel_state.fee_schedule.flat,
        proportional: channel_state.fee_schedule.proportional,
        imbalance_penalty,
    };
}

} // verus!
