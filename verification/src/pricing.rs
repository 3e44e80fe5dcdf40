//! Bonding-curve pricing: converting a paid amount into a credit quantity
//! and a cumulative raised total into the next unit price.
use vstd::prelude::*;

use crate::errors::UnicornFactoryError;

verus! {

/// Credits granted for `amount` at unit price `price`: floor division,
/// with a defensive 0 when the price is 0.
pub open spec fn spec_tokens_for(amount: u64, price: u64) -> u64 {
    if price == 0 {
        0
    } else {
        (amount / price) as u64
    }
}

/// Largest raised total whose scaling by 100 stays representable; a
/// total beyond it makes the price recompute an arithmetic failure.
pub open spec fn spec_max_scalable_total() -> u64 {
    (u64::MAX / 100) as u64
}

/// Unit price implied by a raised total of `total_raised` against
/// `funding_goal`: one plus the percentage (in whole points) of the
/// goal already raised.  A goal of 0 guards the division and leaves
/// the increase at 0.  Meaningful while the scaled total is
/// representable; beyond that the recompute fails instead (see
/// [`calculate_new_price`]).
pub open spec fn spec_next_price(total_raised: u64, funding_goal: u64) -> u64 {
    if funding_goal == 0 {
        1u64
    } else {
        (1 + (total_raised * 100) / (funding_goal as int)) as u64
    }
}

/// How many credits `amount` buys at unit price `current_price`.
pub fn calculate_tokens(amount: u64, current_price: u64) -> (tokens: u64)
    ensures
        tokens == spec_tokens_for(amount, current_price),
        tokens * current_price <= amount,
        amount < current_price ==> tokens == 0,
{
    proof {
        if current_price != 0 {
            lemma_floor_div_times_divisor_le(amount as int, current_price as int);
            if amount < current_price {
                vstd::arithmetic::div_mod::lemma_basic_div(amount as int, current_price as int);
            }
        }
    }
    if current_price == 0 {
        0
    } else {
        amount / current_price
    }
}

/// The unit price after the raised total moves to `total_raised`: the
/// guarded division leaves a zero goal at price 1, while an
/// unrepresentable scaled total is an arithmetic failure.
pub fn calculate_new_price(total_raised: u64, funding_goal: u64) -> (r: Result<
    u64,
    UnicornFactoryError,
>)
    ensures
        r is Ok <==> (funding_goal == 0 || total_raised <= spec_max_scalable_total()),
        r is Ok ==> r.unwrap() == spec_next_price(total_raised, funding_goal) && r.unwrap() >= 1,
        r is Err ==> r.unwrap_err() == UnicornFactoryError::Overflow,
{
    if funding_goal == 0 {
        return Ok(1);
    }
    if total_raised > u64::MAX / 100 {
        return Err(UnicornFactoryError::Overflow);
    }
    proof {
        assert(total_raised * 100 <= (u64::MAX / 100) * 100) by (nonlinear_arith)
            requires
                total_raised <= u64::MAX / 100,
        ;
        lemma_floor_div_times_divisor_le((total_raised * 100) as int, funding_goal as int);
        lemma_div_le_dividend((total_raised * 100) as int, funding_goal as int);
    }
    let scaled = total_raised * 100;
    Ok(1 + scaled / funding_goal)
}

/// The bonding curve never prices a credit below one unit, wherever
/// the recompute is defined.
pub proof fn lemma_next_price_at_least_one(total_raised: u64, funding_goal: u64)
    requires
        funding_goal == 0 || total_raised <= spec_max_scalable_total(),
    ensures
        spec_next_price(total_raised, funding_goal) >= 1,
{
    if funding_goal != 0 {
        lemma_div_le_dividend(total_raised * 100, funding_goal as int);
        assert(total_raised * 100 <= (u64::MAX as int / 100) * 100) by (nonlinear_arith)
            requires
                total_raised <= u64::MAX as int / 100,
        ;
    }
}

/// The next price never falls as the raised total grows, for a fixed
/// funding goal, over the whole domain on which the recompute is
/// defined.
pub proof fn lemma_next_price_monotonic(t1: u64, t2: u64, funding_goal: u64)
    requires
        t1 <= t2,
        t2 <= spec_max_scalable_total(),
    ensures
        spec_next_price(t1, funding_goal) <= spec_next_price(t2, funding_goal),
{
    if funding_goal != 0 {
        assert(t1 * 100 <= t2 * 100) by (nonlinear_arith)
            requires
                t1 <= t2,
        ;
        vstd::arithmetic::div_mod::lemma_div_is_ordered(
            t1 * 100,
            t2 * 100,
            funding_goal as int,
        );
        lemma_div_le_dividend(t2 * 100, funding_goal as int);
        assert(t2 * 100 <= (u64::MAX as int / 100) * 100) by (nonlinear_arith)
            requires
                t2 <= u64::MAX as int / 100,
        ;
    }
}

/// The floor-division law of credit granting: the credits bought, at
/// the quoted price, never cost more than the amount paid, and an
/// amount below one unit price buys nothing.
pub proof fn lemma_tokens_for(amount: u64, price: u64)
    ensures
        spec_tokens_for(amount, price) * price <= amount,
        amount < price ==> spec_tokens_for(amount, price) == 0,
{
    if price != 0 {
        lemma_floor_div_times_divisor_le(amount as int, price as int);
        if amount < price {
            vstd::arithmetic::div_mod::lemma_basic_div(amount as int, price as int);
        }
    }
}

/// Floor division times the divisor never exceeds the dividend.
proof fn lemma_floor_div_times_divisor_le(a: int, b: int)
    requires
        a >= 0,
        b > 0,
    ensures
        (a / b) * b <= a,
{
    vstd::arithmetic::div_mod::lemma_fundamental_div_mod(a, b);
    vstd::arithmetic::div_mod::lemma_mod_bound(a, b);
    vstd::arithmetic::mul::lemma_mul_is_commutative(a / b, b);
}

/// Floor division by a positive divisor never exceeds the dividend.
proof fn lemma_div_le_dividend(a: int, b: int)
    requires
        a >= 0,
        b > 0,
    ensures
        0 <= a / b <= a,
{
    vstd::arithmetic::div_mod::lemma_div_nonincreasing(a, b);
    vstd::arithmetic::div_mod::lemma_div_pos_is_pos(a, b);
}

} // verus!
