//! The strike payment that goes with a partial exercise.

use vstd::prelude::*;

verus! {

/// The part of the strike price that falls to `amount` out of `remaining`
/// units of notional: `strike_price * amount / remaining`, rounded down.
pub open spec fn proportional_strike(strike_price: u64, amount: u64, remaining: u64) -> int {
    (strike_price as int * amount as int) / (remaining as int)
}

/// The quotient is the exact share, rounded down by less than one unit: it
/// is the largest number whose product with `remaining` does not exceed
/// `strike_price * amount`.
pub proof fn lemma_proportional_strike_rounds_down(strike_price: u64, amount: u64, remaining: u64)
    requires
        0 < remaining,
    ensures
        0 <= proportional_strike(strike_price, amount, remaining),
        proportional_strike(strike_price, amount, remaining) * remaining <= strike_price * amount,
        strike_price * amount < (proportional_strike(strike_price, amount, remaining) + 1)
            * remaining,
{
    let n: int = strike_price as int * amount as int;
    let d: int = remaining as int;
    assert(0 <= n) by (nonlinear_arith)
        requires
            n == strike_price as int * amount as int,
    ;
    assert(0 <= n / d && (n / d) * d <= n && n < (n / d + 1) * d) by (nonlinear_arith)
        requires
            0 <= n,
            0 < d,
    ;
}

/// No share exceeds the strike price, the share of nothing is nothing, and
/// the share of all that remains is the whole strike price.
pub proof fn lemma_proportional_strike_bounds(strike_price: u64, amount: u64, remaining: u64)
    requires
        0 < remaining,
        amount <= remaining,
    ensures
        0 <= proportional_strike(strike_price, amount, remaining) <= strike_price,
        amount == 0 ==> proportional_strike(strike_price, amount, remaining) == 0,
        amount == remaining ==> proportional_strike(strike_price, amount, remaining)
            == strike_price,
{
    let s: int = strike_price as int;
    let a: int = amount as int;
    let d: int = remaining as int;
    assert(0 <= (s * a) / d <= s) by (nonlinear_arith)
        requires
            0 <= s,
            0 <= a <= d,
            0 < d,
    ;
    assert(a == 0 ==> (s * a) / d == 0) by (nonlinear_arith)
        requires
            0 < d,
    ;
    assert(a == d ==> (s * a) / d == s) by (nonlinear_arith)
        requires
            0 < d,
    ;
}

/// Computes the share of the strike price that `amount` units owe while
/// `remaining` units are open. The product is formed in 128 bits, so the
/// result is exact whatever the strike price.
pub fn proportional_strike_price(strike_price: u64, amount: u64, remaining: u64) -> (share: u64)
    requires
        0 < remaining,
        amount <= remaining,
    ensures
        share == proportional_strike(strike_price, amount, remaining),
        share <= strike_price,
{
    proof {
        lemma_proportional_strike_bounds(strike_price, amount, remaining);
        assert(strike_price as int * amount as int <= u64::MAX * u64::MAX) by (nonlinear_arith)
            requires
                strike_price <= u64::MAX,
                amount <= u64::MAX,
        ;
    }
    let product: u128 = (strike_price as u128) * (amount as u128);
    let share: u128 = product / (remaining as u128);
    share as u64
}

} // verus!
