//! Vote weight: a holder's share of the token supply, in whole percent.
use vstd::prelude::*;
use vstd::arithmetic::div_mod::lemma_fundamental_div_mod_converse;

use crate::types::Balance;

verus! {

/// `floor(balance * 100 / supply)`, capped at `u128::MAX`.
pub open spec fn weight_of(balance: int, supply: int) -> int {
    if balance * 100 / supply > u128::MAX {
        u128::MAX as int
    } else {
        balance * 100 / supply
    }
}

/// One doubling step of `m * r` divided by `s`: from `q * s + rem` to twice
/// that, keeping the remainder below `s`.
fn double_step(q: u128, rem: u128, s: u128) -> (res: (u128, u128))
    requires
        rem < s,
        q <= 100,
    ensures
        res.0 * s + res.1 == 2 * (q * s + rem),
        res.1 < s,
        res.0 <= 2 * q + 1,
{
    if rem >= s - rem {
        let nrem = rem - (s - rem);
        assert((2 * q + 1) * s + nrem == 2 * (q * s + rem)) by (nonlinear_arith)
            requires
                nrem == 2 * rem - s,
        ;
        (2 * q + 1, nrem)
    } else {
        assert((2 * q) * s + 2 * rem == 2 * (q * s + rem)) by (nonlinear_arith);
        (2 * q, 2 * rem)
    }
}

/// One adding step of `m * r` divided by `s`: adds `r` to `q * s + rem`,
/// keeping the remainder below `s`.
fn add_step(q: u128, rem: u128, r: u128, s: u128) -> (res: (u128, u128))
    requires
        rem < s,
        r < s,
        q <= 100,
    ensures
        res.0 * s + res.1 == q * s + rem + r,
        res.1 < s,
        res.0 <= q + 1,
{
    if rem >= s - r {
        let nrem = rem - (s - r);
        assert((q + 1) * s + nrem == q * s + rem + r) by (nonlinear_arith)
            requires
                nrem == rem + r - s,
        ;
        (q + 1, nrem)
    } else {
        (q, rem + r)
    }
}

/// `floor(r * 100 / s)` for `r < s`, without ever forming `r * 100`.
fn percent_below(r: u128, s: u128) -> (p: u128)
    requires
        r < s,
    ensures
        p == (r as int) * 100 / (s as int),
        p < 100,
{
    // 100 = 0b1100100, taken from the most significant bit down.
    let (q, rem) = double_step(0, r, s);  // 2
    let (q, rem) = add_step(q, rem, r, s);  // 3
    let (q, rem) = double_step(q, rem, s);  // 6
    let (q, rem) = double_step(q, rem, s);  // 12
    let (q, rem) = double_step(q, rem, s);  // 24
    let (q, rem) = add_step(q, rem, r, s);  // 25
    let (q, rem) = double_step(q, rem, s);  // 50
    let (q, rem) = double_step(q, rem, s);  // 100
    proof {
        lemma_fundamental_div_mod_converse(r as int * 100, s as int, q as int, rem as int);
        assert(q < 100) by (nonlinear_arith)
            requires
                q * s + rem == r * 100,
                r < s,
        ;
    }
    q
}

/// The weight of a voter holding `caller_balance` out of `total_supply`
/// tokens: the share in whole percent, rounded down, capped at `u128::MAX`.
pub fn vote_weight(caller_balance: Balance, total_supply: Balance) -> (w: u128)
    requires
        total_supply > 0,
    ensures
        w == weight_of(caller_balance as int, total_supply as int),
{
    let q = caller_balance / total_supply;
    let rem = caller_balance % total_supply;
    let frac = percent_below(rem, total_supply);
    proof {
        let (b, s) = (caller_balance as int, total_supply as int);
        assert(b == q * s + rem) by {
            vstd::arithmetic::div_mod::lemma_fundamental_div_mod(b, s);
        }
        let r2 = rem * 100 - frac * s;
        vstd::arithmetic::div_mod::lemma_fundamental_div_mod(rem * 100, s);
        assert(b * 100 == (100 * q + frac) * s + r2) by (nonlinear_arith)
            requires
                b == q * s + rem,
                r2 == rem * 100 - frac * s,
        ;
        lemma_fundamental_div_mod_converse(b * 100, s, 100 * q + frac, r2);
    }
    if q > (u128::MAX - frac) / 100 {
        u128::MAX
    } else {
        q * 100 + frac
    }
}

} // verus!
