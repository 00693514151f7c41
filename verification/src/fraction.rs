//! Ceiling-rounded proportional arithmetic: the basis-point tip split and
//! the proportional minimum output of a partial fill, with the facts the
//! operation contracts rest on.

use vstd::arithmetic::div_mod::{
    lemma_div_is_ordered, lemma_div_pos_is_pos, lemma_fundamental_div_mod,
    lemma_fundamental_div_mod_converse,
};
use vstd::arithmetic::mul::lemma_mul_inequality;
use vstd::prelude::*;

verus! {

/// Denominator of a basis-point fraction: 10000 bps make the whole.
pub const BPS_DENOMINATOR: u64 = 10000;

/// `a / b` rounded towards positive infinity.
pub open spec fn ceil_div(a: int, b: int) -> int
    recommends
        a >= 0,
        b > 0,
{
    (a + b - 1) / b
}

/// Host share of a tip: `tip * bps / 10000`, rounded up.
pub open spec fn host_tip_of(tip: u64, bps: u16) -> int {
    ceil_div(tip * bps, BPS_DENOMINATOR as int)
}

/// Maker share of a tip: what the host share leaves.
pub open spec fn maker_tip_of(tip: u64, bps: u16) -> int {
    tip - host_tip_of(tip, bps)
}

/// Proportional minimum output owed to the maker for a fill consuming
/// `input` out of an order created with `initial` input against `expected`
/// output: `input * expected / initial`, rounded up.
pub open spec fn min_output_for_fill(input: u64, expected: u64, initial: u64) -> int
    recommends
        initial > 0,
{
    ceil_div(input * expected, initial as int)
}

/// Rounding up never loses value: the rounded quotient times the divisor
/// covers the dividend.
pub proof fn lemma_ceil_div_times_divisor(a: int, b: int)
    requires
        a >= 0,
        b > 0,
    ensures
        ceil_div(a, b) * b >= a,
        ceil_div(a, b) >= 0,
{
    let x = a + b - 1;
    lemma_fundamental_div_mod(x, b);
    lemma_div_pos_is_pos(x, b);
    assert(b * (x / b) == x - x % b);
    assert((x / b) * b == b * (x / b)) by (nonlinear_arith);
}

/// A dividend below a multiple of the divisor keeps its rounded-up
/// quotient below that multiplier.
pub proof fn lemma_ceil_div_upper_bound(a: int, b: int, c: int)
    requires
        0 <= a,
        a <= c * b,
        b > 0,
    ensures
        ceil_div(a, b) <= c,
{
    lemma_div_is_ordered(a + b - 1, c * b + b - 1, b);
    lemma_fundamental_div_mod_converse(c * b + b - 1, b, c, b - 1);
}

/// A multiple of the divisor is returned exactly by the rounded-up
/// division.
pub proof fn lemma_ceil_div_exact(c: int, b: int)
    requires
        c >= 0,
        b > 0,
    ensures
        ceil_div(c * b, b) == c,
{
    lemma_fundamental_div_mod_converse(c * b + b - 1, b, c, b - 1);
}

/// The host share of a tip is well formed whenever the fee is a valid
/// basis-point value: it is between 0 and the whole tip.
pub proof fn lemma_host_tip_bounds(tip: u64, bps: u16)
    requires
        bps <= BPS_DENOMINATOR,
    ensures
        0 <= host_tip_of(tip, bps) <= tip,
        0 <= maker_tip_of(tip, bps) <= tip,
        host_tip_of(tip, bps) + maker_tip_of(tip, bps) == tip,
{
    lemma_mul_inequality(bps as int, BPS_DENOMINATOR as int, tip as int);
    assert(tip * bps == bps * tip) by (nonlinear_arith);
    assert(tip * (BPS_DENOMINATOR as int) == (BPS_DENOMINATOR as int) * tip)
        by (nonlinear_arith);
    lemma_ceil_div_upper_bound(tip * bps, BPS_DENOMINATOR as int, tip as int);
    lemma_ceil_div_times_divisor(tip * bps, BPS_DENOMINATOR as int);
}

/// The proportional minimum output of a partial fill never exceeds the
/// order's whole expected output.
pub proof fn lemma_min_output_bounds(input: u64, expected: u64, initial: u64)
    requires
        0 < initial,
        input <= initial,
    ensures
        0 <= min_output_for_fill(input, expected, initial) <= expected,
{
    lemma_mul_inequality(input as int, initial as int, expected as int);
    assert(initial * expected == expected * initial) by (nonlinear_arith);
    lemma_ceil_div_upper_bound(input * expected, initial as int, expected as int);
    lemma_ceil_div_times_divisor(input * expected, initial as int);
}

/// The proportional floor: any output that meets the rounded-up minimum
/// satisfies `output * initial >= input * expected` exactly, and with
/// equality when the ratio divides evenly and the output is the minimum
/// itself.
pub proof fn lemma_proportional_floor(input: u64, expected: u64, initial: u64, output: u64)
    requires
        0 < initial,
        min_output_for_fill(input, expected, initial) <= output,
    ensures
        output * initial >= input * expected,
        (input * expected) % (initial as int) == 0
            && output == min_output_for_fill(input, expected, initial)
            ==> output * initial == input * expected,
{
    let m = min_output_for_fill(input, expected, initial);
    lemma_ceil_div_times_divisor(input * expected, initial as int);
    lemma_mul_inequality(m, output as int, initial as int);
    if (input * expected) % (initial as int) == 0 {
        let q = (input * expected) / (initial as int);
        lemma_fundamental_div_mod(input * expected, initial as int);
        lemma_div_pos_is_pos(input * expected, initial as int);
        lemma_ceil_div_exact(q, initial as int);
        assert(q * (initial as int) == (initial as int) * q) by (nonlinear_arith);
    }
}

} // verus!
