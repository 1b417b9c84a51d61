use vstd::prelude::*;

use vstd::arithmetic::div_mod::{
    lemma_div_is_ordered, lemma_div_multiples_vanish, lemma_fundamental_div_mod,
    lemma_mod_division_less_than_divisor,
};
use vstd::arithmetic::mul::{
    lemma_mul_is_commutative, lemma_mul_is_distributive_add_other_way, lemma_mul_nonnegative,
    lemma_mul_upper_bound,
};

verus! {

/// Ten to the power `e`, for the decimal scaling between native-currency
/// units (fixed at 9 decimals) and token minor units.
pub open spec fn pow10(e: int) -> int
    decreases e,
{
    if e <= 0 {
        1
    } else {
        10 * pow10(e - 1)
    }
}

pub proof fn lemma_pow10_pos(e: int)
    ensures
        pow10(e) >= 1,
    decreases e,
{
    if e > 0 {
        lemma_pow10_pos(e - 1);
    }
}

pub proof fn lemma_pow10_monotone(a: int, b: int)
    requires
        a <= b,
    ensures
        pow10(a) <= pow10(b),
    decreases b - a,
{
    if a < b {
        lemma_pow10_monotone(a, b - 1);
        lemma_pow10_pos(b - 1);
    }
}

pub proof fn lemma_pow10_18()
    ensures
        pow10(18) == 1_000_000_000_000_000_000,
{
    assert(pow10(0) == 1);
    assert(pow10(1) == 10);
    assert(pow10(2) == 100);
    assert(pow10(3) == 1_000);
    assert(pow10(4) == 10_000);
    assert(pow10(5) == 100_000);
    assert(pow10(6) == 1_000_000);
    assert(pow10(7) == 10_000_000);
    assert(pow10(8) == 100_000_000);
    assert(pow10(9) == 1_000_000_000);
    assert(pow10(10) == 10_000_000_000);
    assert(pow10(11) == 100_000_000_000);
    assert(pow10(12) == 1_000_000_000_000);
    assert(pow10(13) == 10_000_000_000_000);
    assert(pow10(14) == 100_000_000_000_000);
    assert(pow10(15) == 1_000_000_000_000_000);
    assert(pow10(16) == 10_000_000_000_000_000);
    assert(pow10(17) == 100_000_000_000_000_000);
    assert(pow10(18) == 1_000_000_000_000_000_000);
}

/// Ten to the power `e` as a machine word; `e <= 18` keeps it within `u64`.
pub fn pow10_u64(e: u8) -> (r: u64)
    requires
        e <= 18,
    ensures
        r == pow10(e as int),
{
    let mut acc: u64 = 1;
    let mut i: u8 = 0;
    while i < e
        invariant
            i <= e,
            e <= 18,
            acc == pow10(i as int),
        decreases e - i,
    {
        proof {
            lemma_pow10_monotone(i as int + 1, 18);
            lemma_pow10_18();
        }
        acc = acc * 10;
        i = i + 1;
    }
    acc
}

/// Token minor units bought by `native` native minor units at `price` native
/// minor units per whole token, for a mint with `decimals` decimal places:
/// `floor(native * 10^decimals / price)`.
///
/// Native currency carries 9 decimals, so this is the same quantity as
/// `native / (10^(9 - decimals) * price_in_whole_native_units)`, and it needs
/// no special case for `decimals > 9`.
pub open spec fn token_minor_units(native: int, price: int, decimals: int) -> int {
    (native * pow10(decimals)) / price
}

/// [`token_minor_units`], saturated at `u64::MAX` where the exact quotient
/// does not fit a machine word.
pub open spec fn capped_token_minor_units(native: int, price: int, decimals: int) -> int {
    let q = token_minor_units(native, price, decimals);
    if q > u64::MAX as int {
        u64::MAX as int
    } else {
        q
    }
}

/// Converts a native-currency amount into token minor units, truncating
/// toward zero and saturating at `u64::MAX`.
///
/// A price of zero would make the quotient undefined, so callers must reject
/// non-positive prices upstream.
pub fn to_token_minor_units(native_amount: u64, price: u64, decimals: u8) -> (r: u64)
    requires
        1 <= price,
        decimals <= 18,
    ensures
        r == capped_token_minor_units(native_amount as int, price as int, decimals as int),
{
    let p10: u64 = pow10_u64(decimals);
    proof {
        lemma_pow10_monotone(decimals as int, 18);
        lemma_pow10_18();
        lemma_mul_upper_bound(
            native_amount as int,
            u64::MAX as int,
            p10 as int,
            1_000_000_000_000_000_000,
        );
    }
    let scaled: u128 = (native_amount as u128) * (p10 as u128);
    let q: u128 = scaled / (price as u128);
    proof {
        lemma_mul_nonnegative(native_amount as int, p10 as int);
    }
    if q > u64::MAX as u128 {
        u64::MAX
    } else {
        q as u64
    }
}

/// Law: the conversion is the exact floor of `native * 10^decimals / price`,
/// so it round-trips within one token's price. Multiplying the result back by
/// `price` recovers the scaled native amount up to strictly less than `price`,
/// and scaling that product back down never overshoots the original amount.
/// This holds for any `decimals`, below or above the native currency's 9.
pub proof fn lemma_to_token_minor_units_round_trip(native: int, price: int, decimals: int)
    requires
        0 <= native,
        1 <= price,
    ensures
        token_minor_units(native, price, decimals) * price <= native * pow10(decimals),
        native * pow10(decimals) - token_minor_units(native, price, decimals) * price < price,
        (token_minor_units(native, price, decimals) * price) / pow10(decimals) <= native,
{
    let p10 = pow10(decimals);
    lemma_pow10_pos(decimals);
    let x = native * p10;
    let q = x / price;
    lemma_mul_nonnegative(native, p10);
    lemma_fundamental_div_mod(x, price);
    lemma_mod_division_less_than_divisor(x, price);
    lemma_mul_is_commutative(q, price);
    lemma_mul_is_distributive_add_other_way(price, q, 1);
    lemma_div_is_ordered(q * price, x, p10);
    lemma_div_multiples_vanish(native, p10);
    lemma_mul_is_commutative(p10, native);
}

} // verus!
