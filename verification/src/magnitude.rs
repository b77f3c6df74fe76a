//! Integer facts behind the abbreviated number format: truncating division,
//! powers of a thousand, and the canonical exponent of a milli-unit value.
use vstd::arithmetic::div_mod::*;
use vstd::arithmetic::mul::*;
use vstd::prelude::*;

verus! {

/// The smallest significand magnitude kept once a value is abbreviated.
pub const DISPLAY_SCALE: i64 = 1_000_000;

/// Significands stay strictly below this magnitude (nine digits).
pub const STORE_MAX: i64 = 1_000_000_000;

pub open spec fn abs(x: int) -> int {
    if x < 0 {
        -x
    } else {
        x
    }
}

/// Division that rounds toward zero, as Rust's `/` does on signed integers.
pub open spec fn tdiv(x: int, d: int) -> int {
    if x >= 0 {
        x / d
    } else {
        -((-x) / d)
    }
}

/// The remainder that goes with `tdiv`: it has the sign of `x`.
pub open spec fn trem(x: int, d: int) -> int {
    x - d * tdiv(x, d)
}

pub open spec fn pow1000(n: nat) -> int
    decreases n,
{
    if n == 0 {
        1
    } else {
        1000 * pow1000((n - 1) as nat)
    }
}

/// The exponent (of 1000) under which a value given in milli-units is stored:
/// zero while the magnitude stays below `STORE_MAX`, and one more for each
/// division by 1000 needed to bring it below.
pub open spec fn canonical_power(v: int) -> nat
    decreases abs(v),
{
    if abs(v) < STORE_MAX {
        0
    } else {
        proof {
            lemma_tdiv_shrinks(v);
        }
        1 + canonical_power(tdiv(v, 1000))
    }
}

/// The significand stored for a milli-unit value: the value divided by
/// `1000^canonical_power(v)`, rounded toward zero.
pub open spec fn canonical_amount(v: int) -> int {
    tdiv(v, pow1000(canonical_power(v)))
}

/// The milli-unit value that the canonical form of `v` stands for (`v` with
/// the digits below its stored precision dropped).
pub open spec fn truncated_value(v: int) -> int {
    canonical_amount(v) * pow1000(canonical_power(v))
}

pub proof fn lemma_tdiv_shrinks(v: int)
    requires
        abs(v) >= STORE_MAX,
    ensures
        abs(tdiv(v, 1000)) < abs(v),
        abs(tdiv(v, 1000)) >= DISPLAY_SCALE,
{
    if v >= 0 {
        lemma_div_is_ordered(1_000_000_000, v, 1000);
        lemma_div_decreases(v, 1000);
    } else {
        lemma_div_is_ordered(1_000_000_000, -v, 1000);
        lemma_div_decreases(-v, 1000);
    }
}

pub proof fn lemma_pow1000_positive(n: nat)
    ensures
        pow1000(n) >= 1,
    decreases n,
{
    if n > 0 {
        lemma_pow1000_positive((n - 1) as nat);
    }
}

pub proof fn lemma_pow1000_add(m: nat, n: nat)
    ensures
        pow1000(m + n) == pow1000(m) * pow1000(n),
    decreases m,
{
    if m == 0 {
        assert(pow1000(0) == 1);
    } else {
        lemma_pow1000_add((m - 1) as nat, n);
        assert(pow1000(m + n) == 1000 * pow1000((m - 1 + n) as nat));
        lemma_mul_is_associative(1000, pow1000((m - 1) as nat), pow1000(n));
    }
}

pub proof fn lemma_pow1000_monotone(m: nat, n: nat)
    requires
        m <= n,
    ensures
        pow1000(m) <= pow1000(n),
    decreases n,
{
    if m < n {
        lemma_pow1000_monotone(m, (n - 1) as nat);
        lemma_pow1000_positive((n - 1) as nat);
    }
}

/// Rounding toward zero never grows a magnitude.
pub proof fn lemma_tdiv_abs_le(x: int, d: int)
    requires
        d >= 1,
    ensures
        abs(tdiv(x, d)) <= abs(x),
        abs(tdiv(x, d)) == abs(x) / d,
        x >= 0 ==> tdiv(x, d) >= 0,
        x <= 0 ==> tdiv(x, d) <= 0,
{
    if x >= 0 {
        lemma_div_nonincreasing(x, d);
        lemma_div_pos_is_pos(x, d);
    } else {
        lemma_div_nonincreasing(-x, d);
        lemma_div_pos_is_pos(-x, d);
    }
}

/// Rounding toward zero twice is rounding once by the product.
pub proof fn lemma_tdiv_tdiv(x: int, a: int, b: int)
    requires
        a >= 1,
        b >= 1,
    ensures
        tdiv(tdiv(x, a), b) == tdiv(x, a * b),
        a * b >= 1,
{
    lemma_mul_strictly_positive(a, b);
    if x >= 0 {
        lemma_div_pos_is_pos(x, a);
        lemma_div_denominator(x, a, b);
    } else {
        lemma_div_pos_is_pos(-x, a);
        lemma_div_denominator(-x, a, b);
        let q = (-x) / a;
        if q == 0 {
            assert(tdiv(x, a) == 0);
            lemma_div_pos_is_pos(0, b);
            assert(0int / b == 0) by {
                lemma_div_multiples_vanish(0, b);
            }
        } else {
            assert(tdiv(x, a) == -q);
            assert(tdiv(-q, b) == -(q / b));
        }
    }
}

/// Multiples of `m` divide back exactly.
pub proof fn lemma_tdiv_multiple(c: int, m: int)
    requires
        m >= 1,
    ensures
        tdiv(c * m, m) == c,
{
    if c >= 0 {
        lemma_mul_nonnegative(c, m);
        lemma_div_by_multiple(c, m);
    } else {
        lemma_mul_nonnegative(-c, m);
        lemma_div_by_multiple(-c, m);
        lemma_mul_unary_negation(c, m);
        assert(-(c * m) == (-c) * m);
    }
}

/// Dividing a value by `1000^(k+1)` is dividing its `1000^k` quotient by 1000.
pub proof fn lemma_tdiv_pow_step(v: int, k: nat)
    ensures
        tdiv(tdiv(v, pow1000(k)), 1000) == tdiv(v, pow1000(k + 1)),
        tdiv(tdiv(v, 1000), pow1000(k)) == tdiv(v, pow1000(k + 1)),
{
    lemma_pow1000_positive(k);
    lemma_tdiv_tdiv(v, pow1000(k), 1000);
    lemma_tdiv_tdiv(v, 1000, pow1000(k));
    assert(pow1000(k + 1) == 1000 * pow1000(k));
    lemma_mul_is_commutative(1000, pow1000(k));
}

/// If dividing by `1000^k` still leaves a magnitude of at least `STORE_MAX`,
/// more than `k` divisions are needed.
pub proof fn lemma_canonical_power_gt(v: int, k: nat)
    requires
        abs(tdiv(v, pow1000(k))) >= STORE_MAX,
    ensures
        canonical_power(v) > k,
    decreases k,
{
    lemma_pow1000_positive(k);
    lemma_tdiv_abs_le(v, pow1000(k));
    if k > 0 {
        lemma_tdiv_pow_step(v, (k - 1) as nat);
        lemma_canonical_power_gt(tdiv(v, 1000), (k - 1) as nat);
    }
}

/// The exponent `p` is canonical for `v` when dividing by `1000^p` brings the
/// magnitude below `STORE_MAX` and dividing by `1000^(p-1)` does not.
pub proof fn lemma_canonical_power_is(v: int, p: nat)
    requires
        abs(tdiv(v, pow1000(p))) < STORE_MAX,
        p == 0 || abs(tdiv(v, pow1000((p - 1) as nat))) >= STORE_MAX,
    ensures
        canonical_power(v) == p,
        canonical_amount(v) == tdiv(v, pow1000(p)),
    decreases p,
{
    if p == 0 {
        assert(pow1000(0) == 1);
        assert(tdiv(v, 1) == v);
    } else {
        lemma_pow1000_positive((p - 1) as nat);
        lemma_tdiv_abs_le(v, pow1000((p - 1) as nat));
        let w = tdiv(v, 1000);
        lemma_tdiv_pow_step(v, (p - 1) as nat);
        if p >= 2 {
            lemma_tdiv_pow_step(v, (p - 2) as nat);
        }
        lemma_canonical_power_is(w, (p - 1) as nat);
    }
}

/// A value whose magnitude is below `STORE_MAX * 1000^k` needs at most `k`
/// divisions.
pub proof fn lemma_canonical_power_le(v: int, k: nat)
    requires
        abs(v) < STORE_MAX * pow1000(k),
    ensures
        canonical_power(v) <= k,
    decreases k,
{
    if abs(v) >= STORE_MAX {
        if k == 0 {
            assert(pow1000(0) == 1);
        } else {
            let w = tdiv(v, 1000);
            lemma_tdiv_abs_le(v, 1000);
            assert(pow1000(k) == 1000 * pow1000((k - 1) as nat));
            lemma_pow1000_positive((k - 1) as nat);
            let bound = STORE_MAX * pow1000((k - 1) as nat);
            assert(STORE_MAX * pow1000(k) == 1000 * bound) by {
                lemma_mul_is_associative(STORE_MAX as int, 1000, pow1000((k - 1) as nat));
                lemma_mul_is_commutative(STORE_MAX as int, 1000);
                lemma_mul_is_associative(1000, STORE_MAX as int, pow1000((k - 1) as nat));
            }
            // abs(v) < 1000 * bound  ==>  abs(v) / 1000 < bound
            assert(abs(v) / 1000 < bound) by {
                lemma_div_strictly_bounded_local(abs(v), 1000, bound);
            }
            lemma_canonical_power_le(w, (k - 1) as nat);
        }
    }
}

proof fn lemma_div_strictly_bounded_local(x: int, a: int, b: int)
    requires
        x >= 0,
        a > 0,
        b >= 0,
        x < a * b,
    ensures
        x / a < b,
{
    lemma_fundamental_div_mod(x, a);
    lemma_mod_pos_bound(x, a);
    if x / a >= b {
        lemma_mul_inequality(b, x / a, a);
        lemma_mul_is_commutative(b, a);
        lemma_mul_is_commutative(x / a, a);
    }
}

/// A magnitude that fits in an `i64` never needs more than four divisions.
pub proof fn lemma_canonical_power_of_i64(v: int)
    requires
        i64::MIN <= v <= i64::MAX,
    ensures
        canonical_power(v) <= 4,
{
    assert(pow1000(4) == 1_000_000_000_000) by {
        reveal_with_fuel(pow1000, 5);
    }
    lemma_canonical_power_le(v, 4);
}


/// The stored significand of any value has fewer than nine digits.
pub proof fn lemma_canonical_amount_small(v: int)
    ensures
        abs(canonical_amount(v)) < STORE_MAX,
    decreases abs(v),
{
    if abs(v) < STORE_MAX {
        assert(pow1000(0) == 1);
        assert(tdiv(v, 1) == v);
    } else {
        lemma_tdiv_shrinks(v);
        let w = tdiv(v, 1000);
        lemma_canonical_amount_small(w);
        lemma_tdiv_pow_step(v, canonical_power(w));
    }
}

/// Cutting `c * 1000^q` to a multiple of `1000^(q + r)` cuts `c` to a
/// multiple of `1000^r`.
pub proof fn lemma_tdiv_scaled(c: int, q: nat, r: nat)
    ensures
        tdiv(c * pow1000(q), pow1000(q + r)) == tdiv(c, pow1000(r)),
{
    lemma_pow1000_positive(q);
    lemma_pow1000_positive(r);
    lemma_pow1000_add(q, r);
    lemma_tdiv_tdiv(c * pow1000(q), pow1000(q), pow1000(r));
    lemma_tdiv_multiple(c, pow1000(q));
}

/// Rounding toward zero is symmetric about zero.
pub proof fn lemma_tdiv_neg(x: int, d: int)
    requires
        d >= 1,
    ensures
        tdiv(-x, d) == -tdiv(x, d),
{
}

} // verus!
