//! `BigNumber`: a money amount kept as a nine-digit significand and a power
//! of 1000, so that it can grow far beyond what an `i64` of milli-units holds.
//!
//! With `power_3 == 0` the significand counts milli-units; with `power_3 == p`
//! for `p >= 1` it counts `1000^p` milli-units, and the amount is shown as
//! millions (`M`), billions (`B`), ... with three decimals.
use crate::magnitude::{
    abs, canonical_amount, canonical_power, lemma_canonical_power_gt, lemma_canonical_power_is,
    lemma_canonical_power_of_i64, lemma_pow1000_add, lemma_pow1000_monotone, lemma_pow1000_positive, lemma_tdiv_multiple,
    lemma_canonical_amount_small, lemma_tdiv_neg, lemma_tdiv_scaled, lemma_tdiv_pow_step, lemma_tdiv_shrinks, pow1000,
    tdiv, truncated_value, DISPLAY_SCALE, STORE_MAX,
};
use crate::text::{abbreviated_text, format_abbreviated, format_plain_milli, plain_milli_text};
use vstd::prelude::*;

verus! {

/// One display unit in milli-units, and the step between two powers.
pub const UNIT: i64 = 1_000;

/// Integers given to `from` are milli-units: `from(1)` is 0.001 display units.
pub const MILLI: i64 = 1_000;

/// Plain amounts are promoted into the abbreviated form at one million
/// display units.
pub const PROMOTE_AT: i64 = 1_000_000_000;

#[derive(Clone, Copy, Debug, PartialEq, Eq, Structural)]
pub struct BigNumber {
    amount: i64,
    power_3: usize,
}

/// The magnitude bounds of a stored significand at a given power.
pub open spec fn is_canonical(amount: int, power_3: nat) -> bool {
    if power_3 == 0 {
        abs(amount) < STORE_MAX
    } else {
        DISPLAY_SCALE <= abs(amount) < STORE_MAX
    }
}

impl BigNumber {
    #[verifier::type_invariant]
    spec fn canonical(self) -> bool {
        is_canonical(self.amount as int, self.power_3 as nat)
    }

    /// The stored significand.
    pub closed spec fn significand(self) -> int {
        self.amount as int
    }

    /// The stored power of 1000.
    pub closed spec fn power(self) -> nat {
        self.power_3 as nat
    }

    /// The amount in milli-units.
    pub open spec fn value(self) -> int {
        self.significand() * pow1000(self.power())
    }

    /// Every `BigNumber` is in canonical form.
    pub fn lemma_canonical(&self)
        ensures
            is_canonical(self.significand(), self.power()),
            i64::MIN < self.significand() <= i64::MAX,
            self.power() <= usize::MAX,
    {
        proof {
            use_type_invariant(self);
        }
    }

    /// The stored significand.
    pub fn amount(&self) -> (r: i64)
        ensures
            r == self.significand(),
    {
        self.amount
    }

    /// The stored power of 1000.
    pub fn power_3(&self) -> (r: usize)
        ensures
            r == self.power(),
    {
        self.power_3
    }

    /// Brings a significand and a power into canonical form: the value is cut
    /// to nine significant digits (rounding toward zero) and stored under the
    /// one power at which its significand lies in `[10^6, 10^9)`, or as plain
    /// milli-units below one million display units.
    pub fn reduce(amount: i64, power_3: usize) -> (r: BigNumber)
        requires
            canonical_power(amount * pow1000(power_3 as nat)) <= usize::MAX,
        ensures
            r.power() == canonical_power(amount * pow1000(power_3 as nat)),
            r.significand() == canonical_amount(amount * pow1000(power_3 as nat)),
            r.value() == truncated_value(amount * pow1000(power_3 as nat)),
            r == Self::canonical_of(amount * pow1000(power_3 as nat)),
    {
        let ghost v: int = amount * pow1000(power_3 as nat);
        let mut a = amount;
        let mut p = power_3;
        proof {
            lemma_pow1000_positive(power_3 as nat);
            lemma_tdiv_multiple(amount as int, pow1000(power_3 as nat));
        }
        let ghost mut divided = false;
        // Promote milli-units into abbreviated significand form at 1M display units.
        if p == 0 && (a >= PROMOTE_AT || a <= -PROMOTE_AT) {
            proof {
                lemma_tdiv_shrinks(a as int);
                lemma_tdiv_pow_step(v, 0);
                reveal_with_fuel(pow1000, 2);
                lemma_canonical_power_gt(v, 0);
            }
            a = a / MILLI;
            p = 1;
            proof {
                divided = true;
            }
        }
        while a >= STORE_MAX || a <= -STORE_MAX
            invariant
                a == tdiv(v, pow1000(p as nat)),
                canonical_power(v) <= usize::MAX,
                divided ==> p >= 1 && abs(a as int) >= DISPLAY_SCALE && abs(
                    tdiv(v, pow1000((p - 1) as nat)),
                ) >= STORE_MAX,
                !divided ==> a == amount && p == power_3,
            decreases abs(a as int),
        {
            proof {
                lemma_tdiv_shrinks(a as int);
                lemma_canonical_power_gt(v, p as nat);
                lemma_tdiv_pow_step(v, p as nat);
            }
            a = a / UNIT;
            p = p + 1;
            proof {
                divided = true;
            }
        }
        // From here on the value is kept exactly while the significand is scaled up.
        proof {
            if !divided {
                assert(a * pow1000(p as nat) == v);
            } else {
                lemma_canonical_power_is(v, p as nat);
            }
        }
        while p >= 2 && a < DISPLAY_SCALE && a > -DISPLAY_SCALE
            invariant
                abs(a as int) < STORE_MAX,
                !divided ==> a * pow1000(p as nat) == v,
                divided ==> p >= 1 && abs(a as int) >= DISPLAY_SCALE && canonical_power(v) == p
                    && canonical_amount(v) == a,
            decreases p,
        {
            proof {
                assert(pow1000(p as nat) == 1000 * pow1000((p - 1) as nat));
                vstd::arithmetic::mul::lemma_mul_is_associative(
                    a as int,
                    1000,
                    pow1000((p - 1) as nat),
                );
            }
            a = a * UNIT;
            p = p - 1;
        }
        if p == 1 && a < DISPLAY_SCALE && a > -DISPLAY_SCALE {
            // Demote back to milli-units.
            proof {
                reveal_with_fuel(pow1000, 2);
            }
            a = a * MILLI;
            p = 0;
        }
        proof {
            if !divided {
                lemma_pow1000_positive(p as nat);
                lemma_tdiv_multiple(a as int, pow1000(p as nat));
                if p >= 1 {
                    assert(pow1000(p as nat) == 1000 * pow1000((p - 1) as nat));
                    vstd::arithmetic::mul::lemma_mul_is_associative(
                        a as int,
                        1000,
                        pow1000((p - 1) as nat),
                    );
                    vstd::arithmetic::mul::lemma_mul_is_commutative(a as int, 1000);
                    lemma_pow1000_positive((p - 1) as nat);
                    lemma_tdiv_multiple(a * 1000, pow1000((p - 1) as nat));
                }
                lemma_canonical_power_is(v, p as nat);
            }
        }
        BigNumber { amount: a, power_3: p }
    }

    /// The canonical number that stands for the milli-unit value `v`
    /// (rounded toward zero to nine significant digits).
    pub closed spec fn canonical_of(v: int) -> BigNumber {
        BigNumber { amount: canonical_amount(v) as i64, power_3: canonical_power(v) as usize }
    }

    /// What the canonical form of an amount holds, when it fits.
    pub proof fn lemma_canonical_of(v: int)
        requires
            canonical_power(v) <= usize::MAX,
            i64::MIN < canonical_amount(v) <= i64::MAX,
        ensures
            Self::canonical_of(v).significand() == canonical_amount(v),
            Self::canonical_of(v).power() == canonical_power(v),
    {
    }

    /// Builds a number from a significand and a power of 1000, in canonical form.
    pub fn new(amount: i64, power_3: usize) -> (r: BigNumber)
        requires
            canonical_power(amount * pow1000(power_3 as nat)) <= usize::MAX,
        ensures
            r.power() == canonical_power(amount * pow1000(power_3 as nat)),
            r.significand() == canonical_amount(amount * pow1000(power_3 as nat)),
            r == Self::canonical_of(amount * pow1000(power_3 as nat)),
    {
        BigNumber::reduce(amount, power_3)
    }
}

/// The exponent that ranks powers for addition: plain milli-units and millions
/// share exponent 0, billions have 1, and so on.
pub open spec fn scale_of(power: nat) -> nat {
    if power == 0 {
        0
    } else {
        (power - 1) as nat
    }
}

impl BigNumber {
    pub open spec fn scale(self) -> nat {
        scale_of(self.power())
    }

    /// The significand and power of a sum before reduction, where `self` has
    /// the larger scale and the scales differ by at most one. The smaller
    /// term is brought to the larger one's power, rounding toward zero: a
    /// term one power below loses its last three digits, a plain milli-unit
    /// amount two powers below its last six.
    pub open spec fn sum_parts(self, other: BigNumber) -> (int, nat) {
        let a = self.significand();
        let b = other.significand();
        if self.scale() > other.scale() {
            if other.power() == 0 {
                (a + tdiv(b, 1_000_000), self.power())
            } else {
                (a + tdiv(b, 1000), self.power())
            }
        } else if self.power() == 0 && other.power() == 0 {
            (a + b, 0)
        } else if self.power() == 0 {
            (tdiv(a, 1000) + b, other.power())
        } else if other.power() == 0 {
            (a + tdiv(b, 1000), self.power())
        } else {
            (a + b, self.power())
        }
    }

    /// The milli-unit value of `sum_parts` before reduction.
    pub open spec fn sum_value(self, other: BigNumber) -> int {
        self.sum_parts(other).0 * pow1000(self.sum_parts(other).1)
    }

    /// Sum where `self` has the larger (or equal) scale: a term two or more
    /// scales below the other is too small to show and is dropped.
    pub open spec fn add_ordered_spec(self, other: BigNumber) -> BigNumber {
        if self.scale() >= other.scale() + 2 {
            self
        } else {
            Self::canonical_of(self.sum_value(other))
        }
    }

    /// The sum of two numbers, as `+` computes it.
    pub open spec fn add_spec_of(self, other: BigNumber) -> BigNumber {
        if self.scale() < other.scale() {
            other.add_ordered_spec(self)
        } else {
            self.add_ordered_spec(other)
        }
    }

    /// The sum can be stored: its power fits in a `usize`.
    pub open spec fn add_fits(self, other: BigNumber) -> bool {
        if self.scale() < other.scale() {
            other.scale() >= self.scale() + 2 || canonical_power(other.sum_value(self))
                <= usize::MAX
        } else {
            self.scale() >= other.scale() + 2 || canonical_power(self.sum_value(other))
                <= usize::MAX
        }
    }

    fn scale_exec(&self) -> (r: usize)
        ensures
            r == self.scale(),
    {
        if self.power_3 == 0 {
            0
        } else {
            self.power_3 - 1
        }
    }

    fn add_ordered(self, other: BigNumber) -> (r: BigNumber)
        requires
            self.scale() >= other.scale(),
            self.scale() >= other.scale() + 2 || canonical_power(self.sum_value(other))
                <= usize::MAX,
        ensures
            r == self.add_ordered_spec(other),
    {
        proof {
            use_type_invariant(&self);
            use_type_invariant(&other);
        }
        let diff = self.scale_exec() - other.scale_exec();
        if diff >= 2 {
            self
        } else if diff == 1 {
            let other_contribution = if other.power_3 == 0 {
                other.amount / (MILLI * UNIT)
            } else {
                other.amount / UNIT
            };
            BigNumber::reduce(self.amount + other_contribution, self.power_3)
        } else {
            if self.power_3 == 0 && other.power_3 == 0 {
                BigNumber::reduce(self.amount + other.amount, 0)
            } else if self.power_3 == 0 {
                BigNumber::reduce(self.amount / MILLI + other.amount, other.power_3)
            } else if other.power_3 == 0 {
                BigNumber::reduce(self.amount + other.amount / MILLI, self.power_3)
            } else {
                BigNumber::reduce(self.amount + other.amount, self.power_3)
            }
        }
    }
}

impl core::ops::Add for BigNumber {
    type Output = BigNumber;

    fn add(self, other: BigNumber) -> (r: BigNumber) {
        if self.scale_exec() < other.scale_exec() {
            other.add_ordered(self)
        } else {
            self.add_ordered(other)
        }
    }
}

impl vstd::std_specs::ops::AddSpecImpl for BigNumber {
    open spec fn obeys_add_spec() -> bool {
        true
    }

    open spec fn add_req(self, rhs: BigNumber) -> bool {
        self.add_fits(rhs)
    }

    open spec fn add_spec(self, rhs: BigNumber) -> BigNumber {
        self.add_spec_of(rhs)
    }
}

impl core::ops::AddAssign for BigNumber {
    fn add_assign(&mut self, other: BigNumber)
        requires
            old(self).add_fits(other),
        ensures
            *final(self) == old(self).add_spec_of(other),
    {
        *self = *self + other;
    }
}

impl BigNumber {
    /// The same magnitude with the opposite sign.
    pub closed spec fn negated(self) -> BigNumber {
        BigNumber { amount: (-self.amount) as i64, power_3: self.power_3 }
    }

    pub proof fn lemma_negated(self)
        requires
            self.significand() > i64::MIN,
        ensures
            self.negated().significand() == -self.significand(),
            self.negated().power() == self.power(),
            self.negated().value() == -self.value(),
    {
        vstd::arithmetic::mul::lemma_mul_unary_negation(self.significand(), pow1000(self.power()));
    }

    fn negate(self) -> (r: BigNumber)
        ensures
            r == self.negated(),
    {
        proof {
            use_type_invariant(&self);
        }
        BigNumber { amount: -self.amount, power_3: self.power_3 }
    }
}

impl core::ops::Sub for BigNumber {
    type Output = BigNumber;

    fn sub(self, other: BigNumber) -> (r: BigNumber) {
        self + other.negate()
    }
}

impl vstd::std_specs::ops::SubSpecImpl for BigNumber {
    open spec fn obeys_sub_spec() -> bool {
        true
    }

    open spec fn sub_req(self, rhs: BigNumber) -> bool {
        self.add_fits(rhs.negated())
    }

    open spec fn sub_spec(self, rhs: BigNumber) -> BigNumber {
        self.add_spec_of(rhs.negated())
    }
}

impl core::ops::SubAssign for BigNumber {
    fn sub_assign(&mut self, other: BigNumber)
        requires
            old(self).add_fits(other.negated()),
        ensures
            *final(self) == old(self).add_spec_of(other.negated()),
    {
        *self = *self - other;
    }
}

impl BigNumber {
    /// The milli-unit value of the product with `rhs` before reduction.
    pub open spec fn product_value(self, rhs: i32) -> int {
        (self.significand() * rhs) * pow1000(self.power())
    }
}

impl core::ops::Mul<i32> for BigNumber {
    type Output = BigNumber;

    fn mul(self, rhs: i32) -> (r: BigNumber) {
        proof {
            use_type_invariant(&self);
            let a = self.amount as int;
            let b = rhs as int;
            assert(-1_000_000_000 < a < 1_000_000_000);
            assert(-2_147_483_648 <= b <= 2_147_483_647);
            assert(-2_147_483_648_000_000_000 <= a * b <= 2_147_483_648_000_000_000)
                by (nonlinear_arith)
                requires
                    -1_000_000_000 < a < 1_000_000_000,
                    -2_147_483_648 <= b <= 2_147_483_647,
            ;
        }
        BigNumber::reduce(self.amount * (rhs as i64), self.power_3)
    }
}

impl vstd::std_specs::ops::MulSpecImpl<i32> for BigNumber {
    open spec fn obeys_mul_spec() -> bool {
        true
    }

    open spec fn mul_req(self, rhs: i32) -> bool {
        canonical_power(self.product_value(rhs)) <= usize::MAX
    }

    open spec fn mul_spec(self, rhs: i32) -> BigNumber {
        Self::canonical_of(self.product_value(rhs))
    }
}

impl core::ops::MulAssign<i32> for BigNumber {
    fn mul_assign(&mut self, rhs: i32)
        requires
            canonical_power(old(self).product_value(rhs)) <= usize::MAX,
        ensures
            *final(self) == Self::canonical_of(old(self).product_value(rhs)),
    {
        *self = *self * rhs;
    }
}

/// The number of decimal digits of `n`, minus one.
pub open spec fn log10_floor(n: nat) -> nat
    decreases n,
{
    if n < 10 {
        0
    } else {
        1 + log10_floor(n / 10)
    }
}

pub open spec fn pow10(k: nat) -> int
    decreases k,
{
    if k == 0 {
        1
    } else {
        10 * pow10((k - 1) as nat)
    }
}

proof fn lemma_pow10_le(n: nat)
    requires
        n >= 1,
    ensures
        1 <= pow10(log10_floor(n)) <= n,
    decreases n,
{
    if n >= 10 {
        lemma_pow10_le(n / 10);
    }
}

proof fn lemma_pow10_monotone(i: nat, j: nat)
    requires
        i <= j,
    ensures
        1 <= pow10(i) <= pow10(j),
    decreases j,
{
    if j > 0 {
        if i < j {
            lemma_pow10_monotone(i, (j - 1) as nat);
        } else {
            lemma_pow10_monotone((i - 1) as nat, (j - 1) as nat);
        }
    }
}

proof fn lemma_log10_floor_bound(n: nat)
    requires
        n < 10_000_000_000,
    ensures
        log10_floor(n) <= 9,
{
    reveal_with_fuel(log10_floor, 11);
}

/// `n.ilog10()` for a positive `n`.
fn ilog10(n: i32) -> (r: u32)
    requires
        n > 0,
    ensures
        r == log10_floor(n as nat),
        r <= 9,
{
    let mut x = n;
    let mut k: u32 = 0;
    proof {
        lemma_log10_floor_bound(n as nat);
    }
    while x >= 10
        invariant
            0 < x <= n,
            k + log10_floor(x as nat) == log10_floor(n as nat),
            log10_floor(n as nat) <= 9,
        decreases x,
    {
        x = x / 10;
        k = k + 1;
    }
    k
}

/// `10^k` for a power no larger than `bound`.
fn pow10_i32(k: u32, bound: i32) -> (r: i32)
    requires
        pow10(k as nat) <= bound,
    ensures
        r == pow10(k as nat),
{
    let mut m: i32 = 1;
    let mut i: u32 = 0;
    while i < k
        invariant
            i <= k,
            m == pow10(i as nat),
            pow10(k as nat) <= bound,
        decreases k - i,
    {
        proof {
            lemma_pow10_monotone((i + 1) as nat, k as nat);
        }
        m = m * 10;
        i = i + 1;
    }
    m
}

impl BigNumber {
    /// How many powers of 1000 a division by `rhs` takes off the number.
    pub open spec fn powers_dropped(rhs: i32) -> nat {
        log10_floor(rhs as nat) / 3
    }

    /// What is left of `rhs` once its powers of 1000 are taken off (rounded down).
    pub open spec fn divisor_rest(rhs: i32) -> int {
        (rhs as int) / pow10(3 * Self::powers_dropped(rhs))
    }

    /// The milli-unit value of the quotient by `rhs` before reduction.
    pub open spec fn quotient_value(self, rhs: i32) -> int {
        tdiv(self.significand(), Self::divisor_rest(rhs)) * pow1000(
            (self.power() - Self::powers_dropped(rhs)) as nat,
        )
    }

    /// The division is defined: `rhs` is positive, the number has at least
    /// the powers it drops, and the quotient's power fits in a `usize`.
    pub open spec fn div_defined(self, rhs: i32) -> bool {
        &&& rhs > 0
        &&& self.power() >= Self::powers_dropped(rhs)
        &&& canonical_power(self.quotient_value(rhs)) <= usize::MAX
    }
}

impl core::ops::Div<i32> for BigNumber {
    type Output = BigNumber;

    fn div(self, rhs: i32) -> (r: BigNumber) {
        proof {
            use_type_invariant(&self);
            lemma_pow10_le(rhs as nat);
            lemma_pow10_monotone(3 * (log10_floor(rhs as nat) / 3), log10_floor(rhs as nat));
        }
        let div_pow = ilog10(rhs) / 3;
        let scale = pow10_i32(div_pow * 3, rhs);
        let under_million = rhs / scale;
        proof {
            vstd::arithmetic::div_mod::lemma_div_is_ordered(scale as int, rhs as int, scale as int);
            vstd::arithmetic::div_mod::lemma_div_by_multiple(1, scale as int);
        }
        BigNumber::reduce(self.amount / (under_million as i64), self.power_3 - (div_pow as usize))
    }
}

impl vstd::std_specs::ops::DivSpecImpl<i32> for BigNumber {
    open spec fn obeys_div_spec() -> bool {
        true
    }

    open spec fn div_req(self, rhs: i32) -> bool {
        self.div_defined(rhs)
    }

    open spec fn div_spec(self, rhs: i32) -> BigNumber {
        Self::canonical_of(self.quotient_value(rhs))
    }
}

impl core::ops::DivAssign<i32> for BigNumber {
    fn div_assign(&mut self, rhs: i32)
        requires
            old(self).div_defined(rhs),
        ensures
            *final(self) == Self::canonical_of(old(self).quotient_value(rhs)),
    {
        *self = *self / rhs;
    }
}

impl core::convert::From<i64> for BigNumber {
    /// `value` is taken as milli-units.
    fn from(value: i64) -> (r: BigNumber) {
        proof {
            assert(pow1000(0) == 1);
            lemma_canonical_power_of_i64(value as int);
        }
        BigNumber::reduce(value, 0)
    }
}

impl vstd::std_specs::convert::FromSpecImpl<i64> for BigNumber {
    open spec fn obeys_from_spec() -> bool {
        true
    }

    open spec fn from_spec(v: i64) -> BigNumber {
        Self::canonical_of(v as int)
    }
}

impl core::convert::From<i32> for BigNumber {
    /// `value` is taken as milli-units.
    fn from(value: i32) -> (r: BigNumber) {
        BigNumber::from(value as i64)
    }
}

impl vstd::std_specs::convert::FromSpecImpl<i32> for BigNumber {
    open spec fn obeys_from_spec() -> bool {
        true
    }

    open spec fn from_spec(v: i32) -> BigNumber {
        Self::canonical_of(v as int)
    }
}

impl BigNumber {
    /// The significand counted in milli-units at the number's scale: the
    /// value is `milli() * 1000^scale()`.
    pub open spec fn milli(self) -> int {
        if self.power() == 0 {
            self.significand()
        } else {
            self.significand() * 1000
        }
    }

    pub(crate) fn to_milli(self) -> (r: i64)
        ensures
            r == self.milli(),
            abs(r as int) < 1_000_000_000_000,
    {
        proof {
            use_type_invariant(&self);
        }
        if self.power_3 == 0 {
            self.amount
        } else {
            self.amount * MILLI
        }
    }

    pub(crate) fn scale_usize(&self) -> (r: usize)
        ensures
            r == self.scale(),
    {
        self.scale_exec()
    }

    proof fn lemma_value_by_scale(self)
        ensures
            self.value() == self.milli() * pow1000(self.scale()),
            abs(self.value()) == abs(self.milli()) * pow1000(self.scale()),
            pow1000(self.scale()) >= 1,
    {
        lemma_pow1000_positive(self.scale());
        if self.power() >= 1 {
            assert(pow1000(self.power()) == 1000 * pow1000(self.scale()));
            vstd::arithmetic::mul::lemma_mul_is_associative(
                self.significand(),
                1000,
                pow1000(self.scale()),
            );
        } else {
            assert(pow1000(0) == 1);
        }
        let m = self.milli();
        let q = pow1000(self.scale());
        assert(abs(m * q) == abs(m) * q) by (nonlinear_arith)
            requires
                q >= 1,
        ;
    }

    /// How the magnitudes of two canonical numbers compare, read off their
    /// scales and their significands in milli-units.
    pub proof fn lemma_magnitude_order(self, other: BigNumber)
        requires
            is_canonical(self.significand(), self.power()),
            is_canonical(other.significand(), other.power()),
        ensures
            self.value() < 0 <==> self.significand() < 0,
            self.value() == 0 <==> self.significand() == 0,
            self.scale() >= other.scale() + 2 ==> abs(self.value()) > abs(other.value()),
            self.scale() == other.scale() + 1 ==> (abs(self.milli()) * 1000 < abs(other.milli())
                <==> abs(self.value()) < abs(other.value())) && (abs(self.milli()) * 1000 == abs(
                other.milli(),
            ) <==> abs(self.value()) == abs(other.value())),
            self.scale() == other.scale() ==> (abs(self.milli()) < abs(other.milli()) <==> abs(
                self.value(),
            ) < abs(other.value())) && (abs(self.milli()) == abs(other.milli()) <==> abs(
                self.value(),
            ) == abs(other.value())),
    {
        self.lemma_value_by_scale();
        other.lemma_value_by_scale();
        let mx = abs(self.milli());
        let my = abs(other.milli());
        let px = pow1000(self.scale());
        let py = pow1000(other.scale());
        let m = self.milli();
        let q = px;
        assert(m < 0 <==> m * q < 0) by (nonlinear_arith)
            requires
                q >= 1,
        ;
        assert(m == 0 <==> m * q == 0) by (nonlinear_arith)
            requires
                q >= 1,
        ;
        if self.scale() == other.scale() {
            assert((mx < my <==> mx * px < my * px) && (mx == my <==> mx * px == my * px))
                by (nonlinear_arith)
                requires
                    px >= 1,
            ;
        } else if self.scale() == other.scale() + 1 {
            assert(px == 1000 * py);
            vstd::arithmetic::mul::lemma_mul_is_associative(mx, 1000, py);
            vstd::arithmetic::mul::lemma_mul_is_commutative(1000, py);
            assert(((mx * 1000) < my <==> (mx * 1000) * py < my * py) && ((mx * 1000) == my <==> (
            mx * 1000) * py == my * py)) by (nonlinear_arith)
                requires
                    py >= 1,
            ;
        } else if self.scale() >= other.scale() + 2 {
            lemma_pow1000_add(2, other.scale());
            lemma_pow1000_monotone(other.scale() + 2, self.scale());
            reveal_with_fuel(pow1000, 3);
            assert(mx >= 1_000_000_000);
            assert(my < 1_000_000_000_000);
            assert(mx * px > my * py) by (nonlinear_arith)
                requires
                    mx >= 1_000_000_000,
                    0 <= my < 1_000_000_000_000,
                    py >= 1,
                    px >= 1_000_000 * py,
            ;
        }
    }
}

impl BigNumber {
    /// How the number is shown: plain milli-units with up to three decimals,
    /// or the significand read with six decimals of which three are shown,
    /// followed by the suffix of its power.
    pub open spec fn text(self) -> Seq<char> {
        if self.power() == 0 {
            plain_milli_text(self.significand())
        } else {
            abbreviated_text(self.significand() < 0, abs(self.significand()) as nat, self.power())
        }
    }

    /// Renders the number; there are suffixes for the first ten powers.
    pub fn to_string(&self) -> (r: String)
        requires
            self.power() <= 10,
        ensures
            r@ == self.text(),
    {
        proof {
            use_type_invariant(self);
        }
        if self.power_3 == 0 {
            return format_plain_milli(self.amount);
        }
        let abs = if self.amount < 0 {
            -self.amount
        } else {
            self.amount
        };
        format_abbreviated(self.amount < 0, abs, self.power_3)
    }
}

impl BigNumber {
    /// Zero: no significand, plain milli-units.
    pub closed spec fn zero() -> BigNumber {
        BigNumber { amount: 0, power_3: 0 }
    }

    pub proof fn lemma_zero()
        ensures
            Self::zero().significand() == 0,
            Self::zero().power() == 0,
            Self::zero().value() == 0,
            Self::zero() == Self::canonical_of(0),
    {
        assert(pow1000(0) == 1);
        lemma_canonical_power_is(0, 0);
    }

    /// A canonical number is the canonical form of its own value.
    pub proof fn lemma_canonical_of_value(self)
        requires
            is_canonical(self.significand(), self.power()),
        ensures
            canonical_power(self.value()) == self.power(),
            canonical_amount(self.value()) == self.significand(),
            Self::canonical_of(self.value()) == self,
    {
        let p = self.power();
        let a = self.significand();
        lemma_pow1000_positive(p);
        lemma_tdiv_multiple(a, pow1000(p));
        if p >= 1 {
            assert(pow1000(p) == 1000 * pow1000((p - 1) as nat));
            vstd::arithmetic::mul::lemma_mul_is_associative(a, 1000, pow1000((p - 1) as nat));
            vstd::arithmetic::mul::lemma_mul_is_commutative(a, 1000);
            lemma_pow1000_positive((p - 1) as nat);
            lemma_tdiv_multiple(a * 1000, pow1000((p - 1) as nat));
        }
        lemma_canonical_power_is(self.value(), p);
    }

    /// Two numbers are equal exactly when their amounts are: every amount
    /// has a single canonical form.
    pub proof fn lemma_eq_iff_same_value(self, other: BigNumber)
        requires
            is_canonical(self.significand(), self.power()),
            is_canonical(other.significand(), other.power()),
        ensures
            self == other <==> self.value() == other.value(),
    {
        self.lemma_canonical_of_value();
        other.lemma_canonical_of_value();
    }

    /// Reducing a canonical number's own significand and power gives it back.
    pub proof fn lemma_reduce_keeps_canonical(self)
        requires
            is_canonical(self.significand(), self.power()),
        ensures
            canonical_power(self.significand() * pow1000(self.power())) == self.power(),
            Self::canonical_of(self.significand() * pow1000(self.power())) == self,
    {
        self.lemma_canonical_of_value();
    }

    /// Addition is commutative, and so is the condition under which it is defined.
    pub proof fn lemma_add_commutative(self, other: BigNumber)
        ensures
            self.add_spec_of(other) == other.add_spec_of(self),
            self.add_fits(other) == other.add_fits(self),
    {
        if self.scale() == other.scale() {
            assert(self.sum_parts(other) == other.sum_parts(self));
        }
    }

    /// Adding zero changes nothing, on either side.
    pub proof fn lemma_add_zero(self)
        requires
            is_canonical(self.significand(), self.power()),
        ensures
            self.add_fits(Self::zero()),
            self.add_spec_of(Self::zero()) == self,
            Self::zero().add_spec_of(self) == self,
    {
        Self::lemma_zero();
        self.lemma_canonical_of_value();
        let z = Self::zero();
        lemma_tdiv_multiple(0, 1000);
        if self.scale() < z.scale() + 2 {
            assert(self.sum_parts(z) == (self.significand(), self.power()));
        }
        self.lemma_add_commutative(z);
    }

    /// A number minus itself is zero.
    pub proof fn lemma_sub_self(self)
        requires
            is_canonical(self.significand(), self.power()),
        ensures
            self.add_fits(self.negated()),
            self.add_spec_of(self.negated()) == Self::zero(),
    {
        Self::lemma_zero();
        self.lemma_negated();
        let n = self.negated();
        assert(self.sum_parts(n).0 == 0);
        vstd::arithmetic::mul::lemma_mul_basics(pow1000(self.sum_parts(n).1));
    }

    /// Adding two numbers stored under the same power is exact, up to the
    /// nine-digit truncation of the result.
    pub proof fn lemma_add_same_power(self, other: BigNumber)
        requires
            self.power() == other.power(),
            self.add_fits(other),
        ensures
            self.add_spec_of(other) == Self::canonical_of(self.value() + other.value()),
    {
        vstd::arithmetic::mul::lemma_mul_is_distributive_add_other_way(
            pow1000(self.power()),
            self.significand(),
            other.significand(),
        );
    }

    /// Multiplying by an integer scales the amount, up to the nine-digit
    /// truncation of the result.
    pub proof fn lemma_mul_scales_value(self, rhs: i32)
        ensures
            self.product_value(rhs) == self.value() * rhs,
    {
        vstd::arithmetic::mul::lemma_mul_is_associative(self.significand(), rhs as int, pow1000(self.power()));
        vstd::arithmetic::mul::lemma_mul_is_commutative(rhs as int, pow1000(self.power()));
        vstd::arithmetic::mul::lemma_mul_is_associative(self.significand(), pow1000(self.power()), rhs as int);
    }
}


/// The larger of two stored powers.
pub open spec fn larger_power(a: BigNumber, b: BigNumber) -> nat {
    if a.power() >= b.power() {
        a.power()
    } else {
        b.power()
    }
}

impl BigNumber {
    /// The canonical form of an amount stands for that amount with the
    /// digits below its nine significant ones dropped.
    pub proof fn lemma_canonical_of_truncates(v: int)
        requires
            canonical_power(v) <= usize::MAX,
        ensures
            Self::canonical_of(v).value() == truncated_value(v),
    {
        lemma_canonical_amount_small(v);
    }

    proof fn lemma_sum_value_cut(self, other: BigNumber)
        requires
            self.scale() >= other.scale(),
            self.scale() < other.scale() + 2,
        ensures
            self.sum_value(other) == tdiv(self.value(), pow1000(larger_power(self, other)))
                * pow1000(larger_power(self, other)) + tdiv(
                other.value(),
                pow1000(larger_power(self, other)),
            ) * pow1000(larger_power(self, other)),
    {
        let a = self.significand();
        let b = other.significand();
        let px = self.power();
        let py = other.power();
        let parts = self.sum_parts(other);
        let m = pow1000(larger_power(self, other));
        assert(pow1000(0) == 1);
        assert(pow1000(1) == 1000);
        assert(pow1000(2) == 1_000_000);
        lemma_pow1000_positive(px);
        lemma_pow1000_positive(py);
        if self.scale() > other.scale() {
            lemma_tdiv_multiple(a, pow1000(px));
            if py == 0 {
                assert(px == 2);
                assert(other.value() == b);
            } else {
                assert(px == py + 1);
                lemma_tdiv_scaled(b, py, 1);
            }
        } else if px == 0 && py == 0 {
            assert(self.value() == a);
            assert(other.value() == b);
        } else if px == 0 {
            assert(py == 1);
            assert(self.value() == a);
            lemma_tdiv_multiple(b, 1000);
        } else if py == 0 {
            assert(px == 1);
            assert(other.value() == b);
            lemma_tdiv_multiple(a, 1000);
        } else {
            assert(px == py);
            lemma_tdiv_multiple(a, pow1000(px));
            lemma_tdiv_multiple(b, pow1000(px));
        }
        assert(parts.1 == larger_power(self, other));
        vstd::arithmetic::mul::lemma_mul_is_distributive_add_other_way(
            m,
            tdiv(self.value(), m),
            tdiv(other.value(), m),
        );
    }

    /// Addition is exact up to truncation when the scales differ by less
    /// than two: each amount is cut toward zero to a multiple of `1000^p`,
    /// `p` being the larger stored power, the cut amounts are added, and the
    /// sum keeps its nine significant digits.
    pub proof fn lemma_add_value(self, other: BigNumber)
        requires
            self.scale() < other.scale() + 2,
            other.scale() < self.scale() + 2,
            self.add_fits(other),
        ensures
            self.add_spec_of(other).value() == truncated_value(
                tdiv(self.value(), pow1000(larger_power(self, other))) * pow1000(
                    larger_power(self, other),
                ) + tdiv(other.value(), pow1000(larger_power(self, other))) * pow1000(
                    larger_power(self, other),
                ),
            ),
    {
        if self.scale() < other.scale() {
            other.lemma_sum_value_cut(self);
            Self::lemma_canonical_of_truncates(other.sum_value(self));
        } else {
            self.lemma_sum_value_cut(other);
            Self::lemma_canonical_of_truncates(self.sum_value(other));
        }
    }

    /// A term two or more scales below the other is too small to show: the
    /// sum, in either order, is the larger term unchanged.
    pub proof fn lemma_add_drops_tiny(self, other: BigNumber)
        requires
            self.scale() >= other.scale() + 2,
        ensures
            self.add_spec_of(other) == self,
            other.add_spec_of(self) == self,
    {
    }

    /// Subtraction is exact up to truncation in the same way: the cut amount
    /// subtracted is cut toward zero, so taking away a positive amount never
    /// adds to the value.
    pub proof fn lemma_sub_value(self, other: BigNumber)
        requires
            other.significand() > i64::MIN,
            self.scale() < other.scale() + 2,
            other.scale() < self.scale() + 2,
            self.add_fits(other.negated()),
        ensures
            self.add_spec_of(other.negated()).value() == truncated_value(
                tdiv(self.value(), pow1000(larger_power(self, other))) * pow1000(
                    larger_power(self, other),
                ) - tdiv(other.value(), pow1000(larger_power(self, other))) * pow1000(
                    larger_power(self, other),
                ),
            ),
    {
        other.lemma_negated();
        let m = pow1000(larger_power(self, other));
        lemma_pow1000_positive(larger_power(self, other));
        assert(larger_power(self, other.negated()) == larger_power(self, other));
        assert(other.negated().scale() == other.scale());
        self.lemma_add_value(other.negated());
        lemma_tdiv_neg(other.value(), m);
        vstd::arithmetic::mul::lemma_mul_unary_negation(tdiv(other.value(), m), m);
    }
}

} // verus!
