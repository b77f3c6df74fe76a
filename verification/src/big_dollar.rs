//! `BigDollar`: a `BigNumber` amount of money, shown with a dollar sign.
use crate::big_number::BigNumber;
use crate::magnitude::canonical_power;
use crate::text::{chars_of, push_char};
use vstd::prelude::*;

verus! {

#[derive(Clone, Copy, Debug, PartialEq, Eq, Structural)]
pub struct BigDollar(pub BigNumber);

/// A rendered amount with the dollar sign put after its minus sign, if any.
pub open spec fn dollar_text(body: Seq<char>) -> Seq<char> {
    if body.len() > 0 && body[0] == '-' {
        seq!['-', '$'] + body.subrange(1, body.len() as int)
    } else {
        seq!['$'] + body
    }
}

impl BigDollar {
    /// The underlying number.
    pub fn number(&self) -> (r: BigNumber)
        ensures
            r == self.0,
    {
        self.0
    }

    pub open spec fn value(self) -> int {
        self.0.value()
    }

    /// Renders the amount with a dollar sign: `$1.500`, `-$0.007`, `$1.000 M`.
    pub fn to_string(&self) -> (r: String)
        requires
            self.0.power() <= 10,
        ensures
            r@ == dollar_text(self.0.text()),
    {
        let body = self.0.to_string();
        let chars = chars_of(body.as_str());
        let mut s = String::new();
        if chars.len() > 0 && chars[0] == '-' {
            push_char(&mut s, '-');
            push_char(&mut s, '$');
            let mut i: usize = 1;
            while i < chars.len()
                invariant
                    1 <= i <= chars.len(),
                    chars@.len() > 0 && chars@[0] == '-',
                    s@ == seq!['-', '$'] + chars@.subrange(1, i as int),
                decreases chars.len() - i,
            {
                push_char(&mut s, chars[i]);
                i = i + 1;
                proof {
                    assert(chars@.subrange(1, i as int) == chars@.subrange(1, i - 1).push(
                        chars@[i - 1],
                    ));
                }
            }
        } else {
            push_char(&mut s, '$');
            s.append(body.as_str());
        }
        proof {
            assert(s@ =~= dollar_text(self.0.text()));
        }
        s
    }
}

impl core::convert::From<BigNumber> for BigDollar {
    fn from(value: BigNumber) -> (r: BigDollar) {
        BigDollar(value)
    }
}

impl vstd::std_specs::convert::FromSpecImpl<BigNumber> for BigDollar {
    open spec fn obeys_from_spec() -> bool {
        true
    }

    open spec fn from_spec(v: BigNumber) -> BigDollar {
        BigDollar(v)
    }
}

impl core::convert::From<i64> for BigDollar {
    /// `value` is taken as milli-units.
    fn from(value: i64) -> (r: BigDollar) {
        BigDollar(BigNumber::from(value))
    }
}

impl vstd::std_specs::convert::FromSpecImpl<i64> for BigDollar {
    open spec fn obeys_from_spec() -> bool {
        true
    }

    open spec fn from_spec(v: i64) -> BigDollar {
        BigDollar(BigNumber::canonical_of(v as int))
    }
}

impl core::convert::From<i32> for BigDollar {
    /// `value` is taken as milli-units.
    fn from(value: i32) -> (r: BigDollar) {
        BigDollar(BigNumber::from(value))
    }
}

impl vstd::std_specs::convert::FromSpecImpl<i32> for BigDollar {
    open spec fn obeys_from_spec() -> bool {
        true
    }

    open spec fn from_spec(v: i32) -> BigDollar {
        BigDollar(BigNumber::canonical_of(v as int))
    }
}

impl core::ops::Add for BigDollar {
    type Output = BigDollar;

    fn add(self, other: BigDollar) -> (r: BigDollar) {
        BigDollar(self.0 + other.0)
    }
}

impl vstd::std_specs::ops::AddSpecImpl for BigDollar {
    open spec fn obeys_add_spec() -> bool {
        true
    }

    open spec fn add_req(self, rhs: BigDollar) -> bool {
        self.0.add_fits(rhs.0)
    }

    open spec fn add_spec(self, rhs: BigDollar) -> BigDollar {
        BigDollar(self.0.add_spec_of(rhs.0))
    }
}

impl core::ops::Add<i64> for BigDollar {
    type Output = BigDollar;

    fn add(self, other: i64) -> (r: BigDollar) {
        self + BigDollar::from(other)
    }
}

impl vstd::std_specs::ops::AddSpecImpl<i64> for BigDollar {
    open spec fn obeys_add_spec() -> bool {
        true
    }

    open spec fn add_req(self, rhs: i64) -> bool {
        self.0.add_fits(BigNumber::canonical_of(rhs as int))
    }

    open spec fn add_spec(self, rhs: i64) -> BigDollar {
        BigDollar(self.0.add_spec_of(BigNumber::canonical_of(rhs as int)))
    }
}

impl core::ops::Add<i32> for BigDollar {
    type Output = BigDollar;

    fn add(self, other: i32) -> (r: BigDollar) {
        self + BigDollar::from(other)
    }
}

impl vstd::std_specs::ops::AddSpecImpl<i32> for BigDollar {
    open spec fn obeys_add_spec() -> bool {
        true
    }

    open spec fn add_req(self, rhs: i32) -> bool {
        self.0.add_fits(BigNumber::canonical_of(rhs as int))
    }

    open spec fn add_spec(self, rhs: i32) -> BigDollar {
        BigDollar(self.0.add_spec_of(BigNumber::canonical_of(rhs as int)))
    }
}

impl core::ops::AddAssign for BigDollar {
    fn add_assign(&mut self, other: BigDollar)
        requires
            old(self).0.add_fits(other.0),
        ensures
            final(self).0 == old(self).0.add_spec_of(other.0),
    {
        self.0 = self.0 + other.0;
    }
}

impl core::ops::AddAssign<i64> for BigDollar {
    fn add_assign(&mut self, other: i64)
        requires
            old(self).0.add_fits(BigNumber::canonical_of(other as int)),
        ensures
            final(self).0 == old(self).0.add_spec_of(BigNumber::canonical_of(other as int)),
    {
        *self = *self + BigDollar::from(other);
    }
}

impl core::ops::AddAssign<i32> for BigDollar {
    fn add_assign(&mut self, other: i32)
        requires
            old(self).0.add_fits(BigNumber::canonical_of(other as int)),
        ensures
            final(self).0 == old(self).0.add_spec_of(BigNumber::canonical_of(other as int)),
    {
        *self = *self + BigDollar::from(other);
    }
}

impl core::ops::Sub for BigDollar {
    type Output = BigDollar;

    fn sub(self, other: BigDollar) -> (r: BigDollar) {
        BigDollar(self.0 - other.0)
    }
}

impl vstd::std_specs::ops::SubSpecImpl for BigDollar {
    open spec fn obeys_sub_spec() -> bool {
        true
    }

    open spec fn sub_req(self, rhs: BigDollar) -> bool {
        self.0.add_fits(rhs.0.negated())
    }

    open spec fn sub_spec(self, rhs: BigDollar) -> BigDollar {
        BigDollar(self.0.add_spec_of(rhs.0.negated()))
    }
}

impl core::ops::Sub<i64> for BigDollar {
    type Output = BigDollar;

    fn sub(self, other: i64) -> (r: BigDollar) {
        self - BigDollar::from(other)
    }
}

impl vstd::std_specs::ops::SubSpecImpl<i64> for BigDollar {
    open spec fn obeys_sub_spec() -> bool {
        true
    }

    open spec fn sub_req(self, rhs: i64) -> bool {
        self.0.add_fits(BigNumber::canonical_of(rhs as int).negated())
    }

    open spec fn sub_spec(self, rhs: i64) -> BigDollar {
        BigDollar(self.0.add_spec_of(BigNumber::canonical_of(rhs as int).negated()))
    }
}

impl core::ops::Sub<i32> for BigDollar {
    type Output = BigDollar;

    fn sub(self, other: i32) -> (r: BigDollar) {
        self - BigDollar::from(other)
    }
}

impl vstd::std_specs::ops::SubSpecImpl<i32> for BigDollar {
    open spec fn obeys_sub_spec() -> bool {
        true
    }

    open spec fn sub_req(self, rhs: i32) -> bool {
        self.0.add_fits(BigNumber::canonical_of(rhs as int).negated())
    }

    open spec fn sub_spec(self, rhs: i32) -> BigDollar {
        BigDollar(self.0.add_spec_of(BigNumber::canonical_of(rhs as int).negated()))
    }
}

impl core::ops::SubAssign for BigDollar {
    fn sub_assign(&mut self, other: BigDollar)
        requires
            old(self).0.add_fits(other.0.negated()),
        ensures
            final(self).0 == old(self).0.add_spec_of(other.0.negated()),
    {
        self.0 = self.0 - other.0;
    }
}

impl core::ops::SubAssign<i64> for BigDollar {
    fn sub_assign(&mut self, other: i64)
        requires
            old(self).0.add_fits(BigNumber::canonical_of(other as int).negated()),
        ensures
            final(self).0 == old(self).0.add_spec_of(
                BigNumber::canonical_of(other as int).negated(),
            ),
    {
        *self = *self - BigDollar::from(other);
    }
}

impl core::ops::SubAssign<i32> for BigDollar {
    fn sub_assign(&mut self, other: i32)
        requires
            old(self).0.add_fits(BigNumber::canonical_of(other as int).negated()),
        ensures
            final(self).0 == old(self).0.add_spec_of(
                BigNumber::canonical_of(other as int).negated(),
            ),
    {
        *self = *self - BigDollar::from(other);
    }
}

impl core::ops::Mul<i32> for BigDollar {
    type Output = BigDollar;

    fn mul(self, rhs: i32) -> (r: BigDollar) {
        BigDollar(self.0 * rhs)
    }
}

impl vstd::std_specs::ops::MulSpecImpl<i32> for BigDollar {
    open spec fn obeys_mul_spec() -> bool {
        true
    }

    open spec fn mul_req(self, rhs: i32) -> bool {
        canonical_power(self.0.product_value(rhs)) <= usize::MAX
    }

    open spec fn mul_spec(self, rhs: i32) -> BigDollar {
        BigDollar(BigNumber::canonical_of(self.0.product_value(rhs)))
    }
}

impl core::ops::MulAssign<i32> for BigDollar {
    fn mul_assign(&mut self, rhs: i32)
        requires
            canonical_power(old(self).0.product_value(rhs)) <= usize::MAX,
        ensures
            final(self).0 == BigNumber::canonical_of(old(self).0.product_value(rhs)),
    {
        self.0 = self.0 * rhs;
    }
}

impl core::ops::Div<i32> for BigDollar {
    type Output = BigDollar;

    fn div(self, rhs: i32) -> (r: BigDollar) {
        BigDollar(self.0 / rhs)
    }
}

impl vstd::std_specs::ops::DivSpecImpl<i32> for BigDollar {
    open spec fn obeys_div_spec() -> bool {
        true
    }

    open spec fn div_req(self, rhs: i32) -> bool {
        self.0.div_defined(rhs)
    }

    open spec fn div_spec(self, rhs: i32) -> BigDollar {
        BigDollar(BigNumber::canonical_of(self.0.quotient_value(rhs)))
    }
}

impl core::ops::DivAssign<i32> for BigDollar {
    fn div_assign(&mut self, rhs: i32)
        requires
            old(self).0.div_defined(rhs),
        ensures
            final(self).0 == BigNumber::canonical_of(old(self).0.quotient_value(rhs)),
    {
        self.0 = self.0 / rhs;
    }
}

} // verus!
