//! The order of `BigNumber`s: by sign first, then by magnitude, which is
//! decided by the scales alone when they lie two or more apart.
use crate::big_dollar::BigDollar;
use crate::big_number::BigNumber;
use crate::magnitude::abs;
use core::cmp::Ordering;
use vstd::prelude::*;

verus! {

/// The order of two integers.
pub open spec fn order_of(x: int, y: int) -> Ordering {
    if x < y {
        Ordering::Less
    } else if x == y {
        Ordering::Equal
    } else {
        Ordering::Greater
    }
}

fn order_i64(x: i64, y: i64) -> (r: Ordering)
    ensures
        r == Ordering::Less <==> x < y,
        r == Ordering::Equal <==> x == y,
        r == Ordering::Greater <==> x > y,
{
    if x < y {
        Ordering::Less
    } else if x == y {
        Ordering::Equal
    } else {
        Ordering::Greater
    }
}

fn order_u8(x: u8, y: u8) -> (r: Ordering)
    ensures
        r == Ordering::Less <==> x < y,
        r == Ordering::Equal <==> x == y,
        r == Ordering::Greater <==> x > y,
{
    if x < y {
        Ordering::Less
    } else if x == y {
        Ordering::Equal
    } else {
        Ordering::Greater
    }
}

/// Negative before zero before positive.
fn sign_rank(x: i64) -> (r: u8)
    ensures
        r == (if x < 0 {
            0u8
        } else if x == 0 {
            1u8
        } else {
            2u8
        }),
{
    if x < 0 {
        0
    } else if x == 0 {
        1
    } else {
        2
    }
}

fn reversed(o: Ordering) -> (r: Ordering)
    ensures
        o == Ordering::Less ==> r == Ordering::Greater,
        o == Ordering::Equal ==> r == Ordering::Equal,
        o == Ordering::Greater ==> r == Ordering::Less,
{
    match o {
        Ordering::Less => Ordering::Greater,
        Ordering::Equal => Ordering::Equal,
        Ordering::Greater => Ordering::Less,
    }
}

fn abs_i64(x: i64) -> (r: i64)
    requires
        x > i64::MIN,
    ensures
        r == abs(x as int),
{
    if x < 0 {
        -x
    } else {
        x
    }
}

impl BigNumber {
    /// Compares by value: the result is the order of the two amounts.
    pub fn cmp(&self, other: &Self) -> (r: Ordering)
        ensures
            r == order_of(self.value(), other.value()),
    {
        self.lemma_canonical();
        other.lemma_canonical();
        proof {
            self.lemma_magnitude_order(*other);
            other.lemma_magnitude_order(*self);
        }
        // negative < zero < positive
        let self_sign = sign_rank(self.amount());
        let other_sign = sign_rank(other.amount());
        if self_sign != other_sign {
            return order_u8(self_sign, other_sign);
        }
        if self.amount() == 0 {
            return Ordering::Equal;
        }
        let self_milli = abs_i64(self.to_milli());
        let other_milli = abs_i64(other.to_milli());
        let self_scale = self.scale_usize();
        let other_scale = other.scale_usize();
        let magnitude = if self_scale > other_scale {
            let diff = self_scale - other_scale;
            if diff >= 2 {
                Ordering::Greater
            } else {
                order_i64(self_milli * 1000, other_milli)
            }
        } else if self_scale < other_scale {
            let diff = other_scale - self_scale;
            if diff >= 2 {
                Ordering::Less
            } else {
                order_i64(self_milli, other_milli * 1000)
            }
        } else {
            order_i64(self_milli, other_milli)
        };
        if self.amount() < 0 {
            reversed(magnitude)
        } else {
            magnitude
        }
    }
}

impl PartialOrd for BigNumber {
    fn partial_cmp(&self, other: &Self) -> (r: Option<Ordering>) {
        Some(self.cmp(other))
    }
}

impl vstd::std_specs::cmp::PartialOrdSpecImpl for BigNumber {
    open spec fn obeys_partial_cmp_spec() -> bool {
        true
    }

    open spec fn partial_cmp_spec(&self, other: &Self) -> Option<Ordering> {
        Some(order_of(self.value(), other.value()))
    }
}

impl BigDollar {
    /// Compares the amounts of money.
    pub fn cmp(&self, other: &Self) -> (r: Ordering)
        ensures
            r == order_of(self.0.value(), other.0.value()),
    {
        self.0.cmp(&other.0)
    }
}

impl PartialOrd for BigDollar {
    fn partial_cmp(&self, other: &Self) -> (r: Option<Ordering>) {
        Some(self.cmp(other))
    }
}

impl vstd::std_specs::cmp::PartialOrdSpecImpl for BigDollar {
    open spec fn obeys_partial_cmp_spec() -> bool {
        true
    }

    open spec fn partial_cmp_spec(&self, other: &Self) -> Option<Ordering> {
        Some(order_of(self.0.value(), other.0.value()))
    }
}

/// Two numbers compare equal exactly when they are the same number.
pub proof fn lemma_cmp_equal_iff_eq(x: BigNumber, y: BigNumber)
    requires
        crate::big_number::is_canonical(x.significand(), x.power()),
        crate::big_number::is_canonical(y.significand(), y.power()),
    ensures
        (order_of(x.value(), y.value()) == Ordering::Equal) <==> x == y,
        (order_of(x.value(), y.value()) == Ordering::Less) <==> (order_of(y.value(), x.value())
            == Ordering::Greater),
{
    x.lemma_eq_iff_same_value(y);
}

} // verus!
