use idle_game::big_number::{BigNumber, MILLI};
use idle_game::magnitude::DISPLAY_SCALE;

#[test]
fn power_zero_formats_as_plain_milli() {
    assert_eq!(BigNumber::new(0, 0).to_string(), "0");
    assert_eq!(BigNumber::new(42, 0).to_string(), "0.042");
    assert_eq!(BigNumber::new(-7, 0).to_string(), "-0.007");
    assert_eq!(BigNumber::new(999_999, 0).to_string(), "999.999");
}

#[test]
fn large_power_zero_reduces_into_abbreviated_form() {
    assert_eq!(BigNumber::new(1_000_000, 0).to_string(), "1000");
    assert_eq!(BigNumber::new(1_234_567, 0).to_string(), "1234.567");
    assert_eq!(BigNumber::new(999_999_999, 0).to_string(), "999999.999");
    assert_eq!(BigNumber::new(1_000_000_000, 0).to_string(), "1.000 M");
    assert_eq!(BigNumber::new(1_500_000_000, 0).to_string(), "1.500 M");
}

#[test]
fn millions_and_billions_format_with_six_decimals() {
    assert_eq!(BigNumber::new(5_000_000, 1).to_string(), "5.000 M");
    assert_eq!(BigNumber::new(1_234_567, 1).to_string(), "1.234 M");
    assert_eq!(BigNumber::new(5_000_000, 2).to_string(), "5.000 B");
    assert_eq!(BigNumber::new(1_234_567, 3).to_string(), "1.234 T");
    assert_eq!(BigNumber::new(1_234_567, 4).to_string(), "1.234 Q");
}

#[test]
fn stores_nine_digits_but_displays_six_fractional() {
    // 9-digit significand 123456789 → 123.456
    assert_eq!(BigNumber::new(123_456_789, 1).to_string(), "123.456 M");
    // Still only 3 digits after the decimal in the rendered string
    let rendered = BigNumber::new(123_456_789, 1).to_string();
    let frac = rendered.split('.').nth(1).unwrap();
    assert_eq!(&frac[..3], "456");
}

#[test]
fn negative_amounts_keep_sign_when_abbreviated() {
    assert_eq!(BigNumber::new(-1_500_000_000, 0).to_string(), "-1.500 M");
    assert_eq!(BigNumber::new(-2_500_000, 2).to_string(), "-2.500 B");
}

#[test]
fn reduce_keeps_amount_in_canonical_range() {
    assert_eq!(
        BigNumber::reduce(1_000_000_000, 0),
        BigNumber::new(1_000_000, 1)
    );
    assert_eq!(
        BigNumber::reduce(1_000_000_000, 1),
        BigNumber::new(1_000_000, 2)
    );
    assert_eq!(
        BigNumber::reduce(500_000, 2),
        BigNumber::new(500_000_000, 1)
    );
    // Boundary: abs(amount) == 1e6 significand stays put (no infinite loop)
    assert_eq!(
        BigNumber::reduce(DISPLAY_SCALE, 1),
        BigNumber::new(DISPLAY_SCALE, 1)
    );
    // Below display scale demotes to milli-units
    assert_eq!(
        BigNumber::reduce(DISPLAY_SCALE - 1, 1),
        BigNumber::new((DISPLAY_SCALE - 1) * MILLI, 0)
    );
}

#[test]
fn add_same_power() {
    let a = BigNumber::new(1_500_000, 1);
    let b = BigNumber::new(2_500_000, 1);
    assert_eq!((a + b).to_string(), "4.000 M");
}

#[test]
fn add_one_power_apart() {
    let millions = BigNumber::new(1_500_000, 1); // 1.500000 M
    let billions = BigNumber::new(2_000_000, 2); // 2.000000 B
    // 2.000000 B + 0.001500 B = 2.001500 B
    assert_eq!((billions + millions).to_string(), "2.001 B");
    assert_eq!(millions + billions, billions + millions);
}

#[test]
fn add_two_or_more_powers_apart_keeps_larger() {
    let millions = BigNumber::new(999_999_999, 1);
    let trillions = BigNumber::new(1_000_000, 3);
    assert_eq!(trillions + millions, trillions);
    assert_eq!(millions + trillions, trillions);
}

#[test]
fn BigNum_add_can_carry_into_next_power() {
    let a = BigNumber::from(600_000_000_000_i64);
    let b = BigNumber::from(600_000_000_000_i64);
    assert_eq!((a + b).to_string(), "1.200 B");
}

#[test]
fn BigNum_add_assign_matches_add() {
    let mut n = BigNumber::new(1_500_000, 1);
    n += BigNumber::new(500_000_000, 0); // 500_000 display units in milli-units
    assert_eq!(n, BigNumber::new(2_000_000, 1));
}

#[test]
fn sub_same_power() {
    let a = BigNumber::new(5_000_000, 1);
    let b = BigNumber::new(1_500_000, 1);
    assert_eq!((a - b).to_string(), "3.500 M");
}

#[test]
fn BigNum_sub_assign_matches_sub() {
    let mut n = BigNumber::new(5_000_000, 1);
    n -= BigNumber::new(2_000_000, 1);
    assert_eq!(n, BigNumber::new(3_000_000, 1));
}

#[test]
fn mul_by_int_and_reduce() {
    let n = BigNumber::new(1_500_000, 1); // 1.500000 M
    assert_eq!((n * 2).to_string(), "3.000 M");
    assert_eq!((n * 1000).to_string(), "1.500 B");
}

#[test]
fn BigNum_mul_assign_matches_mul() {
    let mut n = BigNumber::new(1_500_000, 1);
    n *= 3;
    assert_eq!(n, BigNumber::new(4_500_000, 1));
}

#[test]
fn BigNum_div_by_small_int() {
    let n = BigNumber::new(6_000_000, 1); // 6.000000 M
    assert_eq!((n / 2).to_string(), "3.000 M");
}

#[test]
fn BigNum_div_by_thousand_drops_power() {
    let n = BigNumber::new(5_000_000, 2); // 5.000000 B
    assert_eq!((n / 1000).to_string(), "5.000 M");
}

#[test]
fn BigNum_div_assign_matches_div() {
    let mut n = BigNumber::new(8_000_000, 1);
    n /= 4;
    assert_eq!(n, BigNumber::new(2_000_000, 1));
}

#[test]
fn big_number_cmp_same_scale() {
    assert!(BigNumber::from(10) < BigNumber::from(20));
    assert!(BigNumber::from(20) > BigNumber::from(10));
    assert!(BigNumber::from(10) <= BigNumber::from(10));
    assert!(BigNumber::from(10) >= BigNumber::from(10));
    assert_eq!(BigNumber::from(10), BigNumber::from(10));
    assert!(BigNumber::from(-5) < BigNumber::from(3));
    assert!(BigNumber::from(-10) < BigNumber::from(-3));
}

#[test]
fn big_number_cmp_across_scales() {
    let millions = BigNumber::new(1_500_000, 1);
    let billions = BigNumber::new(2_000_000, 2);
    let trillions = BigNumber::new(1_000_000, 3);

    assert!(millions < billions);
    assert!(billions < trillions);
    assert!(millions < trillions);
    assert!(BigNumber::new(-1_000_000, 3) < BigNumber::new(-1_500_000, 1));
    assert!(BigNumber::from(999_999_999) < millions);
}

use idle_game::big_dollar::BigDollar;

#[test]
fn BigNum_from_int_uses_milli_units() {
    assert_eq!(BigNumber::from(0).to_string(), "0");
    assert_eq!(BigNumber::from(1).to_string(), "0.001");
    assert_eq!(BigNumber::from(42).to_string(), "0.042");
    assert_eq!(BigNumber::from(1000).to_string(), "1");
    assert_eq!(BigNumber::from(1500).to_string(), "1.500");
    assert_eq!(BigNumber::from(-7).to_string(), "-0.007");
    assert_eq!(BigDollar::from(1).to_string(), "$0.001");
    assert_eq!(BigDollar::from(1000).to_string(), "$1");
}

#[test]
fn big_dollar_from_ints_and_display() {
    assert_eq!(BigDollar::from(0).to_string(), "$0");
    assert_eq!(BigDollar::from(42_i32).to_string(), "$0.042");
    assert_eq!(BigDollar::from(1_000_000_000_i64).to_string(), "$1.000 M");
    assert_eq!(BigDollar::from(-7_i32).to_string(), "-$0.007");
}

#[test]
fn big_dollar_ops_forward_to_big_number() {
    let mut money = BigDollar::from(1_000_000);
    money += 500_000_i64;
    assert_eq!(money, BigDollar::from(1_500_000));

    money -= 200_000_i32;
    assert_eq!(money, BigDollar::from(1_300_000));

    money = money + BigDollar::from(200_000);
    assert_eq!(money, BigDollar::from(1_500_000));

    money = money * 2;
    assert_eq!(money.to_string(), "$3000");

    money /= 3;
    assert_eq!(money, BigDollar::from(1_000_000));
}

#[test]
fn big_number_cmp_zero_against_nonzero() {
    assert!(BigNumber::from(0) < BigNumber::from(100));
    assert!(BigNumber::from(0) < BigNumber::from(1));
    assert!(!(BigNumber::from(0) >= BigNumber::from(100)));
    assert!(BigNumber::from(0) > BigNumber::from(-1));
    assert!(BigDollar::from(0) < BigDollar::from(100));
    assert!(!(BigDollar::from(0) >= BigDollar::from(100)));
}

#[test]
fn big_dollar_cmp_matches_big_number() {
    assert!(BigDollar::from(100) < BigDollar::from(200));
    assert!(BigDollar::from(200) > BigDollar::from(100));
    assert!(BigDollar::from(100) <= BigDollar::from(100));
    assert_eq!(BigDollar::from(100), BigDollar::from(100));
    assert!(BigDollar::from(-50) < BigDollar::from(0));
}

#[test]
fn addition_commutes_and_zero_changes_nothing() {
    let a = BigNumber::new(123_456, 2);
    let b = BigNumber::new(-7_890_000, 1);
    assert_eq!(a + b, b + a);
    let zero = BigNumber::new(0, 0);
    assert_eq!(a + zero, a);
    assert_eq!(zero + a, a);
    assert_eq!(a - a, zero);
    assert_eq!(b - b, zero);
}

#[test]
fn equal_amounts_have_one_form() {
    assert_eq!(BigNumber::reduce(5_000_000_000, 0), BigNumber::new(5_000_000, 1));
    assert_eq!(BigNumber::reduce(5_000_000_000, 0).amount(), 5_000_000);
    assert_eq!(BigNumber::reduce(5_000_000_000, 0).power_3(), 1);
    assert_eq!(BigNumber::reduce(42, 0).partial_cmp(&BigNumber::new(42, 0)), Some(std::cmp::Ordering::Equal));
}

#[test]
fn multiplying_scales_the_amount() {
    assert_eq!(BigNumber::new(1_500, 0) * 4, BigNumber::new(6_000, 0));
    assert_eq!(BigNumber::new(2_000_000, 1) * -3, BigNumber::new(-6_000_000, 1));
}

#[test]
fn plain_amount_added_to_billions_is_six_digits_smaller() {
    let a = BigNumber::new(2_000_000, 2);
    let b = BigNumber::from(500_000_000_i64);
    assert_eq!(a + b, BigNumber::new(2_000_500, 2));
    assert_eq!(b + a, BigNumber::new(2_000_500, 2));
    assert_eq!((a + b).to_string(), "2.000 B");
    let c = BigNumber::from(999_999_999_i64);
    assert_eq!(a + c, BigNumber::new(2_000_999, 2));
}
