use rust_decimal::Decimal;
use ucie::decimal::Dec;

fn dec(mantissa: i128, scale: u32) -> Dec {
    Dec::new(mantissa, scale).unwrap()
}

fn outside(d: Dec) -> Decimal {
    Decimal::from_i128_with_scale(d.mantissa(), d.scale())
}

#[test]
fn new_keeps_mantissa_and_scale() {
    let d = dec(-3141, 3);
    assert_eq!(d.mantissa(), -3141);
    assert_eq!(d.scale(), 3);
}

#[test]
fn new_takes_the_whole_range() {
    let max = (1i128 << 96) - 1;
    assert!(Dec::new(max, 28).is_some());
    assert!(Dec::new(-max, 0).is_some());
    assert!(Dec::new(0, 0).is_some());
}

#[test]
fn new_refuses_what_is_out_of_range() {
    let max = (1i128 << 96) - 1;
    assert!(Dec::new(max + 1, 0).is_none());
    assert!(Dec::new(-max - 1, 0).is_none());
    assert!(Dec::new(1, 29).is_none());
    assert!(Dec::new(i128::MIN, 0).is_none());
}

#[test]
fn from_usize_has_scale_zero() {
    let d = Dec::from_usize(35);
    assert_eq!(d.mantissa(), 35);
    assert_eq!(d.scale(), 0);
    assert_eq!(outside(d), Decimal::from(35usize));
}

#[test]
fn equality_is_that_of_the_representation() {
    assert_eq!(dec(18, 1), dec(18, 1));
    assert_ne!(dec(18, 1), dec(180, 2));
}

#[test]
fn product_is_that_of_rust_decimal() {
    let p = dec(18, 1).checked_mul(dec(2, 0)).unwrap();
    assert_eq!(outside(p), Decimal::new(36, 1));
    assert_ne!(outside(p), Decimal::new(18, 1));
}

#[test]
fn product_with_zero_is_zero_of_scale_zero() {
    let max = (1i128 << 96) - 1;
    for (a, b) in [
        (dec(0, 5), dec(18, 1)),
        (dec(-18, 1), dec(0, 0)),
        (dec(0, 28), dec(0, 28)),
        (dec(max, 28), dec(0, 3)),
    ] {
        let p = a.checked_mul(b).unwrap();
        assert_eq!((p.mantissa(), p.scale()), (0, 0));
    }
}

#[test]
fn zero_divided_is_zero_of_scale_zero() {
    let max = (1i128 << 96) - 1;
    for (a, b) in [
        (dec(0, 5), dec(18, 1)),
        (dec(0, 0), dec(-2, 0)),
        (dec(0, 28), dec(max, 28)),
        (dec(0, 0), dec(1, 28)),
    ] {
        let q = a.checked_div(b).unwrap();
        assert_eq!((q.mantissa(), q.scale()), (0, 0));
    }
}

#[test]
fn product_overflow_is_none() {
    let max = (1i128 << 96) - 1;
    assert!(dec(max, 0).checked_mul(dec(2, 0)).is_none());
}

#[test]
fn quotient_is_that_of_rust_decimal() {
    let q = dec(36, 1).checked_div(dec(2, 0)).unwrap();
    assert_eq!(outside(q), Decimal::new(18, 1));
    let third = dec(1, 0).checked_div(dec(3, 0)).unwrap();
    assert_eq!(outside(third), Decimal::ONE / Decimal::from(3u32));
}

#[test]
fn quotient_by_zero_is_none() {
    assert!(dec(1, 0).checked_div(dec(0, 0)).is_none());
}

#[test]
fn sum_is_that_of_rust_decimal() {
    let s = dec(6, 1).checked_add(dec(3, 2)).unwrap();
    assert_eq!(outside(s), Decimal::new(63, 2));
}

#[test]
fn sum_overflow_is_none() {
    let max = (1i128 << 96) - 1;
    assert!(dec(max, 0).checked_add(dec(1, 0)).is_none());
}

#[test]
fn difference_is_that_of_rust_decimal() {
    let d = dec(18, 1).checked_sub(dec(6, 1)).unwrap();
    assert_eq!(outside(d), Decimal::new(12, 1));
}

#[test]
fn difference_overflow_is_none() {
    let max = (1i128 << 96) - 1;
    assert!(dec(-max, 0).checked_sub(dec(1, 0)).is_none());
}
