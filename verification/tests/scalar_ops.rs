use mousecal::scalar::{Rat, Scalar};

fn val(num: i64, den: i64) -> Scalar {
    Scalar::ratio(num, den)
}

#[test]
fn scalar_times_exact() {
    let r = val(3, 2).times(val(5, 4));
    assert_eq!(r, Scalar::Val(Rat { num: 15, den: 8 }));
}

#[test]
fn scalar_times_missing_operand() {
    assert!(Scalar::Missing.times(val(1, 1)).is_missing());
    assert!(val(1, 1).times(Scalar::Missing).is_missing());
    assert!(Scalar::Missing.times(Scalar::Missing).is_missing());
}

#[test]
fn scalar_times_overflow_is_missing() {
    let big = val(i64::MAX, 1);
    assert!(big.times(val(2, 1)).is_missing());
    assert!(val(1, i64::MAX).times(val(1, 3)).is_missing());
}

#[test]
fn scalar_over_exact() {
    let r = val(3, 2).over(val(5, 4));
    assert_eq!(r, Scalar::Val(Rat { num: 12, den: 10 }));
    assert!(r.same_value(val(6, 5)));
}

#[test]
fn scalar_over_zero_divisor_is_missing() {
    assert!(val(3, 2).over(val(0, 7)).is_missing());
    assert!(val(0, 1).over(val(0, 1)).is_missing());
}

#[test]
fn scalar_over_negative_divisor_keeps_denominator_positive() {
    let r = val(3, 2).over(val(-5, 4));
    match r {
        Scalar::Val(rat) => {
            assert!(rat.den > 0);
            assert_eq!(rat, Rat { num: -12, den: 10 });
        }
        Scalar::Missing => panic!("quotient should exist"),
    }
    assert!(r.same_value(val(-6, 5)));
}

#[test]
fn scalar_over_missing_operand() {
    assert!(Scalar::Missing.over(val(1, 1)).is_missing());
    assert!(val(1, 1).over(Scalar::Missing).is_missing());
}

#[test]
fn scalar_magnitude() {
    assert_eq!(val(-7, 3).magnitude(), val(7, 3));
    assert_eq!(val(7, 3).magnitude(), val(7, 3));
    assert_eq!(val(0, 1).magnitude(), val(0, 1));
    assert!(Scalar::Missing.magnitude().is_missing());
    assert!(val(i64::MIN, 1).magnitude().is_missing());
}

#[test]
fn scalar_same_value_cross_representation() {
    assert!(val(1, 2).same_value(val(2, 4)));
    assert!(!val(1, 2).same_value(val(2, 3)));
    assert!(Scalar::Missing.same_value(Scalar::Missing));
    assert!(!Scalar::Missing.same_value(val(0, 1)));
}

#[test]
fn scalar_constructors() {
    assert_eq!(Scalar::from_int(-4), Scalar::Val(Rat { num: -4, den: 1 }));
    assert_eq!(val(9, 5), Scalar::Val(Rat { num: 9, den: 5 }));
    assert!(!val(9, 5).is_missing());
}
