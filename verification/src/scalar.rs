//! Exact measurement scalars.
//!
//! Every user-entered calibration quantity is either a rational number or
//! `Missing`. Arithmetic is exact; a quotient with a zero divisor, an
//! operation on a missing operand, or a result that no `i64` pair can carry
//! propagates `Missing` instead of panicking or clamping.

use vstd::prelude::*;

verus! {

/// Holds when `x` is representable as an `i64`.
pub open spec fn fits_i64(x: int) -> bool {
    i64::MIN <= x <= i64::MAX
}

/// An exact rational number `num / den`. Well-formed values keep `den`
/// positive, so the sign of the value is the sign of `num`.
#[derive(Clone, Copy, PartialEq, Eq, Structural, Debug)]
pub struct Rat {
    pub num: i64,
    pub den: i64,
}

impl Rat {
    pub open spec fn wf(self) -> bool {
        self.den > 0
    }
}

/// A measurement scalar: a known rational value, or `Missing` where the user
/// has not entered the input or a derived metric has no defined value.
#[derive(Clone, Copy, PartialEq, Eq, Structural, Debug)]
pub enum Scalar {
    Missing,
    Val(Rat),
}

/// Exact product of two well-formed scalars; `Missing` when an operand is
/// missing or the exact numerator or denominator falls outside `i64`.
pub open spec fn s_mul(a: Scalar, b: Scalar) -> Scalar {
    match (a, b) {
        (Scalar::Val(x), Scalar::Val(y)) => {
            let n = (x.num as int) * (y.num as int);
            let d = (x.den as int) * (y.den as int);
            if fits_i64(n) && fits_i64(d) {
                Scalar::Val(Rat { num: n as i64, den: d as i64 })
            } else {
                Scalar::Missing
            }
        },
        _ => Scalar::Missing,
    }
}

/// Exact quotient `a / b`; `Missing` when an operand is missing, the divisor
/// is zero, or the exact result does not fit an `i64` pair. The result's
/// denominator is kept positive.
pub open spec fn s_div(a: Scalar, b: Scalar) -> Scalar {
    match (a, b) {
        (Scalar::Val(x), Scalar::Val(y)) => {
            if y.num == 0 {
                Scalar::Missing
            } else {
                let n0 = (x.num as int) * (y.den as int);
                let d0 = (x.den as int) * (y.num as int);
                let n = if d0 < 0 { -n0 } else { n0 };
                let d = if d0 < 0 { -d0 } else { d0 };
                if fits_i64(n) && fits_i64(d) {
                    Scalar::Val(Rat { num: n as i64, den: d as i64 })
                } else {
                    Scalar::Missing
                }
            }
        },
        _ => Scalar::Missing,
    }
}

/// Absolute value; `Missing` propagates, and the one unrepresentable case
/// (negating `i64::MIN`) yields `Missing`.
pub open spec fn s_abs(a: Scalar) -> Scalar {
    match a {
        Scalar::Val(x) => {
            let n = if x.num < 0 { -(x.num as int) } else { x.num as int };
            if fits_i64(n) {
                Scalar::Val(Rat { num: n as i64, den: x.den })
            } else {
                Scalar::Missing
            }
        },
        Scalar::Missing => Scalar::Missing,
    }
}

/// Value equality: two scalars denote the same quantity when both are missing
/// or both are rationals with equal cross products.
pub open spec fn s_same(a: Scalar, b: Scalar) -> bool {
    match (a, b) {
        (Scalar::Missing, Scalar::Missing) => true,
        (Scalar::Val(x), Scalar::Val(y)) => (x.num as int) * (y.den as int) == (y.num as int)
            * (x.den as int),
        _ => false,
    }
}

/// The product of two `i64` values always fits an `i128`.
proof fn lemma_i64_prod_fits_i128(x: int, y: int)
    requires
        fits_i64(x),
        fits_i64(y),
    ensures
        i128::MIN < x * y <= i128::MAX,
{
    assert(i128::MIN < x * y <= i128::MAX) by (nonlinear_arith)
        requires
            fits_i64(x),
            fits_i64(y),
    ;
}

/// Positive denominators multiply to a positive denominator.
proof fn lemma_pos_prod(x: int, y: int)
    requires
        x > 0,
        y > 0,
    ensures
        x * y > 0,
{
    assert(x * y > 0) by (nonlinear_arith)
        requires
            x > 0,
            y > 0,
    ;
}

impl Scalar {
    pub open spec fn wf(self) -> bool {
        match self {
            Scalar::Missing => true,
            Scalar::Val(r) => r.wf(),
        }
    }

    /// Builds the scalar `num / den` from a caller-chosen positive denominator.
    pub fn ratio(num: i64, den: i64) -> (r: Scalar)
        requires
            den > 0,
        ensures
            r == (Scalar::Val(Rat { num, den })),
            r.wf(),
    {
        Scalar::Val(Rat { num, den })
    }

    /// Builds the whole-number scalar `n`.
    pub fn from_int(n: i64) -> (r: Scalar)
        ensures
            r == (Scalar::Val(Rat { num: n, den: 1 })),
            r.wf(),
    {
        Scalar::Val(Rat { num: n, den: 1 })
    }

    /// True exactly on the `Missing` sentinel.
    pub fn is_missing(&self) -> (r: bool)
        ensures
            r == (*self matches Scalar::Missing),
    {
        matches!(*self, Scalar::Missing)
    }

    /// Exact multiplication.
    pub fn times(self, other: Scalar) -> (r: Scalar)
        requires
            self.wf(),
            other.wf(),
        ensures
            r == s_mul(self, other),
            r.wf(),
    {
        match (self, other) {
            (Scalar::Val(x), Scalar::Val(y)) => {
                match (x.num.checked_mul(y.num), x.den.checked_mul(y.den)) {
                    (Some(n), Some(d)) => {
                        proof {
                            lemma_pos_prod(x.den as int, y.den as int);
                        }
                        Scalar::Val(Rat { num: n, den: d })
                    },
                    _ => Scalar::Missing,
                }
            },
            _ => Scalar::Missing,
        }
    }

    /// Exact division; the divisor's sign moves into the numerator.
    pub fn over(self, other: Scalar) -> (r: Scalar)
        requires
            self.wf(),
            other.wf(),
        ensures
            r == s_div(self, other),
            r.wf(),
    {
        match (self, other) {
            (Scalar::Val(x), Scalar::Val(y)) => {
                if y.num == 0 {
                    Scalar::Missing
                } else {
                    proof {
                        lemma_i64_prod_fits_i128(x.num as int, y.den as int);
                        lemma_i64_prod_fits_i128(x.den as int, y.num as int);
                    }
                    let n0: i128 = (x.num as i128) * (y.den as i128);
                    let d0: i128 = (x.den as i128) * (y.num as i128);
                    let n: i128 = if d0 < 0 {
                        -n0
                    } else {
                        n0
                    };
                    let d: i128 = if d0 < 0 {
                        -d0
                    } else {
                        d0
                    };
                    if i64::MIN as i128 <= n && n <= i64::MAX as i128 && i64::MIN as i128 <= d && d
                        <= i64::MAX as i128 {
                        proof {
                            assert((x.den as int) * (y.num as int) != 0) by (nonlinear_arith)
                                requires
                                    x.den > 0,
                                    y.num != 0,
                            ;
                        }
                        Scalar::Val(Rat { num: n as i64, den: d as i64 })
                    } else {
                        Scalar::Missing
                    }
                }
            },
            _ => Scalar::Missing,
        }
    }

    /// Exact absolute value.
    pub fn magnitude(self) -> (r: Scalar)
        requires
            self.wf(),
        ensures
            r == s_abs(self),
            r.wf(),
    {
        match self {
            Scalar::Val(x) => {
                if x.num == i64::MIN {
                    Scalar::Missing
                } else {
                    let n: i64 = if x.num < 0 {
                        -x.num
                    } else {
                        x.num
                    };
                    Scalar::Val(Rat { num: n, den: x.den })
                }
            },
            Scalar::Missing => Scalar::Missing,
        }
    }

    /// Decides whether two scalars denote the same quantity.
    pub fn same_value(self, other: Scalar) -> (r: bool)
        requires
            self.wf(),
            other.wf(),
        ensures
            r == s_same(self, other),
    {
        match (self, other) {
            (Scalar::Missing, Scalar::Missing) => true,
            (Scalar::Val(x), Scalar::Val(y)) => {
                proof {
                    lemma_i64_prod_fits_i128(x.num as int, y.den as int);
                    lemma_i64_prod_fits_i128(y.num as int, x.den as int);
                }
                (x.num as i128) * (y.den as i128) == (y.num as i128) * (x.den as i128)
            },
            _ => false,
        }
    }
}

} // verus!
