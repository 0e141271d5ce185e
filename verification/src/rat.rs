//! Exact rational arithmetic.
//!
//! Every quantity the physics core manipulates (states, normals, fluxes,
//! step sizes) is a rational `num / den` with a positive denominator held in
//! `i64` fields. The specification level works on unbounded integer pairs
//! `(int, int)`, so the mathematical laws are stated without any overflow
//! side conditions; the executable operations compute the exact result in
//! `i128` and report, via `Option`, exactly when it fits back into `i64`.

use vstd::prelude::*;

verus! {

/// Largest magnitude a stored numerator or denominator may have. The bound
/// is symmetric (it excludes `i64::MIN`) so that negation and absolute value
/// are total.
pub open spec fn in_i64(x: int) -> bool {
    -0x7fff_ffff_ffff_ffff <= x <= 0x7fff_ffff_ffff_ffff
}

/// An unbounded rational, as a numerator/denominator pair.
pub open spec fn rwf(a: (int, int)) -> bool {
    a.1 > 0
}

/// Whether an exact pair fits into the stored `i64` representation.
pub open spec fn fits(a: (int, int)) -> bool {
    in_i64(a.0) && 0 < a.1 <= 0x7fff_ffff_ffff_ffff
}

/// Value equality of two pairs with positive denominators.
pub open spec fn r_eq(a: (int, int), b: (int, int)) -> bool {
    a.0 * b.1 == b.0 * a.1
}

/// `a <= b` as rational values; meaningful when both denominators are positive.
pub open spec fn r_le(a: (int, int), b: (int, int)) -> bool {
    a.0 * b.1 <= b.0 * a.1
}

/// `a < b` as rational values; meaningful when both denominators are positive.
pub open spec fn r_lt(a: (int, int), b: (int, int)) -> bool {
    a.0 * b.1 < b.0 * a.1
}

pub open spec fn r_add(a: (int, int), b: (int, int)) -> (int, int) {
    (a.0 * b.1 + b.0 * a.1, a.1 * b.1)
}

pub open spec fn r_sub(a: (int, int), b: (int, int)) -> (int, int) {
    (a.0 * b.1 - b.0 * a.1, a.1 * b.1)
}

pub open spec fn r_mul(a: (int, int), b: (int, int)) -> (int, int) {
    (a.0 * b.0, a.1 * b.1)
}

pub open spec fn r_neg(a: (int, int)) -> (int, int) {
    (-a.0, a.1)
}

pub open spec fn r_abs(a: (int, int)) -> (int, int) {
    (if a.0 < 0 { -a.0 } else { a.0 }, a.1)
}

/// Exact multiplication by one half.
pub open spec fn r_half(a: (int, int)) -> (int, int) {
    (a.0, 2 * a.1)
}

/// Exact division; meaningful when `b.0 != 0`. The sign is moved into the
/// numerator so the result keeps a positive denominator.
pub open spec fn r_div(a: (int, int), b: (int, int)) -> (int, int) {
    if b.0 >= 0 {
        (a.0 * b.1, a.1 * b.0)
    } else {
        (-(a.0 * b.1), -(a.1 * b.0))
    }
}

/// The smaller of two rationals; on equal values it keeps the left argument.
pub open spec fn r_min(a: (int, int), b: (int, int)) -> (int, int) {
    if r_le(a, b) {
        a
    } else {
        b
    }
}

/// The larger of two rationals; on equal values it keeps the left argument.
pub open spec fn r_max(a: (int, int), b: (int, int)) -> (int, int) {
    if r_le(b, a) {
        a
    } else {
        b
    }
}

pub proof fn lemma_mul_bounds(x: int, y: int, b: int) by (nonlinear_arith)
    requires
        -b <= x <= b,
        -b <= y <= b,
        0 <= b,
    ensures
        -(b * b) <= x * y <= b * b,
{
}

pub proof fn lemma_mul_pos(x: int, y: int) by (nonlinear_arith)
    requires
        x > 0,
        y > 0,
    ensures
        x * y > 0,
{
}

pub proof fn lemma_mul_neg(x: int, y: int) by (nonlinear_arith)
    ensures
        x * (-y) == -(x * y),
        (-x) * y == -(x * y),
{
}

/// A rational number `num / den`, `den > 0`, both fields within the
/// symmetric `i64` range.
#[derive(Clone, Copy, Debug, PartialEq, Eq, Structural)]
pub struct Rat {
    pub num: i64,
    pub den: i64,
}

impl Rat {
    /// The pair of integers this rational stores.
    pub open spec fn v(self) -> (int, int) {
        (self.num as int, self.den as int)
    }

    /// Well-formed: positive denominator, numerator negatable without
    /// overflow.
    pub open spec fn wf(self) -> bool {
        self.den > 0 && self.num > i64::MIN
    }

    /// Builds `num / den`; `None` exactly when the denominator is not
    /// positive or the numerator is `i64::MIN`.
    pub fn new(num: i64, den: i64) -> (r: Option<Rat>)
        ensures
            (r is Some) <==> (den > 0 && num > i64::MIN),
            r matches Some(c) ==> c.wf() && c.v() == (num as int, den as int),
    {
        if den > 0 && num > i64::MIN {
            Some(Rat { num, den })
        } else {
            None
        }
    }

    /// The integer `n` as a rational.
    pub fn from_int(n: i64) -> (r: Option<Rat>)
        ensures
            (r is Some) <==> n > i64::MIN,
            r matches Some(c) ==> c.wf() && c.v() == (n as int, 1int),
    {
        if n > i64::MIN {
            Some(Rat { num: n, den: 1 })
        } else {
            None
        }
    }

    pub fn zero() -> (r: Rat)
        ensures
            r.wf(),
            r.v() == (0int, 1int),
    {
        Rat { num: 0, den: 1 }
    }

    pub fn one() -> (r: Rat)
        ensures
            r.wf(),
            r.v() == (1int, 1int),
    {
        Rat { num: 1, den: 1 }
    }

    /// Exact sum; `None` exactly when the unreduced result leaves the stored
    /// range.
    pub fn checked_add(&self, other: &Rat) -> (r: Option<Rat>)
        requires
            self.wf(),
            other.wf(),
        ensures
            (r is Some) <==> fits(r_add(self.v(), other.v())),
            r matches Some(c) ==> c.wf() && c.v() == r_add(self.v(), other.v()),
    {
        proof {
            lemma_mul_bounds(self.num as int, other.den as int, 0x7fff_ffff_ffff_ffff);
            lemma_mul_bounds(other.num as int, self.den as int, 0x7fff_ffff_ffff_ffff);
            lemma_mul_bounds(self.den as int, other.den as int, 0x7fff_ffff_ffff_ffff);
            lemma_mul_pos(self.den as int, other.den as int);
        }
        let n: i128 = (self.num as i128) * (other.den as i128)
            + (other.num as i128) * (self.den as i128);
        let d: i128 = (self.den as i128) * (other.den as i128);
        if -0x7fff_ffff_ffff_ffffi128 <= n && n <= 0x7fff_ffff_ffff_ffffi128
            && d <= 0x7fff_ffff_ffff_ffffi128 {
            Some(Rat { num: n as i64, den: d as i64 })
        } else {
            None
        }
    }

    /// Exact difference; `None` exactly when the unreduced result leaves the
    /// stored range.
    pub fn checked_sub(&self, other: &Rat) -> (r: Option<Rat>)
        requires
            self.wf(),
            other.wf(),
        ensures
            (r is Some) <==> fits(r_sub(self.v(), other.v())),
            r matches Some(c) ==> c.wf() && c.v() == r_sub(self.v(), other.v()),
    {
        proof {
            lemma_mul_bounds(self.num as int, other.den as int, 0x7fff_ffff_ffff_ffff);
            lemma_mul_bounds(other.num as int, self.den as int, 0x7fff_ffff_ffff_ffff);
            lemma_mul_bounds(self.den as int, other.den as int, 0x7fff_ffff_ffff_ffff);
            lemma_mul_pos(self.den as int, other.den as int);
        }
        let n: i128 = (self.num as i128) * (other.den as i128)
            - (other.num as i128) * (self.den as i128);
        let d: i128 = (self.den as i128) * (other.den as i128);
        if -0x7fff_ffff_ffff_ffffi128 <= n && n <= 0x7fff_ffff_ffff_ffffi128
            && d <= 0x7fff_ffff_ffff_ffffi128 {
            Some(Rat { num: n as i64, den: d as i64 })
        } else {
            None
        }
    }

    /// Exact product; `None` exactly when the unreduced result leaves the
    /// stored range.
    pub fn checked_mul(&self, other: &Rat) -> (r: Option<Rat>)
        requires
            self.wf(),
            other.wf(),
        ensures
            (r is Some) <==> fits(r_mul(self.v(), other.v())),
            r matches Some(c) ==> c.wf() && c.v() == r_mul(self.v(), other.v()),
    {
        proof {
            lemma_mul_bounds(self.num as int, other.num as int, 0x7fff_ffff_ffff_ffff);
            lemma_mul_bounds(self.den as int, other.den as int, 0x7fff_ffff_ffff_ffff);
            lemma_mul_pos(self.den as int, other.den as int);
        }
        let n: i128 = (self.num as i128) * (other.num as i128);
        let d: i128 = (self.den as i128) * (other.den as i128);
        if -0x7fff_ffff_ffff_ffffi128 <= n && n <= 0x7fff_ffff_ffff_ffffi128
            && d <= 0x7fff_ffff_ffff_ffffi128 {
            Some(Rat { num: n as i64, den: d as i64 })
        } else {
            None
        }
    }

    /// Exact quotient; `None` exactly when the divisor is zero or the
    /// unreduced result leaves the stored range.
    pub fn checked_div(&self, other: &Rat) -> (r: Option<Rat>)
        requires
            self.wf(),
            other.wf(),
        ensures
            (r is Some) <==> (other.v().0 != 0 && fits(r_div(self.v(), other.v()))),
            r matches Some(c) ==> c.wf() && c.v() == r_div(self.v(), other.v()),
    {
        proof {
            lemma_mul_bounds(self.num as int, other.den as int, 0x7fff_ffff_ffff_ffff);
            lemma_mul_bounds(self.den as int, other.num as int, 0x7fff_ffff_ffff_ffff);
        }
        if other.num == 0 {
            return None;
        }
        let n0: i128 = (self.num as i128) * (other.den as i128);
        let d0: i128 = (self.den as i128) * (other.num as i128);
        let (n, d): (i128, i128) = if other.num > 0 { (n0, d0) } else { (-n0, -d0) };
        proof {
            if other.num > 0 {
                lemma_mul_pos(self.den as int, other.num as int);
            } else {
                lemma_mul_pos(self.den as int, -(other.num as int));
                lemma_mul_neg(self.den as int, other.num as int);
            }
        }
        if -0x7fff_ffff_ffff_ffffi128 <= n && n <= 0x7fff_ffff_ffff_ffffi128
            && d <= 0x7fff_ffff_ffff_ffffi128 {
            Some(Rat { num: n as i64, den: d as i64 })
        } else {
            None
        }
    }

    /// Exact half of the value; `None` exactly when doubling the
    /// denominator leaves the stored range.
    pub fn checked_half(&self) -> (r: Option<Rat>)
        requires
            self.wf(),
        ensures
            (r is Some) <==> fits(r_half(self.v())),
            r matches Some(c) ==> c.wf() && c.v() == r_half(self.v()),
    {
        let d: i128 = 2 * (self.den as i128);
        if d <= 0x7fff_ffff_ffff_ffffi128 {
            Some(Rat { num: self.num, den: d as i64 })
        } else {
            None
        }
    }

    /// Exact negation; total on well-formed rationals.
    pub fn neg(&self) -> (r: Rat)
        requires
            self.wf(),
        ensures
            r.wf(),
            r.v() == r_neg(self.v()),
    {
        Rat { num: -self.num, den: self.den }
    }

    /// Exact absolute value; total on well-formed rationals.
    pub fn abs(&self) -> (r: Rat)
        requires
            self.wf(),
        ensures
            r.wf(),
            r.v() == r_abs(self.v()),
    {
        if self.num < 0 {
            Rat { num: -self.num, den: self.den }
        } else {
            *self
        }
    }

    /// Total order on values: `self <= other`.
    pub fn le(&self, other: &Rat) -> (r: bool)
        requires
            self.wf(),
            other.wf(),
        ensures
            r == r_le(self.v(), other.v()),
    {
        proof {
            lemma_mul_bounds(self.num as int, other.den as int, 0x7fff_ffff_ffff_ffff);
            lemma_mul_bounds(other.num as int, self.den as int, 0x7fff_ffff_ffff_ffff);
        }
        (self.num as i128) * (other.den as i128) <= (other.num as i128) * (self.den as i128)
    }

    /// Strict order on values: `self < other`.
    pub fn lt(&self, other: &Rat) -> (r: bool)
        requires
            self.wf(),
            other.wf(),
        ensures
            r == r_lt(self.v(), other.v()),
    {
        proof {
            lemma_mul_bounds(self.num as int, other.den as int, 0x7fff_ffff_ffff_ffff);
            lemma_mul_bounds(other.num as int, self.den as int, 0x7fff_ffff_ffff_ffff);
        }
        (self.num as i128) * (other.den as i128) < (other.num as i128) * (self.den as i128)
    }

    /// Value equality (`1/2` equals `2/4`); distinct from `==`, which
    /// compares the stored fields.
    pub fn eq_val(&self, other: &Rat) -> (r: bool)
        requires
            self.wf(),
            other.wf(),
        ensures
            r == r_eq(self.v(), other.v()),
    {
        proof {
            lemma_mul_bounds(self.num as int, other.den as int, 0x7fff_ffff_ffff_ffff);
            lemma_mul_bounds(other.num as int, self.den as int, 0x7fff_ffff_ffff_ffff);
        }
        (self.num as i128) * (other.den as i128) == (other.num as i128) * (self.den as i128)
    }

    /// The smaller value of the two; on equal values, `self`.
    pub fn min_val(&self, other: &Rat) -> (r: Rat)
        requires
            self.wf(),
            other.wf(),
        ensures
            r.wf(),
            r.v() == r_min(self.v(), other.v()),
    {
        if self.le(other) {
            *self
        } else {
            *other
        }
    }

    /// The larger value of the two; on equal values, `self`.
    pub fn max_val(&self, other: &Rat) -> (r: Rat)
        requires
            self.wf(),
            other.wf(),
        ensures
            r.wf(),
            r.v() == r_max(self.v(), other.v()),
    {
        if other.le(self) {
            *self
        } else {
            *other
        }
    }
}

} // verus!
