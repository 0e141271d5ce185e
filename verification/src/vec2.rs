//! Two-component vectors of rationals: mesh-vertex states, face normals and
//! flux vectors.

use vstd::prelude::*;
use crate::rat::{Rat, rwf, fits, r_eq, r_add, r_sub, r_mul, r_neg, r_half};

verus! {

pub open spec fn v2wf(a: ((int, int), (int, int))) -> bool {
    rwf(a.0) && rwf(a.1)
}

pub open spec fn v2fits(a: ((int, int), (int, int))) -> bool {
    fits(a.0) && fits(a.1)
}

/// Componentwise value equality.
pub open spec fn v2_eq(a: ((int, int), (int, int)), b: ((int, int), (int, int))) -> bool {
    r_eq(a.0, b.0) && r_eq(a.1, b.1)
}

pub open spec fn v2_add(a: ((int, int), (int, int)), b: ((int, int), (int, int))) -> ((int, int), (int, int)) {
    (r_add(a.0, b.0), r_add(a.1, b.1))
}

pub open spec fn v2_sub(a: ((int, int), (int, int)), b: ((int, int), (int, int))) -> ((int, int), (int, int)) {
    (r_sub(a.0, b.0), r_sub(a.1, b.1))
}

/// Componentwise scaling by the rational `s`.
pub open spec fn v2_scale(s: (int, int), a: ((int, int), (int, int))) -> ((int, int), (int, int)) {
    (r_mul(s, a.0), r_mul(s, a.1))
}

pub open spec fn v2_neg(a: ((int, int), (int, int))) -> ((int, int), (int, int)) {
    (r_neg(a.0), r_neg(a.1))
}

pub open spec fn v2_half(a: ((int, int), (int, int))) -> ((int, int), (int, int)) {
    (r_half(a.0), r_half(a.1))
}

/// A two-component vector of rationals.
#[derive(Clone, Copy, Debug, PartialEq, Eq, Structural)]
pub struct Vec2r {
    pub x: Rat,
    pub y: Rat,
}

impl Vec2r {
    pub open spec fn v(self) -> ((int, int), (int, int)) {
        (self.x.v(), self.y.v())
    }

    pub open spec fn wf(self) -> bool {
        self.x.wf() && self.y.wf()
    }

    pub fn new(x: Rat, y: Rat) -> (r: Vec2r)
        ensures
            r.x == x,
            r.y == y,
    {
        Vec2r { x, y }
    }

    /// The zero vector.
    pub fn zero() -> (r: Vec2r)
        ensures
            r.wf(),
            r.v() == (((0int, 1int), (0int, 1int))),
    {
        Vec2r { x: Rat::zero(), y: Rat::zero() }
    }

    /// Componentwise exact sum; `None` exactly when a component leaves the
    /// stored range.
    pub fn checked_add(&self, other: &Vec2r) -> (r: Option<Vec2r>)
        requires
            self.wf(),
            other.wf(),
        ensures
            (r is Some) <==> v2fits(v2_add(self.v(), other.v())),
            r matches Some(c) ==> c.wf() && c.v() == v2_add(self.v(), other.v()),
    {
        match (self.x.checked_add(&other.x), self.y.checked_add(&other.y)) {
            (Some(x), Some(y)) => Some(Vec2r { x, y }),
            _ => None,
        }
    }

    /// Componentwise exact difference; `None` exactly when a component
    /// leaves the stored range.
    pub fn checked_sub(&self, other: &Vec2r) -> (r: Option<Vec2r>)
        requires
            self.wf(),
            other.wf(),
        ensures
            (r is Some) <==> v2fits(v2_sub(self.v(), other.v())),
            r matches Some(c) ==> c.wf() && c.v() == v2_sub(self.v(), other.v()),
    {
        match (self.x.checked_sub(&other.x), self.y.checked_sub(&other.y)) {
            (Some(x), Some(y)) => Some(Vec2r { x, y }),
            _ => None,
        }
    }

    /// Componentwise exact scaling; `None` exactly when a component leaves
    /// the stored range.
    pub fn checked_scale(&self, s: &Rat) -> (r: Option<Vec2r>)
        requires
            self.wf(),
            s.wf(),
        ensures
            (r is Some) <==> v2fits(v2_scale(s.v(), self.v())),
            r matches Some(c) ==> c.wf() && c.v() == v2_scale(s.v(), self.v()),
    {
        match (s.checked_mul(&self.x), s.checked_mul(&self.y)) {
            (Some(x), Some(y)) => Some(Vec2r { x, y }),
            _ => None,
        }
    }

    /// Componentwise exact half; `None` exactly when a component leaves the
    /// stored range.
    pub fn checked_half(&self) -> (r: Option<Vec2r>)
        requires
            self.wf(),
        ensures
            (r is Some) <==> v2fits(v2_half(self.v())),
            r matches Some(c) ==> c.wf() && c.v() == v2_half(self.v()),
    {
        match (self.x.checked_half(), self.y.checked_half()) {
            (Some(x), Some(y)) => Some(Vec2r { x, y }),
            _ => None,
        }
    }

    /// Componentwise exact negation; total on well-formed vectors.
    pub fn neg(&self) -> (r: Vec2r)
        requires
            self.wf(),
        ensures
            r.wf(),
            r.v() == v2_neg(self.v()),
    {
        Vec2r { x: self.x.neg(), y: self.y.neg() }
    }
}

/// A 2x2 matrix of rationals. It appears only in the signatures of the
/// linearization entry points, none of which the explicit-only model
/// offers.
#[derive(Clone, Copy, Debug, PartialEq, Eq, Structural)]
pub struct Mat2r {
    pub xx: Rat,
    pub xy: Rat,
    pub yx: Rat,
    pub yy: Rat,
}

} // verus!
