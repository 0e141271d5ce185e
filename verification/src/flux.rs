//! Rusanov (local Lax-Friedrichs) flux model for the two-component Burgers
//! system.
//!
//! The physical flux of a state `x = (u, v)` through a face with normal
//! `n = (nx, ny)` is `(u*un/2, v*un/2)` with `un = u*nx + v*ny`. The
//! numerical flux blends the physical fluxes of the two adjacent states with
//! a dissipation term scaled by a wave-speed coefficient `lambda`:
//! `0.5*(F(xi,n) + F(xj,n)) - 0.5*lambda*(xj - xi)`.
//!
//! The wave speed is `0.5 * ||x||`, a deliberate modelling choice of this
//! test case that is not independently confirmed; contracts and tests state
//! exactly this formula. It is irrational, so the caller computes the
//! square root and passes the coefficient in. Everything rational is exact
//! here: the square of the wave speed, the comparison of two wave speeds,
//! and both flux formulas for an arbitrary coefficient.

use vstd::prelude::*;
use crate::rat::{Rat, rwf, fits, r_eq, r_le, r_add, r_sub, r_mul, r_neg, r_half, r_div};
use crate::vec2::{Vec2r, v2wf, v2fits, v2_eq, v2_add, v2_sub, v2_scale, v2_neg, v2_half};

verus! {

/// Dot product `x . n`.
pub open spec fn s_dot(x: ((int, int), (int, int)), n: ((int, int), (int, int))) -> (int, int) {
    r_add(r_mul(x.0, n.0), r_mul(x.1, n.1))
}

pub open spec fn dot_fits(x: ((int, int), (int, int)), n: ((int, int), (int, int))) -> bool {
    &&& fits(r_mul(x.0, n.0))
    &&& fits(r_mul(x.1, n.1))
    &&& fits(s_dot(x, n))
}

/// Physical flux `(u*un/2, v*un/2)` with `un = x . n`.
pub open spec fn s_phys_flux(x: ((int, int), (int, int)), n: ((int, int), (int, int))) -> ((int, int), (int, int)) {
    (r_half(r_mul(x.0, s_dot(x, n))), r_half(r_mul(x.1, s_dot(x, n))))
}

pub open spec fn phys_flux_fits(x: ((int, int), (int, int)), n: ((int, int), (int, int))) -> bool {
    &&& dot_fits(x, n)
    &&& fits(r_mul(x.0, s_dot(x, n)))
    &&& fits(r_half(r_mul(x.0, s_dot(x, n))))
    &&& fits(r_mul(x.1, s_dot(x, n)))
    &&& fits(r_half(r_mul(x.1, s_dot(x, n))))
}

/// Square of the wave speed `0.5 * ||x||`, i.e. `(u*u + v*v) / 4`.
pub open spec fn s_wave_speed_sq(x: ((int, int), (int, int))) -> (int, int) {
    r_mul(r_add(r_mul(x.0, x.0), r_mul(x.1, x.1)), (1int, 4int))
}

pub open spec fn wave_speed_sq_fits(x: ((int, int), (int, int))) -> bool {
    &&& fits(r_mul(x.0, x.0))
    &&& fits(r_mul(x.1, x.1))
    &&& fits(r_add(r_mul(x.0, x.0), r_mul(x.1, x.1)))
    &&& fits(s_wave_speed_sq(x))
}

/// Rusanov numerical flux with dissipation coefficient `lam`.
pub open spec fn s_num_flux(
    xi: ((int, int), (int, int)),
    xj: ((int, int), (int, int)),
    n: ((int, int), (int, int)),
    lam: (int, int),
) -> ((int, int), (int, int)) {
    v2_sub(
        v2_half(v2_add(s_phys_flux(xi, n), s_phys_flux(xj, n))),
        v2_scale(r_half(lam), v2_sub(xj, xi)),
    )
}

pub open spec fn num_flux_fits(
    xi: ((int, int), (int, int)),
    xj: ((int, int), (int, int)),
    n: ((int, int), (int, int)),
    lam: (int, int),
) -> bool {
    &&& phys_flux_fits(xi, n)
    &&& phys_flux_fits(xj, n)
    &&& v2fits(v2_add(s_phys_flux(xi, n), s_phys_flux(xj, n)))
    &&& v2fits(v2_half(v2_add(s_phys_flux(xi, n), s_phys_flux(xj, n))))
    &&& fits(r_half(lam))
    &&& v2fits(v2_sub(xj, xi))
    &&& v2fits(v2_scale(r_half(lam), v2_sub(xj, xi)))
    &&& v2fits(s_num_flux(xi, xj, n, lam))
}

/// Exact dot product; `None` exactly when an intermediate leaves the stored
/// range.
pub fn dot(x: &Vec2r, n: &Vec2r) -> (r: Option<Rat>)
    requires
        x.wf(),
        n.wf(),
    ensures
        (r is Some) <==> dot_fits(x.v(), n.v()),
        r matches Some(c) ==> c.wf() && c.v() == s_dot(x.v(), n.v()),
{
    let px = match x.x.checked_mul(&n.x) {
        Some(v) => v,
        None => { return None; },
    };
    let py = match x.y.checked_mul(&n.y) {
        Some(v) => v,
        None => { return None; },
    };
    px.checked_add(&py)
}

/// Physical flux of the state `x` through a face with normal `n`; `None`
/// exactly when an intermediate leaves the stored range.
pub fn physical_flux(x: &Vec2r, n: &Vec2r) -> (r: Option<Vec2r>)
    requires
        x.wf(),
        n.wf(),
    ensures
        (r is Some) <==> phys_flux_fits(x.v(), n.v()),
        r matches Some(f) ==> f.wf() && f.v() == s_phys_flux(x.v(), n.v()),
{
    let un = match dot(x, n) {
        Some(v) => v,
        None => { return None; },
    };
    let fx = match x.x.checked_mul(&un) {
        Some(v) => v,
        None => { return None; },
    };
    let fxh = match fx.checked_half() {
        Some(v) => v,
        None => { return None; },
    };
    let fy = match x.y.checked_mul(&un) {
        Some(v) => v,
        None => { return None; },
    };
    let fyh = match fy.checked_half() {
        Some(v) => v,
        None => { return None; },
    };
    Some(Vec2r { x: fxh, y: fyh })
}

/// Square of the wave speed `0.5 * ||x||`; `None` exactly when an
/// intermediate leaves the stored range. The formula is this test case's
/// deliberate, not independently confirmed, choice; only its square is
/// rational, so the square root (and hence the wave speed itself) is left
/// to the caller.
pub fn wave_speed_sq(x: &Vec2r) -> (r: Option<Rat>)
    requires
        x.wf(),
    ensures
        (r is Some) <==> wave_speed_sq_fits(x.v()),
        r matches Some(c) ==> c.wf() && c.v() == s_wave_speed_sq(x.v()),
{
    let uu = match x.x.checked_mul(&x.x) {
        Some(v) => v,
        None => { return None; },
    };
    let vv = match x.y.checked_mul(&x.y) {
        Some(v) => v,
        None => { return None; },
    };
    let s = match uu.checked_add(&vv) {
        Some(v) => v,
        None => { return None; },
    };
    s.checked_mul(&Rat { num: 1, den: 4 })
}

/// Rusanov numerical flux of two neighboring states through a face with
/// normal `n`, with dissipation coefficient `lambda` (the larger of the two
/// wave speeds, supplied by the caller); `None` exactly when an
/// intermediate leaves the stored range.
pub fn numerical_flux(xi: &Vec2r, xj: &Vec2r, n: &Vec2r, lambda: &Rat) -> (r: Option<Vec2r>)
    requires
        xi.wf(),
        xj.wf(),
        n.wf(),
        lambda.wf(),
    ensures
        (r is Some) <==> num_flux_fits(xi.v(), xj.v(), n.v(), lambda.v()),
        r matches Some(f) ==> f.wf() && f.v() == s_num_flux(xi.v(), xj.v(), n.v(), lambda.v()),
{
    let fi = match physical_flux(xi, n) {
        Some(v) => v,
        None => { return None; },
    };
    let fj = match physical_flux(xj, n) {
        Some(v) => v,
        None => { return None; },
    };
    let s = match fi.checked_add(&fj) {
        Some(v) => v,
        None => { return None; },
    };
    let avg = match s.checked_half() {
        Some(v) => v,
        None => { return None; },
    };
    let hl = match lambda.checked_half() {
        Some(v) => v,
        None => { return None; },
    };
    let jump = match xj.checked_sub(xi) {
        Some(v) => v,
        None => { return None; },
    };
    let diss = match jump.checked_scale(&hl) {
        Some(v) => v,
        None => { return None; },
    };
    avg.checked_sub(&diss)
}

/// A per-face or per-vertex stability bound on the step size: either a
/// finite bound or no constraint at all (the identity of the minimum
/// reduction, used when the local wave speed or source vanishes).
#[derive(Clone, Copy, Debug, PartialEq, Eq, Structural)]
pub enum StepBound {
    Unbounded,
    Bounded(Rat),
}

impl StepBound {
    pub open spec fn wf(self) -> bool {
        self matches StepBound::Bounded(c) ==> c.wf()
    }
}

/// CFL-type bound `h / lambda` for a face of characteristic length `h`,
/// where `lambda` is the larger of the two adjacent wave speeds. A zero
/// wave speed yields no constraint rather than a division by zero; `None`
/// exactly when the quotient leaves the stored range.
pub fn max_stable_step(lambda: &Rat, h: &Rat) -> (r: Option<StepBound>)
    requires
        lambda.wf(),
        h.wf(),
        r_le((0int, 1int), lambda.v()),
    ensures
        (r is Some) <==> (lambda.v().0 == 0 || fits(r_div(h.v(), lambda.v()))),
        lambda.v().0 == 0 ==> r == Some(StepBound::Unbounded),
        lambda.v().0 != 0 && r is Some ==> (r matches Some(StepBound::Bounded(c)) && c.wf()
            && c.v() == r_div(h.v(), lambda.v())),
{
    if lambda.num == 0 {
        Some(StepBound::Unbounded)
    } else {
        match h.checked_div(lambda) {
            Some(c) => Some(StepBound::Bounded(c)),
            None => None,
        }
    }
}

proof fn lemma_consist_comp(f: (int, int), l: (int, int), z: int) by (nonlinear_arith)
    ensures
        r_eq(r_sub(r_half(r_add(f, f)), r_mul(r_half(l), (0int, z))), f),
{
}

/// Law (consistency): for equal adjacent states the numerical flux equals
/// the physical flux, whatever the dissipation coefficient, since the state
/// jump vanishes.
pub proof fn lemma_flux_consistency(
    x: ((int, int), (int, int)),
    n: ((int, int), (int, int)),
    lam: (int, int),
)
    requires
        v2wf(x),
        v2wf(n),
        rwf(lam),
    ensures
        v2_eq(s_num_flux(x, x, n, lam), s_phys_flux(x, n)),
{
    let f = s_phys_flux(x, n);
    assert(v2_sub(x, x).0 == (0int, x.0.1 * x.0.1));
    assert(v2_sub(x, x).1 == (0int, x.1.1 * x.1.1));
    lemma_consist_comp(f.0, lam, x.0.1 * x.0.1);
    lemma_consist_comp(f.1, lam, x.1.1 * x.1.1);
}

proof fn lemma_mul_rneg_right(a: (int, int), b: (int, int)) by (nonlinear_arith)
    ensures
        r_mul(a, r_neg(b)) == r_neg(r_mul(a, b)),
{
}

proof fn lemma_add_rneg(a: (int, int), b: (int, int)) by (nonlinear_arith)
    ensures
        r_add(r_neg(a), r_neg(b)) == r_neg(r_add(a, b)),
{
}

proof fn lemma_add_comm(a: (int, int), b: (int, int)) by (nonlinear_arith)
    ensures
        r_add(a, b) == r_add(b, a),
{
}

proof fn lemma_sub_antisym(a: (int, int), b: (int, int)) by (nonlinear_arith)
    ensures
        r_sub(b, a) == r_neg(r_sub(a, b)),
{
}

proof fn lemma_sub_negs(a: (int, int), b: (int, int)) by (nonlinear_arith)
    ensures
        r_sub(r_neg(a), r_neg(b)) == r_neg(r_sub(a, b)),
{
}

/// Law (antisymmetry): swapping the two states and reversing the normal
/// negates the numerical flux, for every dissipation coefficient. The two
/// sides are equal as stored pairs, not merely as values.
pub proof fn lemma_flux_antisymmetry(
    xi: ((int, int), (int, int)),
    xj: ((int, int), (int, int)),
    n: ((int, int), (int, int)),
    lam: (int, int),
)
    ensures
        s_num_flux(xi, xj, n, lam) == v2_neg(s_num_flux(xj, xi, v2_neg(n), lam)),
{
    let nn = v2_neg(n);
    // The dot product flips sign with the normal.
    lemma_mul_rneg_right(xi.0, n.0);
    lemma_mul_rneg_right(xi.1, n.1);
    lemma_add_rneg(r_mul(xi.0, n.0), r_mul(xi.1, n.1));
    assert(s_dot(xi, nn) == r_neg(s_dot(xi, n)));
    lemma_mul_rneg_right(xj.0, n.0);
    lemma_mul_rneg_right(xj.1, n.1);
    lemma_add_rneg(r_mul(xj.0, n.0), r_mul(xj.1, n.1));
    assert(s_dot(xj, nn) == r_neg(s_dot(xj, n)));
    // So does the physical flux, componentwise.
    lemma_mul_rneg_right(xi.0, s_dot(xi, n));
    lemma_mul_rneg_right(xi.1, s_dot(xi, n));
    assert(s_phys_flux(xi, nn) == v2_neg(s_phys_flux(xi, n)));
    lemma_mul_rneg_right(xj.0, s_dot(xj, n));
    lemma_mul_rneg_right(xj.1, s_dot(xj, n));
    assert(s_phys_flux(xj, nn) == v2_neg(s_phys_flux(xj, n)));
    // The centered average flips sign; the two summands also trade places.
    let fi = s_phys_flux(xi, n);
    let fj = s_phys_flux(xj, n);
    lemma_add_rneg(fj.0, fi.0);
    lemma_add_rneg(fj.1, fi.1);
    lemma_add_comm(fj.0, fi.0);
    lemma_add_comm(fj.1, fi.1);
    assert(v2_half(v2_add(s_phys_flux(xj, nn), s_phys_flux(xi, nn)))
        == v2_neg(v2_half(v2_add(fi, fj))));
    // The state jump flips sign when the sides swap.
    lemma_sub_antisym(xj.0, xi.0);
    lemma_sub_antisym(xj.1, xi.1);
    assert(v2_sub(xi, xj) == v2_neg(v2_sub(xj, xi)));
    // Hence so does the dissipation term.
    lemma_mul_rneg_right(r_half(lam), v2_sub(xj, xi).0);
    lemma_mul_rneg_right(r_half(lam), v2_sub(xj, xi).1);
    assert(v2_scale(r_half(lam), v2_sub(xi, xj))
        == v2_neg(v2_scale(r_half(lam), v2_sub(xj, xi))));
    // And the difference of two negated terms is the negated difference.
    let avg = v2_half(v2_add(fi, fj));
    let diss = v2_scale(r_half(lam), v2_sub(xj, xi));
    lemma_sub_negs(avg.0, diss.0);
    lemma_sub_negs(avg.1, diss.1);
    assert(s_num_flux(xj, xi, nn, lam) == v2_neg(s_num_flux(xi, xj, n, lam)));
}

} // verus!
