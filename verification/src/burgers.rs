//! The Burgers test case: boundary-condition policy, source model and the
//! two `mu` coefficients fixed at construction.
//!
//! `mu[0]` is the prescribed inflow value, `mu[1]` the growth rate of the
//! exponential source. The source term is `(0.02 * exp(mu[1] * px), 0)` at
//! a vertex with x-coordinate `px`; the exponential is irrational, so the
//! caller evaluates it and passes the value in, and every contract here
//! holds for whatever value was passed.

use vstd::prelude::*;
use crate::rat::{Rat, fits, r_le, r_lt, r_mul, r_abs, r_div};
use crate::vec2::{Vec2r, Mat2r};
use crate::flux::{s_dot, dot_fits, s_phys_flux, phys_flux_fits, dot, physical_flux, StepBound};

verus! {

/// Everything a caller may ask of the model that is deliberately not
/// offered, or refused at run time.
#[derive(Clone, Copy, Debug, PartialEq, Eq, Structural)]
pub enum ModelError {
    /// A Jacobian / linearization entry point was invoked; the model is
    /// explicit-only and offers no linearization.
    NotImplemented,
    /// The fixed time-step policy was asked to take a step that differs
    /// from its configured constant by more than the tolerance.
    StepMismatch,
}

/// The four boundary tags of the test case, in the engine's numbering
/// `{1: ymin, 2: xmax, 3: ymax, 4: xmin}`.
#[derive(Clone, Copy, Debug, PartialEq, Eq, Structural)]
pub enum BoundaryTag {
    Ymin,
    Xmax,
    Ymax,
    Xmin,
}

/// The engine's numeric tag for each boundary name.
pub open spec fn s_tag_of_id(id: u32) -> Option<BoundaryTag> {
    if id == 1 {
        Some(BoundaryTag::Ymin)
    } else if id == 2 {
        Some(BoundaryTag::Xmax)
    } else if id == 3 {
        Some(BoundaryTag::Ymax)
    } else if id == 4 {
        Some(BoundaryTag::Xmin)
    } else {
        None
    }
}

/// Maps the engine's numeric tag to a boundary name; `None` exactly on the
/// tags this test case does not use.
pub fn tag_from_id(id: u32) -> (r: Option<BoundaryTag>)
    ensures
        r == s_tag_of_id(id),
{
    if id == 1 {
        Some(BoundaryTag::Ymin)
    } else if id == 2 {
        Some(BoundaryTag::Xmax)
    } else if id == 3 {
        Some(BoundaryTag::Ymax)
    } else if id == 4 {
        Some(BoundaryTag::Xmin)
    } else {
        None
    }
}

/// Ghost state prescribed for an inflow face: a wall (zero state) on
/// `ymin`, the configured inflow value on `xmax`, extrapolation of the
/// interior state elsewhere.
pub open spec fn s_ext_state(
    tag: BoundaryTag,
    mu0: (int, int),
    xi: ((int, int), (int, int)),
) -> ((int, int), (int, int)) {
    match tag {
        BoundaryTag::Ymin => (((0int, 1int), (0int, 1int))),
        BoundaryTag::Xmax => ((mu0, (0int, 1int))),
        _ => xi,
    }
}

/// Resolved exterior state of a boundary face: the tag's ghost state when
/// flow enters through the face (`xi . n < 0`), the interior state itself
/// when flow leaves.
pub open spec fn s_ghost_state(
    tag: BoundaryTag,
    mu0: (int, int),
    xi: ((int, int), (int, int)),
    n: ((int, int), (int, int)),
) -> ((int, int), (int, int)) {
    if r_lt(s_dot(xi, n), (0int, 1int)) {
        s_ext_state(tag, mu0, xi)
    } else {
        xi
    }
}

/// Boundary flux: the one-sided physical flux of the resolved exterior
/// state (deliberately not the two-sided Rusanov flux).
pub open spec fn s_boundary_flux(
    tag: BoundaryTag,
    mu0: (int, int),
    xi: ((int, int), (int, int)),
    n: ((int, int), (int, int)),
) -> ((int, int), (int, int)) {
    s_phys_flux(s_ghost_state(tag, mu0, xi, n), n)
}

/// The physics-specific core the finite-volume engine consumes: the two
/// `mu` coefficients, immutable for the lifetime of a run.
#[derive(Clone, Copy, Debug, PartialEq, Eq, Structural)]
pub struct BurgersTestCase {
    /// Prescribed inflow value on the `xmax` boundary.
    pub mu0: Rat,
    /// Growth rate of the exponential source term.
    pub mu1: Rat,
}

impl BurgersTestCase {
    pub open spec fn wf(self) -> bool {
        self.mu0.wf() && self.mu1.wf()
    }

    pub fn new(mu0: Rat, mu1: Rat) -> (r: BurgersTestCase)
        ensures
            r.mu0 == mu0,
            r.mu1 == mu1,
    {
        BurgersTestCase { mu0, mu1 }
    }

    /// Uniform initial condition `(1, 1)` at every vertex.
    pub fn initial(&self, n_verts: usize) -> (r: Vec<Vec2r>)
        ensures
            r@.len() == n_verts as int,
            forall|i: int| 0 <= i < r@.len() ==> (#[trigger] r@[i]).wf()
                && r@[i].v() == (((1int, 1int), (1int, 1int))),
    {
        let mut out: Vec<Vec2r> = Vec::new();
        let mut i: usize = 0;
        while i < n_verts
            invariant
                i <= n_verts,
                out@.len() == i as int,
                forall|k: int| 0 <= k < out@.len() ==> (#[trigger] out@[k]).wf()
                    && out@[k].v() == (((1int, 1int), (1int, 1int))),
            decreases n_verts - i,
        {
            out.push(Vec2r { x: Rat::one(), y: Rat::one() });
            i = i + 1;
        }
        out
    }

    /// The model is convective: the engine must assemble interior fluxes.
    pub fn has_convective(&self) -> (r: bool)
        ensures
            r == true,
    {
        true
    }

    /// Ghost state for an inflow face, by tag.
    pub fn ext_state(&self, tag: BoundaryTag, u: &Vec2r) -> (r: Vec2r)
        requires
            self.wf(),
            u.wf(),
        ensures
            r.wf(),
            r.v() == s_ext_state(tag, self.mu0.v(), u.v()),
    {
        match tag {
            BoundaryTag::Ymin => Vec2r { x: Rat::zero(), y: Rat::zero() },
            BoundaryTag::Xmax => Vec2r { x: self.mu0, y: Rat::zero() },
            _ => *u,
        }
    }

    /// Boundary flux of an interior state `xi` through a boundary face with
    /// outward normal `n` and tag `tag`; `None` exactly when an
    /// intermediate leaves the stored range.
    pub fn boundary_flux(&self, xi: &Vec2r, tag: BoundaryTag, n: &Vec2r) -> (r: Option<Vec2r>)
        requires
            self.wf(),
            xi.wf(),
            n.wf(),
        ensures
            (r is Some) <==> (dot_fits(xi.v(), n.v())
                && phys_flux_fits(s_ghost_state(tag, self.mu0.v(), xi.v(), n.v()), n.v())),
            r matches Some(f) ==> f.wf()
                && f.v() == s_boundary_flux(tag, self.mu0.v(), xi.v(), n.v()),
    {
        let d = match dot(xi, n) {
            Some(v) => v,
            None => { return None; },
        };
        let zero = Rat::zero();
        let resolved = if d.lt(&zero) {
            self.ext_state(tag, xi)
        } else {
            *xi
        };
        physical_flux(&resolved, n)
    }

    /// The model always carries a source term.
    pub fn has_source(&self) -> (r: bool)
        ensures
            r == true,
    {
        true
    }

    /// Argument of the source exponential at a vertex with x-coordinate
    /// `px`, i.e. `mu[1] * px`; `None` exactly when the product leaves the
    /// stored range. The caller exponentiates this and hands the value to
    /// `source_from_exp`.
    pub fn growth_arg(&self, px: &Rat) -> (r: Option<Rat>)
        requires
            self.wf(),
            px.wf(),
        ensures
            (r is Some) <==> fits(r_mul(self.mu1.v(), px.v())),
            r matches Some(c) ==> c.wf() && c.v() == r_mul(self.mu1.v(), px.v()),
    {
        self.mu1.checked_mul(px)
    }

    /// Source term `(0.02 * e, 0)` where `e` is the value of the source
    /// exponential at the vertex; `None` exactly when the product leaves
    /// the stored range. Holds for every `e` the caller supplies.
    pub fn source_from_exp(&self, e: &Rat) -> (r: Option<Vec2r>)
        requires
            e.wf(),
        ensures
            (r is Some) <==> fits(r_mul((1int, 50int), e.v())),
            r matches Some(s) ==> s.wf()
                && s.v() == ((r_mul((1int, 50int), e.v()), (0int, 1int))),
    {
        let c = Rat { num: 1, den: 50 };
        match c.checked_mul(e) {
            Some(sx) => Some(Vec2r { x: sx, y: Rat::zero() }),
            None => None,
        }
    }

    /// Per-vertex stability bound `1 / |0.02 * e|` of the source term,
    /// equal in value to `50 / |e|`. A zero source yields no constraint
    /// rather than a division by zero; `None` exactly when the quotient
    /// leaves the stored range.
    pub fn source_stable_step(&self, e: &Rat) -> (r: Option<StepBound>)
        requires
            e.wf(),
        ensures
            e.v().0 == 0 ==> r == Some(StepBound::Unbounded),
            e.v().0 != 0 ==> ((r is Some) <==> fits(r_div((50int, 1int), r_abs(e.v())))),
            e.v().0 != 0 && r is Some ==> (r matches Some(StepBound::Bounded(c)) && c.wf()
                && c.v() == r_div((50int, 1int), r_abs(e.v()))),
    {
        if e.num == 0 {
            return Some(StepBound::Unbounded);
        }
        let fifty = Rat { num: 50, den: 1 };
        let mag = e.abs();
        match fifty.checked_div(&mag) {
            Some(c) => Some(StepBound::Bounded(c)),
            None => None,
        }
    }

    /// Directional Jacobian of the physical flux: not offered, the model is
    /// explicit-only.
    pub fn df(&self, _x: &Vec2r, _n: &Vec2r, _dx: &Vec2r) -> (r: Result<Vec2r, ModelError>)
        ensures
            r == Err::<Vec2r, ModelError>(ModelError::NotImplemented),
    {
        Err(ModelError::NotImplemented)
    }

    /// Directional derivative of the wave speed: not offered.
    pub fn dlambda_max(&self, _x: &Vec2r, _dx: &Vec2r) -> (r: Result<Rat, ModelError>)
        ensures
            r == Err::<Rat, ModelError>(ModelError::NotImplemented),
    {
        Err(ModelError::NotImplemented)
    }

    /// Jacobian of the numerical flux: not offered.
    pub fn jac_flux(
        &self,
        _xi: &Vec2r,
        _xj: &Vec2r,
        _n: &Vec2r,
        _dxi: &Vec2r,
        _dxj: &Vec2r,
    ) -> (r: Result<Vec2r, ModelError>)
        ensures
            r == Err::<Vec2r, ModelError>(ModelError::NotImplemented),
    {
        Err(ModelError::NotImplemented)
    }

    /// Jacobian of the boundary flux: not offered.
    pub fn jac_boundary_flux(
        &self,
        _xi: &Vec2r,
        _tag: BoundaryTag,
        _n: &Vec2r,
        _dxi: &Vec2r,
    ) -> (r: Result<Vec2r, ModelError>)
        ensures
            r == Err::<Vec2r, ModelError>(ModelError::NotImplemented),
    {
        Err(ModelError::NotImplemented)
    }

    /// Jacobian of the source term: not offered.
    pub fn jac_source(&self, _i: usize, _x: &Vec2r, _dx: &Vec2r) -> (r: Result<Vec2r, ModelError>)
        ensures
            r == Err::<Vec2r, ModelError>(ModelError::NotImplemented),
    {
        Err(ModelError::NotImplemented)
    }

    /// Matrix of the ghost-state resolution: not offered.
    pub fn jac_ext_state_mat(&self, _tag: BoundaryTag, _u: &Vec2r) -> (r: Result<Mat2r, ModelError>)
        ensures
            r == Err::<Mat2r, ModelError>(ModelError::NotImplemented),
    {
        Err(ModelError::NotImplemented)
    }

    /// Matrix of the physical flux: not offered.
    pub fn df_mat(&self, _x: &Vec2r, _n: &Vec2r) -> (r: Result<Mat2r, ModelError>)
        ensures
            r == Err::<Mat2r, ModelError>(ModelError::NotImplemented),
    {
        Err(ModelError::NotImplemented)
    }

    /// Gradient of the wave speed: not offered.
    pub fn dlambda_max_mat(&self, _x: &Vec2r) -> (r: Result<Vec2r, ModelError>)
        ensures
            r == Err::<Vec2r, ModelError>(ModelError::NotImplemented),
    {
        Err(ModelError::NotImplemented)
    }

    /// Matrices of the numerical flux with respect to both states: not
    /// offered.
    pub fn jac_flux_mat(
        &self,
        _xi: &Vec2r,
        _xj: &Vec2r,
        _n: &Vec2r,
    ) -> (r: Result<(Mat2r, Mat2r), ModelError>)
        ensures
            r == Err::<(Mat2r, Mat2r), ModelError>(ModelError::NotImplemented),
    {
        Err(ModelError::NotImplemented)
    }

    /// Matrix of the boundary flux: not offered.
    pub fn jac_boundary_flux_mat(
        &self,
        _xi: &Vec2r,
        _tag: BoundaryTag,
        _n: &Vec2r,
    ) -> (r: Result<Mat2r, ModelError>)
        ensures
            r == Err::<Mat2r, ModelError>(ModelError::NotImplemented),
    {
        Err(ModelError::NotImplemented)
    }

    /// Matrix of the source term: not offered.
    pub fn jac_source_mat(&self, _i: usize, _x: &Vec2r) -> (r: Result<Mat2r, ModelError>)
        ensures
            r == Err::<Mat2r, ModelError>(ModelError::NotImplemented),
    {
        Err(ModelError::NotImplemented)
    }
}

} // verus!
