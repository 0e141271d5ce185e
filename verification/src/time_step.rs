//! Time-step-size policies.
//!
//! Two interchangeable policies drive the engine's explicit stepping loop:
//! a fixed policy whose step is a constant fixed at construction (it keeps a
//! running minimum of the per-entity bounds only for diagnostics), and a
//! CFL-adaptive policy whose step is `cfl` times the minimum of the
//! per-entity bounds accumulated during the step. Both accumulate through
//! the same left fold whose partition independence `crate::reduce` proves,
//! so a driver may reduce the bounds in chunks, in parallel, with
//! thread-local partial minima combined once at the end.

use vstd::prelude::*;
use crate::rat::{Rat, rwf, fits, r_le, r_abs, r_sub, r_mul, r_div, r_min, r_max};
use crate::reduce::{fold_min, o_eq, lemma_reduced_element_matches_fold};
use crate::burgers::ModelError;
use rayon::iter::{IntoParallelRefIterator, ParallelIterator};

verus! {

/// Relies on rayon's `ParallelIterator::reduce_with` over the slice's
/// items: it combines them pairwise in an unspecified grouping and returns
/// `None` exactly on an empty collection. Combined with `Rat::min_val`,
/// every outcome is one of the items, and one that is less than or equal
/// to all of them, whatever the grouping.
#[verifier::external_body]
fn par_min(vals: &Vec<Rat>) -> (r: Option<Rat>)
    requires
        forall|i: int| 0 <= i < vals@.len() ==> (#[trigger] vals@[i]).wf(),
    ensures
        (r is Some) <==> vals@.len() > 0,
        r matches Some(m) ==> (exists|i: int| 0 <= i < vals@.len() && vals@[i] == m)
            && (forall|j: int| 0 <= j < vals@.len() ==> r_le(m.v(), (#[trigger] vals@[j]).v())),
{
    vals.par_iter().cloned().reduce_with(|a, b| a.min_val(&b))
}

/// Absolute tolerance within which the fixed policy accepts an externally
/// requested step value.
pub open spec fn step_tol() -> (int, int) {
    (1int, 100_000_000int)
}

/// The tolerance as a rational, `1e-8`.
pub fn step_tol_rat() -> (r: Rat)
    ensures
        r.wf(),
        r.v() == step_tol(),
{
    Rat { num: 1, den: 100_000_000 }
}

/// The stored pairs of an optional running bound.
pub open spec fn opt_v(a: Option<Rat>) -> Option<(int, int)> {
    match a {
        None => None,
        Some(r) => Some(r.v()),
    }
}

pub open spec fn opt_wf(a: Option<Rat>) -> bool {
    a matches Some(r) ==> r.wf()
}

/// The stored pairs of a collection of per-entity bounds.
pub open spec fn seq_v(s: Seq<Rat>) -> Seq<(int, int)> {
    s.map_values(|r: Rat| r.v())
}

pub open spec fn all_wf(s: Seq<Rat>) -> bool {
    forall|i: int| 0 <= i < s.len() ==> (#[trigger] s[i]).wf()
}

/// Phases of one step cycle of a policy.
#[derive(Clone, Copy, Debug, PartialEq, Eq, Structural)]
pub enum PolicyPhase {
    Idle,
    Accumulating,
    Finalized,
}

/// Fixed-step policy: the step size is a constant chosen at construction;
/// per-entity bounds are still folded into a running minimum, but only for
/// diagnostic display (the ratio of the step to the tightest bound).
#[derive(Clone, Copy, Debug, PartialEq, Eq, Structural)]
pub struct FixedTimeStep {
    /// The configured, non-negotiable step size.
    pub dt: Rat,
    /// Number of mesh vertices the policy reports bounds for.
    pub n_verts: usize,
    /// Running minimum of the bounds seen since the last reset; `None` is
    /// the fold identity, "no bound seen yet".
    pub dt_min: Option<Rat>,
}

impl FixedTimeStep {
    pub open spec fn wf(self) -> bool {
        self.dt.wf() && opt_wf(self.dt_min)
    }

    pub fn new(dt: Rat, n_verts: usize) -> (r: FixedTimeStep)
        requires
            dt.wf(),
        ensures
            r.wf(),
            r.dt == dt,
            r.n_verts == n_verts,
            r.dt_min is None,
    {
        FixedTimeStep { dt, n_verts, dt_min: None }
    }

    /// The step size never varies.
    pub fn is_constant(&self) -> (r: bool)
        ensures
            r == true,
    {
        true
    }

    /// Clears the running minimum to the fold identity.
    pub fn reset(&mut self)
        requires
            old(self).wf(),
        ensures
            final(self).wf(),
            final(self).dt == old(self).dt,
            final(self).n_verts == old(self).n_verts,
            final(self).dt_min is None,
    {
        self.dt_min = None;
    }

    /// Folds a collection of per-entity bounds into the running minimum,
    /// exactly as the sequential left fold of `crate::reduce` does.
    pub fn update(&mut self, vals: &Vec<Rat>)
        requires
            old(self).wf(),
            all_wf(vals@),
        ensures
            final(self).wf(),
            final(self).dt == old(self).dt,
            final(self).n_verts == old(self).n_verts,
            opt_v(final(self).dt_min) == fold_min(seq_v(vals@), opt_v(old(self).dt_min)),
    {
        let sv = Ghost(seq_v(vals@));
        let mut acc: Option<Rat> = self.dt_min;
        let mut i: usize = 0;
        proof {
            assert(sv@.skip(0) =~= sv@);
        }
        while i < vals.len()
            invariant
                i <= vals@.len(),
                all_wf(vals@),
                sv@ == seq_v(vals@),
                opt_wf(acc),
                fold_min(sv@, opt_v(old(self).dt_min)) == fold_min(
                    sv@.skip(i as int),
                    opt_v(acc),
                ),
            decreases vals@.len() - i,
        {
            proof {
                assert(sv@.skip(i as int).first() == sv@[i as int]);
                assert(sv@.skip(i as int).drop_first() =~= sv@.skip(i as int + 1));
            }
            let x = vals[i];
            acc = match acc {
                None => Some(x),
                Some(m) => Some(m.min_val(&x)),
            };
            i = i + 1;
        }
        proof {
            assert(sv@.skip(vals@.len() as int) =~= Seq::<(int, int)>::empty());
        }
        self.dt_min = acc;
    }

    /// Folds a collection of per-entity bounds into the running minimum
    /// through the parallel pairwise reduction of `par_min`; the result has
    /// the same value as the sequential fold `update` performs, whatever
    /// grouping the reduction used.
    pub fn update_par(&mut self, vals: &Vec<Rat>)
        requires
            old(self).wf(),
            all_wf(vals@),
        ensures
            final(self).wf(),
            final(self).dt == old(self).dt,
            final(self).n_verts == old(self).n_verts,
            o_eq(opt_v(final(self).dt_min), fold_min(seq_v(vals@), opt_v(old(self).dt_min))),
    {
        let sv = Ghost(seq_v(vals@));
        proof {
            assert forall|i: int| 0 <= i < sv@.len() implies rwf(#[trigger] sv@[i]) by {
                assert(sv@[i] == vals@[i].v());
            }
        }
        match par_min(vals) {
            None => {
                proof {
                    assert(sv@.len() == 0);
                }
            },
            Some(m) => {
                proof {
                    let iw = choose|i: int| 0 <= i < vals@.len() && vals@[i] == m;
                    assert(vals@[iw].wf());
                    assert(sv@[iw] == m.v());
                    assert forall|j: int| 0 <= j < sv@.len() implies r_le(m.v(), #[trigger] sv@[j]) by {
                        assert(sv@[j] == vals@[j].v());
                    }
                    lemma_reduced_element_matches_fold(sv@, m.v(), opt_v(self.dt_min));
                }
                self.dt_min = match self.dt_min {
                    None => Some(m),
                    Some(d) => Some(d.min_val(&m)),
                };
            },
        }
    }

    /// Accepts an externally requested step value only if it matches the
    /// configured constant within the tolerance; the policy itself never
    /// changes. The requested difference must be representable, which every
    /// step value of a run's magnitude is.
    pub fn set(&mut self, val: &Rat) -> (r: Result<(), ModelError>)
        requires
            old(self).wf(),
            val.wf(),
            fits(r_sub(old(self).dt.v(), val.v())),
        ensures
            *final(self) == *old(self),
            (r is Ok) <==> r_le(r_abs(r_sub(old(self).dt.v(), val.v())), step_tol()),
            r matches Err(e) ==> e == ModelError::StepMismatch,
    {
        let diff = match self.dt.checked_sub(val) {
            Some(d) => d,
            None => { return Err(ModelError::StepMismatch); },
        };
        let mag = diff.abs();
        let tol = step_tol_rat();
        if mag.le(&tol) {
            Ok(())
        } else {
            Err(ModelError::StepMismatch)
        }
    }

    /// Nothing is deferred; finalizing changes nothing.
    pub fn finalize(&mut self)
        requires
            old(self).wf(),
        ensures
            *final(self) == *old(self),
    {
    }

    /// The step size to use for the next sub-step: always the constant.
    pub fn current_value(&self) -> (r: Rat)
        ensures
            r == self.dt,
    {
        self.dt
    }

    /// Diagnostic ratio of the configured step to the tightest bound seen,
    /// the effective CFL number of the run; `None` when no bound was seen,
    /// the bound is zero, or the quotient leaves the stored range.
    pub fn cfl_ratio(&self) -> (r: Option<Rat>)
        requires
            self.wf(),
        ensures
            self.dt_min is None ==> r is None,
            self.dt_min matches Some(m) ==> ((r is Some) <==> (m.v().0 != 0 && fits(
                r_div(self.dt.v(), m.v()),
            ))),
            r matches Some(c) ==> (self.dt_min matches Some(m) && c.wf() && c.v() == r_div(
                self.dt.v(),
                m.v(),
            )),
    {
        match self.dt_min {
            None => None,
            Some(m) => self.dt.checked_div(&m),
        }
    }

    /// Smallest usable step value: the constant.
    pub fn min(&self) -> (r: Rat)
        ensures
            r == self.dt,
    {
        self.dt
    }

    /// Largest usable step value: the constant.
    pub fn max(&self) -> (r: Rat)
        ensures
            r == self.dt,
    {
        self.dt
    }

    /// The per-vertex step values the engine folds: the constant, once per
    /// vertex. A driver may hand chunks of this collection to parallel
    /// workers; the reduction laws of `crate::reduce` make the outcome
    /// independent of that partition.
    pub fn seq_iter(&self) -> (r: Vec<Rat>)
        requires
            self.wf(),
        ensures
            r@.len() == self.n_verts as int,
            forall|i: int| 0 <= i < r@.len() ==> #[trigger] r@[i] == self.dt,
    {
        let mut out: Vec<Rat> = Vec::new();
        let mut i: usize = 0;
        while i < self.n_verts
            invariant
                i <= self.n_verts,
                out@.len() == i as int,
                forall|k: int| 0 <= k < out@.len() ==> #[trigger] out@[k] == self.dt,
            decreases self.n_verts - i,
        {
            out.push(self.dt);
            i = i + 1;
        }
        out
    }
}

/// CFL-adaptive policy: the step is `cfl` times the tightest per-entity
/// bound accumulated during the current cycle, unless a caller forced an
/// explicit value.
#[derive(Clone, Copy, Debug, PartialEq, Eq, Structural)]
pub struct AdaptiveTimeStep {
    /// CFL safety factor applied to the tightest bound.
    pub cfl: Rat,
    /// Number of mesh vertices the policy accumulates bounds for.
    pub n_verts: usize,
    /// Where in the reset -> accumulate -> finalize cycle the policy is.
    pub phase: PolicyPhase,
    /// Running minimum of the bounds of the current cycle.
    pub bound: Option<Rat>,
    /// Explicitly forced step value, if any.
    pub forced: Option<Rat>,
    /// Smallest step value finalized so far, for diagnostics.
    pub min_seen: Option<Rat>,
    /// Largest step value finalized so far, for diagnostics.
    pub max_seen: Option<Rat>,
}

impl AdaptiveTimeStep {
    pub open spec fn wf(self) -> bool {
        self.cfl.wf() && opt_wf(self.bound) && opt_wf(self.forced) && opt_wf(self.min_seen)
            && opt_wf(self.max_seen)
    }

    /// Whether the current cycle determines a step value.
    pub open spec fn s_current_ok(self) -> bool {
        ||| self.forced is Some
        ||| (self.bound matches Some(b) && fits(r_mul(self.cfl.v(), b.v())))
    }

    /// The step value of the current cycle: the forced value if one was
    /// set, else `cfl` times the accumulated minimum bound.
    pub open spec fn s_current_v(self) -> (int, int) {
        match self.forced {
            Some(f) => f.v(),
            None => r_mul(self.cfl.v(), (match self.bound {
                Some(b) => b.v(),
                None => (0int, 1int),
            })),
        }
    }

    pub fn new(cfl: Rat, n_verts: usize) -> (r: AdaptiveTimeStep)
        requires
            cfl.wf(),
        ensures
            r.wf(),
            r.cfl == cfl,
            r.n_verts == n_verts,
            r.phase == PolicyPhase::Idle,
            r.bound is None,
            r.forced is None,
            r.min_seen is None,
            r.max_seen is None,
    {
        AdaptiveTimeStep {
            cfl,
            n_verts,
            phase: PolicyPhase::Idle,
            bound: None,
            forced: None,
            min_seen: None,
            max_seen: None,
        }
    }

    /// The step size varies from cycle to cycle.
    pub fn is_constant(&self) -> (r: bool)
        ensures
            r == false,
    {
        false
    }

    /// Opens a new cycle: clears the running bound to the fold identity and
    /// drops any forced value.
    pub fn reset(&mut self)
        requires
            old(self).wf(),
        ensures
            final(self).wf(),
            final(self).cfl == old(self).cfl,
            final(self).n_verts == old(self).n_verts,
            final(self).phase == PolicyPhase::Accumulating,
            final(self).bound is None,
            final(self).forced is None,
            final(self).min_seen == old(self).min_seen,
            final(self).max_seen == old(self).max_seen,
    {
        self.phase = PolicyPhase::Accumulating;
        self.bound = None;
        self.forced = None;
    }

    /// Folds a collection of per-entity bounds into the running minimum of
    /// the open cycle, exactly as the sequential left fold of
    /// `crate::reduce` does.
    pub fn accumulate(&mut self, vals: &Vec<Rat>)
        requires
            old(self).wf(),
            old(self).phase == PolicyPhase::Accumulating,
            all_wf(vals@),
        ensures
            final(self).wf(),
            final(self).cfl == old(self).cfl,
            final(self).n_verts == old(self).n_verts,
            final(self).phase == PolicyPhase::Accumulating,
            final(self).forced == old(self).forced,
            final(self).min_seen == old(self).min_seen,
            final(self).max_seen == old(self).max_seen,
            opt_v(final(self).bound) == fold_min(seq_v(vals@), opt_v(old(self).bound)),
    {
        let sv = Ghost(seq_v(vals@));
        let mut acc: Option<Rat> = self.bound;
        let mut i: usize = 0;
        proof {
            assert(sv@.skip(0) =~= sv@);
        }
        while i < vals.len()
            invariant
                i <= vals@.len(),
                all_wf(vals@),
                sv@ == seq_v(vals@),
                opt_wf(acc),
                fold_min(sv@, opt_v(old(self).bound)) == fold_min(sv@.skip(i as int), opt_v(acc)),
            decreases vals@.len() - i,
        {
            proof {
                assert(sv@.skip(i as int).first() == sv@[i as int]);
                assert(sv@.skip(i as int).drop_first() =~= sv@.skip(i as int + 1));
            }
            let x = vals[i];
            acc = match acc {
                None => Some(x),
                Some(m) => Some(m.min_val(&x)),
            };
            i = i + 1;
        }
        proof {
            assert(sv@.skip(vals@.len() as int) =~= Seq::<(int, int)>::empty());
        }
        self.bound = acc;
    }

    /// Folds a collection of per-entity bounds into the running minimum of
    /// the open cycle through the parallel pairwise reduction of `par_min`;
    /// the result has the same value as the sequential fold `accumulate`
    /// performs, whatever grouping the reduction used.
    pub fn accumulate_par(&mut self, vals: &Vec<Rat>)
        requires
            old(self).wf(),
            old(self).phase == PolicyPhase::Accumulating,
            all_wf(vals@),
        ensures
            final(self).wf(),
            final(self).cfl == old(self).cfl,
            final(self).n_verts == old(self).n_verts,
            final(self).phase == PolicyPhase::Accumulating,
            final(self).forced == old(self).forced,
            final(self).min_seen == old(self).min_seen,
            final(self).max_seen == old(self).max_seen,
            o_eq(opt_v(final(self).bound), fold_min(seq_v(vals@), opt_v(old(self).bound))),
    {
        let sv = Ghost(seq_v(vals@));
        proof {
            assert forall|i: int| 0 <= i < sv@.len() implies rwf(#[trigger] sv@[i]) by {
                assert(sv@[i] == vals@[i].v());
            }
        }
        match par_min(vals) {
            None => {
                proof {
                    assert(sv@.len() == 0);
                }
            },
            Some(m) => {
                proof {
                    let iw = choose|i: int| 0 <= i < vals@.len() && vals@[i] == m;
                    assert(vals@[iw].wf());
                    assert(sv@[iw] == m.v());
                    assert forall|j: int| 0 <= j < sv@.len() implies r_le(m.v(), #[trigger] sv@[j]) by {
                        assert(sv@[j] == vals@[j].v());
                    }
                    lemma_reduced_element_matches_fold(sv@, m.v(), opt_v(self.bound));
                }
                self.bound = match self.bound {
                    None => Some(m),
                    Some(d) => Some(d.min_val(&m)),
                };
            },
        }
    }

    /// Accepts any forced step value: the adaptive policy is inherently
    /// variable.
    pub fn set_explicit(&mut self, val: &Rat) -> (r: Result<(), ModelError>)
        requires
            old(self).wf(),
            val.wf(),
        ensures
            r == Ok::<(), ModelError>(()),
            final(self).wf(),
            final(self).cfl == old(self).cfl,
            final(self).n_verts == old(self).n_verts,
            final(self).phase == old(self).phase,
            final(self).bound == old(self).bound,
            final(self).forced == Some(*val),
            final(self).min_seen == old(self).min_seen,
            final(self).max_seen == old(self).max_seen,
    {
        self.forced = Some(*val);
        Ok(())
    }

    /// The step value the open cycle has determined; `None` when no bound
    /// was accumulated and no value forced, or when the product leaves the
    /// stored range.
    pub fn current_value(&self) -> (r: Option<Rat>)
        requires
            self.wf(),
        ensures
            (r is Some) <==> self.s_current_ok(),
            r matches Some(c) ==> c.wf() && c.v() == self.s_current_v(),
    {
        match self.forced {
            Some(f) => Some(f),
            None => match self.bound {
                Some(b) => self.cfl.checked_mul(&b),
                None => None,
            },
        }
    }

    /// Closes the cycle and, when the cycle determined a step value, folds
    /// it into the diagnostic minimum and maximum.
    pub fn finalize(&mut self)
        requires
            old(self).wf(),
        ensures
            final(self).wf(),
            final(self).cfl == old(self).cfl,
            final(self).n_verts == old(self).n_verts,
            final(self).phase == PolicyPhase::Finalized,
            final(self).bound == old(self).bound,
            final(self).forced == old(self).forced,
            !old(self).s_current_ok() ==> final(self).min_seen == old(self).min_seen
                && final(self).max_seen == old(self).max_seen,
            old(self).s_current_ok() ==> opt_v(final(self).min_seen) == (match opt_v(
                old(self).min_seen,
            ) {
                None => Some(old(self).s_current_v()),
                Some(m) => Some(r_min(m, old(self).s_current_v())),
            }),
            old(self).s_current_ok() ==> opt_v(final(self).max_seen) == (match opt_v(
                old(self).max_seen,
            ) {
                None => Some(old(self).s_current_v()),
                Some(m) => Some(r_max(m, old(self).s_current_v())),
            }),
    {
        let cv = self.current_value();
        match cv {
            Some(c) => {
                self.min_seen = match self.min_seen {
                    None => Some(c),
                    Some(m) => Some(m.min_val(&c)),
                };
                self.max_seen = match self.max_seen {
                    None => Some(c),
                    Some(m) => Some(m.max_val(&c)),
                };
            },
            None => (),
        }
        self.phase = PolicyPhase::Finalized;
    }

    /// Smallest step value finalized so far.
    pub fn min(&self) -> (r: Option<Rat>)
        ensures
            r == self.min_seen,
    {
        self.min_seen
    }

    /// Largest step value finalized so far.
    pub fn max(&self) -> (r: Option<Rat>)
        ensures
            r == self.max_seen,
    {
        self.max_seen
    }
}

} // verus!
