use burgers2d::burgers::{BoundaryTag, BurgersTestCase, ModelError, tag_from_id};
use burgers2d::flux::{StepBound, max_stable_step, numerical_flux, physical_flux, wave_speed_sq};
use burgers2d::rat::Rat;
use burgers2d::vec2::Vec2r;

fn rat(num: i64, den: i64) -> Rat {
    Rat::new(num, den).unwrap()
}

fn v2(xn: i64, xd: i64, yn: i64, yd: i64) -> Vec2r {
    Vec2r::new(rat(xn, xd), rat(yn, yd))
}

fn assert_val(a: &Rat, num: i64, den: i64) {
    assert!(a.eq_val(&rat(num, den)));
}

fn assert_vec(a: &Vec2r, xn: i64, xd: i64, yn: i64, yd: i64) {
    assert_val(&a.x, xn, xd);
    assert_val(&a.y, yn, yd);
}

#[test]
fn physical_flux_simple() {
    // x = (2, 1), n = (1, 0): un = 2, flux = (0.5*2*2, 0.5*1*2) = (2, 1).
    let f = physical_flux(&v2(2, 1, 1, 1), &v2(1, 1, 0, 1)).unwrap();
    assert_vec(&f, 2, 1, 1, 1);
}

#[test]
fn numerical_flux_consistency_concrete() {
    // Equal states: the numerical flux is the physical flux, whatever the
    // dissipation coefficient.
    let x = v2(21, 10, -3, 2);
    let n = v2(1, 1, 1, 2);
    let phys = physical_flux(&x, &n).unwrap();
    for lam in [rat(0, 1), rat(7, 5), rat(355, 113)] {
        let num = numerical_flux(&x, &x, &n, &lam).unwrap();
        assert!(num.x.eq_val(&phys.x));
        assert!(num.y.eq_val(&phys.y));
    }
}

#[test]
fn numerical_flux_antisymmetry_concrete() {
    // numericalFlux(xi, xj, n) == -numericalFlux(xj, xi, -n), exactly.
    let xi = v2(21, 10, 1, 2);
    let xj = v2(1, 10, 3, 1);
    let n = v2(1, 1, -1, 2);
    let lam = rat(9, 4);
    let a = numerical_flux(&xi, &xj, &n, &lam).unwrap();
    let b = numerical_flux(&xj, &xi, &n.neg(), &lam).unwrap().neg();
    assert!(a.x.eq_val(&b.x));
    assert!(a.y.eq_val(&b.y));
}

#[test]
fn numerical_flux_exact_value() {
    // xi = (2, 0), xj = (0, 0), n = (1, 0), lambda = 1:
    // physical fluxes (2, 0) and (0, 0); average (1, 0);
    // dissipation 0.5*1*(xj - xi) = (-1, 0); flux = (2, 0).
    let f = numerical_flux(&v2(2, 1, 0, 1), &v2(0, 1, 0, 1), &v2(1, 1, 0, 1), &rat(1, 1))
        .unwrap();
    assert_vec(&f, 2, 1, 0, 1);
}

#[test]
fn wave_speed_squared() {
    // x = (3, 4): (9 + 16) / 4 = 25/4, the square of 0.5*||x|| = 2.5.
    let w = wave_speed_sq(&v2(3, 1, 4, 1)).unwrap();
    assert_val(&w, 25, 4);
}

#[test]
fn stable_step_bound() {
    // h = 1, lambda = 2: bound = 1/2.
    match max_stable_step(&rat(2, 1), &rat(1, 1)).unwrap() {
        StepBound::Bounded(c) => assert_val(&c, 1, 2),
        StepBound::Unbounded => panic!("expected a finite bound"),
    }
}

#[test]
fn stable_step_zero_wave_speed() {
    // Both wave speeds zero: no constraint rather than a division by zero.
    let b = max_stable_step(&rat(0, 1), &rat(1, 1)).unwrap();
    assert_eq!(b, StepBound::Unbounded);
}

#[test]
fn tag_mapping() {
    assert_eq!(tag_from_id(1), Some(BoundaryTag::Ymin));
    assert_eq!(tag_from_id(2), Some(BoundaryTag::Xmax));
    assert_eq!(tag_from_id(3), Some(BoundaryTag::Ymax));
    assert_eq!(tag_from_id(4), Some(BoundaryTag::Xmin));
    assert_eq!(tag_from_id(0), None);
    assert_eq!(tag_from_id(5), None);
}

#[test]
fn boundary_outflow_extrapolates() {
    // Interior (2, 1), outward normal (1, 0): xi.n = 2 >= 0, outflow, so the
    // ghost is the interior state and the flux is its physical flux (2, 1).
    let case = BurgersTestCase::new(rat(43, 10), rat(21, 1000));
    let f = case.boundary_flux(&v2(2, 1, 1, 1), BoundaryTag::Xmax, &v2(1, 1, 0, 1)).unwrap();
    assert_vec(&f, 2, 1, 1, 1);
}

#[test]
fn boundary_inflow_prescribes_value() {
    // Same tag, normal (-1, 0): xi.n = -2 < 0, inflow, ghost = (mu0, 0) with
    // mu0 = 4.3; flux = (0.5*4.3*(-4.3), 0) = (-9.245, 0).
    let case = BurgersTestCase::new(rat(43, 10), rat(21, 1000));
    let f = case.boundary_flux(&v2(2, 1, 1, 1), BoundaryTag::Xmax, &v2(-1, 1, 0, 1)).unwrap();
    assert_vec(&f, -9245, 1000, 0, 1);
}

#[test]
fn boundary_inflow_wall() {
    // ymin on inflow: ghost = (0, 0), flux = (0, 0).
    let case = BurgersTestCase::new(rat(43, 10), rat(21, 1000));
    let f = case.boundary_flux(&v2(1, 1, 1, 1), BoundaryTag::Ymin, &v2(-1, 1, 0, 1)).unwrap();
    assert_vec(&f, 0, 1, 0, 1);
}

#[test]
fn boundary_noop_tags_extrapolate_on_inflow() {
    // ymax and xmin have no special rule: ghost = interior even on inflow.
    let case = BurgersTestCase::new(rat(43, 10), rat(21, 1000));
    for tag in [BoundaryTag::Ymax, BoundaryTag::Xmin] {
        let f = case.boundary_flux(&v2(2, 1, 1, 1), tag, &v2(-1, 1, 0, 1)).unwrap();
        // un = -2; flux = (0.5*2*(-2), 0.5*1*(-2)) = (-2, -1).
        assert_vec(&f, -2, 1, -1, 1);
    }
}

#[test]
fn source_evaluation() {
    // At x = 0 the exponential is 1: source = (0.02, 0), bound = 50.
    let case = BurgersTestCase::new(rat(43, 10), rat(21, 1000));
    let s = case.source_from_exp(&rat(1, 1)).unwrap();
    assert_vec(&s, 1, 50, 0, 1);
    match case.source_stable_step(&rat(1, 1)).unwrap() {
        StepBound::Bounded(c) => assert_val(&c, 50, 1),
        StepBound::Unbounded => panic!("expected a finite bound"),
    }
}

#[test]
fn source_zero_is_unbounded() {
    let case = BurgersTestCase::new(rat(43, 10), rat(21, 1000));
    let b = case.source_stable_step(&rat(0, 1)).unwrap();
    assert_eq!(b, StepBound::Unbounded);
}

#[test]
fn source_growth_argument() {
    // mu1 = 0.021, px = 10: the exponent argument is 0.21.
    let case = BurgersTestCase::new(rat(43, 10), rat(21, 1000));
    let a = case.growth_arg(&rat(10, 1)).unwrap();
    assert_val(&a, 21, 100);
}

#[test]
fn jacobians_not_implemented() {
    let case = BurgersTestCase::new(rat(43, 10), rat(21, 1000));
    let x = v2(1, 1, 1, 1);
    assert_eq!(case.df(&x, &x, &x), Err(ModelError::NotImplemented));
    assert_eq!(case.dlambda_max(&x, &x), Err(ModelError::NotImplemented));
    assert_eq!(case.jac_flux(&x, &x, &x, &x, &x), Err(ModelError::NotImplemented));
    assert_eq!(
        case.jac_boundary_flux(&x, BoundaryTag::Xmax, &x, &x),
        Err(ModelError::NotImplemented)
    );
    assert_eq!(case.jac_source(0, &x, &x), Err(ModelError::NotImplemented));
}

#[test]
fn uniform_field_one_explicit_step() {
    // A row of five vertices with a uniform state (1, 1), wall (ymin)
    // boundaries at both ends, one explicit Euler sub-step with dt = 1/100.
    // On the uniform interior the flux divergence vanishes exactly, so an
    // interior vertex moves only by the source contribution; no state blows
    // up and every value stays an exact, finite rational.
    let case = BurgersTestCase::new(rat(43, 10), rat(21, 1000));
    let n_verts = 5usize;
    let states = case.initial(n_verts);
    let dt = rat(1, 100);
    let n_right = v2(1, 1, 0, 1);
    // Wave-speed coefficient: any value may stand in for 0.5*sqrt(2) on a
    // uniform field, since the dissipation term multiplies a zero jump.
    let lam = rat(7071, 10000);

    // Interior faces all carry the same flux as the physical flux of the
    // uniform state (consistency).
    let phys = physical_flux(&states[0], &n_right).unwrap();
    for i in 0..n_verts - 1 {
        let f = numerical_flux(&states[i], &states[i + 1], &n_right, &lam).unwrap();
        assert!(f.x.eq_val(&phys.x));
        assert!(f.y.eq_val(&phys.y));
    }

    // Left end: outward normal (-1, 0), xi.n = -1 < 0, wall ghost (0, 0).
    let f_left = case.boundary_flux(&states[0], BoundaryTag::Ymin, &v2(-1, 1, 0, 1)).unwrap();
    assert_vec(&f_left, 0, 1, 0, 1);
    // Right end: outward normal (1, 0), xi.n = 1 >= 0, extrapolated.
    let f_right = case
        .boundary_flux(&states[n_verts - 1], BoundaryTag::Ymin, &n_right)
        .unwrap();
    assert_vec(&f_right, 1, 2, 1, 2);

    // One explicit step for an interior vertex: equal incoming and outgoing
    // face fluxes cancel, leaving only the source (evaluated at x = 0,
    // where the exponential is 1).
    let source = case.source_from_exp(&rat(1, 1)).unwrap();
    let div = numerical_flux(&states[2], &states[3], &n_right, &lam)
        .unwrap()
        .checked_sub(&numerical_flux(&states[1], &states[2], &n_right, &lam).unwrap())
        .unwrap();
    assert_vec(&div, 0, 1, 0, 1);
    let delta = source.checked_sub(&div).unwrap().checked_scale(&dt).unwrap();
    let new_state = states[2].checked_add(&delta).unwrap();
    // (1 + 0.01*0.02, 1) = (5001/5000, 1): finite, and within the initial
    // norm plus the source contribution on each component.
    assert_vec(&new_state, 5001, 5000, 1, 1);
    assert!(new_state.x.le(&rat(5001, 5000)));
    assert!(new_state.y.le(&rat(1, 1)));
}
