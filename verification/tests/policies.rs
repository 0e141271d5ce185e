use burgers2d::burgers::ModelError;
use burgers2d::rat::Rat;
use burgers2d::time_step::{AdaptiveTimeStep, FixedTimeStep, PolicyPhase};

fn rat(num: i64, den: i64) -> Rat {
    Rat::new(num, den).unwrap()
}

#[test]
fn rat_constructors_reject_bad_denominators() {
    assert!(Rat::new(1, 0).is_none());
    assert!(Rat::new(1, -2).is_none());
    assert!(Rat::new(i64::MIN, 1).is_none());
    assert!(Rat::new(-3, 7).is_some());
}

#[test]
fn rat_value_equality_ignores_representation() {
    assert!(rat(1, 2).eq_val(&rat(2, 4)));
    assert!(!rat(1, 2).eq_val(&rat(2, 3)));
    assert!(rat(-3, 6).eq_val(&rat(-1, 2)));
}

#[test]
fn rat_arithmetic_exact() {
    let a = rat(1, 10);
    let b = rat(21, 1000);
    assert!(a.checked_add(&b).unwrap().eq_val(&rat(121, 1000)));
    assert!(a.checked_sub(&b).unwrap().eq_val(&rat(79, 1000)));
    assert!(a.checked_mul(&b).unwrap().eq_val(&rat(21, 10000)));
    assert!(a.checked_div(&b).unwrap().eq_val(&rat(100, 21)));
    assert!(a.checked_div(&rat(-21, 1000)).unwrap().eq_val(&rat(-100, 21)));
    assert!(a.checked_div(&rat(0, 1)).is_none());
    assert!(a.neg().eq_val(&rat(-1, 10)));
    assert!(rat(-9, 4).abs().eq_val(&rat(9, 4)));
    assert!(a.checked_half().unwrap().eq_val(&rat(1, 20)));
}

#[test]
fn rat_overflow_is_reported() {
    let big = rat(5_000_000_000_000_000_000, 1);
    assert!(big.checked_mul(&rat(3, 1)).is_none());
    assert!(big.checked_add(&big).is_none());
    assert!(rat(1, 5_000_000_000_000_000_000).checked_mul(&rat(1, 3)).is_none());
}

#[test]
fn rat_min_keeps_left_on_ties() {
    let a = rat(1, 2);
    let b = rat(2, 4);
    assert_eq!(a.min_val(&b), a);
    assert_eq!(b.min_val(&a), b);
    assert_eq!(rat(3, 1).min_val(&rat(2, 1)), rat(2, 1));
    assert_eq!(rat(3, 1).max_val(&rat(2, 1)), rat(3, 1));
}

#[test]
fn fixed_policy_reports_constant() {
    let p = FixedTimeStep::new(rat(1, 10), 9);
    assert!(p.is_constant());
    assert_eq!(p.min(), rat(1, 10));
    assert_eq!(p.max(), rat(1, 10));
    let vals = p.seq_iter();
    assert_eq!(vals.len(), 9);
    for v in vals {
        assert_eq!(v, rat(1, 10));
    }
}

#[test]
fn fixed_policy_rejects_mismatched_step() {
    // Configured at 0.1: 0.5 is rejected, 0.1 + 1e-10 is within tolerance.
    let mut p = FixedTimeStep::new(rat(1, 10), 4);
    assert_eq!(p.set(&rat(1, 2)), Err(ModelError::StepMismatch));
    let nudged = rat(1_000_000_001, 10_000_000_000);
    assert_eq!(p.set(&nudged), Ok(()));
    assert_eq!(p.set(&rat(1, 10)), Ok(()));
}

#[test]
fn fixed_policy_cfl_ratio() {
    let mut p = FixedTimeStep::new(rat(1, 10), 4);
    assert_eq!(p.current_value(), rat(1, 10));
    assert!(p.cfl_ratio().is_none());
    p.reset();
    p.update(&vec![rat(2, 1), rat(5, 1)]);
    // Effective CFL number: 0.1 / 2 = 0.05.
    assert!(p.cfl_ratio().unwrap().eq_val(&rat(1, 20)));
}

#[test]
fn fixed_policy_tracks_minimum_bound() {
    let mut p = FixedTimeStep::new(rat(1, 10), 4);
    p.reset();
    p.update(&vec![rat(5, 1), rat(3, 1), rat(4, 1)]);
    assert_eq!(p.dt_min, Some(rat(3, 1)));
    p.update(&vec![rat(2, 1), rat(9, 1)]);
    assert_eq!(p.dt_min, Some(rat(2, 1)));
    p.finalize();
    assert_eq!(p.dt_min, Some(rat(2, 1)));
    p.reset();
    assert_eq!(p.dt_min, None);
}

#[test]
fn chunked_reduction_matches_sequential() {
    // The same bounds, folded in one pass and in chunks, give the same
    // minimum.
    let bounds = [rat(5, 1), rat(3, 1), rat(4, 1), rat(2, 1), rat(9, 1)];
    let mut seq = FixedTimeStep::new(rat(1, 10), 5);
    seq.reset();
    seq.update(&bounds.to_vec());
    let mut chunked = FixedTimeStep::new(rat(1, 10), 5);
    chunked.reset();
    chunked.update(&bounds[..2].to_vec());
    chunked.update(&bounds[2..].to_vec());
    assert_eq!(seq.dt_min, chunked.dt_min);
    assert_eq!(seq.dt_min, Some(rat(2, 1)));
}

#[test]
fn parallel_update_matches_sequential() {
    // The rayon-backed reduction must pick the true minimum, not echo an
    // argument back; its value must agree with the sequential fold.
    let bounds = vec![rat(5, 1), rat(3, 1), rat(4, 1), rat(2, 1), rat(9, 1)];
    let mut seq = FixedTimeStep::new(rat(1, 10), 5);
    seq.reset();
    seq.update(&bounds);
    let mut par = FixedTimeStep::new(rat(1, 10), 5);
    par.reset();
    par.update_par(&bounds);
    assert!(par.dt_min.unwrap().eq_val(&seq.dt_min.unwrap()));
    assert!(par.dt_min.unwrap().eq_val(&rat(2, 1)));
    // An empty collection leaves the running bound untouched.
    let mut empty = FixedTimeStep::new(rat(1, 10), 0);
    empty.reset();
    empty.update_par(&Vec::new());
    assert!(empty.dt_min.is_none());
}

#[test]
fn adaptive_parallel_accumulate_matches_sequential() {
    let bounds = vec![rat(7, 2), rat(13, 4), rat(9, 1)];
    let mut p = AdaptiveTimeStep::new(rat(1, 2), 3);
    p.reset();
    p.accumulate_par(&bounds);
    // cfl * min = 0.5 * 13/4 = 13/8.
    assert!(p.current_value().unwrap().eq_val(&rat(13, 8)));
}

#[test]
fn adaptive_policy_scales_minimum_bound() {
    let mut p = AdaptiveTimeStep::new(rat(1, 2), 3);
    assert!(!p.is_constant());
    assert_eq!(p.phase, PolicyPhase::Idle);
    assert!(p.current_value().is_none());
    p.reset();
    assert_eq!(p.phase, PolicyPhase::Accumulating);
    p.accumulate(&vec![rat(4, 1), rat(6, 1), rat(8, 1)]);
    // cfl * min = 0.5 * 4 = 2.
    assert!(p.current_value().unwrap().eq_val(&rat(2, 1)));
    p.finalize();
    assert_eq!(p.phase, PolicyPhase::Finalized);
    assert!(p.min().unwrap().eq_val(&rat(2, 1)));
    assert!(p.max().unwrap().eq_val(&rat(2, 1)));
}

#[test]
fn adaptive_policy_accepts_any_explicit_value() {
    let mut p = AdaptiveTimeStep::new(rat(1, 2), 3);
    p.reset();
    p.accumulate(&vec![rat(4, 1)]);
    assert_eq!(p.set_explicit(&rat(7, 3)), Ok(()));
    assert!(p.current_value().unwrap().eq_val(&rat(7, 3)));
}

#[test]
fn adaptive_policy_tracks_min_and_max_seen() {
    let mut p = AdaptiveTimeStep::new(rat(1, 1), 2);
    p.reset();
    p.accumulate(&vec![rat(3, 1)]);
    p.finalize();
    p.reset();
    p.accumulate(&vec![rat(5, 1)]);
    p.finalize();
    assert!(p.min().unwrap().eq_val(&rat(3, 1)));
    assert!(p.max().unwrap().eq_val(&rat(5, 1)));
}
