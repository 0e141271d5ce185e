//! Physics core of a 2D finite-volume test case for the two-component
//! inviscid Burgers equation: Rusanov numerical flux, boundary-condition
//! policy, exponential source term, and the time-step-size policies that a
//! finite-volume engine's stepping loop consumes.
//!
//! All quantities are exact rational numbers, so every formula is stated and
//! proved exactly; an unverified driver evaluates the two irrational
//! ingredients (a square root for the wave speed, an exponential for the
//! source) and feeds them back in as rationals.

pub mod rat;
pub mod vec2;
pub mod flux;
pub mod burgers;
pub mod reduce;
pub mod time_step;
