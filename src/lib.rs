//! A closed-loop 2D tracking simulation: a sensor estimates its own velocity
//! and acceleration from irregularly timed position samples, takes the
//! line-of-sight bearing to a target, and turns a beam toward it while keeping
//! the beam's pivot fixed on screen.
//!
//! All quantities are exact: velocities and accelerations are fractions,
//! bearings are slopes, and rendered positions are in millionths of a pixel.
use vstd::prelude::*;

pub mod beam;
pub mod geometry;
pub mod kinematics;
pub mod los;
pub mod sim;

verus! {

} // verus!
