//! Exact angle arithmetic for a rotatable harmonic dial.
//!
//! Every angle is a whole number of arcseconds, so that degrees, minutes and
//! seconds are carried without rounding error. One full turn is
//! 1 296 000 arcseconds.

pub mod angle;
pub mod controls;
pub mod dial;
pub mod harmonics;
pub mod math;
pub mod text;
