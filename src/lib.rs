//! Sun, Moon and ascendant signs of a birth moment.
//!
//! The ephemeris engine itself lives outside this library. What is here is the
//! logic around it: the mapping of ecliptic longitudes to zodiac signs, the
//! store of the ephemeris data path, the reading of the engine's status codes
//! and diagnostics, and the chart pipeline as a state machine that a driver
//! feeds with the engine's replies.
use vstd::prelude::*;

pub mod chart;
pub mod engine;
pub mod ephe_path;
pub mod error;
pub mod sign;

verus! {

} // verus!
