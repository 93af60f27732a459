//! Control-and-planning core of a multi-thruster vehicle simulator.
//!
//! The numeric work (vector algebra, pseudo-inversion, quaternion integration)
//! runs on floating point outside this library; what is decided here is the
//! integer and symbolic structure around it: which thruster owns which column
//! of the allocation matrix, whether a configuration record is well formed,
//! how a closed waypoint loop is cut into evenly spaced reference points, and
//! how playback walks that reference path.

pub mod path_planner;
pub mod playback;
pub mod thrusters;
