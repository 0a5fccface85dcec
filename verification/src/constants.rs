//! Limits and start-up values of the scene parameters.

use vstd::prelude::*;

verus! {

/// Smallest grid extent, in cells, along either axis.
pub const GRID_SIZE_MIN: i32 = 1;

/// Largest grid extent, in cells, along either axis.
pub const GRID_SIZE_MAX: i32 = 100;

/// Grid extent along both axes at start-up.
pub const DEFAULT_GRID_SIZE: i32 = 10;

/// Field of view of the perspective camera at start-up, in whole degrees.
pub const DEFAULT_FOV_DEGREES: u32 = 60;

} // verus!
