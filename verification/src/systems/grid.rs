//! Rebuilding the grid when its extents were edited.

use vstd::prelude::*;
use crate::components::{GridLine, GridState, TexturedPlane};
use crate::setup::{grid_lines, grid_plane, spawn_grid, spawn_textured_plane};

verus! {

/// Lines and plane of a grid, built together.
#[derive(Debug)]
pub struct GridGeometry {
    pub lines: Vec<GridLine>,
    pub plane: TexturedPlane,
}

/// Rebuilds lines and plane from the current extents if, and only if, an
/// extent changed since it was last processed, and takes the extents over
/// into their shadows. What is returned replaces the old geometry as a whole.
pub fn update_grid_dimensions(grid_state: &mut GridState) -> (r: Option<GridGeometry>)
    requires
        old(grid_state).wf(),
    ensures
        final(grid_state).size_x == old(grid_state).size_x,
        final(grid_state).size_z == old(grid_state).size_z,
        final(grid_state).previous_size_x == old(grid_state).size_x,
        final(grid_state).previous_size_z == old(grid_state).size_z,
        final(grid_state).wf(),
        r is Some <==> old(grid_state).changed(),
        r matches Some(geometry) ==> {
            &&& geometry.lines@ == grid_lines(old(grid_state).size_x, old(grid_state).size_z)
            &&& geometry.plane == grid_plane(old(grid_state).size_x, old(grid_state).size_z)
        },
{
    if !grid_state.acknowledge() {
        return None;
    }
    let lines = spawn_grid(Some(&*grid_state));
    let plane = spawn_textured_plane(Some(&*grid_state));
    Some(GridGeometry { lines, plane })
}

} // verus!
