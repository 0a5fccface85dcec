//! The geometry a scene starts with: the lines of the ground grid and the
//! reference plane that lies on it.
//!
//! A grid of `N` cells along an axis is bounded by `N + 1` lines across that
//! axis, one cell apart and centred on the origin. Distances from the centre
//! are counted in half cells, so that the lines of an odd grid are exact too.

use vstd::prelude::*;
use crate::components::{GridLine, GridState, TexturedPlane};
use crate::constants::{DEFAULT_GRID_SIZE, GRID_SIZE_MAX, GRID_SIZE_MIN};
use crate::geometry::GridAxis;

verus! {

/// The `i`-th of the lines that bound `cells` cells: `i` cells from the first
/// line, which lies half the grid before the centre.
pub open spec fn line_offset_halves(cells: int, i: int) -> int {
    2 * i - cells
}

/// The `cells + 1` lines along `spans` that bound `cells` cells, each
/// `length` cells long, from the one farthest before the centre to the one
/// farthest after it.
pub open spec fn boundary_lines(spans: GridAxis, length: i32, cells: i32) -> Seq<GridLine> {
    Seq::new(
        (cells + 1) as nat,
        |i: int|
            GridLine {
                spans,
                length: length as u32,
                offset_halves: line_offset_halves(cells as int, i) as i32,
            },
    )
}

/// The lines that run along X: one for each cell boundary along Z, each as
/// long as the grid is wide.
pub open spec fn lines_along_x(size_x: i32, size_z: i32) -> Seq<GridLine> {
    boundary_lines(GridAxis::X, size_x, size_z)
}

/// The lines that run along Z: one for each cell boundary along X, each as
/// long as the grid is deep.
pub open spec fn lines_along_z(size_x: i32, size_z: i32) -> Seq<GridLine> {
    boundary_lines(GridAxis::Z, size_z, size_x)
}

/// All lines of a grid: those along X first, then those along Z, each group
/// from the most negative offset to the most positive.
pub open spec fn grid_lines(size_x: i32, size_z: i32) -> Seq<GridLine> {
    lines_along_x(size_x, size_z) + lines_along_z(size_x, size_z)
}

/// The plane that covers a grid exactly.
pub open spec fn grid_plane(size_x: i32, size_z: i32) -> TexturedPlane {
    TexturedPlane { width: size_x as u32, height: size_z as u32, divisor: 1 }
}

/// The extents to build from: those of the grid state, or the start-up
/// extents where there is none.
pub open spec fn extents_of(grid_state: Option<&GridState>) -> (i32, i32) {
    match grid_state {
        Some(grid) => (grid.size_x, grid.size_z),
        None => (DEFAULT_GRID_SIZE, DEFAULT_GRID_SIZE),
    }
}

/// Reads the extents to build from.
fn read_extents(grid_state: Option<&GridState>) -> (r: (i32, i32))
    ensures
        r == extents_of(grid_state),
{
    match grid_state {
        Some(grid) => (grid.size_x, grid.size_z),
        None => (DEFAULT_GRID_SIZE, DEFAULT_GRID_SIZE),
    }
}

/// Appends to `lines` the lines along `spans` that bound `cells` cells.
fn push_lines(lines: &mut Vec<GridLine>, spans: GridAxis, length: i32, cells: i32)
    requires
        GRID_SIZE_MIN <= length <= GRID_SIZE_MAX,
        GRID_SIZE_MIN <= cells <= GRID_SIZE_MAX,
    ensures
        final(lines)@ == old(lines)@ + boundary_lines(spans, length, cells),
{
    let ghost before = lines@;
    let mut i: i32 = 0;
    while i <= cells
        invariant
            0 <= i <= cells + 1,
            GRID_SIZE_MIN <= length <= GRID_SIZE_MAX,
            GRID_SIZE_MIN <= cells <= GRID_SIZE_MAX,
            lines@ == before + boundary_lines(spans, length, cells).subrange(0, i as int),
        decreases cells + 1 - i,
    {
        lines.push(GridLine { spans, length: length as u32, offset_halves: 2 * i - cells });
        i += 1;
    }
}

/// Builds the lines of the ground grid.
pub fn spawn_grid(grid_state: Option<&GridState>) -> (lines: Vec<GridLine>)
    requires
        grid_state matches Some(grid) ==> grid.wf(),
    ensures
        lines@ == grid_lines(extents_of(grid_state).0, extents_of(grid_state).1),
        lines@.len() == (extents_of(grid_state).1 + 1) + (extents_of(grid_state).0 + 1),
{
    let (size_x, size_z) = read_extents(grid_state);
    let mut lines: Vec<GridLine> = Vec::new();
    push_lines(&mut lines, GridAxis::X, size_x, size_z);
    push_lines(&mut lines, GridAxis::Z, size_z, size_x);
    lines
}

/// Builds the reference plane, which covers the grid exactly.
pub fn spawn_textured_plane(grid_state: Option<&GridState>) -> (plane: TexturedPlane)
    requires
        grid_state matches Some(grid) ==> grid.wf(),
    ensures
        plane == grid_plane(extents_of(grid_state).0, extents_of(grid_state).1),
        plane.wf(),
{
    let (size_x, size_z) = read_extents(grid_state);
    TexturedPlane { width: size_x as u32, height: size_z as u32, divisor: 1 }
}

/// Fence posts: a grid of `size_x` by `size_z` cells has `size_z + 1` lines
/// along X followed by `size_x + 1` lines along Z. In each group the first
/// line lies half the grid before the centre, the last half the grid after
/// it, and neighbours are one cell apart.
pub proof fn lemma_fence_post(size_x: i32, size_z: i32)
    requires
        GRID_SIZE_MIN <= size_x <= GRID_SIZE_MAX,
        GRID_SIZE_MIN <= size_z <= GRID_SIZE_MAX,
    ensures
        lines_along_x(size_x, size_z).len() == size_z + 1,
        lines_along_z(size_x, size_z).len() == size_x + 1,
        grid_lines(size_x, size_z).len() == (size_z + 1) + (size_x + 1),
        forall|i: int|
            0 <= i <= size_z ==> #[trigger] grid_lines(size_x, size_z)[i] == (GridLine {
                spans: GridAxis::X,
                length: size_x as u32,
                offset_halves: (2 * i - size_z) as i32,
            }),
        forall|i: int|
            0 <= i <= size_x ==> #[trigger] grid_lines(size_x, size_z)[size_z + 1 + i]
                == (GridLine {
                spans: GridAxis::Z,
                length: size_z as u32,
                offset_halves: (2 * i - size_x) as i32,
            }),
{
}

/// Fence posts on a square grid: `n` cells each way give exactly `n + 1`
/// lines along each axis.
pub proof fn lemma_fence_post_square(n: i32)
    requires
        GRID_SIZE_MIN <= n <= GRID_SIZE_MAX,
    ensures
        lines_along_x(n, n).len() == n + 1,
        lines_along_z(n, n).len() == n + 1,
        forall|i: int| 0 <= i <= n ==> (#[trigger] lines_along_x(n, n)[i]).spans == GridAxis::X,
        forall|i: int| 0 <= i <= n ==> (#[trigger] lines_along_z(n, n)[i]).spans == GridAxis::Z,
{
}

} // verus!
