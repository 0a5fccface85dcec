//! Deriving the rectangle that the 3D camera renders into.
//!
//! The UI takes the top bars, the bottom bar, the left panel and, unless it
//! is collapsed, the inspector on the right. The camera gets what is left.
//! Measurements that do not fit the window, as happens while it is resized,
//! give an empty rectangle on the axis concerned, never a negative one.

use vstd::prelude::*;
use crate::components::{EguiLayoutState, RightCamera};
use crate::geometry::{PhysicalSize, Viewport};

verus! {

/// Column at which the 3D view ends: the window's right edge while the
/// inspector is collapsed, else the column where the inspector starts.
pub open spec fn viewport_right_edge(window: PhysicalSize, layout: EguiLayoutState) -> int {
    if layout.inspector_collapsed {
        window.width as int
    } else {
        layout.right_panel_start_x as int
    }
}

/// Width of the 3D view: from the left panel's end to the right edge, or
/// nothing where the right edge lies before it.
pub open spec fn viewport_width(window: PhysicalSize, layout: EguiLayoutState) -> int {
    let span = viewport_right_edge(window, layout) - layout.left_panel_end_x;
    if span < 0 {
        0
    } else {
        span
    }
}

/// Height of the 3D view: the window's height less the bars at the top and
/// the bar at the bottom, or nothing where the bars do not fit.
pub open spec fn viewport_height(window: PhysicalSize, layout: EguiLayoutState) -> int {
    let span = window.height - layout.top_bars_height - layout.bottom_bar_height;
    if span < 0 {
        0
    } else {
        span
    }
}

/// The rectangle of the 3D view: it starts right of the left panel and below
/// the top bars, and is as wide and as high as the UI leaves room.
pub open spec fn derived_viewport(window: PhysicalSize, layout: EguiLayoutState) -> Viewport {
    Viewport {
        x: layout.left_panel_end_x,
        y: layout.top_bars_height,
        width: viewport_width(window, layout) as u32,
        height: viewport_height(window, layout) as u32,
    }
}

/// Computes the rectangle of the 3D view.
pub fn derive_viewport(window: PhysicalSize, layout: &EguiLayoutState) -> (viewport: Viewport)
    ensures
        viewport == derived_viewport(window, *layout),
        viewport.x == layout.left_panel_end_x,
        viewport.y == layout.top_bars_height,
        viewport.width == viewport_width(window, *layout),
        viewport.height == viewport_height(window, *layout),
{
    let right_edge = if layout.inspector_collapsed {
        window.width
    } else {
        layout.right_panel_start_x
    };
    Viewport {
        x: layout.left_panel_end_x,
        y: layout.top_bars_height,
        width: right_edge.saturating_sub(layout.left_panel_end_x),
        height: window.height.saturating_sub(layout.top_bars_height).saturating_sub(
            layout.bottom_bar_height,
        ),
    }
}

/// Points the camera at the rectangle derived from this frame's layout.
/// Without a window there is nothing to derive from, and the camera keeps
/// the rectangle it had.
pub fn update_camera_viewports(
    window: Option<PhysicalSize>,
    right_camera: &mut RightCamera,
    layout_state: &EguiLayoutState,
)
    ensures
        final(right_camera).viewport == match window {
            Some(size) => Some(derived_viewport(size, *layout_state)),
            None => old(right_camera).viewport,
        },
{
    if let Some(size) = window {
        right_camera.viewport = Some(derive_viewport(size, layout_state));
    }
}

/// The derived width and height are never negative, and the rectangle never
/// reaches past the bounds it was cut from.
pub proof fn lemma_viewport_is_non_negative(window: PhysicalSize, layout: EguiLayoutState)
    ensures
        0 <= viewport_width(window, layout) <= viewport_right_edge(window, layout),
        0 <= viewport_height(window, layout) <= window.height,
        derived_viewport(window, layout).width == viewport_width(window, layout),
        derived_viewport(window, layout).height == viewport_height(window, layout),
{
}

/// With the left panel's end held fixed, collapsing the inspector does not
/// narrow the view, as long as the inspector did not start past the window's
/// right edge while also starting right of the left panel.
pub proof fn lemma_collapse_extends(window: PhysicalSize, expanded: EguiLayoutState, collapsed: EguiLayoutState)
    requires
        !expanded.inspector_collapsed,
        collapsed.inspector_collapsed,
        collapsed.left_panel_end_x == expanded.left_panel_end_x,
        expanded.right_panel_start_x <= window.width || expanded.right_panel_start_x
            <= expanded.left_panel_end_x,
    ensures
        viewport_width(window, collapsed) >= viewport_width(window, expanded),
{
}

/// While the panels are in order and the bars fit the window, nothing is
/// clamped: the view with the inspector shown is exactly the gap between
/// the panels.
pub proof fn lemma_ordered_panels_are_not_clamped(window: PhysicalSize, layout: EguiLayoutState)
    requires
        layout.panels_ordered(),
        !layout.inspector_collapsed,
        layout.top_bars_height + layout.bottom_bar_height <= window.height,
    ensures
        viewport_width(window, layout) == layout.right_panel_start_x - layout.left_panel_end_x,
        viewport_height(window, layout) == window.height - layout.top_bars_height
            - layout.bottom_bar_height,
        layout.left_panel_end_x + viewport_width(window, layout) == layout.right_panel_start_x,
        layout.top_bars_height + viewport_height(window, layout) + layout.bottom_bar_height
            == window.height,
{
}

} // verus!
