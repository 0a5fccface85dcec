use scene_viewer::components::{EguiLayoutState, RightCamera};
use scene_viewer::geometry::{PhysicalSize, Viewport};
use scene_viewer::systems::viewport::{derive_viewport, update_camera_viewports};

fn to_physical(logical: f32, scale_factor: f32) -> u32 {
    (logical * scale_factor) as u32
}

fn layout(left: f32, right: f32, top: f32, bottom: f32, scale: f32, collapsed: bool) -> EguiLayoutState {
    EguiLayoutState {
        left_panel_end_x: to_physical(left, scale),
        right_panel_start_x: to_physical(right, scale),
        top_bars_height: to_physical(top, scale),
        bottom_bar_height: to_physical(bottom, scale),
        left_panel_content_width: 0,
        right_panel_content_width: 0,
        inspector_collapsed: collapsed,
    }
}

const FULL_HD: PhysicalSize = PhysicalSize { width: 1920, height: 1080 };

#[test]
fn viewport_with_inspector_shown() {
    let layout = layout(238.0, 1682.0, 42.0, 22.0, 1.0, false);
    let viewport = derive_viewport(FULL_HD, &layout);
    assert_eq!(viewport, Viewport { x: 238, y: 42, width: 1444, height: 1016 });
}

#[test]
fn viewport_with_inspector_collapsed() {
    let layout = layout(238.0, 1682.0, 42.0, 22.0, 1.0, true);
    let viewport = derive_viewport(FULL_HD, &layout);
    assert_eq!(viewport, Viewport { x: 238, y: 42, width: 1682, height: 1016 });
}

#[test]
fn viewport_at_fractional_scale() {
    // 238.03 * 1.5 = 357.045, 1681.97 * 1.5 = 2522.955, 42 * 1.5 = 63, 22 * 1.5 = 33
    let layout = layout(238.03, 1681.97, 42.0, 22.0, 1.5, false);
    let window = PhysicalSize { width: 2880, height: 1620 };
    let viewport = derive_viewport(window, &layout);
    assert_eq!(viewport, Viewport { x: 357, y: 63, width: 2165, height: 1524 });
}

#[test]
fn viewport_of_default_layout_is_empty_while_inspector_is_shown() {
    let viewport = derive_viewport(FULL_HD, &EguiLayoutState::default());
    assert_eq!(viewport, Viewport { x: 0, y: 0, width: 0, height: 1080 });
}

#[test]
fn viewport_width_clamps_to_zero_when_panels_cross() {
    let layout = layout(900.0, 400.0, 42.0, 22.0, 1.0, false);
    let viewport = derive_viewport(FULL_HD, &layout);
    assert_eq!(viewport, Viewport { x: 900, y: 42, width: 0, height: 1016 });
}

#[test]
fn viewport_width_clamps_to_zero_when_left_panel_exceeds_window() {
    let layout = layout(2000.0, 2100.0, 42.0, 22.0, 1.0, true);
    let viewport = derive_viewport(FULL_HD, &layout);
    assert_eq!(viewport.x, 2000);
    assert_eq!(viewport.width, 0);
}

#[test]
fn viewport_height_clamps_to_zero_when_bars_exceed_window() {
    let window = PhysicalSize { width: 800, height: 50 };
    let layout = layout(100.0, 700.0, 42.0, 22.0, 1.0, false);
    let viewport = derive_viewport(window, &layout);
    assert_eq!(viewport, Viewport { x: 100, y: 42, width: 600, height: 0 });
}

#[test]
fn viewport_height_clamps_to_zero_when_top_bars_alone_exceed_window() {
    let window = PhysicalSize { width: 800, height: 30 };
    let layout = layout(100.0, 700.0, 42.0, 0.0, 1.0, false);
    assert_eq!(derive_viewport(window, &layout).height, 0);
}

#[test]
fn viewport_survives_extreme_measurements() {
    let layout = EguiLayoutState {
        left_panel_end_x: u32::MAX,
        right_panel_start_x: 0,
        top_bars_height: u32::MAX,
        bottom_bar_height: u32::MAX,
        left_panel_content_width: 0,
        right_panel_content_width: 0,
        inspector_collapsed: false,
    };
    let viewport = derive_viewport(PhysicalSize { width: 0, height: 0 }, &layout);
    assert_eq!(viewport, Viewport { x: u32::MAX, y: u32::MAX, width: 0, height: 0 });
    let widest = derive_viewport(
        PhysicalSize { width: u32::MAX, height: u32::MAX },
        &EguiLayoutState { inspector_collapsed: true, ..EguiLayoutState::default() },
    );
    assert_eq!(widest, Viewport { x: 0, y: 0, width: u32::MAX, height: u32::MAX });
}

#[test]
fn collapsing_the_inspector_never_narrows_the_view() {
    for left in [0u32, 100, 238, 960, 1919, 1920] {
        for right in [0u32, 238, 239, 1000, 1682, 1920] {
            let expanded = EguiLayoutState {
                left_panel_end_x: left,
                right_panel_start_x: right,
                top_bars_height: 42,
                bottom_bar_height: 22,
                left_panel_content_width: 0,
                right_panel_content_width: 0,
                inspector_collapsed: false,
            };
            let mut collapsed = expanded;
            collapsed.toggle_inspector();
            assert!(collapsed.inspector_collapsed);
            let narrow = derive_viewport(FULL_HD, &expanded);
            let wide = derive_viewport(FULL_HD, &collapsed);
            assert!(wide.width >= narrow.width);
            assert_eq!(wide.height, narrow.height);
            assert_eq!(wide.x, narrow.x);
        }
    }
}

#[test]
fn inspector_past_the_window_edge_makes_the_expanded_view_wider() {
    let window = PhysicalSize { width: 1000, height: 600 };
    let expanded = layout(100.0, 1200.0, 0.0, 0.0, 1.0, false);
    let collapsed = layout(100.0, 1200.0, 0.0, 0.0, 1.0, true);
    assert_eq!(derive_viewport(window, &expanded).width, 1100);
    assert_eq!(derive_viewport(window, &collapsed).width, 900);
}

#[test]
fn derivation_is_repeatable() {
    let layout = layout(238.0, 1682.0, 42.0, 22.0, 1.0, false);
    assert_eq!(derive_viewport(FULL_HD, &layout), derive_viewport(FULL_HD, &layout));
}

#[test]
fn camera_takes_the_derived_viewport() {
    let mut camera = RightCamera::default();
    assert_eq!(camera.viewport, None);
    let layout = layout(238.0, 1682.0, 42.0, 22.0, 1.0, false);
    update_camera_viewports(Some(FULL_HD), &mut camera, &layout);
    assert_eq!(camera.viewport, Some(Viewport { x: 238, y: 42, width: 1444, height: 1016 }));
}

#[test]
fn camera_keeps_its_viewport_without_a_window() {
    let mut camera = RightCamera::default();
    let shown = layout(238.0, 1682.0, 42.0, 22.0, 1.0, false);
    update_camera_viewports(None, &mut camera, &shown);
    assert_eq!(camera.viewport, None);
    update_camera_viewports(Some(FULL_HD), &mut camera, &shown);
    let collapsed = layout(238.0, 1682.0, 42.0, 22.0, 1.0, true);
    update_camera_viewports(None, &mut camera, &collapsed);
    assert_eq!(camera.viewport, Some(Viewport { x: 238, y: 42, width: 1444, height: 1016 }));
    update_camera_viewports(Some(FULL_HD), &mut camera, &collapsed);
    assert_eq!(camera.viewport, Some(Viewport { x: 238, y: 42, width: 1682, height: 1016 }));
}
