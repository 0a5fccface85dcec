use scene_viewer::components::{
    clamp_extent, AspectRatio, AspectRatioState, CameraProjectionState, EguiLayoutState, GridState,
    LoadedTextures, RightCamera, StreamsPanelState, TextureMode, TextureModeState,
};
use scene_viewer::constants::{DEFAULT_FOV_DEGREES, DEFAULT_GRID_SIZE, GRID_SIZE_MAX, GRID_SIZE_MIN};

#[test]
fn start_up_values() {
    let grid = GridState::default();
    assert_eq!((grid.size_x, grid.size_z, grid.previous_size_x, grid.previous_size_z), (10, 10, 10, 10));
    let aspect = AspectRatioState::default();
    assert_eq!((aspect.current, aspect.previous), (AspectRatio::Square, AspectRatio::Square));
    let mode = TextureModeState::default();
    assert_eq!((mode.current, mode.previous), (TextureMode::Stretch, TextureMode::Stretch));
    assert_eq!(CameraProjectionState::default().last_perspective_fov, 60);
    assert!(!StreamsPanelState::default().is_visible);
    assert!(LoadedTextures::default().textures.is_empty());
    assert_eq!(RightCamera::default().viewport, None);
    let layout = EguiLayoutState::default();
    assert_eq!(
        (
            layout.left_panel_end_x,
            layout.right_panel_start_x,
            layout.top_bars_height,
            layout.bottom_bar_height,
            layout.left_panel_content_width,
            layout.right_panel_content_width,
            layout.inspector_collapsed,
        ),
        (0, 0, 0, 0, 0, 0, false)
    );
    assert_eq!((GRID_SIZE_MIN, GRID_SIZE_MAX, DEFAULT_GRID_SIZE, DEFAULT_FOV_DEGREES), (1, 100, 10, 60));
}

#[test]
fn grid_extents_are_clamped() {
    assert_eq!(clamp_extent(0), 1);
    assert_eq!(clamp_extent(1), 1);
    assert_eq!(clamp_extent(57), 57);
    assert_eq!(clamp_extent(100), 100);
    assert_eq!(clamp_extent(101), 100);
    assert_eq!(clamp_extent(i32::MIN), 1);
    assert_eq!(clamp_extent(i32::MAX), 100);
    let mut grid = GridState::new(-5, 1000);
    assert_eq!((grid.size_x, grid.size_z, grid.previous_size_x, grid.previous_size_z), (1, 100, 1, 100));
    assert!(grid.is_well_formed());
    grid.set_size_x(250);
    grid.set_size_z(0);
    assert_eq!((grid.size_x, grid.size_z, grid.previous_size_x, grid.previous_size_z), (100, 1, 1, 100));
    assert!(grid.is_well_formed());
}

#[test]
fn grid_state_written_past_its_range_is_reported() {
    let mut grid = GridState::default();
    grid.size_x = 0;
    assert!(!grid.is_well_formed());
    grid.size_x = 10;
    grid.previous_size_z = 101;
    assert!(!grid.is_well_formed());
}

#[test]
fn grid_change_is_seen_until_acknowledged() {
    let mut grid = GridState::default();
    assert!(!grid.is_changed());
    grid.set_size_z(12);
    assert!(grid.is_changed());
    assert!(grid.acknowledge());
    assert_eq!((grid.size_x, grid.size_z, grid.previous_size_x, grid.previous_size_z), (10, 12, 10, 12));
    assert!(!grid.is_changed());
    assert!(!grid.acknowledge());
}

#[test]
fn aspect_ratio_change_is_seen_until_acknowledged() {
    let mut aspect = AspectRatioState::default();
    assert!(!aspect.is_changed());
    aspect.select(AspectRatio::Ratio16_9);
    assert_eq!((aspect.current, aspect.previous), (AspectRatio::Ratio16_9, AspectRatio::Square));
    assert!(aspect.is_changed());
    assert!(aspect.acknowledge());
    assert_eq!((aspect.current, aspect.previous), (AspectRatio::Ratio16_9, AspectRatio::Ratio16_9));
    assert!(!aspect.acknowledge());
}

#[test]
fn texture_mode_change_is_seen_until_acknowledged() {
    let mut mode = TextureModeState::default();
    mode.select(TextureMode::Normal);
    assert_eq!((mode.current, mode.previous), (TextureMode::Normal, TextureMode::Stretch));
    assert!(mode.is_changed());
    assert!(mode.acknowledge());
    assert_eq!((mode.current, mode.previous), (TextureMode::Normal, TextureMode::Normal));
    assert!(!mode.is_changed());
}

#[test]
fn inspector_toggles() {
    let mut layout = EguiLayoutState { left_panel_end_x: 238, right_panel_start_x: 1682, ..EguiLayoutState::default() };
    layout.toggle_inspector();
    assert!(layout.inspector_collapsed);
    assert_eq!((layout.left_panel_end_x, layout.right_panel_start_x), (238, 1682));
    layout.toggle_inspector();
    assert!(!layout.inspector_collapsed);
}

#[test]
fn streams_panel_shows_and_dismisses() {
    let mut panel = StreamsPanelState::default();
    panel.show();
    assert!(panel.is_visible);
    panel.show();
    assert!(panel.is_visible);
    panel.dismiss();
    assert!(!panel.is_visible);
}

#[test]
fn textures_are_listed_in_order_of_arrival() {
    let mut loaded = LoadedTextures::default();
    loaded.add(String::from("floor.png"));
    loaded.add(String::from("wall.png"));
    loaded.add(String::from("floor.png"));
    assert_eq!(loaded.textures, vec!["floor.png", "wall.png", "floor.png"]);
}

#[test]
fn field_of_view_is_kept_while_the_projection_is_not_perspective() {
    let mut state = CameraProjectionState::default();
    state.observe(None);
    assert_eq!(state.last_perspective_fov, 60);
    state.observe(Some(90));
    assert_eq!(state.last_perspective_fov, 90);
    state.observe(None);
    assert_eq!(state.last_perspective_fov, 90);
}
