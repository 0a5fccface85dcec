//! State records shared by the phases of a frame.
//!
//! Every record is written by one phase (the UI) and read by the others. The
//! scene parameters keep a shadow copy of their last processed value, so a
//! consumer detects an edit by comparing the pair and then takes the current
//! value over into the shadow.

use vstd::prelude::*;
use crate::constants::{DEFAULT_FOV_DEGREES, DEFAULT_GRID_SIZE, GRID_SIZE_MAX, GRID_SIZE_MIN};
use crate::geometry::{GridAxis, Viewport};

verus! {

/// Shape of the reference plane.
#[derive(Clone, Copy, PartialEq, Eq, Structural, Debug)]
pub enum AspectRatio {
    /// Sixteen units wide for every nine units deep.
    Ratio16_9,
    /// As wide as deep.
    Square,
}

/// The selected plane shape and the one last processed.
#[derive(Clone, Copy, Debug)]
pub struct AspectRatioState {
    pub current: AspectRatio,
    pub previous: AspectRatio,
}

impl AspectRatioState {
    /// The selection differs from the one last processed.
    pub open spec fn changed(&self) -> bool {
        self.current != self.previous
    }

    /// Whether the selection differs from the one last processed.
    pub fn is_changed(&self) -> (r: bool)
        ensures
            r == self.changed(),
    {
        self.current != self.previous
    }

    /// Selects a shape; the shadow keeps the value last processed.
    pub fn select(&mut self, choice: AspectRatio)
        ensures
            final(self).current == choice,
            final(self).previous == old(self).previous,
    {
        self.current = choice;
    }

    /// Takes the selection over into the shadow and reports whether it had changed.
    pub fn acknowledge(&mut self) -> (was_changed: bool)
        ensures
            was_changed == old(self).changed(),
            final(self).current == old(self).current,
            final(self).previous == old(self).current,
    {
        let was_changed = self.current != self.previous;
        self.previous = self.current;
        was_changed
    }
}

impl Default for AspectRatioState {
    fn default() -> (r: Self)
        ensures
            r.current == AspectRatio::Square,
            r.previous == AspectRatio::Square,
    {
        AspectRatioState { current: AspectRatio::Square, previous: AspectRatio::Square }
    }
}

/// How a texture is laid onto the reference plane.
#[derive(Clone, Copy, PartialEq, Eq, Structural, Debug)]
pub enum TextureMode {
    /// Keep the texture's own proportions and centre it on the plane.
    Normal,
    /// Spread the texture over the whole plane.
    Stretch,
}

/// The selected texture mode and the one last processed.
#[derive(Clone, Copy, Debug)]
pub struct TextureModeState {
    pub current: TextureMode,
    pub previous: TextureMode,
}

impl TextureModeState {
    /// The selection differs from the one last processed.
    pub open spec fn changed(&self) -> bool {
        self.current != self.previous
    }

    /// Whether the selection differs from the one last processed.
    pub fn is_changed(&self) -> (r: bool)
        ensures
            r == self.changed(),
    {
        self.current != self.previous
    }

    /// Selects a mode; the shadow keeps the value last processed.
    pub fn select(&mut self, choice: TextureMode)
        ensures
            final(self).current == choice,
            final(self).previous == old(self).previous,
    {
        self.current = choice;
    }

    /// Takes the selection over into the shadow and reports whether it had changed.
    pub fn acknowledge(&mut self) -> (was_changed: bool)
        ensures
            was_changed == old(self).changed(),
            final(self).current == old(self).current,
            final(self).previous == old(self).current,
    {
        let was_changed = self.current != self.previous;
        self.previous = self.current;
        was_changed
    }
}

impl Default for TextureModeState {
    fn default() -> (r: Self)
        ensures
            r.current == TextureMode::Stretch,
            r.previous == TextureMode::Stretch,
    {
        TextureModeState { current: TextureMode::Stretch, previous: TextureMode::Stretch }
    }
}

/// The value in `[GRID_SIZE_MIN, GRID_SIZE_MAX]` nearest to `value`.
pub open spec fn clamp_grid_size(value: int) -> int {
    if value < GRID_SIZE_MIN {
        GRID_SIZE_MIN as int
    } else if value > GRID_SIZE_MAX {
        GRID_SIZE_MAX as int
    } else {
        value
    }
}

/// Grid extents in cells, with the extents last processed.
#[derive(Clone, Copy, Debug)]
pub struct GridState {
    pub size_x: i32,
    pub size_z: i32,
    pub previous_size_x: i32,
    pub previous_size_z: i32,
}

impl GridState {
    /// Both extents, and both shadows, lie in `[GRID_SIZE_MIN, GRID_SIZE_MAX]`.
    pub open spec fn wf(&self) -> bool {
        &&& GRID_SIZE_MIN <= self.size_x <= GRID_SIZE_MAX
        &&& GRID_SIZE_MIN <= self.size_z <= GRID_SIZE_MAX
        &&& GRID_SIZE_MIN <= self.previous_size_x <= GRID_SIZE_MAX
        &&& GRID_SIZE_MIN <= self.previous_size_z <= GRID_SIZE_MAX
    }

    /// An extent differs from the one last processed.
    pub open spec fn changed(&self) -> bool {
        self.size_x != self.previous_size_x || self.size_z != self.previous_size_z
    }

    /// Whether both extents, and both shadows, lie in range.
    pub fn is_well_formed(&self) -> (r: bool)
        ensures
            r == self.wf(),
    {
        in_range(self.size_x) && in_range(self.size_z) && in_range(self.previous_size_x)
            && in_range(self.previous_size_z)
    }

    /// A grid of the given extents, each clamped into range, with nothing pending.
    pub fn new(size_x: i32, size_z: i32) -> (r: Self)
        ensures
            r.wf(),
            !r.changed(),
            r.size_x == clamp_grid_size(size_x as int),
            r.size_z == clamp_grid_size(size_z as int),
    {
        let x = clamp_extent(size_x);
        let z = clamp_extent(size_z);
        GridState { size_x: x, size_z: z, previous_size_x: x, previous_size_z: z }
    }

    /// Whether an extent differs from the one last processed.
    pub fn is_changed(&self) -> (r: bool)
        ensures
            r == self.changed(),
    {
        self.size_x != self.previous_size_x || self.size_z != self.previous_size_z
    }

    /// Sets the extent along X to `value`, clamped into range.
    pub fn set_size_x(&mut self, value: i32)
        ensures
            final(self).size_x == clamp_grid_size(value as int),
            final(self).size_z == old(self).size_z,
            final(self).previous_size_x == old(self).previous_size_x,
            final(self).previous_size_z == old(self).previous_size_z,
            old(self).wf() ==> final(self).wf(),
    {
        self.size_x = clamp_extent(value);
    }

    /// Sets the extent along Z to `value`, clamped into range.
    pub fn set_size_z(&mut self, value: i32)
        ensures
            final(self).size_z == clamp_grid_size(value as int),
            final(self).size_x == old(self).size_x,
            final(self).previous_size_x == old(self).previous_size_x,
            final(self).previous_size_z == old(self).previous_size_z,
            old(self).wf() ==> final(self).wf(),
    {
        self.size_z = clamp_extent(value);
    }

    /// Takes the extents over into the shadows and reports whether one had changed.
    pub fn acknowledge(&mut self) -> (was_changed: bool)
        ensures
            was_changed == old(self).changed(),
            final(self).size_x == old(self).size_x,
            final(self).size_z == old(self).size_z,
            final(self).previous_size_x == old(self).size_x,
            final(self).previous_size_z == old(self).size_z,
            !final(self).changed(),
    {
        let was_changed = self.size_x != self.previous_size_x
            || self.size_z != self.previous_size_z;
        self.previous_size_x = self.size_x;
        self.previous_size_z = self.size_z;
        was_changed
    }
}

/// Whether one extent lies in `[GRID_SIZE_MIN, GRID_SIZE_MAX]`.
fn in_range(value: i32) -> (r: bool)
    ensures
        r == (GRID_SIZE_MIN <= value <= GRID_SIZE_MAX),
{
    GRID_SIZE_MIN <= value && value <= GRID_SIZE_MAX
}

/// Clamps one extent into `[GRID_SIZE_MIN, GRID_SIZE_MAX]`.
pub fn clamp_extent(value: i32) -> (r: i32)
    ensures
        r == clamp_grid_size(value as int),
        GRID_SIZE_MIN <= r <= GRID_SIZE_MAX,
{
    if value < GRID_SIZE_MIN {
        GRID_SIZE_MIN
    } else if value > GRID_SIZE_MAX {
        GRID_SIZE_MAX
    } else {
        value
    }
}

impl Default for GridState {
    fn default() -> (r: Self)
        ensures
            r.size_x == DEFAULT_GRID_SIZE,
            r.size_z == DEFAULT_GRID_SIZE,
            r.previous_size_x == DEFAULT_GRID_SIZE,
            r.previous_size_z == DEFAULT_GRID_SIZE,
            r.wf(),
    {
        GridState {
            size_x: DEFAULT_GRID_SIZE,
            size_z: DEFAULT_GRID_SIZE,
            previous_size_x: DEFAULT_GRID_SIZE,
            previous_size_z: DEFAULT_GRID_SIZE,
        }
    }
}

/// Boundaries of the UI regions as measured this frame, in physical pixels,
/// and whether the right-hand inspector panel is collapsed.
#[derive(Clone, Copy, Debug)]
pub struct EguiLayoutState {
    /// Column at which the left panel ends.
    pub left_panel_end_x: u32,
    /// Column at which the right panel starts.
    pub right_panel_start_x: u32,
    /// Height of the bars at the top, taken together.
    pub top_bars_height: u32,
    /// Height of the bar at the bottom.
    pub bottom_bar_height: u32,
    /// Width of the content area inside the left panel.
    pub left_panel_content_width: u32,
    /// Width of the content area inside the right panel.
    pub right_panel_content_width: u32,
    /// The inspector panel is hidden.
    pub inspector_collapsed: bool,
}

impl EguiLayoutState {
    /// While the inspector is shown it starts at or right of the left panel's end.
    pub open spec fn panels_ordered(&self) -> bool {
        !self.inspector_collapsed ==> self.right_panel_start_x >= self.left_panel_end_x
    }

    /// Collapses the inspector if it is shown, shows it if it is collapsed.
    pub fn toggle_inspector(&mut self)
        ensures
            final(self).inspector_collapsed == !old(self).inspector_collapsed,
            final(self).left_panel_end_x == old(self).left_panel_end_x,
            final(self).right_panel_start_x == old(self).right_panel_start_x,
            final(self).top_bars_height == old(self).top_bars_height,
            final(self).bottom_bar_height == old(self).bottom_bar_height,
            final(self).left_panel_content_width == old(self).left_panel_content_width,
            final(self).right_panel_content_width == old(self).right_panel_content_width,
    {
        self.inspector_collapsed = !self.inspector_collapsed;
    }
}

impl Default for EguiLayoutState {
    fn default() -> (r: Self)
        ensures
            r.left_panel_end_x == 0,
            r.right_panel_start_x == 0,
            r.top_bars_height == 0,
            r.bottom_bar_height == 0,
            r.left_panel_content_width == 0,
            r.right_panel_content_width == 0,
            !r.inspector_collapsed,
    {
        EguiLayoutState {
            left_panel_end_x: 0,
            right_panel_start_x: 0,
            top_bars_height: 0,
            bottom_bar_height: 0,
            left_panel_content_width: 0,
            right_panel_content_width: 0,
            inspector_collapsed: false,
        }
    }
}

/// Whether the full-area streams overlay covers the 3D view.
#[derive(Clone, Copy, Debug)]
pub struct StreamsPanelState {
    pub is_visible: bool,
}

impl StreamsPanelState {
    /// Puts the overlay over the 3D view.
    pub fn show(&mut self)
        ensures
            final(self).is_visible,
    {
        self.is_visible = true;
    }

    /// Takes the overlay away, back to the workspace.
    pub fn dismiss(&mut self)
        ensures
            !final(self).is_visible,
    {
        self.is_visible = false;
    }
}

impl Default for StreamsPanelState {
    fn default() -> (r: Self)
        ensures
            !r.is_visible,
    {
        StreamsPanelState { is_visible: false }
    }
}

/// Names of the textures loaded so far, in the order in which they arrived.
#[derive(Debug)]
pub struct LoadedTextures {
    pub textures: Vec<String>,
}

impl LoadedTextures {
    /// Appends a name; the names already listed stay where they are.
    pub fn add(&mut self, name: String)
        ensures
            final(self).textures@ == old(self).textures@.push(name),
    {
        self.textures.push(name);
    }
}

impl Default for LoadedTextures {
    fn default() -> (r: Self)
        ensures
            r.textures@ == Seq::<String>::empty(),
    {
        LoadedTextures { textures: Vec::new() }
    }
}

/// The field of view last seen on a perspective projection, in whole degrees.
#[derive(Clone, Copy, Debug)]
pub struct CameraProjectionState {
    pub last_perspective_fov: u32,
}

impl CameraProjectionState {
    /// Records the field of view of the camera's projection. `None` stands
    /// for a projection that is not a perspective one: the value recorded
    /// before is then kept.
    pub fn observe(&mut self, perspective_fov: Option<u32>)
        ensures
            final(self).last_perspective_fov == match perspective_fov {
                Some(fov) => fov,
                None => old(self).last_perspective_fov,
            },
    {
        if let Some(fov) = perspective_fov {
            self.last_perspective_fov = fov;
        }
    }
}

impl Default for CameraProjectionState {
    fn default() -> (r: Self)
        ensures
            r.last_perspective_fov == DEFAULT_FOV_DEGREES,
    {
        CameraProjectionState { last_perspective_fov: DEFAULT_FOV_DEGREES }
    }
}

/// The camera that renders the 3D scene into what the UI leaves free.
#[derive(Clone, Copy, Debug)]
pub struct RightCamera {
    /// Where the camera renders; `None` until a first rectangle was derived.
    pub viewport: Option<Viewport>,
}

impl Default for RightCamera {
    fn default() -> (r: Self)
        ensures
            r.viewport is None,
    {
        RightCamera { viewport: None }
    }
}

/// One line of the ground grid. It lies in the ground plane, is centred on
/// the axis it crosses and runs along `spans`.
#[derive(Clone, Copy, PartialEq, Eq, Structural, Debug)]
pub struct GridLine {
    /// Axis along which the line runs.
    pub spans: GridAxis,
    /// Length of the line in cells.
    pub length: u32,
    /// Signed distance of the line from the grid's centre along the other
    /// axis, in half cells.
    pub offset_halves: i32,
}

/// Extent of the reference plane that carries the texture. The plane is
/// `width / divisor` units wide and `height / divisor` units deep.
#[derive(Clone, Copy, PartialEq, Eq, Structural, Debug)]
pub struct TexturedPlane {
    pub width: u32,
    pub height: u32,
    pub divisor: u32,
}

impl TexturedPlane {
    /// The plane has a width, a depth and a unit.
    pub open spec fn wf(&self) -> bool {
        self.width > 0 && self.height > 0 && self.divisor > 0
    }
}

} // verus!
