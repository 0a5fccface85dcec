//! Fitting a texture onto the reference plane.
//!
//! The plane's shape follows the aspect-ratio selection and the grid's depth.
//! In `Normal` mode the texture keeps its own proportions: it fills the plane
//! along one axis and is centred along the other. In `Stretch` mode it covers
//! the plane whatever its proportions. All values are exact fractions.

use vstd::prelude::*;
use crate::components::{AspectRatio, AspectRatioState, GridState, TextureMode, TextureModeState, TexturedPlane};
use crate::constants::{GRID_SIZE_MAX, GRID_SIZE_MIN};
use crate::geometry::{PhysicalSize, Ratio, UvTransform};

verus! {

/// The plane for a grid that is `grid_z` cells deep: as deep as the grid,
/// and as wide as the aspect ratio asks.
pub open spec fn plane_dimensions(aspect: AspectRatio, grid_z: i32) -> TexturedPlane {
    match aspect {
        AspectRatio::Ratio16_9 => TexturedPlane {
            width: (16 * grid_z) as u32,
            height: (9 * grid_z) as u32,
            divisor: 9,
        },
        AspectRatio::Square => TexturedPlane {
            width: grid_z as u32,
            height: grid_z as u32,
            divisor: 1,
        },
    }
}

/// The texture is wider, for its height, than the plane:
/// `texture.width / texture.height > plane.width / plane.height`, with both
/// sides multiplied by the two heights.
pub open spec fn texture_is_wider(plane: TexturedPlane, texture: PhysicalSize) -> bool {
    texture.width * plane.height > texture.height * plane.width
}

/// Both the plane and the texture have a width and a height, so that both
/// aspect ratios exist.
pub open spec fn fit_is_defined(plane: TexturedPlane, texture: PhysicalSize) -> bool {
    plane.width > 0 && plane.height > 0 && texture.width > 0 && texture.height > 0
}

/// The share of the plane's depth that the texture covers once it fills the
/// plane's width: `(texture.height * plane.width / texture.width) / plane.height`.
pub open spec fn depth_coverage(plane: TexturedPlane, texture: PhysicalSize) -> Ratio {
    Ratio {
        num: (texture.height * plane.width) as u128,
        den: (texture.width * plane.height) as u128,
    }
}

/// The share of the plane's width that the texture covers once it fills the
/// plane's depth: `(texture.width * plane.height / texture.height) / plane.width`.
pub open spec fn width_coverage(plane: TexturedPlane, texture: PhysicalSize) -> Ratio {
    Ratio {
        num: (texture.width * plane.height) as u128,
        den: (texture.height * plane.width) as u128,
    }
}

/// The transform that lays `texture` onto `plane` in the given mode, or
/// `None` where `Normal` mode meets a plane or texture without an aspect ratio.
///
/// A texture that is exactly as wide for its height as the plane is fitted
/// by depth; its coverage of the width is then one.
pub open spec fn fit_transform(plane: TexturedPlane, texture: PhysicalSize, mode: TextureMode) -> Option<UvTransform> {
    match mode {
        TextureMode::Stretch => Some(UvTransform::identity()),
        TextureMode::Normal => if !fit_is_defined(plane, texture) {
            None
        } else if texture_is_wider(plane, texture) {
            let scale = depth_coverage(plane, texture);
            Some(UvTransform {
                scale_x: Ratio::one(),
                scale_y: scale,
                offset_x: Ratio::zero(),
                offset_y: Ratio::centring_offset(scale),
            })
        } else {
            let scale = width_coverage(plane, texture);
            Some(UvTransform {
                scale_x: scale,
                scale_y: Ratio::one(),
                offset_x: Ratio::centring_offset(scale),
                offset_y: Ratio::zero(),
            })
        },
    }
}

/// The product of two 32-bit values, which always fits.
fn wide_product(a: u32, b: u32) -> (r: u128)
    ensures
        r == a * b,
        r <= 0xFFFF_FFFE_0000_0001,
        a > 0 && b > 0 ==> r > 0,
{
    proof {
        lemma_product_bounds(a, b);
    }
    (a as u128) * (b as u128)
}

/// The offset that centres a coverage of at most one.
fn centre(scale: Ratio) -> (r: Ratio)
    requires
        scale.num <= scale.den <= 0xFFFF_FFFE_0000_0001,
    ensures
        r == Ratio::centring_offset(scale),
{
    Ratio { num: scale.den - scale.num, den: 2 * scale.den }
}

/// Computes the plane for a grid that is `grid_z` cells deep.
pub fn plane_for(aspect: AspectRatio, grid_z: i32) -> (plane: TexturedPlane)
    requires
        GRID_SIZE_MIN <= grid_z <= GRID_SIZE_MAX,
    ensures
        plane == plane_dimensions(aspect, grid_z),
        plane.wf(),
        plane.width == (if aspect == AspectRatio::Square { 1int } else { 16int }) * grid_z,
        plane.height == (if aspect == AspectRatio::Square { 1int } else { 9int }) * grid_z,
{
    let depth = grid_z as u32;
    match aspect {
        AspectRatio::Ratio16_9 => TexturedPlane { width: 16 * depth, height: 9 * depth, divisor: 9 },
        AspectRatio::Square => TexturedPlane { width: depth, height: depth, divisor: 1 },
    }
}

/// Computes the transform that lays `texture` onto `plane`.
pub fn fit_texture(plane: &TexturedPlane, texture: PhysicalSize, mode: TextureMode) -> (r: Option<UvTransform>)
    ensures
        r == fit_transform(*plane, texture, mode),
        r is None <==> mode == TextureMode::Normal && !fit_is_defined(*plane, texture),
        r matches Some(t) ==> t.wf(),
{
    let one = Ratio { num: 1, den: 1 };
    let zero = Ratio { num: 0, den: 1 };
    match mode {
        TextureMode::Stretch => Some(
            UvTransform { scale_x: one, scale_y: one, offset_x: zero, offset_y: zero },
        ),
        TextureMode::Normal => {
            if plane.width == 0 || plane.height == 0 || texture.width == 0 || texture.height == 0 {
                return None;
            }
            let across = wide_product(texture.width, plane.height);
            let along = wide_product(texture.height, plane.width);
            if across > along {
                let scale = Ratio { num: along, den: across };
                Some(UvTransform { scale_x: one, scale_y: scale, offset_x: zero, offset_y: centre(scale) })
            } else {
                let scale = Ratio { num: across, den: along };
                Some(UvTransform { scale_x: scale, scale_y: one, offset_x: centre(scale), offset_y: zero })
            }
        },
    }
}

/// The transform to set on a plane's material: none while no texture is
/// bound to it, else the fit of that texture.
pub open spec fn material_transform(plane: TexturedPlane, texture: Option<PhysicalSize>, mode: TextureMode) -> Option<UvTransform> {
    match texture {
        Some(size) => fit_transform(plane, size, mode),
        None => None,
    }
}

/// The plane shape, the texture mode or the grid's depth differs from the
/// value last processed.
pub open spec fn refit_needed(aspect: AspectRatioState, mode: TextureModeState, grid: GridState) -> bool {
    aspect.changed() || mode.changed() || grid.size_z != grid.previous_size_z
}

/// What a change of shape, mode or depth asks of the textured planes.
#[derive(Debug)]
pub struct PlaneUpdate {
    /// The new extent of every plane's mesh.
    pub plane: TexturedPlane,
    /// For each plane, in the order given, the transform to set on its
    /// material; `None` leaves that material's transform as it is.
    pub uv_transforms: Vec<Option<UvTransform>>,
}

/// Computes the transform to set on one plane's material.
pub fn material_transform_for(plane: &TexturedPlane, texture: Option<PhysicalSize>, mode: TextureMode) -> (r: Option<UvTransform>)
    ensures
        r == material_transform(*plane, texture, mode),
{
    match texture {
        Some(size) => fit_texture(plane, size, mode),
        None => None,
    }
}

/// Re-derives the planes' extent and texture transforms if, and only if, the
/// aspect ratio, the texture mode or the grid's depth changed since they
/// were last processed, and takes the two selections over into their shadows.
///
/// `textures[i]` is the pixel size of the texture bound to the `i`-th plane,
/// or `None` if that plane has none.
pub fn update_texture_aspect_ratio(
    aspect_ratio_state: &mut AspectRatioState,
    texture_mode_state: &mut TextureModeState,
    grid_state: &GridState,
    textures: &Vec<Option<PhysicalSize>>,
) -> (r: Option<PlaneUpdate>)
    requires
        grid_state.wf(),
    ensures
        final(aspect_ratio_state).current == old(aspect_ratio_state).current,
        final(aspect_ratio_state).previous == old(aspect_ratio_state).current,
        final(texture_mode_state).current == old(texture_mode_state).current,
        final(texture_mode_state).previous == old(texture_mode_state).current,
        r is Some <==> refit_needed(*old(aspect_ratio_state), *old(texture_mode_state), *grid_state),
        r matches Some(update) ==> {
            &&& update.plane == plane_dimensions(old(aspect_ratio_state).current, grid_state.size_z)
            &&& update.uv_transforms@.len() == textures@.len()
            &&& forall|i: int|
                0 <= i < textures@.len() ==> #[trigger] update.uv_transforms@[i]
                    == material_transform(
                    update.plane,
                    textures@[i],
                    old(texture_mode_state).current,
                )
        },
{
    let aspect_changed = aspect_ratio_state.acknowledge();
    let mode_changed = texture_mode_state.acknowledge();
    let depth_changed = grid_state.size_z != grid_state.previous_size_z;
    if !(aspect_changed || depth_changed || mode_changed) {
        return None;
    }
    let plane = plane_for(aspect_ratio_state.current, grid_state.size_z);
    let mode = texture_mode_state.current;
    let mut uv_transforms: Vec<Option<UvTransform>> = Vec::new();
    let mut i: usize = 0;
    while i < textures.len()
        invariant
            i <= textures@.len(),
            uv_transforms@.len() == i,
            forall|j: int|
                0 <= j < i ==> #[trigger] uv_transforms@[j] == material_transform(
                    plane,
                    textures@[j],
                    mode,
                ),
        decreases textures@.len() - i,
    {
        uv_transforms.push(material_transform_for(&plane, textures[i], mode));
        i += 1;
    }
    Some(PlaneUpdate { plane, uv_transforms })
}

/// In `Stretch` mode the transform is the identity, whatever the shapes of
/// plane and texture.
pub proof fn lemma_stretch_is_identity(plane: TexturedPlane, texture: PhysicalSize)
    ensures
        fit_transform(plane, texture, TextureMode::Stretch) == Some(UvTransform::identity()),
        UvTransform::identity().maps_as_identity(),
{
}

/// In `Normal` mode a texture that is wider for its height than the plane
/// keeps scale one and offset zero across the plane; along the plane's depth
/// it covers less than the whole, and its offset is half of what is left.
pub proof fn lemma_wider_texture_is_centred_in_depth(plane: TexturedPlane, texture: PhysicalSize)
    requires
        fit_is_defined(plane, texture),
        texture_is_wider(plane, texture),
    ensures
        fit_transform(plane, texture, TextureMode::Normal) matches Some(t) && {
            &&& t.scale_x == Ratio::one()
            &&& t.offset_x == Ratio::zero()
            &&& t.scale_y.num == texture.height * plane.width
            &&& t.scale_y.den == texture.width * plane.height
            &&& 0 < t.scale_y.num < t.scale_y.den
            &&& t.offset_y.num == t.scale_y.den - t.scale_y.num
            &&& t.offset_y.den == 2 * t.scale_y.den
            &&& t.offset_y.centres(t.scale_y)
        },
{
    let num = texture.height * plane.width;
    let den = texture.width * plane.height;
    lemma_product_bounds(texture.height, plane.width);
    lemma_product_bounds(texture.width, plane.height);
    lemma_centring(num, den);
}

/// In `Normal` mode a texture that is not wider for its height than the
/// plane keeps scale one and offset zero along the plane's depth; across the
/// plane it covers at most the whole, and its offset is half of what is left.
pub proof fn lemma_other_texture_is_centred_in_width(plane: TexturedPlane, texture: PhysicalSize)
    requires
        fit_is_defined(plane, texture),
        !texture_is_wider(plane, texture),
    ensures
        fit_transform(plane, texture, TextureMode::Normal) matches Some(t) && {
            &&& t.scale_y == Ratio::one()
            &&& t.offset_y == Ratio::zero()
            &&& t.scale_x.num == texture.width * plane.height
            &&& t.scale_x.den == texture.height * plane.width
            &&& 0 < t.scale_x.num <= t.scale_x.den
            &&& t.offset_x.num == t.scale_x.den - t.scale_x.num
            &&& t.offset_x.den == 2 * t.scale_x.den
            &&& t.offset_x.centres(t.scale_x)
        },
{
    let num = texture.width * plane.height;
    let den = texture.height * plane.width;
    lemma_product_bounds(texture.width, plane.height);
    lemma_product_bounds(texture.height, plane.width);
    lemma_centring(num, den);
}

/// In `Normal` mode a texture of exactly the plane's aspect ratio is mapped
/// as in `Stretch` mode.
pub proof fn lemma_equal_aspect_maps_as_identity(plane: TexturedPlane, texture: PhysicalSize)
    requires
        fit_is_defined(plane, texture),
        texture.width * plane.height == texture.height * plane.width,
    ensures
        fit_transform(plane, texture, TextureMode::Normal) matches Some(t) && t.maps_as_identity(),
{
    lemma_other_texture_is_centred_in_width(plane, texture);
}

/// A product of two 32-bit values is positive where both are, and stays
/// below the square of the largest of them.
proof fn lemma_product_bounds(a: u32, b: u32)
    ensures
        0 <= a * b <= 0xFFFF_FFFE_0000_0001,
        a > 0 && b > 0 ==> a * b > 0,
{
    assert(0 <= a * b <= 0xFFFF_FFFF * 0xFFFF_FFFF) by (nonlinear_arith)
        requires
            0 <= a <= 0xFFFF_FFFF,
            0 <= b <= 0xFFFF_FFFF,
    ;
    assert(a > 0 && b > 0 ==> a * b > 0) by (nonlinear_arith);
}

/// The centring offset of `num / den` is `(den - num) / (2 * den)`, and
/// twice that plus `num / den` is one.
proof fn lemma_centring(num: int, den: int)
    requires
        0 <= num <= den <= 0xFFFF_FFFE_0000_0001,
        0 < den,
    ensures
        Ratio::centring_offset(Ratio { num: num as u128, den: den as u128 }) == (Ratio {
            num: (den - num) as u128,
            den: (2 * den) as u128,
        }),
        (Ratio { num: (den - num) as u128, den: (2 * den) as u128 }).centres(
            Ratio { num: num as u128, den: den as u128 },
        ),
{
    assert(2 * (den - num) * den + num * (2 * den) == (2 * den) * den) by (nonlinear_arith);
}

} // verus!
