//! Plain values that the phases hand to each other: pixel rectangles, exact
//! fractions and the texture-coordinate transform built from them.

use vstd::prelude::*;

verus! {

/// Size of a window or an image in physical pixels.
#[derive(Clone, Copy, PartialEq, Eq, Structural, Debug)]
pub struct PhysicalSize {
    pub width: u32,
    pub height: u32,
}

/// Rectangle of the window that a camera renders into, in physical pixels.
#[derive(Clone, Copy, PartialEq, Eq, Structural, Debug)]
pub struct Viewport {
    /// Column of the left edge.
    pub x: u32,
    /// Row of the top edge.
    pub y: u32,
    pub width: u32,
    pub height: u32,
}

/// Direction along which a grid line runs.
#[derive(Clone, Copy, PartialEq, Eq, Structural, Debug)]
pub enum GridAxis {
    X,
    Z,
}

/// A non-negative fraction `num / den`, kept exactly as it was computed.
///
/// Two fractions of the same value may differ in their fields; compare them
/// with [`Ratio::same_value`].
#[derive(Clone, Copy, PartialEq, Eq, Structural, Debug)]
pub struct Ratio {
    pub num: u128,
    pub den: u128,
}

impl Ratio {
    /// The denominator is not zero.
    pub open spec fn wf(&self) -> bool {
        self.den > 0
    }

    /// The fraction `1 / 1`.
    pub open spec fn one() -> Ratio {
        Ratio { num: 1, den: 1 }
    }

    /// The fraction `0 / 1`.
    pub open spec fn zero() -> Ratio {
        Ratio { num: 0, den: 1 }
    }

    /// Both fractions stand for the same number.
    pub open spec fn same_value(&self, other: Ratio) -> bool {
        self.num * other.den == other.num * self.den
    }

    /// `self` is half of what `scale` leaves of one: `2 * self + scale == 1`.
    pub open spec fn centres(&self, scale: Ratio) -> bool {
        2 * self.num * scale.den + scale.num * self.den == self.den * scale.den
    }

    /// The fraction `(1 - scale) / 2`, for a `scale` of at most one.
    pub open spec fn centring_offset(scale: Ratio) -> Ratio {
        Ratio { num: (scale.den - scale.num) as u128, den: (2 * scale.den) as u128 }
    }
}

/// Scale and translation applied to texture coordinates in the unit square:
/// `u' = scale_x * u + offset_x`, `v' = scale_y * v + offset_y`.
#[derive(Clone, Copy, PartialEq, Eq, Structural, Debug)]
pub struct UvTransform {
    pub scale_x: Ratio,
    pub scale_y: Ratio,
    pub offset_x: Ratio,
    pub offset_y: Ratio,
}

impl UvTransform {
    /// Scale one and offset zero on both axes, each in lowest terms.
    pub open spec fn identity() -> UvTransform {
        UvTransform {
            scale_x: Ratio::one(),
            scale_y: Ratio::one(),
            offset_x: Ratio::zero(),
            offset_y: Ratio::zero(),
        }
    }

    /// All four fractions have a denominator.
    pub open spec fn wf(&self) -> bool {
        &&& self.scale_x.wf()
        &&& self.scale_y.wf()
        &&& self.offset_x.wf()
        &&& self.offset_y.wf()
    }

    /// The transform leaves every coordinate where it is.
    pub open spec fn maps_as_identity(&self) -> bool {
        &&& self.wf()
        &&& self.scale_x.same_value(Ratio::one())
        &&& self.scale_y.same_value(Ratio::one())
        &&& self.offset_x.same_value(Ratio::zero())
        &&& self.offset_y.same_value(Ratio::zero())
    }

    /// Whether the transform leaves every coordinate where it is.
    pub fn is_identity(&self) -> (r: bool)
        ensures
            r == self.maps_as_identity(),
    {
        self.scale_x.den != 0 && self.scale_y.den != 0 && self.offset_x.den != 0
            && self.offset_y.den != 0 && self.scale_x.num == self.scale_x.den
            && self.scale_y.num == self.scale_y.den && self.offset_x.num == 0
            && self.offset_y.num == 0
    }
}

} // verus!
