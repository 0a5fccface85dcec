//! Layout, viewport and geometry rules of a 3D scene viewer with an overlay UI.
//!
//! The crate holds the decisions the viewer makes every frame, on plain
//! integers and exact fractions: which rectangle of the window the 3D camera
//! renders into, how a texture is fitted onto the reference plane, and which
//! grid lines and plane a pair of grid extents produces. Window handling,
//! rendering and widgets are left to the program that uses it; it hands in
//! what it measured, in physical pixels, and takes back what to show.
//!
//! * [`components`]: the state records, each with its start-up value and the
//!   edits a user can make.
//! * [`geometry`]: rectangles, fractions and the texture-coordinate transform.
//! * [`setup`]: the grid lines and the plane of given extents.
//! * [`systems`]: what is re-derived each frame, and when.

pub mod components;
pub mod constants;
pub mod geometry;
pub mod setup;
pub mod systems;
