//! The per-frame derivations: camera viewport, texture fit, grid rebuild.

pub mod grid;
pub mod texture;
pub mod viewport;
