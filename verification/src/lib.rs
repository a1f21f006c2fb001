//! A verified core for a vector-scene render pipeline.
//!
//! The crate models the per-frame pipeline that turns a world of
//! scene-bearing entities into one rasterized canvas: extracting visible
//! instances, deriving a 2D affine transform for each from the camera's view
//! and projection, depth-sorting and composing them into one aggregate scene,
//! and deciding when the GPU renderer must be invoked.  All coordinates are
//! exact fixed-point numbers (see [`fixed`]), so every stage is a proven
//! function of its inputs.  Well-formed coordinates are capped at ±4096 in
//! real terms ([`fixed::FX_MAX`]): the modeling bound that keeps every
//! intermediate of the verified 4x4 inverse inside `i128`; a derivation
//! that would leave the range fails soft for that instance alone.

pub mod assets;
pub mod canvas;
pub mod fixed;
pub mod mat4;
pub mod render_pipeline;
pub mod vello_fragment;
pub mod vello_scene;
