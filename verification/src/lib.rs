//! A sphere-tracing renderer over fixed-point arithmetic.
//!
//! Every length, angle and color channel in this crate is an `i64` counted in
//! billionths of a unit, so that the whole marching engine — vector algebra,
//! camera projection, signed-distance queries and the per-ray state machine —
//! is exact integer arithmetic with verified contracts.

pub mod camera;
pub mod color_data_types;
pub mod fixed;
pub mod marcher;
mod random;
pub mod ray;
pub mod scene;
pub mod scene_objects;
pub mod screen;
pub mod threed_data_types;

pub use fixed::SCALE;
