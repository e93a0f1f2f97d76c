//! An abstract, verified model of a 2D frame-rendering pipeline.
//!
//! The crate models the parts of a windowed renderer that are pure logic:
//! the surface configuration and its resize rules, an orthographic camera
//! over exact rational coordinates, rectangle fill and stroke tessellation
//! into an indexed triangle mesh, raw texture data with a bilinear sampling
//! model, the fixed per-frame draw sequence, and the event-loop decisions
//! that drive them. Everything GPU- or window-facing (device objects,
//! surfaces, float vertex buffers) lives outside this crate and is driven
//! by the plain values these types carry.

pub mod camera;
pub mod context;
pub mod frame_loop;
pub mod geometry;
pub mod renderer;
pub mod texture;
pub mod units;
pub mod vertex;
