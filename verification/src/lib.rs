//! The integer core of a Whitted-style ray tracer: 24-bit color packing
//! and clamped per-channel accumulation, texture pixel grids with
//! clamping and wrapping lookup policies, the z-buffer rule that picks
//! the nearest hit along a ray, and the framebuffer pixel store with its
//! nearest-neighbor upscaler. Every function carries a contract; the
//! floating-point shading kernel around this core lives with the binary.

pub mod color;
pub mod framebuffer;
pub mod texture;
pub mod zbuffer;
