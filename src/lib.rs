//! GPU rendering resources for a 2D renderer: the unit-quad geometry that every
//! draw call shares, and lazily built pipeline objects memoized per render
//! target configuration (sample count and pixel format).
pub mod cache;
pub mod color;
pub mod descriptors;
pub mod geometry;
pub mod pipeline;
pub mod quad;
