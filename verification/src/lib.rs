//! Core logic of an instanced-quad renderer, stated and proved over plain
//! integer data.
//!
//! Scalar vertex attributes and matrix entries are carried as 32-bit IEEE-754
//! bit patterns (`u32`), so that byte-exact wire-format contracts can be
//! stated without floating-point arithmetic. The GPU-facing side (device,
//! surface, window, overlay) lives outside this library and consumes the
//! byte images and draw parameters this library produces.

pub mod binding;
pub mod camera;
pub mod error;
pub mod frame;
pub mod geometry;
pub mod instance;
pub mod material;
pub mod pipeline;
pub mod surface;
pub mod texture;
pub mod shapes;
pub mod vertex;
pub mod wire;
