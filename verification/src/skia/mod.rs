//! Elements that reshape video frames: they crop them, pad them, round their
//! corners and let handlers draw on them.

pub mod boxed_types;
pub mod gl;
pub mod reshape;
pub mod reshape_common;
pub mod reshapegl;

pub use boxed_types::{BufferRef, SkiaCanvas, SkiaContext, SkiaImage};
