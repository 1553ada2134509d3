//! The decisions of a set of media plugins: sources that play through pools of
//! pipelines, a tracer of memory, and elements that reshape video.
//!
//! Everything here works on plain values. Whoever runs the pipelines performs
//! what is decided here, and tells how it went.

pub mod lists;
pub mod memory_tracer;
pub mod playbinpool;
pub mod pull;
pub mod skia;
pub mod streams;
pub mod text;
pub mod uridecodepool;
pub mod values;
