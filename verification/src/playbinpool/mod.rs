//! A source element that plays through a pool of playback pipelines.

pub mod imp;
pub mod pool;
pub mod pooledplaybin;
