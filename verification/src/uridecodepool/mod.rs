//! A source element that plays through a pool of decoding pipelines.

pub mod decoderpipeline;
pub mod imp;
pub mod pool;
pub mod seek_handler;
