//! Publishing layer: stream topics, routing rules, batching, buffers and pool settings.

pub mod backpressure;
pub mod batch;
pub mod buffer;
pub mod dual;
pub mod pool;
pub mod stream;
pub mod topics;
