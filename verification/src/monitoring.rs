//! Polling of host performance metrics: the sampler, its result types, and
//! the buffers that hold recent polls.

pub mod monitor;
pub mod platform;
pub mod polling;
pub mod system;
pub mod ringbuffer;
