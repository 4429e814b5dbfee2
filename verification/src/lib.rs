//! A library for a live terminal dashboard that samples host performance
//! metrics (per-core CPU utilization, CPU temperature, memory usage, GPU
//! readings) on a fixed cadence and renders them as character bar charts.
//!
//! The crate holds the verified core: the wrap-around history buffers that
//! decouple the sampling rate from the render rate, the bar-chart scaling
//! and coloring algorithm, the sampler that normalizes hardware metrics into
//! one result shape, and the runner state machine that sequences startup,
//! the two timed loops, and shutdown.

pub mod display;
pub mod errors;
pub mod monitoring;
pub mod ringbuffer;
pub mod runner;
