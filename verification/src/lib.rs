//! Host memory and swap utilization exposed as a fixed set of metric samples.
//!
//! The collector owns a locked OS memory snapshot, refreshes it on demand and
//! turns the raw counters into six named samples with a stable identity
//! (name, help text, kind). Registration and wire exposition are the
//! surrounding registry's business; this crate guarantees the shape of what
//! it hands over: six well-formed, pairwise distinct names, fixed kinds, and
//! values read from a single refresh.

pub mod collector;
pub mod laws;
pub mod metrics;
pub mod names;
mod sysmem;
