//! Verified core of a map-based network path visualizer.
//!
//! The library models the two halves of the tracer that carry real logic:
//! the trace pipeline (resolving a target, turning lookup outcomes into an
//! ordered event stream, folding events into an indexed node sequence) and
//! the path renderer (viewport clipping of screen-space segments, flow-arrow
//! placement, hover detection and node coloring). I/O, windowing and painting
//! live outside the library and hand plain values in.

pub mod arrows;
pub mod geometry;
pub mod model;
pub mod orchestrator;
pub mod provider;
pub mod render;
pub mod trace_path;
