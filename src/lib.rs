//! The integer side of a Monte Carlo path tracer, verified: the decisions of
//! the recursive radiance estimator (when to trace, when a path ends and how)
//! and the plain-text RGB image format the renderer writes.
pub mod ppm;
pub mod trace;
