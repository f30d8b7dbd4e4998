//! A synthetic CPU workload (naive recursive Fibonacci) and the decision logic
//! that optionally wraps it in a profiling session.
pub mod session;
pub mod workload;
