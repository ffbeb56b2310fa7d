//! Pluggable control laws for the concurrency limit.

pub mod vegas;

pub use vegas::VegasStrategy;
