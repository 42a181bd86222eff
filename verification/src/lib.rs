//! Failure reporting for a compression library: a closed error taxonomy
//! with single-line display rendering and cause chaining.

pub mod error;
