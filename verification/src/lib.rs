//! A Fibonacci endpoint instrumented with distributed tracing.
//!
//! The computation itself is small; the crate's substance is the verified
//! account of how each request is traced, how the response is shaped, how
//! the process's resource identity is merged together and in which order
//! the telemetry providers come up and go down.

pub mod engine;
pub mod handler;
pub mod lifecycle;
pub mod resource;
pub mod span;
