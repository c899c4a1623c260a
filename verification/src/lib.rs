//! A tracing pipeline and the two traced operations that run under it.
//!
//! [`options`] holds the display options of the console event format,
//! [`pipeline`] installs the subscriber built from them, once per process,
//! and [`operations`] holds what the two traced operations compute.
//! [`outside`] gathers the calls into the tracing crates.

pub mod operations;
pub mod options;
pub mod outside;
pub mod pipeline;
