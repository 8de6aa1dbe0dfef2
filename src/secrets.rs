//! Secrets engines: each adds typed operations on top of the primitive calls.

pub mod aws;
pub mod transit;
