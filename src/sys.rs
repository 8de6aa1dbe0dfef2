//! Endpoints of the service's system backend.

pub mod mounts;
