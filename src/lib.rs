//! Typed client library for a secrets-management service spoken to over HTTP and JSON.
//!
//! The library describes every call as data (`Call`, `HttpRequest`), decodes the
//! service's reply envelope (`Response`) and projects it into typed values. The
//! transport that carries a request and brings back the reply body lives outside it.

pub mod client;
pub mod error;
pub mod json;
pub mod response;
pub mod secret;
pub mod secrets;
pub mod sys;

pub use client::{Call, Client, HttpRequest, Method};
pub use error::Error;
pub use json::{FromJson, Json};
pub use response::{Authentication, LeasedData, Response, ResponseData, TokenType};
pub use secret::Secret;
