use vstd::prelude::*;

use crate::response::Response;

verus! {

/// The error of `url::Url::parse` and `url::Url::join`, carried as it is in
/// `Error::UrlParseError`; nothing is assumed of its contents.
#[verifier::external_type_specification]
#[verifier::external_body]
pub struct ExParseError(url::ParseError);

/// Every failure this library reports, one kind per origin.
pub enum Error {
    /// The transport could not carry out the HTTP request.
    ReqwestError(String),
    /// A header could not be encoded or read.
    HeadersErrors(String),
    /// The service address, joined with the request path, is not a valid URL.
    UrlParseError(url::ParseError),
    /// The service replied with something this library does not understand.
    InvalidVaultResponse(String),
    /// A number could not be parsed.
    ParseIntError(String),
    /// A JSON document was malformed, or did not have the shape a type asks for.
    JsonError(String),
    /// No service address was given.
    MissingAddress,
    /// No token was given.
    MissingToken,
    /// A local file could not be read.
    IoError(String),
    /// Bytes were not valid UTF-8.
    Utf8Error(String),
    /// The service reported errors; the messages are joined with "; ".
    VaultError(String),
    /// A reply that was expected to carry data did not; the reply is kept for diagnostics.
    MissingData(Box<Response>),
    /// A reply that was expected to be empty was not; the body is kept.
    UnexpectedResponse(String),
    /// A decoded payload did not have the nested shape that was expected.
    MalformedResponse,
}

} // verus!
