//! The error taxonomy of the client.
use vstd::prelude::*;

verus! {

/// Failures of the HTTP transport.
#[verifier::external_type_specification]
#[verifier::external_body]
pub struct ExTransportError(reqwest::Error);

/// Failures of local storage.
#[verifier::external_type_specification]
#[verifier::external_body]
pub struct ExIoError(std::io::Error);

/// Failures to read or write JSON.
#[verifier::external_type_specification]
#[verifier::external_body]
pub struct ExJsonError(serde_json::Error);

/// Every way an operation of the client can fail.
#[derive(Debug)]
pub enum GitLitError {
    /// The request could not be sent or its answer not received.
    Http(reqwest::Error),
    /// The credential store could not be read or written.
    Io(std::io::Error),
    /// A response body did not have the expected JSON shape.
    Serde(serde_json::Error),
    /// The credential was absent, or the server rejected it.
    Unauthorized,
    /// Any other unexpected status; the text names the operation and the status code.
    Auth(String),
}

} // verus!
