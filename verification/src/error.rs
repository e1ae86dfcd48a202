//! The error contract of the gateway client: every operation either fully
//! succeeds with a decoded record or fully fails with one of these values.

use vstd::prelude::*;

use crate::markup::Element;

verus! {

/// An error returned as the result of an API call.
#[derive(Debug)]
pub enum Error {
    /// The remote server reported an error with the request; the extracted
    /// message and the parsed response body are retained for inspection.
    Api(ApiErrorResponse),
    /// A network-level failure in the underlying transport, described by
    /// the transport's own message.
    Http(String),
    /// A test-only operation, such as forcing a transaction into a settled
    /// status, was attempted against a production environment.
    TestOperationInProduction,
    /// Client construction failed.
    Setup,
    /// A response body was not well-formed markup.
    MalformedDocument,
    /// A required field's element was absent from a response document;
    /// the field's tag is carried.
    MissingField(String),
    /// A response declared a content encoding the client cannot handle.
    UnsupportedEncoding,
}

/// A structured error decoded from a non-success response body.
#[derive(Debug)]
pub struct ApiErrorResponse {
    /// The error message from the response body.
    pub message: String,
    /// The parsed response body returned by the API.
    pub raw: Element,
}

} // verus!
