//! The local failures: a request that cannot be written or a response body
//! that cannot be read.
use vstd::prelude::*;

verus! {

#[verifier::external_type_specification]
#[verifier::external_body]
pub struct ExUrlEncodeError(serde_urlencoded::ser::Error);

/// A failure to turn the input into a query or a body into the output.
#[derive(Debug)]
pub enum ConversionError {
    /// The body is not JSON, or a member could not be read as its type.
    Json(serde_json::Error),
    /// The query could not be encoded.
    UrlEncode(serde_urlencoded::ser::Error),
    /// A required member is absent.
    MissingField(String),
    /// A member is present but of the wrong kind.
    InvalidField(String),
}

} // verus!
