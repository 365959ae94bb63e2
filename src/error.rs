//! The library's error taxonomy.
use vstd::prelude::*;

verus! {

/// Every way a request or a decode can fail.
#[derive(Debug, PartialEq, Eq)]
pub enum Error {
    /// The connection failed or timed out.
    Network,
    /// The response body was not JSON.
    Decode,
    /// The response lacked the status wrapper, or its status had an unexpected shape.
    MalformedEnvelope,
    /// The server reported a failure.
    Server { code: u64, message: String },
    /// A numeric identifier was not written in decimal.
    InvalidId,
    /// A field was missing, or had the wrong type or an unknown value.
    InvalidField,
    /// The configured base URL is not an http or https URL.
    UrlConstruction,
}

} // verus!
