//! The closed set of failures the library can report.

use vstd::prelude::*;
use vstd::string::StringExecFns;

verus! {

/// A classified failure: either the payload could not be converted to
/// its wire JSON representation, or the HTTP exchange could not be
/// completed. Each variant carries the underlying failure's rendering
/// for diagnostics. A non-success HTTP status is not an error at this
/// layer: it is returned to the caller as a status code.
#[derive(Debug, PartialEq)]
pub enum MMRSError {
    BadJSONData(String),
    HTTPRequestError(String),
}

impl MMRSError {
    /// A human-readable rendering of the failure.
    pub fn message(&self) -> (r: String)
        ensures
            (match self {
                MMRSError::BadJSONData(detail) => r@ == "Error writing to JSON string: "@
                    + detail@,
                MMRSError::HTTPRequestError(detail) => r@ == "Error while sending HTTP POST: "@
                    + detail@,
            }),
    {
        match self {
            MMRSError::BadJSONData(detail) => {
                let mut s = String::from_str("Error writing to JSON string: ");
                s.append(detail.as_str());
                s
            },
            MMRSError::HTTPRequestError(detail) => {
                let mut s = String::from_str("Error while sending HTTP POST: ");
                s.append(detail.as_str());
                s
            },
        }
    }
}

} // verus!
