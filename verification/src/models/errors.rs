//! Error type for the client.

use vstd::prelude::*;

verus! {

/// An error raised while assembling an outgoing API request.
///
/// Validation errors are fatal to the current request and are never retried
/// by this layer; the caller must abort the request. Each variant carries
/// the offending header entry, so the report always identifies the key (and,
/// for value errors, the value) that failed validation.
#[derive(Clone, Debug, PartialEq, Eq, Hash)]
pub enum ApiError {
    /// A header name is not a legal HTTP header-field-name token.
    InvalidHeaderName {
        /// The offending key, exactly as stored in the header set.
        name: String,
    },
    /// A header value is not a legal HTTP header-field-value byte sequence.
    InvalidHeaderValue {
        /// The key whose value failed validation.
        name: String,
        /// The offending value, exactly as stored in the header set.
        value: String,
    },
}

impl ApiError {
    /// The key of the header entry that this error reports, as a sequence of
    /// characters.
    pub open spec fn spec_header_name(self) -> Seq<char> {
        match self {
            ApiError::InvalidHeaderName { name } => name@,
            ApiError::InvalidHeaderValue { name, value: _ } => name@,
        }
    }

    /// The key of the header entry that this error reports.
    pub fn header_name(&self) -> (r: &String)
        ensures
            r@ == self.spec_header_name(),
    {
        match self {
            ApiError::InvalidHeaderName { name } => name,
            ApiError::InvalidHeaderValue { name, value: _ } => name,
        }
    }
}

} // verus!
