//! The ways a request can fail.

use vstd::prelude::*;

verus! {

/// Why a request is malformed.
#[derive(Clone, Copy, Debug, PartialEq, Eq, Structural)]
pub enum Malformed {
    /// The operation keyword is followed by too few segments.
    MissingSegment,
    /// A page number is not a positive decimal integer that fits in 32 bits.
    InvalidPageNumber,
    /// A page parameter key has no value after it.
    UnpairedParameter,
    /// The request body could not be decoded.
    InvalidBody,
    /// The request body is longer than the accepted ceiling.
    BodyTooLarge,
}

/// Why the storage side could not serve a request.
#[derive(Clone, Debug, PartialEq, Eq)]
pub enum Upstream {
    /// No database url has been configured.
    NoDatabaseUrl,
    /// The data access layer reported a failure.
    Storage(String),
}

/// The outcome of a request that did not succeed.
#[derive(Clone, Debug, PartialEq, Eq)]
pub enum ApiError {
    /// A table, window, record or related tab could not be resolved.
    NotFound,
    /// The request itself is not well formed.
    MalformedRequest(Malformed),
    /// The data access layer or the storage connection failed.
    UpstreamFailure(Upstream),
    /// The payload could not be encoded.
    SerializationFailure(String),
}

} // verus!
