//! The error kinds a caller can see, one variant per kind the API surfaces.

use vstd::prelude::*;

verus! {

/// Errors surfaced by the library's operations.
#[derive(Clone, Debug)]
pub enum ApiError {
    /// One or more field constraints failed; the messages name every
    /// violated field, not just the first.
    ValidationError(Vec<String>),
    /// Credential mismatch; the message is deliberately generic.
    Unauthorized(String),
    /// A lookup by id found no record; the message names the missing id.
    NotFound(String),
    /// An unexpected store failure, such as a uniqueness violation.
    InternalServerError(String),
}

} // verus!
