//! The ways in which an operation of the library fails.

use vstd::prelude::*;

verus! {

/// Why an operation failed. None of these is retried by the library; each is
/// handed to the caller, who decides.
#[derive(Clone, Copy, Debug, PartialEq, Eq, Hash, Structural)]
pub enum ServiceError {
    /// The submitted bytes are no image that can be read.
    Decode,
    /// A rendition could not be encoded.
    Encode,
    /// The store could not carry out an operation.
    Store,
    /// The index refused an operation or could not be reached.
    Index,
    /// The presented secret is not the configured one.
    Auth,
}

impl ServiceError {
    /// A short description of the failure.
    pub fn message(&self) -> (text: &'static str)
        ensures
            text@ == (match *self {
                ServiceError::Decode => "the image could not be decoded"@,
                ServiceError::Encode => "the image could not be encoded"@,
                ServiceError::Store => "the store failed"@,
                ServiceError::Index => "the index failed"@,
                ServiceError::Auth => "not authorized"@,
            }),
    {
        match self {
            ServiceError::Decode => "the image could not be decoded",
            ServiceError::Encode => "the image could not be encoded",
            ServiceError::Store => "the store failed",
            ServiceError::Index => "the index failed",
            ServiceError::Auth => "not authorized",
        }
    }
}

} // verus!
