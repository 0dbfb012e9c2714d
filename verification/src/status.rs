//! Provider status codes and their translation into the crate's error taxonomy.
//!
//! The provider reports every outcome as a PSA status code (`psa_status_t`, a
//! 32-bit signed integer; zero is success). Every operation in this crate maps
//! a non-success status to a typed error through the single function
//! [`status_to_result`], so no operation can diverge from the taxonomy.

use vstd::prelude::*;

verus! {

/// The PSA status code reported for a successful operation.
pub const PSA_SUCCESS: i32 = 0;

/// The key's usage policy forbids the requested operation.
pub const PSA_ERROR_NOT_PERMITTED: i32 = -133;

/// The algorithm (or the key/algorithm combination) is not supported.
pub const PSA_ERROR_NOT_SUPPORTED: i32 = -134;

/// An argument (such as the algorithm identifier) is invalid.
pub const PSA_ERROR_INVALID_ARGUMENT: i32 = -135;

/// The key handle does not refer to a usable key.
pub const PSA_ERROR_INVALID_HANDLE: i32 = -136;

/// The provider was called in a state where the operation is not valid.
pub const PSA_ERROR_BAD_STATE: i32 = -137;

/// The caller-supplied output buffer is too small for the result.
pub const PSA_ERROR_BUFFER_TOO_SMALL: i32 = -138;

/// A MAC verification found a mismatch with the expected value.
pub const PSA_ERROR_INVALID_SIGNATURE: i32 = -149;

/// The provider detected that its own state is corrupted. This crate also
/// reports it when the provider claims to have written more bytes than the
/// caller's buffer holds, which a conforming provider never does.
pub const PSA_ERROR_CORRUPTION_DETECTED: i32 = -151;

/// The typed failures an operation can report to its caller.
#[derive(Clone, Copy, PartialEq, Eq, Structural, Debug)]
pub enum Error {
    /// The process-wide provider initialization has not completed; recoverable
    /// by initializing and retrying.
    NotInitialized,
    /// The key handle is unusable for the requested operation.
    InvalidHandle,
    /// The algorithm is unsupported, or the key's policy forbids it.
    InvalidAlgorithm,
    /// The caller-supplied output buffer cannot hold the result.
    BufferTooSmall,
    /// Verification found the message not authentic; an expected outcome, not
    /// a system fault.
    AuthenticationFailure,
    /// A multi-part operation was invoked out of sequence.
    InvalidState,
    /// Any other provider-reported status, carried verbatim.
    ProviderFault(i32),
}

/// The error kind a non-success provider status translates to.
pub open spec fn spec_error_of_status(status: i32) -> Error {
    if status == PSA_ERROR_INVALID_HANDLE {
        Error::InvalidHandle
    } else if status == PSA_ERROR_NOT_PERMITTED || status == PSA_ERROR_NOT_SUPPORTED
        || status == PSA_ERROR_INVALID_ARGUMENT {
        Error::InvalidAlgorithm
    } else if status == PSA_ERROR_BUFFER_TOO_SMALL {
        Error::BufferTooSmall
    } else if status == PSA_ERROR_INVALID_SIGNATURE {
        Error::AuthenticationFailure
    } else if status == PSA_ERROR_BAD_STATE {
        Error::InvalidState
    } else {
        Error::ProviderFault(status)
    }
}

/// Translate a provider status code into the crate's result type: success
/// becomes `Ok`, every other status the corresponding typed error.
pub fn status_to_result(status: i32) -> (r: Result<(), Error>)
    ensures
        r is Ok <==> status == PSA_SUCCESS,
        status != PSA_SUCCESS ==> r == Err::<(), Error>(spec_error_of_status(status)),
{
    if status == PSA_SUCCESS {
        Ok(())
    } else if status == PSA_ERROR_INVALID_HANDLE {
        Err(Error::InvalidHandle)
    } else if status == PSA_ERROR_NOT_PERMITTED || status == PSA_ERROR_NOT_SUPPORTED
        || status == PSA_ERROR_INVALID_ARGUMENT {
        Err(Error::InvalidAlgorithm)
    } else if status == PSA_ERROR_BUFFER_TOO_SMALL {
        Err(Error::BufferTooSmall)
    } else if status == PSA_ERROR_INVALID_SIGNATURE {
        Err(Error::AuthenticationFailure)
    } else if status == PSA_ERROR_BAD_STATE {
        Err(Error::InvalidState)
    } else {
        Err(Error::ProviderFault(status))
    }
}

} // verus!
