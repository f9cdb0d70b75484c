//! Failures as the library reports them.

use crate::contract::common::ErrorCode;
use vstd::prelude::*;

verus! {

/// One refused or failed operation: its public code and a fixed reason.
#[derive(Clone, Copy, Debug, PartialEq, Eq)]
pub struct DomainError {
    pub code: ErrorCode,
    pub reason: &'static str,
}

impl DomainError {
    pub fn new(code: ErrorCode, reason: &'static str) -> (error: Self)
        ensures
            error == (DomainError { code, reason }),
    {
        DomainError { code, reason }
    }

    /// The failure that an input that cannot be accepted gets.
    pub fn invalid(reason: &'static str) -> (error: Self)
        ensures
            error == (DomainError { code: ErrorCode::InvalidArgument, reason }),
    {
        DomainError { code: ErrorCode::InvalidArgument, reason }
    }
}

/// A failed execution, and whether everything that it had started is known to be gone.
#[derive(Clone, Copy, Debug, PartialEq, Eq)]
pub struct ExecutionFailure {
    pub error: DomainError,
    pub cleanup_verified: bool,
}

/// The failure of an execution that had started nothing yet.
pub fn pre_start(error: DomainError) -> (failure: ExecutionFailure)
    ensures
        failure == (ExecutionFailure { error, cleanup_verified: true }),
{
    ExecutionFailure { error, cleanup_verified: true }
}

} // verus!
