//! The failures an operation can report.

use vstd::prelude::*;

verus! {

/// Why an operation was refused. A refused operation changes nothing.
#[derive(Clone, Copy, Debug, PartialEq, Eq, Structural)]
pub enum CustomError {
    /// The name of an API is empty or longer than 64 bytes.
    InvalidName,
    /// The rate limit of an API is zero.
    InvalidRateLimit,
    /// Access was asked of an API that is paused.
    ApiPaused,
    /// Usage was reported against a revoked access key.
    KeyInactive,
    /// The caller is not the owner of the registry.
    NotAuthorized,
    /// More was asked than the registry has earned.
    InsufficientBalance,
    /// A withdrawal of nothing was asked.
    InvalidAmount,
    /// The access key is revoked already.
    AlreadyRevoked,
    /// The API is paused already.
    AlreadyPaused,
    /// The API is not paused.
    NotPaused,
    /// A counter would leave the range of its type.
    Overflow,
}

} // verus!
