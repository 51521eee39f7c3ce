use vstd::prelude::*;

verus! {

/// Why a pool operation failed.
///
/// `E` is the error type of the underlying connection; the pool passes such
/// errors through unchanged, tagged with the step that produced them.
#[derive(Debug, PartialEq, Eq)]
pub enum PoolError<E> {
    /// `min > max`, or `max == 0`.
    InvalidPoolConstraints,
    /// Opening a new connection failed.
    ConnectionCreationFailed(E),
    /// A reused connection failed its liveness check and could not be reset.
    ConnectionResetFailed(E),
}

} // verus!
