//! The pluggable error-reporting capability held by a configuration.

use vstd::prelude::*;

verus! {

/// A capability for reporting operational errors of type `E`.
///
/// A pool runtime invokes the handler from time-sensitive paths such as
/// failed health checks or failed resource creation, possibly from several
/// worker threads at once. An implementation must not panic across this
/// boundary, must not block its caller for an unbounded time, and must
/// tolerate concurrent invocation (synchronizing internally if it holds
/// mutable state).
pub trait ErrorHandler<E> {
    /// Reports one error. The handler owns whatever side effect it performs;
    /// nothing is returned to the caller.
    fn handle_error(&self, error: E);
}

/// An error handler that intentionally discards every reported error.
#[derive(Clone, Copy, Debug)]
pub struct NoopErrorHandler;

impl<E> ErrorHandler<E> for NoopErrorHandler {
    fn handle_error(&self, _error: E) {
    }
}

} // verus!
