//! The tagged outcome of a guarded call.

use vstd::prelude::*;

verus! {

/// Why a guarded call did not return the work's own success value.
///
/// `Dropped` means admission was refused outright (no permit was free on a
/// non-blocking path); it is recoverable by retrying and never indicates a
/// defect. `Closed` is reserved for an administratively shut-down guard; the
/// core never produces it. `AppError` carries the wrapped work's own error
/// through unchanged, after it has been fed to the strategy as negative
/// feedback.
#[derive(Debug, PartialEq, Eq)]
pub enum FlowError<E> {
    Dropped,
    Closed,
    AppError(E),
}

impl<E> From<E> for FlowError<E> {
    fn from(e: E) -> (r: Self)
        ensures
            r == FlowError::AppError(e),
    {
        FlowError::AppError(e)
    }
}

impl<E> vstd::std_specs::convert::FromSpecImpl<E> for FlowError<E> {
    open spec fn obeys_from_spec() -> bool {
        true
    }

    open spec fn from_spec(e: E) -> Self {
        FlowError::AppError(e)
    }
}

} // verus!
