//! The closed taxonomy of terminal failures.

use vstd::prelude::*;

verus! {

/// An asynchronous computation ends in a value, or in one of exactly two
/// failure kinds: the producer reported a typed application error
/// (`Failed`), or one side abandoned the computation (`Aborted`).
/// Cancellation never surfaces as `Failed` and cannot be intercepted by
/// the error-handling combinators.
#[derive(Debug, PartialEq, Eq)]
pub enum AsyncError<E> {
    Failed(E),
    Aborted,
}

impl<E> AsyncError<E> {
    /// Wraps a producer-reported application error.
    pub fn failed(err: E) -> (r: AsyncError<E>)
        ensures
            r == AsyncError::Failed(err),
    {
        AsyncError::Failed(err)
    }

    /// The structural cancellation error.
    pub fn aborted() -> (r: AsyncError<E>)
        ensures
            r == AsyncError::<E>::Aborted,
    {
        AsyncError::Aborted
    }

    /// True exactly when the computation was cancelled.
    pub fn is_aborted(&self) -> (b: bool)
        ensures
            b == (self is Aborted),
    {
        match *self {
            AsyncError::Aborted => true,
            _ => false,
        }
    }

    /// True exactly when a producer reported an application error.
    pub fn is_failed(&self) -> (b: bool)
        ensures
            b == (self is Failed),
    {
        match *self {
            AsyncError::Failed(..) => true,
            _ => false,
        }
    }

    /// Extracts the application error. Cancellations carry none, so the
    /// caller must have ruled them out.
    pub fn unwrap(self) -> (r: E)
        requires
            self is Failed,
        ensures
            r == self->Failed_0,
    {
        match self {
            AsyncError::Failed(err) => err,
            AsyncError::Aborted => unreached(),
        }
    }

    /// Extracts the application error if one was reported.
    pub fn take(self) -> (r: Option<E>)
        ensures
            self is Failed ==> r == Some(self->Failed_0),
            self is Aborted ==> r is None,
    {
        match self {
            AsyncError::Failed(err) => Some(err),
            AsyncError::Aborted => None,
        }
    }
}

} // verus!
