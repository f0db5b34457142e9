//! Primitives for asynchronous computation: single-shot eventual values
//! (futures), eventual sequences (streams), and the combinators that
//! compose them while preserving at-most-once delivery, backpressure,
//! failure propagation and cooperative cancellation.
//!
//! The heart of the crate is the cell state machine in [`cell`]: every
//! externally visible operation on a future or a stream reduces to a
//! transition of one shared cell, and each transition returns the event
//! a runtime must dispatch after releasing the cell's lock. The
//! carriers in [`future`] and [`stream`], the producer handshake in
//! [`channel`] and the combinators in [`combine`] are verified against
//! that model; a threaded runtime only has to apply the transitions
//! under a lock, move outcomes between the two sides, and dispatch the
//! returned events.

use vstd::prelude::*;

pub mod cell;
mod channel;
mod combine;
mod errors;
mod future;
mod stream;

verus! {

pub use crate::channel::BusySender;
pub use crate::channel::Channel;
pub use crate::channel::SendPoll;
pub use crate::channel::Sender;
pub use crate::channel::lemma_backpressure;
pub use crate::channel::lemma_stream_ordering;
pub use crate::combine::decisive;
pub use crate::combine::gathered;
pub use crate::combine::join;
pub use crate::combine::retired;
pub use crate::combine::select;
pub use crate::combine::sequence;
pub use crate::errors::AsyncError;
pub use crate::future::Complete;
pub use crate::future::Future;
pub use crate::future::FutureState;
pub use crate::future::Receipt;
pub use crate::future::chain_state;
pub use crate::future::failure_of;
pub use crate::future::is_abort;
pub use crate::future::is_error;
pub use crate::future::is_failure;
pub use crate::future::lemma_chain_identity;
pub use crate::future::lemma_recover_identity;
pub use crate::future::recover_state;
pub use crate::stream::Stream;
pub use crate::stream::StreamEnd;
pub use crate::stream::StreamIter;
pub use crate::stream::filtered;

/// The outcome of an asynchronous computation: a value, or one of the
/// two terminal failure kinds.
pub type AsyncResult<T, E> = Result<T, AsyncError<E>>;

/// The capability of carrying an eventual value.
///
/// A carrier either still awaits its outcome or is resolved with one;
/// an immediately available value (a plain `Result`, the unit value) is
/// itself an `Async` whose readiness is permanent.
pub trait Async: Sized {
    type Value;

    type Error;

    /// Whether an outcome is present.
    spec fn resolved(&self) -> bool;

    /// The outcome, when one is present.
    spec fn outcome(&self) -> Result<Self::Value, AsyncError<Self::Error>>;

    /// True exactly when an outcome can be extracted without waiting.
    fn is_ready(&self) -> (b: bool)
        ensures
            b == self.resolved(),
    ;

    /// True exactly when the computation has resolved to a failure or a
    /// cancellation.
    fn is_err(&self) -> (b: bool)
        ensures
            b == (self.resolved() && self.outcome() is Err),
    ;

    /// Extracts the outcome if one is present; hands the carrier back
    /// untouched otherwise.
    fn poll(self) -> (r: Result<Result<Self::Value, AsyncError<Self::Error>>, Self>)
        ensures
            self.resolved() ==> r == Ok::<Result<Self::Value, AsyncError<Self::Error>>, Self>(
                self.outcome(),
            ),
            !self.resolved() ==> r == Err::<Result<Self::Value, AsyncError<Self::Error>>, Self>(
                self,
            ),
    ;
}

/// A producer/consumer pair over one fresh cell.
pub trait Pair: Sized {
    type Tx;

    /// What a freshly created pair looks like.
    spec fn fresh(tx: Self::Tx, rx: Self) -> bool;

    /// Creates the two sides of a fresh cell.
    fn pair() -> (r: (Self::Tx, Self))
        ensures
            Self::fresh(r.0, r.1),
    ;
}

/// A retractable handle to a registered callback.
pub trait Cancel<A>: Sized {
    /// What retraction hands back: the original carrier when the
    /// registration can still be withdrawn, nothing once the callback
    /// fired.
    spec fn retracts_to(&self) -> Option<A>;

    /// Attempts to withdraw the registration.
    fn cancel(self) -> (r: Option<A>)
        ensures
            r == self.retracts_to(),
    ;
}

/// A plain `Result` is an eventual value whose readiness is permanent;
/// its error is reported as a producer failure.
impl<T, E> Async for Result<T, E> {
    type Value = T;

    type Error = E;

    open spec fn resolved(&self) -> bool {
        true
    }

    open spec fn outcome(&self) -> Result<T, AsyncError<E>> {
        match *self {
            Ok(v) => Ok(v),
            Err(e) => Err(AsyncError::Failed(e)),
        }
    }

    fn is_ready(&self) -> (b: bool) {
        true
    }

    fn is_err(&self) -> (b: bool) {
        match *self {
            Ok(_) => false,
            Err(_) => true,
        }
    }

    fn poll(self) -> (r: Result<Result<T, AsyncError<E>>, Self>) {
        match self {
            Ok(v) => Ok(Ok(v)),
            Err(e) => Ok(Err(AsyncError::Failed(e))),
        }
    }
}

/// The unit value as an eventual value, for side-effecting adapters.
impl Async for () {
    type Value = ();

    type Error = ();

    open spec fn resolved(&self) -> bool {
        true
    }

    open spec fn outcome(&self) -> Result<(), AsyncError<()>> {
        Ok(())
    }

    fn is_ready(&self) -> (b: bool) {
        true
    }

    fn is_err(&self) -> (b: bool) {
        false
    }

    fn poll(self) -> (r: Result<Result<(), AsyncError<()>>, Self>) {
        Ok(Ok(()))
    }
}

/// The trivial cancel handle of an immediately ready carrier: there is
/// nothing left to retract.
impl<A> Cancel<A> for Option<A> {
    open spec fn retracts_to(&self) -> Option<A> {
        *self
    }

    fn cancel(self) -> (r: Option<A>) {
        self
    }
}

} // verus!
