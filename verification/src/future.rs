//! Single-shot eventual values: the consumer-side [`Future`] and the
//! producer-side [`Complete`] over one cell.
//!
//! The carrier here is sequential: a future either still awaits its
//! outcome or holds it. A threaded runtime owns the shared cell, feeds
//! producer transitions into it and redeems the produced cell into the
//! consumer's future; every decision along that path is one of the
//! verified operations below or a transition of [`crate::cell`].

use vstd::prelude::*;

use crate::Async;
use crate::Cancel;
use crate::Pair;
use crate::cell::Cell;
use crate::cell::CellEvent;
use crate::cell::CellOp;
use crate::cell::CellState;
use crate::cell::cell_step;
use crate::cell::fresh_cell;
use crate::errors::AsyncError;

verus! {

/// What a future knows: nothing yet, or the final outcome.
#[derive(Debug, PartialEq, Eq)]
pub enum FutureState<T, E> {
    Pending,
    Done(Result<T, AsyncError<E>>),
}

/// The consumer-side handle on a single-shot computation.
#[derive(Debug, PartialEq, Eq)]
pub struct Future<T, E> {
    pub state: FutureState<T, E>,
}

/// The producer-side handle: it owns the cell until it deposits an
/// outcome or aborts, then hands the cell to the runtime for delivery.
pub struct Complete<T, E> {
    pub cell: Cell<T, E>,
}

/// The retractable handle returned by [`Future::ready`]. A callback
/// registered on a carrier that never fires can always be withdrawn,
/// returning the original future; once the callback ran there is
/// nothing left to retract.
pub struct Receipt<T, E> {
    pub inner: Option<Future<T, E>>,
}

impl<T, E> Future<T, E> {
    /// A future resolved with the value `v`.
    pub fn of(v: T) -> (r: Future<T, E>)
        ensures
            r.state == FutureState::<T, E>::Done(Ok(v)),
    {
        Future { state: FutureState::Done(Ok(v)) }
    }

    /// A future resolved with the producer failure `e`.
    pub fn error(e: E) -> (r: Future<T, E>)
        ensures
            r.state == FutureState::<T, E>::Done(Err(AsyncError::Failed(e))),
    {
        Future { state: FutureState::Done(Err(AsyncError::Failed(e))) }
    }

    /// A future that never resolves on its own.
    pub fn pending() -> (r: Future<T, E>)
        ensures
            r.state is Pending,
    {
        Future { state: FutureState::Pending }
    }

    /// A future whose computation was cancelled.
    pub fn aborted() -> (r: Future<T, E>)
        ensures
            r.state == FutureState::<T, E>::Done(Err(AsyncError::Aborted)),
    {
        Future { state: FutureState::Done(Err(AsyncError::Aborted)) }
    }

    /// A future resolved with the given outcome.
    pub fn from_outcome(o: Result<T, AsyncError<E>>) -> (r: Future<T, E>)
        ensures
            r.state == FutureState::Done(o),
    {
        Future { state: FutureState::Done(o) }
    }

    /// Runs the supplied producer to completion on the submitting
    /// thread - the immediate executor - and wraps its value.
    pub fn spawn<F: FnOnce() -> T>(f: F) -> (r: Future<T, E>)
        requires
            call_requires(f, ()),
        ensures
            r.state matches FutureState::Done(Ok(v)) && call_ensures(f, (), v),
    {
        Future { state: FutureState::Done(Ok(f())) }
    }

    /// Runs the supplied fallible producer and wraps its result; an
    /// application error becomes a `Failed` outcome.
    pub fn lazy<F: FnOnce() -> Result<T, E>>(f: F) -> (r: Future<T, E>)
        requires
            call_requires(f, ()),
        ensures
            exists|res: Result<T, E>|
                {
                    &&& #[trigger] call_ensures(f, (), res)
                    &&& r.state == FutureState::Done(
                        match res {
                            Ok(v) => Ok(v),
                            Err(e) => Err(AsyncError::Failed(e)),
                        },
                    )
                },
    {
        let res = f();
        match res {
            Ok(v) => Future { state: FutureState::Done(Ok(v)) },
            Err(e) => Future { state: FutureState::Done(Err(AsyncError::Failed(e))) },
        }
    }

    /// Absorbs a produced cell into a pending consumer handle: a ready
    /// cell resolves the future with its outcome, a cell whose producer
    /// walked away resolves it with `Aborted`.
    pub fn redeem(self, cell: Cell<T, E>) -> (r: Future<T, E>)
        requires
            self.state is Pending,
            cell.state is Ready || cell.state is Consumed,
        ensures
            cell.state matches CellState::Ready(o) ==> r.state == FutureState::Done(o),
            cell.state is Consumed ==> r.state == FutureState::<T, E>::Done(
                Err(AsyncError::Aborted),
            ),
    {
        match cell.state {
            CellState::Ready(o) => Future { state: FutureState::Done(o) },
            CellState::Consumed => Future { state: FutureState::Done(Err(AsyncError::Aborted)) },
            _ => unreached(),
        }
    }

    /// Extracts the outcome; the caller must have checked readiness.
    pub fn expect(self) -> (r: Result<T, AsyncError<E>>)
        requires
            self.resolved(),
        ensures
            r == self.outcome(),
    {
        match self.state {
            FutureState::Done(o) => o,
            FutureState::Pending => unreached(),
        }
    }

    /// Waits for the outcome. In this sequential carrier nothing can
    /// resolve a future while the caller blocks, so waiting demands
    /// readiness; a threaded runtime parks the thread on the cell
    /// instead.
    pub fn wait(self) -> (r: Result<T, AsyncError<E>>)
        requires
            self.resolved(),
        ensures
            r == self.outcome(),
    {
        self.expect()
    }

    /// Registers a callback to be fired with the carrier as soon as the
    /// outcome can be taken, and returns the retractable receipt. On a
    /// carrier that never fires the registration is withdrawable and
    /// `cancel` returns the original future.
    pub fn ready<F: FnOnce(Future<T, E>)>(self, f: F) -> (r: Receipt<T, E>)
        requires
            self.resolved() ==> call_requires(f, (self,)),
        ensures
            self.resolved() ==> r.inner is None,
            !self.resolved() ==> r.inner == Some(self),
    {
        if self.is_ready() {
            f(self);
            Receipt { inner: None }
        } else {
            Receipt { inner: Some(self) }
        }
    }

    /// Registers a callback on the outcome itself. On a carrier that
    /// never fires, the callback is never invoked.
    pub fn receive<F: FnOnce(Result<T, AsyncError<E>>)>(self, f: F)
        requires
            self.resolved() ==> call_requires(f, (self.outcome(),)),
    {
        match self.state {
            FutureState::Done(o) => f(o),
            FutureState::Pending => (),
        }
    }

    /// Triggers the computation and discards its outcome.
    pub fn fire(self) {
    }

    /// True exactly when the future resolved with a value.
    pub fn has_value(&self) -> (b: bool)
        ensures
            b == (self.state matches FutureState::Done(Ok(_))),
    {
        match self.state {
            FutureState::Done(Ok(_)) => true,
            _ => false,
        }
    }

    /// True exactly when the future resolved with a producer failure.
    pub fn has_failed(&self) -> (b: bool)
        ensures
            b == (self.state matches FutureState::Done(Err(AsyncError::Failed(_)))),
    {
        match self.state {
            FutureState::Done(Err(AsyncError::Failed(_))) => true,
            _ => false,
        }
    }

    /// True exactly when no outcome is present yet.
    pub fn is_pending(&self) -> (b: bool)
        ensures
            b == (self.state is Pending),
    {
        match self.state {
            FutureState::Pending => true,
            _ => false,
        }
    }

    /// Sequences a dependent computation after this one. On success the
    /// adapter `f` receives the value and its asynchronous result is
    /// piped through; a failure is forwarded untouched and a
    /// cancellation propagates, bypassing the adapter.
    pub fn and_then<U: Async<Error = E>, F: FnOnce(T) -> U>(self, f: F) -> (r: Future<U::Value, E>)
        requires
            self.state matches FutureState::Done(Ok(v)) ==> call_requires(f, (v,)),
        ensures
            self.state is Pending ==> r.state is Pending,
            self.state matches FutureState::Done(Err(e)) ==> r.state == FutureState::<
                U::Value,
                E,
            >::Done(Err(e)),
            self.state matches FutureState::Done(Ok(v)) ==> exists|u: U|
                {
                    &&& #[trigger] call_ensures(f, (v,), u)
                    &&& u.resolved() ==> r.state == FutureState::Done(u.outcome())
                    &&& !u.resolved() ==> r.state is Pending
                },
            forall|k: spec_fn(T) -> FutureState<U::Value, E>|
                (forall|v: T, u: U|
                    #[trigger] call_ensures(f, (v,), u) ==> k(v) == (if u.resolved() {
                        FutureState::Done(u.outcome())
                    } else {
                        FutureState::<U::Value, E>::Pending
                    })) ==> r.state == #[trigger] chain_state(self.state, k),
    {
        match self.state {
            FutureState::Pending => Future { state: FutureState::Pending },
            FutureState::Done(Err(e)) => Future { state: FutureState::Done(Err(e)) },
            FutureState::Done(Ok(v)) => {
                let u = f(v);
                match u.poll() {
                    Ok(o) => Future { state: FutureState::Done(o) },
                    Err(_) => Future { state: FutureState::Pending },
                }
            }
        }
    }

    /// Sequences an independent computation after this one: on success
    /// its outcome is taken, a failure or cancellation of this one is
    /// kept and `next` is abandoned.
    pub fn and<U: Async<Error = E>>(self, next: U) -> (r: Future<U::Value, E>)
        ensures
            self.state is Pending ==> r.state is Pending,
            self.state matches FutureState::Done(Err(e)) ==> r.state == FutureState::<
                U::Value,
                E,
            >::Done(Err(e)),
            self.state matches FutureState::Done(Ok(v)) ==> {
                &&& next.resolved() ==> r.state == FutureState::Done(next.outcome())
                &&& !next.resolved() ==> r.state is Pending
            },
    {
        match self.state {
            FutureState::Pending => Future { state: FutureState::Pending },
            FutureState::Done(Err(e)) => Future { state: FutureState::Done(Err(e)) },
            FutureState::Done(Ok(_)) => match next.poll() {
                Ok(o) => Future { state: FutureState::Done(o) },
                Err(_) => Future { state: FutureState::Pending },
            },
        }
    }

    /// Recovers from a producer failure: the adapter `f` receives the
    /// application error and its asynchronous result replaces the
    /// outcome. A success is forwarded untouched; a cancellation
    /// propagates and cannot be intercepted.
    pub fn or_else<E2, A: Async<Value = T, Error = E2>, F: FnOnce(E) -> A>(self, f: F) -> (r:
        Future<T, E2>)
        requires
            self.state matches FutureState::Done(Err(AsyncError::Failed(e))) ==> call_requires(
                f,
                (e,),
            ),
        ensures
            self.state is Pending ==> r.state is Pending,
            self.state matches FutureState::Done(Ok(v)) ==> r.state == FutureState::<T, E2>::Done(
                Ok(v),
            ),
            self.state == FutureState::<T, E>::Done(Err(AsyncError::Aborted)) ==> r.state
                == FutureState::<T, E2>::Done(Err(AsyncError::Aborted)),
            self.state matches FutureState::Done(Err(AsyncError::Failed(e))) ==> exists|u: A|
                {
                    &&& #[trigger] call_ensures(f, (e,), u)
                    &&& u.resolved() ==> r.state == FutureState::Done(u.outcome())
                    &&& !u.resolved() ==> r.state is Pending
                },
            forall|k: spec_fn(E) -> FutureState<T, E2>|
                (forall|e: E, u: A|
                    #[trigger] call_ensures(f, (e,), u) ==> k(e) == (if u.resolved() {
                        FutureState::Done(u.outcome())
                    } else {
                        FutureState::<T, E2>::Pending
                    })) ==> r.state == #[trigger] recover_state(self.state, k),
    {
        match self.state {
            FutureState::Pending => Future { state: FutureState::Pending },
            FutureState::Done(Ok(v)) => Future { state: FutureState::Done(Ok(v)) },
            FutureState::Done(Err(AsyncError::Aborted)) => Future {
                state: FutureState::Done(Err(AsyncError::Aborted)),
            },
            FutureState::Done(Err(AsyncError::Failed(e))) => {
                let u = f(e);
                match u.poll() {
                    Ok(o) => Future { state: FutureState::Done(o) },
                    Err(_) => Future { state: FutureState::Pending },
                }
            }
        }
    }

    /// Replaces a producer failure with an alternative computation; a
    /// success is kept and the alternative abandoned, a cancellation
    /// propagates.
    pub fn or<A: Async<Value = T>>(self, alt: A) -> (r: Future<T, A::Error>)
        ensures
            self.state is Pending ==> r.state is Pending,
            self.state matches FutureState::Done(Ok(v)) ==> r.state == FutureState::<
                T,
                A::Error,
            >::Done(Ok(v)),
            self.state == FutureState::<T, E>::Done(Err(AsyncError::Aborted)) ==> r.state
                == FutureState::<T, A::Error>::Done(Err(AsyncError::Aborted)),
            self.state matches FutureState::Done(Err(AsyncError::Failed(e))) ==> {
                &&& alt.resolved() ==> r.state == FutureState::Done(alt.outcome())
                &&& !alt.resolved() ==> r.state is Pending
            },
    {
        match self.state {
            FutureState::Pending => Future { state: FutureState::Pending },
            FutureState::Done(Ok(v)) => Future { state: FutureState::Done(Ok(v)) },
            FutureState::Done(Err(AsyncError::Aborted)) => Future {
                state: FutureState::Done(Err(AsyncError::Aborted)),
            },
            FutureState::Done(Err(AsyncError::Failed(_))) => match alt.poll() {
                Ok(o) => Future { state: FutureState::Done(o) },
                Err(_) => Future { state: FutureState::Pending },
            },
        }
    }

    /// Transforms the successful value; failures and cancellations pass
    /// through untouched.
    pub fn map<U, F: FnOnce(T) -> U>(self, f: F) -> (r: Future<U, E>)
        requires
            self.state matches FutureState::Done(Ok(v)) ==> call_requires(f, (v,)),
        ensures
            self.state is Pending ==> r.state is Pending,
            self.state matches FutureState::Done(Err(e)) ==> r.state == FutureState::<U, E>::Done(
                Err(e),
            ),
            self.state matches FutureState::Done(Ok(v)) ==> (r.state matches FutureState::Done(
                Ok(u),
            ) && call_ensures(f, (v,), u)),
    {
        match self.state {
            FutureState::Pending => Future { state: FutureState::Pending },
            FutureState::Done(Err(e)) => Future { state: FutureState::Done(Err(e)) },
            FutureState::Done(Ok(v)) => Future { state: FutureState::Done(Ok(f(v))) },
        }
    }
}

/// Whether this state holds a producer failure.
pub open spec fn is_failure<T, E>(s: FutureState<T, E>) -> bool {
    s matches FutureState::Done(Err(AsyncError::Failed(_)))
}

/// The application error of a state that holds a producer failure.
pub open spec fn failure_of<T, E>(s: FutureState<T, E>) -> E
    recommends
        is_failure(s),
{
    s->Done_0->Err_0->Failed_0
}

/// Whether this state holds a cancellation.
pub open spec fn is_abort<T, E>(s: FutureState<T, E>) -> bool {
    s == FutureState::<T, E>::Done(Err(AsyncError::Aborted))
}

/// Whether this state resolved to a failure or a cancellation.
pub open spec fn is_error<T, E>(s: FutureState<T, E>) -> bool {
    s is Done && s->Done_0 is Err
}

/// The outcome of sequencing: what `and_then` leaves behind when the
/// continuation's eventual state is `k` of the successful value.
pub open spec fn chain_state<T, E, U>(
    s: FutureState<T, E>,
    k: spec_fn(T) -> FutureState<U, E>,
) -> FutureState<U, E> {
    match s {
        FutureState::Pending => FutureState::Pending,
        FutureState::Done(Ok(v)) => k(v),
        FutureState::Done(Err(e)) => FutureState::Done(Err(e)),
    }
}

/// The outcome of recovery: what `or_else` leaves behind when the
/// adapter's eventual state is `k` of the application error.
pub open spec fn recover_state<T, E, E2>(
    s: FutureState<T, E>,
    k: spec_fn(E) -> FutureState<T, E2>,
) -> FutureState<T, E2> {
    match s {
        FutureState::Pending => FutureState::Pending,
        FutureState::Done(Ok(v)) => FutureState::Done(Ok(v)),
        FutureState::Done(Err(AsyncError::Failed(e))) => k(e),
        FutureState::Done(Err(AsyncError::Aborted)) => FutureState::Done(Err(AsyncError::Aborted)),
    }
}

/// Law: sequencing with the plain `Ok` continuation changes nothing.
/// `and_then(|v| Ok(v))` leaves every outcome - pending, success,
/// failure, cancellation - exactly as it was.
pub proof fn lemma_chain_identity<T, E>(s: FutureState<T, E>)
    ensures
        chain_state(s, |v: T| FutureState::<T, E>::Done(Ok(v))) == s,
{
}

/// Law: recovering with the adapter that merely re-reports the same
/// failure changes nothing. `or_else(|e| Future::error(e))` leaves
/// every outcome exactly as it was; in particular every success passes
/// through untouched.
pub proof fn lemma_recover_identity<T, E>(s: FutureState<T, E>)
    ensures
        recover_state(s, |e: E| FutureState::<T, E>::Done(Err(AsyncError::Failed(e)))) == s,
{
}

impl<T, E> Async for Future<T, E> {
    type Value = T;

    type Error = E;

    open spec fn resolved(&self) -> bool {
        self.state is Done
    }

    open spec fn outcome(&self) -> Result<T, AsyncError<E>> {
        self.state->Done_0
    }

    fn is_ready(&self) -> (b: bool) {
        match self.state {
            FutureState::Done(_) => true,
            FutureState::Pending => false,
        }
    }

    fn is_err(&self) -> (b: bool) {
        match self.state {
            FutureState::Done(Err(_)) => true,
            _ => false,
        }
    }

    fn poll(self) -> (r: Result<Result<T, AsyncError<E>>, Self>) {
        match self.state {
            FutureState::Done(o) => Ok(o),
            FutureState::Pending => Err(Future { state: FutureState::Pending }),
        }
    }
}

impl<T, E> Pair for Future<T, E> {
    type Tx = Complete<T, E>;

    open spec fn fresh(tx: Complete<T, E>, rx: Future<T, E>) -> bool {
        tx.cell == fresh_cell::<T, E>() && rx.state is Pending
    }

    fn pair() -> (r: (Complete<T, E>, Future<T, E>)) {
        (Complete { cell: Cell::new() }, Future { state: FutureState::Pending })
    }
}

impl<T, E> Complete<T, E> {
    /// Deposits the successful value. The runtime hands the returned
    /// cell to the consumer side and dispatches the event - `Deliver`
    /// when a consumer already waits - after releasing the lock.
    pub fn complete(self, v: T) -> (r: (Cell<T, E>, CellEvent<T, E>))
        requires
            self.cell.state is Pending || self.cell.state is ConsumerWaiting,
        ensures
            r.0 == cell_step(self.cell, CellOp::SetValue(Ok(v))).0,
            r.1 == cell_step(self.cell, CellOp::SetValue(Ok(v))).1,
    {
        let mut cell = self.cell;
        let ev = cell.set_value(Ok(v));
        (cell, ev)
    }

    /// Deposits the producer failure `e`.
    pub fn fail(self, e: E) -> (r: (Cell<T, E>, CellEvent<T, E>))
        requires
            self.cell.state is Pending || self.cell.state is ConsumerWaiting,
        ensures
            r.0 == cell_step(self.cell, CellOp::SetValue(Err(AsyncError::Failed(e)))).0,
            r.1 == cell_step(self.cell, CellOp::SetValue(Err(AsyncError::Failed(e)))).1,
    {
        let mut cell = self.cell;
        let ev = cell.set_value(Err(AsyncError::Failed(e)));
        (cell, ev)
    }

    /// Registers the producer's interest listener on the cell: it fires
    /// with a license once a consumer waits, with `ProducerAbort` if
    /// the consumer is already gone.
    pub fn listen(&mut self) -> (ev: CellEvent<T, E>)
        ensures
            final(self).cell == cell_step(old(self).cell, CellOp::<T, E>::SetInterest).0,
            ev == cell_step(old(self).cell, CellOp::<T, E>::SetInterest).1,
    {
        self.cell.set_interest()
    }

    /// Walks away without producing; a waiting consumer is handed
    /// `Aborted`.
    pub fn abort(self) -> (r: (Cell<T, E>, CellEvent<T, E>))
        ensures
            r.0 == cell_step(self.cell, CellOp::<T, E>::AbortProducer).0,
            r.1 == cell_step(self.cell, CellOp::<T, E>::AbortProducer).1,
    {
        let mut cell = self.cell;
        let ev = cell.abort_producer();
        (cell, ev)
    }
}

impl<T, E> Cancel<Future<T, E>> for Receipt<T, E> {
    open spec fn retracts_to(&self) -> Option<Future<T, E>> {
        self.inner
    }

    fn cancel(self) -> (r: Option<Future<T, E>>) {
        self.inner
    }
}

} // verus!
