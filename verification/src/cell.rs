//! The core cell: the synchronization slot that underlies every future
//! and every stream node.
//!
//! A cell is shared by exactly two parties, a producer and a consumer.
//! Every externally visible operation reduces to one of five
//! transitions: register the consumer, set the value, register producer
//! interest, or abort from either side. A transition returns a
//! [`CellEvent`] naming the callback the runtime must dispatch *after*
//! releasing the cell's lock; dispatching under the lock would deadlock
//! when a callback synchronously touches another cell.
//!
//! The spec-level step function [`cell_step`] is total, so the proved
//! laws (at-most-once delivery, no lost value, abort symmetry) cover
//! every operation sequence, not only well-behaved ones.

use vstd::prelude::*;

use crate::errors::AsyncError;

verus! {

/// The logical state of a cell.
pub enum CellState<T, E> {
    /// No value produced, no consumer registered.
    Pending,
    /// A consumer callback is registered and awaits a value.
    ConsumerWaiting,
    /// An outcome is present and awaits pickup.
    Ready(Result<T, AsyncError<E>>),
    /// Terminal: the outcome was delivered or dropped.
    Consumed,
}

/// What the runtime must do once the cell's lock is released.
pub enum CellEvent<T, E> {
    /// Nothing to dispatch.
    Quiet,
    /// Invoke the registered consumer callback with this outcome.
    Deliver(Result<T, AsyncError<E>>),
    /// Invoke the producer's interest listener: the consumer is waiting,
    /// the producer holds a license to complete.
    License,
    /// Invoke the producer's interest listener with `Aborted`: the
    /// consumer abandoned the cell without consuming.
    ProducerAbort,
}

/// The five operations a party can apply to a cell.
pub enum CellOp<T, E> {
    /// The consumer registers its callback (or polls for pickup).
    SetConsumer,
    /// The producer deposits the outcome.
    SetValue(Result<T, AsyncError<E>>),
    /// The producer registers its interest listener.
    SetInterest,
    /// The consumer side is dropped without consuming.
    AbortConsumer,
    /// The producer side is dropped without producing.
    AbortProducer,
}

/// One cell: its state, and whether a producer interest listener is
/// registered and has not fired yet.
pub struct Cell<T, E> {
    pub state: CellState<T, E>,
    pub interest: bool,
}

/// A freshly paired cell.
pub open spec fn fresh_cell<T, E>() -> Cell<T, E> {
    Cell { state: CellState::Pending, interest: false }
}

/// The total transition function: next cell and event to dispatch.
/// Operations that a party cannot legally repeat (a second consumer
/// registration, a second production) are no-ops here; the executable
/// transitions exclude them by precondition.
pub open spec fn cell_step<T, E>(c: Cell<T, E>, op: CellOp<T, E>) -> (Cell<T, E>, CellEvent<T, E>) {
    match op {
        CellOp::SetConsumer => match c.state {
            CellState::Pending => (
                Cell { state: CellState::ConsumerWaiting, interest: false },
                if c.interest { CellEvent::License } else { CellEvent::Quiet },
            ),
            CellState::Ready(v) => (
                Cell { state: CellState::Consumed, interest: c.interest },
                CellEvent::Deliver(v),
            ),
            CellState::ConsumerWaiting => (c, CellEvent::Quiet),
            CellState::Consumed => (c, CellEvent::Quiet),
        },
        CellOp::SetValue(v) => match c.state {
            CellState::Pending => (
                Cell { state: CellState::Ready(v), interest: c.interest },
                CellEvent::Quiet,
            ),
            CellState::ConsumerWaiting => (
                Cell { state: CellState::Consumed, interest: c.interest },
                CellEvent::Deliver(v),
            ),
            CellState::Ready(w) => (c, CellEvent::Quiet),
            CellState::Consumed => (c, CellEvent::Quiet),
        },
        CellOp::SetInterest => match c.state {
            CellState::Pending => (
                Cell { state: CellState::Pending, interest: true },
                CellEvent::Quiet,
            ),
            CellState::ConsumerWaiting => (c, CellEvent::License),
            CellState::Ready(v) => (c, CellEvent::Quiet),
            CellState::Consumed => (c, CellEvent::ProducerAbort),
        },
        CellOp::AbortConsumer => match c.state {
            CellState::Consumed => (c, CellEvent::Quiet),
            _ => (
                Cell { state: CellState::Consumed, interest: false },
                if c.interest { CellEvent::ProducerAbort } else { CellEvent::Quiet },
            ),
        },
        CellOp::AbortProducer => match c.state {
            CellState::Pending => (
                Cell { state: CellState::Consumed, interest: c.interest },
                CellEvent::Quiet,
            ),
            CellState::ConsumerWaiting => (
                Cell { state: CellState::Consumed, interest: c.interest },
                CellEvent::Deliver(Err(AsyncError::Aborted)),
            ),
            CellState::Ready(v) => (c, CellEvent::Quiet),
            CellState::Consumed => (c, CellEvent::Quiet),
        },
    }
}

impl<T, E> Cell<T, E> {
    /// A cell fresh out of `pair`.
    pub fn new() -> (c: Cell<T, E>)
        ensures
            c == fresh_cell::<T, E>(),
    {
        Cell { state: CellState::Pending, interest: false }
    }

    /// The consumer registers its callback, or polls a ready cell.
    /// At most one consumer ever registers, so the cell cannot already
    /// hold a waiting consumer or be consumed.
    pub fn set_consumer(&mut self) -> (ev: CellEvent<T, E>)
        requires
            old(self).state is Pending || old(self).state is Ready,
        ensures
            *final(self) == cell_step(*old(self), CellOp::<T, E>::SetConsumer).0,
            ev == cell_step(*old(self), CellOp::<T, E>::SetConsumer).1,
    {
        let mut st = CellState::Consumed;
        core::mem::swap(&mut self.state, &mut st);
        match st {
            CellState::Pending => {
                self.state = CellState::ConsumerWaiting;
                if self.interest {
                    self.interest = false;
                    CellEvent::License
                } else {
                    CellEvent::Quiet
                }
            }
            CellState::Ready(v) => CellEvent::Deliver(v),
            CellState::ConsumerWaiting => unreached(),
            CellState::Consumed => unreached(),
        }
    }

    /// The producer deposits the outcome. The producer handle is
    /// consumed by its `complete`/`fail` operation, so the cell cannot
    /// already hold an outcome.
    pub fn set_value(&mut self, v: Result<T, AsyncError<E>>) -> (ev: CellEvent<T, E>)
        requires
            old(self).state is Pending || old(self).state is ConsumerWaiting,
        ensures
            *final(self) == cell_step(*old(self), CellOp::SetValue(v)).0,
            ev == cell_step(*old(self), CellOp::SetValue(v)).1,
    {
        let mut st = CellState::Consumed;
        core::mem::swap(&mut self.state, &mut st);
        match st {
            CellState::Pending => {
                self.state = CellState::Ready(v);
                CellEvent::Quiet
            }
            CellState::ConsumerWaiting => CellEvent::Deliver(v),
            CellState::Ready(_) => unreached(),
            CellState::Consumed => unreached(),
        }
    }

    /// The producer registers its interest listener: it fires with a
    /// license as soon as a consumer waits, and with `ProducerAbort` if
    /// the consumer is already gone.
    pub fn set_interest(&mut self) -> (ev: CellEvent<T, E>)
        ensures
            *final(self) == cell_step(*old(self), CellOp::<T, E>::SetInterest).0,
            ev == cell_step(*old(self), CellOp::<T, E>::SetInterest).1,
    {
        match self.state {
            CellState::Pending => {
                self.interest = true;
                CellEvent::Quiet
            }
            CellState::ConsumerWaiting => CellEvent::License,
            CellState::Ready(_) => CellEvent::Quiet,
            CellState::Consumed => CellEvent::ProducerAbort,
        }
    }

    /// The consumer side is dropped without consuming.
    pub fn abort_consumer(&mut self) -> (ev: CellEvent<T, E>)
        ensures
            *final(self) == cell_step(*old(self), CellOp::<T, E>::AbortConsumer).0,
            ev == cell_step(*old(self), CellOp::<T, E>::AbortConsumer).1,
    {
        if matches!(self.state, CellState::Consumed) {
            CellEvent::Quiet
        } else {
            self.state = CellState::Consumed;
            if self.interest {
                self.interest = false;
                CellEvent::ProducerAbort
            } else {
                CellEvent::Quiet
            }
        }
    }

    /// The producer side is dropped without producing.
    pub fn abort_producer(&mut self) -> (ev: CellEvent<T, E>)
        ensures
            *final(self) == cell_step(*old(self), CellOp::<T, E>::AbortProducer).0,
            ev == cell_step(*old(self), CellOp::<T, E>::AbortProducer).1,
    {
        if matches!(self.state, CellState::Pending) {
            self.state = CellState::Consumed;
            CellEvent::Quiet
        } else if matches!(self.state, CellState::ConsumerWaiting) {
            self.state = CellState::Consumed;
            CellEvent::Deliver(Err(AsyncError::Aborted))
        } else {
            CellEvent::Quiet
        }
    }
}

/// Runs a sequence of operations from `c`, yielding the final cell and
/// the events dispatched along the way.
pub open spec fn run_cell<T, E>(c: Cell<T, E>, ops: Seq<CellOp<T, E>>) -> (Cell<T, E>, Seq<
    CellEvent<T, E>,
>)
    decreases ops.len(),
{
    if ops.len() == 0 {
        (c, Seq::empty())
    } else {
        let first = cell_step(c, ops[0]);
        let rest = run_cell(first.0, ops.drop_first());
        (rest.0, seq![first.1] + rest.1)
    }
}

/// How many events of a trace deliver an outcome to the consumer.
pub open spec fn delivery_count<T, E>(evs: Seq<CellEvent<T, E>>) -> nat
    decreases evs.len(),
{
    if evs.len() == 0 {
        0
    } else {
        (if evs[0] is Deliver {
            1nat
        } else {
            0nat
        }) + delivery_count(evs.drop_first())
    }
}

/// Whether a trace delivers exactly the outcome `v` at some point.
pub open spec fn delivers<T, E>(evs: Seq<CellEvent<T, E>>, v: Result<T, AsyncError<E>>) -> bool
    decreases evs.len(),
{
    evs.len() > 0 && (evs[0] == CellEvent::Deliver(v) || delivers(evs.drop_first(), v))
}

/// A single step delivers only on the way into `Consumed`, and nothing
/// is ever delivered out of a consumed cell.
proof fn lemma_step_delivery<T, E>(c: Cell<T, E>, op: CellOp<T, E>)
    ensures
        cell_step(c, op).1 is Deliver ==> cell_step(c, op).0.state is Consumed,
        c.state is Consumed ==> !(cell_step(c, op).1 is Deliver),
        c.state is Consumed ==> cell_step(c, op).0.state is Consumed,
{
}

proof fn lemma_at_most_once_from<T, E>(c: Cell<T, E>, ops: Seq<CellOp<T, E>>)
    ensures
        delivery_count(run_cell(c, ops).1) <= 1,
        c.state is Consumed ==> delivery_count(run_cell(c, ops).1) == 0,
    decreases ops.len(),
{
    if ops.len() > 0 {
        let first = cell_step(c, ops[0]);
        lemma_step_delivery(c, ops[0]);
        lemma_at_most_once_from(first.0, ops.drop_first());
        let evs = run_cell(c, ops).1;
        assert(evs.drop_first() =~= run_cell(first.0, ops.drop_first()).1);
    }
}

/// At-most-once delivery: across any sequence of operations on a fresh
/// cell, applied by any parties in any interleaving, at most one event
/// delivers an outcome to the consumer callback.
pub proof fn lemma_at_most_once_delivery<T, E>(ops: Seq<CellOp<T, E>>)
    ensures
        delivery_count(run_cell(fresh_cell::<T, E>(), ops).1) <= 1,
{
    lemma_at_most_once_from(fresh_cell::<T, E>(), ops);
}

/// Whether an operation sequence contains a consumer registration.
pub open spec fn registers_consumer<T, E>(ops: Seq<CellOp<T, E>>) -> bool
    decreases ops.len(),
{
    ops.len() > 0 && (ops[0] is SetConsumer || registers_consumer(ops.drop_first()))
}

/// Whether an operation sequence contains a production.
pub open spec fn produces_value<T, E>(ops: Seq<CellOp<T, E>>) -> bool
    decreases ops.len(),
{
    ops.len() > 0 && (ops[0] is SetValue || produces_value(ops.drop_first()))
}

/// The first outcome an operation sequence produces.
pub open spec fn first_value<T, E>(ops: Seq<CellOp<T, E>>) -> Result<T, AsyncError<E>>
    recommends
        produces_value(ops),
    decreases ops.len(),
{
    if ops.len() == 0 {
        arbitrary()
    } else if ops[0] is SetValue {
        ops[0]->SetValue_0
    } else {
        first_value(ops.drop_first())
    }
}

/// Whether an operation sequence aborts the cell from either side.
pub open spec fn aborts<T, E>(ops: Seq<CellOp<T, E>>) -> bool
    decreases ops.len(),
{
    ops.len() > 0 && (ops[0] is AbortConsumer || ops[0] is AbortProducer || aborts(
        ops.drop_first(),
    ))
}

proof fn lemma_no_lost_value_from<T, E>(c: Cell<T, E>, ops: Seq<CellOp<T, E>>)
    requires
        !aborts(ops),
    ensures
        c.state is Pending && produces_value(ops) && registers_consumer(ops) ==> delivers(
            run_cell(c, ops).1,
            first_value(ops),
        ),
        c.state is ConsumerWaiting && produces_value(ops) ==> delivers(
            run_cell(c, ops).1,
            first_value(ops),
        ),
        c.state is Ready && registers_consumer(ops) ==> delivers(
            run_cell(c, ops).1,
            c.state->Ready_0,
        ),
    decreases ops.len(),
{
    if ops.len() > 0 {
        let first = cell_step(c, ops[0]);
        lemma_no_lost_value_from(first.0, ops.drop_first());
        let evs = run_cell(c, ops).1;
        assert(evs.drop_first() =~= run_cell(first.0, ops.drop_first()).1);
        assert(evs[0] == first.1);
    }
}

/// No lost value: if, among the operations applied to a fresh cell,
/// the producer deposits an outcome and a consumer registers, and
/// neither side aborts, then the first deposited outcome is delivered
/// to the consumer callback - regardless of the order in which the two
/// sides acted.
pub proof fn lemma_no_lost_value<T, E>(ops: Seq<CellOp<T, E>>)
    requires
        !aborts(ops),
        produces_value(ops),
        registers_consumer(ops),
    ensures
        delivers(run_cell(fresh_cell::<T, E>(), ops).1, first_value(ops)),
{
    lemma_no_lost_value_from(fresh_cell::<T, E>(), ops);
}

/// Abort symmetry: dropping the producer side while a consumer waits
/// delivers `Aborted` to the consumer in that very step, and dropping
/// the consumer side while the producer listens fires the producer's
/// interest listener with `ProducerAbort` in that very step.
pub proof fn lemma_abort_symmetry<T, E>(c: Cell<T, E>)
    ensures
        c.state is ConsumerWaiting ==> cell_step(c, CellOp::<T, E>::AbortProducer).1
            == CellEvent::<T, E>::Deliver(Err(AsyncError::Aborted)),
        c.interest && !(c.state is Consumed) ==> cell_step(c, CellOp::<T, E>::AbortConsumer).1
            == CellEvent::<T, E>::ProducerAbort,
{
}

} // verus!
