//! The producer side of a stream: the send/consume handshake that
//! yields backpressure.
//!
//! A stream is a chain of cells; the producer fills the cell at the
//! head of the chain and may not fill the next one before the consumer
//! has taken the previous value. The chain is modelled by a
//! [`Channel`] holding the at-most-one value in flight, together with
//! the ghost history of everything sent and everything taken. The
//! producer's right to act travels through two linear tokens: a
//! [`Sender`] may deposit the next value, and doing so turns it into a
//! [`BusySender`] that turns back into a `Sender` only once the
//! consumer has taken the value. That handshake is exactly the
//! backpressure contract: the producer can never run more than one
//! element ahead of the consumer.

use vstd::prelude::*;

use crate::Pair;
use crate::stream::StreamEnd;

verus! {

/// The shared chain between one producer and one consumer: the value
/// in flight, how the producer closed the chain, and the ghost history
/// of both sides.
pub struct Channel<T, E> {
    /// The value deposited and not yet taken, if any.
    pub slot: Option<T>,
    /// `Open` while the producer may still send.
    pub end: StreamEnd<E>,
    /// Every value ever sent, in order.
    pub sent: Ghost<Seq<T>>,
    /// Every value the consumer has taken, in order.
    pub taken: Ghost<Seq<T>>,
}

/// The producer's right to deposit the next value.
pub struct Sender {
    /// How many values were sent before this token was issued.
    pub count: Ghost<nat>,
}

/// The producer's state after a send: the deposited value has not
/// necessarily been taken yet.
pub struct BusySender {
    /// How many values were sent up to and including the pending one.
    pub count: Ghost<nat>,
}

/// What polling a busy sender yields.
pub enum SendPoll {
    /// The consumer took the value; the producer may send again.
    Ready(Sender),
    /// The value is still in flight.
    Waiting(BusySender),
    /// The consumer abandoned the stream; stop producing.
    Cancelled,
}

impl<T, E> Channel<T, E> {
    /// The histories agree with the slot: everything sent was taken,
    /// except a value still in flight.
    pub open spec fn wf(&self) -> bool {
        match self.slot {
            Some(v) => self.sent@ == self.taken@.push(v),
            None => self.sent@ == self.taken@,
        }
    }

    /// The consumer takes the value in flight, if any.
    pub fn take(&mut self) -> (r: Option<T>)
        ensures
            old(self).slot matches Some(v) ==> {
                &&& r == Some(v)
                &&& final(self).slot is None
                &&& final(self).taken@ == old(self).taken@.push(v)
                &&& final(self).sent == old(self).sent
                &&& final(self).end == old(self).end
            },
            old(self).slot is None ==> *final(self) == *old(self),
    {
        let mut taken_now: Option<T> = None;
        core::mem::swap(&mut self.slot, &mut taken_now);
        match taken_now {
            Some(v) => {
                self.taken = Ghost(self.taken@.push(v));
                Some(v)
            }
            None => None,
        }
    }

    /// The consumer abandons the stream; the producer will observe the
    /// cancellation on its next poll.
    pub fn cancel(&mut self)
        ensures
            final(self).end is Aborted,
            final(self).slot == old(self).slot,
            final(self).sent == old(self).sent,
            final(self).taken == old(self).taken,
    {
        self.end = StreamEnd::Aborted;
    }
}

impl Sender {
    /// This token is the live producer right for `ch`: nothing is in
    /// flight and the token's count matches the history.
    pub open spec fn wf<T, E>(&self, ch: &Channel<T, E>) -> bool {
        &&& self.count@ == ch.sent@.len()
        &&& ch.slot is None
    }

    /// Deposits the next value. The returned busy token becomes a
    /// sender again only once the consumer takes this value.
    pub fn send<T, E>(self, ch: &mut Channel<T, E>, v: T) -> (b: BusySender)
        requires
            old(ch).wf(),
            self.wf(old(ch)),
            old(ch).end is Open,
        ensures
            final(ch).wf(),
            b.wf(final(ch)),
            final(ch).slot == Some(v),
            final(ch).end is Open,
            final(ch).sent@ == old(ch).sent@.push(v),
            final(ch).taken == old(ch).taken,
            b.count@ == old(ch).sent@.len() + 1,
    {
        ch.slot = Some(v);
        ch.sent = Ghost(ch.sent@.push(v));
        BusySender { count: Ghost(self.count@ + 1) }
    }

    /// Ends the stream normally.
    pub fn done<T, E>(self, ch: &mut Channel<T, E>)
        requires
            self.wf(old(ch)),
            old(ch).end is Open,
        ensures
            final(ch).end is Done,
            final(ch).slot == old(ch).slot,
            final(ch).sent == old(ch).sent,
            final(ch).taken == old(ch).taken,
    {
        ch.end = StreamEnd::Done;
    }

    /// Ends the stream with a producer failure.
    pub fn fail<T, E>(self, ch: &mut Channel<T, E>, e: E)
        requires
            self.wf(old(ch)),
            old(ch).end is Open,
        ensures
            final(ch).end == StreamEnd::Failed(e),
            final(ch).slot == old(ch).slot,
            final(ch).sent == old(ch).sent,
            final(ch).taken == old(ch).taken,
    {
        ch.end = StreamEnd::Failed(e);
    }

    /// The producer walks away without ending the stream; the consumer
    /// observes a cancellation.
    pub fn abandon<T, E>(self, ch: &mut Channel<T, E>)
        requires
            self.wf(old(ch)),
            old(ch).end is Open,
        ensures
            final(ch).end is Aborted,
            final(ch).slot == old(ch).slot,
            final(ch).sent == old(ch).sent,
            final(ch).taken == old(ch).taken,
    {
        ch.end = StreamEnd::Aborted;
    }
}

impl BusySender {
    /// This token belongs to `ch`'s history, whether or not the value
    /// it deposited is still in flight.
    pub open spec fn wf<T, E>(&self, ch: &Channel<T, E>) -> bool {
        self.count@ == ch.sent@.len()
    }

    /// Asks whether the deposited value was taken. Readiness is
    /// observed only after the consumer took the value; a closed
    /// channel means the consumer cancelled.
    pub fn poll_sender<T, E>(self, ch: &Channel<T, E>) -> (r: SendPoll)
        requires
            self.wf(ch),
        ensures
            ch.end is Open && ch.slot is None ==> (r matches SendPoll::Ready(s) && s.count@
                == self.count@ && s.wf(ch)),
            ch.end is Open && ch.slot is Some ==> r == SendPoll::Waiting(self),
            !(ch.end is Open) ==> r is Cancelled,
    {
        match ch.end {
            StreamEnd::Open => {
                if ch.slot.is_none() {
                    SendPoll::Ready(Sender { count: Ghost(self.count@) })
                } else {
                    SendPoll::Waiting(self)
                }
            }
            _ => SendPoll::Cancelled,
        }
    }
}

impl<T, E> Pair for Channel<T, E> {
    type Tx = Sender;

    open spec fn fresh(tx: Sender, rx: Channel<T, E>) -> bool {
        &&& rx.slot is None
        &&& rx.end is Open
        &&& rx.sent@ == Seq::<T>::empty()
        &&& rx.taken@ == Seq::<T>::empty()
        &&& tx.count@ == 0
    }

    fn pair() -> (r: (Sender, Channel<T, E>)) {
        (
            Sender { count: Ghost(0) },
            Channel {
                slot: None,
                end: StreamEnd::Open,
                sent: Ghost(Seq::empty()),
                taken: Ghost(Seq::empty()),
            },
        )
    }
}

/// Ordering: on a well-formed channel the consumer has taken exactly a
/// prefix of what was sent, in the very order it was sent; the
/// terminating `done` or `fail` cuts the observed sequence off after
/// that prefix.
pub proof fn lemma_stream_ordering<T, E>(ch: Channel<T, E>)
    requires
        ch.wf(),
    ensures
        ch.taken@.len() <= ch.sent@.len(),
        ch.taken@ == ch.sent@.subrange(0, ch.taken@.len() as int),
{
    match ch.slot {
        Some(v) => {
            assert(ch.taken@ =~= ch.taken@.push(v).subrange(0, ch.taken@.len() as int));
        }
        None => {
            assert(ch.taken@ =~= ch.sent@.subrange(0, ch.taken@.len() as int));
        }
    }
}

/// Backpressure: a producer holding the right to make send number
/// `k + 1` knows that all `k` values sent so far were taken. In
/// particular a send can never be more than one element ahead of the
/// consumer: the busy token issued by a send turns back into a sender
/// only once that send's value has been taken.
pub proof fn lemma_backpressure<T, E>(s: Sender, ch: Channel<T, E>)
    requires
        ch.wf(),
        s.wf(&ch),
    ensures
        ch.taken@ == ch.sent@,
        ch.taken@.len() == s.count@,
{
}

} // verus!
