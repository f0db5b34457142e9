//! Eventual sequences: the consumer-side [`Stream`] and its
//! combinators.
//!
//! A stream is a lazy chain of cells; what the consumer can see of it
//! at any moment is the run of values already produced and the way the
//! chain continues: still open, ended, failed, or cancelled. The
//! combinators below preserve ordering exactly - the k-th upstream
//! element becomes the k-th (post-map/filter) downstream element - and
//! fail fast on a producer failure.

use vstd::prelude::*;

use crate::errors::AsyncError;
use crate::future::Future;
use crate::future::FutureState;

verus! {

/// How the produced part of a stream continues.
pub enum StreamEnd<E> {
    /// The producer may still send more values.
    Open,
    /// The producer ended the stream normally.
    Done,
    /// The producer reported an application error.
    Failed(E),
    /// One side abandoned the stream.
    Aborted,
}

/// The consumer-side view of a stream: the values produced and not yet
/// consumed, in production order, and how the chain continues after
/// them.
pub struct Stream<T, E> {
    pub items: Vec<T>,
    pub end: StreamEnd<E>,
}

/// The values of a run that a predicate kept, in their original
/// order: `keep[i]` says whether the i-th value stayed.
pub open spec fn filtered<T>(s: Seq<T>, keep: Seq<bool>) -> Seq<T>
    decreases s.len(),
{
    if s.len() == 0 || keep.len() == 0 {
        Seq::empty()
    } else {
        let rest = filtered(s.drop_last(), keep.drop_last());
        if keep.last() {
            rest.push(s.last())
        } else {
            rest
        }
    }
}

/// A blocking iterator over a stream whose production has finished.
pub struct StreamIter<T, E> {
    pub rest: Stream<T, E>,
}

impl<T, E> Stream<T, E> {
    /// A stream whose production already ended: the given values, then
    /// a normal end.
    pub fn done_with(items: Vec<T>) -> (r: Stream<T, E>)
        ensures
            r.items == items,
            r.end is Done,
    {
        Stream { items, end: StreamEnd::Done }
    }

    /// True when consuming the head would not wait: a value is
    /// available, or the stream has terminated.
    pub fn is_ready(&self) -> (b: bool)
        ensures
            b == (self.items@.len() > 0 || !(self.end is Open)),
    {
        if self.items.len() > 0 {
            true
        } else {
            !matches!(self.end, StreamEnd::Open)
        }
    }

    /// Consumes the head. A produced value comes with the tail stream;
    /// an ended stream yields `None`; a failure or cancellation
    /// surfaces as the error; an open stream with nothing produced yet
    /// hands the stream back.
    pub fn head(self) -> (r: Result<
        Result<Option<(T, Stream<T, E>)>, AsyncError<E>>,
        Stream<T, E>,
    >)
        ensures
            self.items@.len() > 0 ==> (r matches Ok(Ok(Some((h, t)))) && h == self.items@[0]
                && t.items@ == self.items@.drop_first() && t.end == self.end),
            self.items@.len() == 0 && self.end is Done ==> r == Ok::<
                Result<Option<(T, Stream<T, E>)>, AsyncError<E>>,
                Stream<T, E>,
            >(Ok(None)),
            self.items@.len() == 0 && self.end is Failed ==> r == Ok::<
                Result<Option<(T, Stream<T, E>)>, AsyncError<E>>,
                Stream<T, E>,
            >(Err(AsyncError::Failed(self.end->Failed_0))),
            self.items@.len() == 0 && self.end is Aborted ==> r == Ok::<
                Result<Option<(T, Stream<T, E>)>, AsyncError<E>>,
                Stream<T, E>,
            >(Err(AsyncError::Aborted)),
            self.items@.len() == 0 && self.end is Open ==> r == Err::<
                Result<Option<(T, Stream<T, E>)>, AsyncError<E>>,
                Stream<T, E>,
            >(self),
    {
        let mut items = self.items;
        if items.len() > 0 {
            let h = items.remove(0);
            proof {
                assert(items@ =~= self.items@.drop_first());
            }
            Ok(Ok(Some((h, Stream { items, end: self.end }))))
        } else {
            match self.end {
                StreamEnd::Done => Ok(Ok(None)),
                StreamEnd::Failed(e) => Ok(Err(AsyncError::Failed(e))),
                StreamEnd::Aborted => Ok(Err(AsyncError::Aborted)),
                StreamEnd::Open => Err(Stream { items, end: StreamEnd::Open }),
            }
        }
    }

    /// Transforms every value; the way the stream ends is untouched,
    /// and ordering is preserved exactly.
    pub fn map<U, F: Fn(T) -> U>(self, f: F) -> (r: Stream<U, E>)
        requires
            forall|i: int| 0 <= i < self.items@.len() ==> call_requires(f, (self.items@[i],)),
        ensures
            r.items@.len() == self.items@.len(),
            forall|i: int|
                0 <= i < self.items@.len() ==> call_ensures(
                    f,
                    (self.items@[i],),
                    #[trigger] r.items@[i],
                ),
            r.end == self.end,
    {
        let ghost orig = self.items@;
        let mut rest = self.items;
        let mut out: Vec<U> = Vec::new();
        while rest.len() > 0
            invariant
                out@.len() + rest@.len() == orig.len(),
                rest@ == orig.subrange(out@.len() as int, orig.len() as int),
                forall|i: int| 0 <= i < orig.len() ==> call_requires(f, (orig[i],)),
                forall|i: int| 0 <= i < out@.len() ==> call_ensures(f, (orig[i],), #[trigger] out@[i]),
            decreases rest@.len(),
        {
            let x = rest.remove(0);
            assert(x == orig[out@.len() as int]);
            out.push(f(x));
            proof {
                assert(rest@ =~= orig.subrange(out@.len() as int, orig.len() as int));
            }
        }
        Stream { items: out, end: self.end }
    }

    /// Keeps exactly the values the predicate accepts, in order; the
    /// way the stream ends is untouched.
    pub fn filter<F: Fn(&T) -> bool>(self, f: F) -> (r: Stream<T, E>)
        requires
            forall|i: int| 0 <= i < self.items@.len() ==> call_requires(f, (&self.items@[i],)),
        ensures
            r.end == self.end,
            exists|keep: Seq<bool>|
                #![trigger filtered(self.items@, keep)]
                {
                    &&& keep.len() == self.items@.len()
                    &&& forall|i: int|
                        0 <= i < keep.len() ==> call_ensures(
                            f,
                            (&self.items@[i],),
                            #[trigger] keep[i],
                        )
                    &&& r.items@ == filtered(self.items@, keep)
                },
    {
        let ghost orig = self.items@;
        let ghost mut kept = Seq::<bool>::empty();
        let mut rest = self.items;
        let mut out: Vec<T> = Vec::new();
        proof {
            assert(filtered(orig.subrange(0, 0), kept) =~= Seq::<T>::empty());
        }
        while rest.len() > 0
            invariant
                orig == self.items@,
                kept.len() + rest@.len() == orig.len(),
                rest@ == orig.subrange(kept.len() as int, orig.len() as int),
                forall|i: int| 0 <= i < orig.len() ==> call_requires(f, (&orig[i],)),
                forall|i: int|
                    0 <= i < kept.len() ==> call_ensures(f, (&orig[i],), #[trigger] kept[i]),
                out@ == filtered(orig.subrange(0, kept.len() as int), kept),
            decreases rest@.len(),
        {
            let ghost k = kept.len() as int;
            let x = rest.remove(0);
            proof {
                assert(orig.subrange(k, orig.len() as int)[0] == orig[k]);
            }
            let keep_this = f(&x);
            if keep_this {
                out.push(x);
            }
            proof {
                let prev_kept = kept;
                kept = kept.push(keep_this);
                assert(rest@ =~= orig.subrange(kept.len() as int, orig.len() as int));
                assert(orig.subrange(0, k + 1).drop_last() =~= orig.subrange(0, k));
                assert(kept.drop_last() =~= prev_kept);
                assert(orig.subrange(0, k + 1).last() == orig[k]);
            }
        }
        proof {
            assert(orig.subrange(0, kept.len() as int) =~= self.items@);
        }
        Stream { items: out, end: self.end }
    }

    /// Cuts the stream off after at most `n` values. When the cut
    /// happens within what was produced, the stream now ends normally
    /// there; otherwise everything is kept, including the way the
    /// stream continues.
    pub fn take(self, n: usize) -> (r: Stream<T, E>)
        ensures
            n <= self.items@.len() ==> (r.items@ == self.items@.subrange(0, n as int) && r.end
                is Done),
            n > self.items@.len() ==> (r.items@ == self.items@ && r.end == self.end),
    {
        let mut items = self.items;
        if n <= items.len() {
            items.truncate(n);
            Stream { items, end: StreamEnd::Done }
        } else {
            Stream { items, end: self.end }
        }
    }

    /// Keeps the longest prefix of values the predicate accepts; the
    /// stream ends normally at the first rejected value.
    pub fn take_while<F: Fn(&T) -> bool>(self, f: F) -> (r: Stream<T, E>)
        requires
            forall|i: int| 0 <= i < self.items@.len() ==> call_requires(f, (&self.items@[i],)),
        ensures
            exists|k: int|
                #![trigger self.items@.subrange(0, k)]
                {
                    &&& 0 <= k <= self.items@.len()
                    &&& r.items@ == self.items@.subrange(0, k)
                    &&& forall|i: int| 0 <= i < k ==> call_ensures(f, (&self.items@[i],), true)
                    &&& k < self.items@.len() ==> (call_ensures(f, (&self.items@[k],), false)
                        && r.end is Done)
                    &&& k == self.items@.len() ==> r.end == self.end
                },
    {
        let ghost orig = self.items@;
        let mut rest = self.items;
        let mut out: Vec<T> = Vec::new();
        while rest.len() > 0
            invariant
                orig == self.items@,
                out@.len() + rest@.len() == orig.len(),
                rest@ == orig.subrange(out@.len() as int, orig.len() as int),
                out@ == orig.subrange(0, out@.len() as int),
                forall|i: int| 0 <= i < orig.len() ==> call_requires(f, (&orig[i],)),
                forall|i: int| 0 <= i < out@.len() ==> call_ensures(f, (&orig[i],), true),
            decreases rest@.len(),
        {
            let x = rest.remove(0);
            assert(x == orig[out@.len() as int]);
            if !f(&x) {
                proof {
                    let k = out@.len() as int;
                    assert(out@ == orig.subrange(0, k));
                    assert(call_ensures(f, (&orig[k],), false));
                }
                return Stream { items: out, end: StreamEnd::Done };
            }
            out.push(x);
            proof {
                assert(rest@ =~= orig.subrange(out@.len() as int, orig.len() as int));
                assert(out@ =~= orig.subrange(0, out@.len() as int));
            }
        }
        proof {
            assert(out@ =~= orig.subrange(0, orig.len() as int));
        }
        Stream { items: out, end: self.end }
    }

    /// Folds the produced values in order. The fold's result becomes a
    /// future: resolved once the stream has ended, failed or cancelled
    /// as the stream was, still pending while the stream is open.
    pub fn reduce<A, F: Fn(A, T) -> A>(self, init: A, f: F) -> (r: Future<A, E>)
        requires
            forall|a: A, i: int| 0 <= i < self.items@.len() ==> call_requires(f, (a, self.items@[i])),
        ensures
            self.end is Done ==> (r.state matches FutureState::Done(Ok(acc)) && exists|
                accs: Seq<A>,
            |
                {
                    &&& accs.len() == self.items@.len() + 1
                    &&& accs[0] == init
                    &&& forall|i: int|
                        0 <= i < self.items@.len() ==> call_ensures(
                            f,
                            (accs[i], self.items@[i]),
                            #[trigger] accs[i + 1],
                        )
                    &&& acc == accs[self.items@.len() as int]
                }),
            self.end matches StreamEnd::Failed(e) ==> r.state == FutureState::<A, E>::Done(
                Err(AsyncError::Failed(e)),
            ),
            self.end is Aborted ==> r.state == FutureState::<A, E>::Done(Err(AsyncError::Aborted)),
            self.end is Open ==> r.state is Pending,
    {
        let ghost orig = self.items@;
        let mut rest = self.items;
        let mut acc = init;
        let ghost mut accs = seq![init];
        while rest.len() > 0
            invariant
                1 <= accs.len() <= orig.len() + 1,
                accs.len() + rest@.len() == orig.len() + 1,
                rest@ == orig.subrange(accs.len() - 1, orig.len() as int),
                accs[0] == init,
                forall|a: A, i: int| 0 <= i < orig.len() ==> call_requires(f, (a, orig[i])),
                forall|i: int|
                    0 <= i < accs.len() - 1 ==> call_ensures(
                        f,
                        (accs[i], orig[i]),
                        #[trigger] accs[i + 1],
                    ),
                acc == accs[accs.len() - 1],
            decreases rest@.len(),
        {
            let ghost prev = rest@;
            let x = rest.remove(0);
            proof {
                assert(orig.subrange(accs.len() - 1, orig.len() as int)[0] == orig[accs.len()
                    - 1]);
                assert(x == prev[0]);
            }
            acc = f(acc, x);
            proof {
                accs = accs.push(acc);
                assert(rest@ =~= orig.subrange(accs.len() - 1, orig.len() as int));
            }
        }
        match self.end {
            StreamEnd::Done => Future { state: FutureState::Done(Ok(acc)) },
            StreamEnd::Failed(e) => Future { state: FutureState::Done(Err(AsyncError::Failed(e))) },
            StreamEnd::Aborted => Future { state: FutureState::Done(Err(AsyncError::Aborted)) },
            StreamEnd::Open => Future { state: FutureState::Pending },
        }
    }

    /// Gathers the produced values into one future of the whole
    /// sequence: resolved once the stream has ended, failed or
    /// cancelled as the stream was, pending while it is open.
    pub fn collect(self) -> (r: Future<Vec<T>, E>)
        ensures
            self.end is Done ==> (r.state matches FutureState::Done(Ok(v)) && v@ == self.items@),
            self.end matches StreamEnd::Failed(e) ==> r.state == FutureState::<Vec<T>, E>::Done(
                Err(AsyncError::Failed(e)),
            ),
            self.end is Aborted ==> r.state == FutureState::<Vec<T>, E>::Done(
                Err(AsyncError::Aborted),
            ),
            self.end is Open ==> r.state is Pending,
    {
        match self.end {
            StreamEnd::Done => Future { state: FutureState::Done(Ok(self.items)) },
            StreamEnd::Failed(e) => Future { state: FutureState::Done(Err(AsyncError::Failed(e))) },
            StreamEnd::Aborted => Future { state: FutureState::Done(Err(AsyncError::Aborted)) },
            StreamEnd::Open => Future { state: FutureState::Pending },
        }
    }

    /// Feeds every produced value, in order, to a side-effecting
    /// consumer; the resulting unit future ends as the stream did.
    pub fn each<F: Fn(T)>(self, f: F) -> (r: Future<(), E>)
        requires
            forall|i: int| 0 <= i < self.items@.len() ==> call_requires(f, (self.items@[i],)),
        ensures
            self.end is Done ==> r.state == FutureState::<(), E>::Done(Ok(())),
            self.end matches StreamEnd::Failed(e) ==> r.state == FutureState::<(), E>::Done(
                Err(AsyncError::Failed(e)),
            ),
            self.end is Aborted ==> r.state == FutureState::<(), E>::Done(Err(AsyncError::Aborted)),
            self.end is Open ==> r.state is Pending,
    {
        let ghost orig = self.items@;
        let mut rest = self.items;
        while rest.len() > 0
            invariant
                rest@.len() <= orig.len(),
                rest@ == orig.subrange(orig.len() - rest@.len(), orig.len() as int),
                forall|i: int| 0 <= i < orig.len() ==> call_requires(f, (orig[i],)),
            decreases rest@.len(),
        {
            let x = rest.remove(0);
            assert(x == orig[orig.len() - rest@.len() - 1]);
            f(x);
            proof {
                assert(rest@ =~= orig.subrange(orig.len() - rest@.len(), orig.len() as int));
            }
        }
        match self.end {
            StreamEnd::Done => Future { state: FutureState::Done(Ok(())) },
            StreamEnd::Failed(e) => Future { state: FutureState::Done(Err(AsyncError::Failed(e))) },
            StreamEnd::Aborted => Future { state: FutureState::Done(Err(AsyncError::Aborted)) },
            StreamEnd::Open => Future { state: FutureState::Pending },
        }
    }

    /// A blocking iterator over the stream. In this sequential carrier
    /// nothing can extend an open stream while the caller blocks, so
    /// iteration demands that production has finished.
    pub fn iter(self) -> (r: StreamIter<T, E>)
        requires
            !(self.end is Open),
        ensures
            r.rest == self,
    {
        StreamIter { rest: self }
    }
}

impl<T, E> StreamIter<T, E> {
    /// Yields the next value, the terminating error, or `None` at the
    /// end of the stream. After the terminating error has been
    /// yielded once, the iterator is exhausted.
    pub fn next(&mut self) -> (r: Option<Result<T, AsyncError<E>>>)
        requires
            !(old(self).rest.end is Open),
        ensures
            !(final(self).rest.end is Open),
            old(self).rest.items@.len() > 0 ==> {
                &&& r == Some(Ok::<T, AsyncError<E>>(old(self).rest.items@[0]))
                &&& final(self).rest.items@ == old(self).rest.items@.drop_first()
                &&& final(self).rest.end == old(self).rest.end
            },
            old(self).rest.items@.len() == 0 && old(self).rest.end is Done ==> (r is None
                && *final(self) == *old(self)),
            old(self).rest.items@.len() == 0 && old(self).rest.end is Failed ==> (r == Some(
                Err::<T, AsyncError<E>>(AsyncError::Failed(old(self).rest.end->Failed_0)),
            ) && final(self).rest.end is Done),
            old(self).rest.items@.len() == 0 && old(self).rest.end is Aborted ==> (r == Some(
                Err::<T, AsyncError<E>>(AsyncError::Aborted),
            ) && final(self).rest.end is Done),
    {
        if self.rest.items.len() > 0 {
            let v = self.rest.items.remove(0);
            Some(Ok(v))
        } else {
            let mut end = StreamEnd::Done;
            core::mem::swap(&mut self.rest.end, &mut end);
            match end {
                StreamEnd::Done => None,
                StreamEnd::Failed(e) => Some(Err(AsyncError::Failed(e))),
                StreamEnd::Aborted => Some(Err(AsyncError::Aborted)),
                StreamEnd::Open => unreached(),
            }
        }
    }
}

} // verus!
