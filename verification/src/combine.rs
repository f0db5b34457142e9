//! Combinators over several carriers: `join`, `select`, `sequence`.
//!
//! Each combinator wires a fresh pair so that the new future or stream
//! is driven by its inputs. Failures short-circuit and cancel what is
//! still pending; cancellations propagate; values keep their
//! positional or submission order.

use vstd::prelude::*;

use crate::errors::AsyncError;
use crate::future::Future;
use crate::future::FutureState;
use crate::future::failure_of;
use crate::future::is_abort;
use crate::future::is_error;
use crate::future::is_failure;
use crate::stream::Stream;
use crate::stream::StreamEnd;

verus! {

/// Whether a carrier in this state has decided a race: it holds a
/// value or a producer failure. A cancelled input decides nothing; it
/// is treated as removed.
pub open spec fn decisive<T, E>(s: FutureState<T, E>) -> bool {
    s matches FutureState::Done(Ok(_)) || s matches FutureState::Done(Err(AsyncError::Failed(_)))
}

/// What cancelling a losing input leaves behind: a still-pending input
/// is aborted, a resolved one keeps its outcome.
pub open spec fn retired<T, E>(s: FutureState<T, E>) -> FutureState<T, E> {
    if s is Pending {
        FutureState::Done(Err(AsyncError::Aborted))
    } else {
        s
    }
}

/// Joins two carriers into one future of both values.
///
/// The result resolves with the pair exactly when both inputs succeed,
/// keeping positional order. The first producer failure - by position,
/// as both are inspected at once - is surfaced and the other input is
/// cancelled; otherwise a cancellation of either input cancels the
/// output; otherwise the output waits for the still-pending input.
pub fn join<T1, T2, E>(pair: (Future<T1, E>, Future<T2, E>)) -> (r: Future<(T1, T2), E>)
    ensures
        is_failure(pair.0.state) ==> r.state == FutureState::<(T1, T2), E>::Done(
            Err(AsyncError::Failed(failure_of(pair.0.state))),
        ),
        !is_failure(pair.0.state) && is_failure(pair.1.state) ==> r.state == FutureState::<
            (T1, T2),
            E,
        >::Done(Err(AsyncError::Failed(failure_of(pair.1.state)))),
        !is_failure(pair.0.state) && !is_failure(pair.1.state) && (is_abort(pair.0.state)
            || is_abort(pair.1.state)) ==> r.state == FutureState::<(T1, T2), E>::Done(
            Err(AsyncError::Aborted),
        ),
        !is_error(pair.0.state) && !is_error(pair.1.state) && (pair.0.state is Pending
            || pair.1.state is Pending) ==> r.state is Pending,
        pair.0.state matches FutureState::Done(Ok(v1)) ==> (pair.1.state matches FutureState::Done(
            Ok(v2),
        ) ==> r.state == FutureState::<(T1, T2), E>::Done(Ok((v1, v2)))),
{
    let (a, b) = pair;
    match (a.state, b.state) {
        (FutureState::Done(Err(AsyncError::Failed(e))), _) => Future {
            state: FutureState::Done(Err(AsyncError::Failed(e))),
        },
        (_, FutureState::Done(Err(AsyncError::Failed(e)))) => Future {
            state: FutureState::Done(Err(AsyncError::Failed(e))),
        },
        (FutureState::Done(Err(AsyncError::Aborted)), _) => Future {
            state: FutureState::Done(Err(AsyncError::Aborted)),
        },
        (_, FutureState::Done(Err(AsyncError::Aborted))) => Future {
            state: FutureState::Done(Err(AsyncError::Aborted)),
        },
        (FutureState::Pending, _) => Future { state: FutureState::Pending },
        (_, FutureState::Pending) => Future { state: FutureState::Pending },
        (FutureState::Done(Ok(v1)), FutureState::Done(Ok(v2))) => Future {
            state: FutureState::Done(Ok((v1, v2))),
        },
    }
}

/// Races a set of carriers: the earliest input to decide wins.
///
/// A winning value resolves the output with its index, the value, and
/// the remaining inputs in their original order, every still-pending
/// one cancelled. A winning producer failure is surfaced and the rest
/// are cancelled. With no decisive input the output is cancelled once
/// every input is (an empty race is cancelled immediately), and waits
/// while any input still can decide.
pub fn select<T, E>(v: Vec<Future<T, E>>) -> (r: Future<(usize, T, Vec<Future<T, E>>), E>)
    ensures
        (forall|j: int| 0 <= j < v@.len() ==> !decisive(#[trigger] v@[j].state)) && (exists|j: int|
            0 <= j < v@.len() && (#[trigger] v@[j].state) is Pending) ==> r.state is Pending,
        (forall|j: int|
            0 <= j < v@.len() ==> (#[trigger] v@[j].state) == FutureState::<T, E>::Done(
                Err(AsyncError::Aborted),
            )) ==> r.state == FutureState::<(usize, T, Vec<Future<T, E>>), E>::Done(
            Err(AsyncError::Aborted),
        ),
        forall|i: int|
            0 <= i < v@.len() && decisive(#[trigger] v@[i].state) && (forall|j: int|
                0 <= j < i ==> !decisive(#[trigger] v@[j].state)) ==> {
                &&& v@[i].state matches FutureState::Done(Err(AsyncError::Failed(e))) ==> r.state
                    == FutureState::<(usize, T, Vec<Future<T, E>>), E>::Done(
                    Err(AsyncError::Failed(e)),
                )
                &&& v@[i].state matches FutureState::Done(Ok(val)) ==> (r.state matches
                    FutureState::Done(Ok(w)) && w.0 as int == i && w.1 == val && w.2@.len()
                    == v@.len() - 1 && (forall|j: int|
                    0 <= j < w.2@.len() ==> (#[trigger] w.2@[j].state) == retired(
                        v@[
                            if j < i {
                                j
                            } else {
                                j + 1
                            }
                        ].state,
                    )))
            },
{
    let ghost s = v@;
    let mut rest = v;
    let mut scanned: Vec<Future<T, E>> = Vec::new();
    let mut widx: usize = 0;
    let mut found = false;
    let mut pending_any = false;
    while rest.len() > 0
        invariant
            scanned@.len() + rest@.len() == s.len(),
            scanned@ == s.subrange(0, scanned@.len() as int),
            rest@ == s.subrange(scanned@.len() as int, s.len() as int),
            !found ==> forall|j: int| 0 <= j < scanned@.len() ==> !decisive(#[trigger] s[j].state),
            found ==> (widx < scanned@.len() && decisive(s[widx as int].state) && (forall|j: int|
                0 <= j < widx ==> !decisive(#[trigger] s[j].state))),
            pending_any <==> (exists|j: int|
                0 <= j < scanned@.len() && (#[trigger] s[j].state) is Pending),
        decreases rest@.len(),
    {
        let ghost k = scanned@.len() as int;
        let f = rest.remove(0);
        proof {
            assert(s.subrange(k, s.len() as int)[0] == s[k]);
        }
        if !found && (f.has_value() || f.has_failed()) {
            found = true;
            widx = scanned.len();
        }
        if f.is_pending() {
            pending_any = true;
        }
        scanned.push(f);
        proof {
            assert(scanned@ =~= s.subrange(0, scanned@.len() as int));
            assert(rest@ =~= s.subrange(scanned@.len() as int, s.len() as int));
        }
    }
    proof {
        assert(scanned@ =~= s);
    }
    if !found {
        if pending_any {
            Future { state: FutureState::Pending }
        } else {
            Future { state: FutureState::Done(Err(AsyncError::Aborted)) }
        }
    } else {
        let winner = scanned.remove(widx);
        match winner.state {
            FutureState::Done(Err(AsyncError::Failed(e))) => Future {
                state: FutureState::Done(Err(AsyncError::Failed(e))),
            },
            FutureState::Done(Ok(val)) => {
                let ghost remv = scanned@;
                proof {
                    assert forall|j: int| 0 <= j < remv.len() implies remv[j] == s[
                        if j < widx {
                            j
                        } else {
                            j + 1
                        }
                    ] by {
                        assert(remv == s.subrange(0, widx as int) + s.subrange(
                            widx + 1,
                            s.len() as int,
                        ));
                    }
                }
                let mut out: Vec<Future<T, E>> = Vec::new();
                let mut left = scanned;
                while left.len() > 0
                    invariant
                        out@.len() + left@.len() == remv.len(),
                        left@ == remv.subrange(out@.len() as int, remv.len() as int),
                        forall|j: int|
                            0 <= j < out@.len() ==> (#[trigger] out@[j].state) == retired(
                                remv[j].state,
                            ),
                    decreases left@.len(),
                {
                    let ghost k = out@.len() as int;
                    let f = left.remove(0);
                    proof {
                        assert(remv.subrange(k, remv.len() as int)[0] == remv[k]);
                    }
                    if f.is_pending() {
                        out.push(Future { state: FutureState::Done(Err(AsyncError::Aborted)) });
                    } else {
                        out.push(f);
                    }
                    proof {
                        assert(left@ =~= remv.subrange(out@.len() as int, remv.len() as int));
                    }
                }
                Future { state: FutureState::Done(Ok((widx, val, out))) }
            }
            _ => unreached(),
        }
    }
}

/// The values a run of submitted computations yields in submission
/// order, and how the resulting stream ends: at the first input that
/// has failed, been cancelled, or not produced yet, the stream ends
/// that way; after a full run of successes it ends normally.
pub open spec fn gathered<T, E>(s: Seq<FutureState<T, E>>) -> (Seq<T>, StreamEnd<E>)
    decreases s.len(),
{
    if s.len() == 0 {
        (Seq::empty(), StreamEnd::Done)
    } else {
        match s[0] {
            FutureState::Done(Ok(v)) => {
                let rest = gathered(s.drop_first());
                (seq![v] + rest.0, rest.1)
            },
            FutureState::Done(Err(AsyncError::Failed(e))) => (Seq::empty(), StreamEnd::Failed(e)),
            FutureState::Done(Err(AsyncError::Aborted)) => (Seq::empty(), StreamEnd::Aborted),
            FutureState::Pending => (Seq::empty(), StreamEnd::Open),
        }
    }
}

/// Turns a run of submitted computations into a stream that yields
/// each success in submission order - not completion order. The first
/// input that failed terminates the stream with its error; a cancelled
/// input cancels the stream; an input that has not produced yet leaves
/// the stream open at that point.
pub fn sequence<T, E>(v: Vec<Future<T, E>>) -> (r: Stream<T, E>)
    ensures
        r.items@ == gathered(v@.map_values(|f: Future<T, E>| f.state)).0,
        r.end == gathered(v@.map_values(|f: Future<T, E>| f.state)).1,
{
    let ghost s = v@.map_values(|f: Future<T, E>| f.state);
    let mut rest = v;
    let mut items: Vec<T> = Vec::new();
    let mut end = StreamEnd::Done;
    proof {
        assert(rest@ =~= v@.subrange(0, rest@.len() as int));
        assert(s.subrange(s.len() as int, s.len() as int) =~= Seq::<FutureState<T, E>>::empty());
    }
    while rest.len() > 0
        invariant
            rest@.len() <= s.len(),
            s.len() == v@.len(),
            s == v@.map_values(|f: Future<T, E>| f.state),
            rest@ == v@.subrange(0, rest@.len() as int),
            (items@, end) == gathered(s.subrange(rest@.len() as int, s.len() as int)),
        decreases rest@.len(),
    {
        let ghost j = rest@.len() - 1;
        let f = rest.pop().unwrap();
        proof {
            assert(v@.subrange(0, j + 1)[j] == v@[j]);
            assert(s[j] == v@[j].state);
            assert(rest@ =~= v@.subrange(0, rest@.len() as int));
            assert(s.subrange(j, s.len() as int).drop_first() =~= s.subrange(
                j + 1,
                s.len() as int,
            ));
        }
        match f.state {
            FutureState::Done(Ok(val)) => {
                items.insert(0, val);
                proof {
                    assert(items@ =~= seq![val] + gathered(
                        s.subrange(j + 1, s.len() as int),
                    ).0);
                }
            }
            FutureState::Done(Err(AsyncError::Failed(e))) => {
                items.clear();
                end = StreamEnd::Failed(e);
            }
            FutureState::Done(Err(AsyncError::Aborted)) => {
                items.clear();
                end = StreamEnd::Aborted;
            }
            FutureState::Pending => {
                items.clear();
                end = StreamEnd::Open;
            }
        }
    }
    proof {
        assert(s.subrange(0, s.len() as int) =~= s);
    }
    Stream { items, end }
}

} // verus!
