use eventual::Async;
use eventual::AsyncError;
use eventual::Cancel;
use eventual::Future;
use eventual::Pair;
use eventual::cell::CellEvent;
use eventual::cell::CellState;

#[test]
fn error_kinds() {
    let f: AsyncError<&str> = AsyncError::failed("oops");
    assert!(f.is_failed());
    assert!(!f.is_aborted());
    assert_eq!(f.take(), Some("oops"));
    let a: AsyncError<&str> = AsyncError::aborted();
    assert!(a.is_aborted());
    assert!(!a.is_failed());
    assert_eq!(a.take(), None);
    assert_eq!(AsyncError::failed(3).unwrap(), 3);
}

#[test]
fn polling_a_ready_future() {
    let f = Future::<i32, ()>::of(5);
    assert!(f.is_ready());
    assert!(!f.is_err());
    assert_eq!(f.poll(), Ok(Ok(5)));
}

#[test]
fn polling_a_pending_future_hands_it_back() {
    let f = Future::<i32, ()>::pending();
    assert!(!f.is_ready());
    let back = match f.poll() {
        Err(back) => back,
        Ok(_) => panic!("a pending future has no outcome"),
    };
    assert!(!back.is_ready());
}

#[test]
fn expect_takes_the_outcome() {
    assert_eq!(Future::<i32, ()>::of(11).expect(), Ok(11));
    assert_eq!(
        Future::<i32, &str>::error("no").expect(),
        Err(AsyncError::Failed("no"))
    );
}

#[test]
fn ready_fires_on_ready_and_receipt_is_spent() {
    let f = Future::<i32, ()>::of(1);
    let receipt = f.ready(|g| {
        assert_eq!(g.wait(), Ok(1));
    });
    assert!(receipt.cancel().is_none());
}

#[test]
fn ready_on_pending_is_retractable() {
    let f = Future::<i32, ()>::pending();
    let receipt = f.ready(|_| panic!("a pending future never fires"));
    let back = receipt.cancel();
    assert!(back.is_some());
    assert!(!back.unwrap().is_ready());
}

#[test]
fn receive_sees_the_outcome() {
    Future::<i32, ()>::of(30).receive(|res| assert_eq!(res, Ok(30)));
}

#[test]
fn pair_complete_redeem_round_trip() {
    let (tx, rx) = Future::<i32, ()>::pair();
    let (cell, ev) = tx.complete(8);
    assert!(matches!(ev, CellEvent::Quiet));
    assert!(matches!(cell.state, CellState::Ready(Ok(8))));
    let done = rx.redeem(cell);
    assert_eq!(done.wait(), Ok(8));
}

#[test]
fn pair_fail_redeem_surfaces_error() {
    let (tx, rx) = Future::<i32, &str>::pair();
    let (cell, _) = tx.fail("down");
    assert_eq!(rx.redeem(cell).wait(), Err(AsyncError::Failed("down")));
}

#[test]
fn pair_abort_redeem_surfaces_cancellation() {
    let (tx, rx) = Future::<i32, ()>::pair();
    let (cell, ev) = tx.abort();
    assert!(matches!(ev, CellEvent::Quiet));
    assert_eq!(rx.redeem(cell).wait(), Err(AsyncError::Aborted));
}

#[test]
fn listen_registers_producer_interest() {
    let (mut tx, _rx) = Future::<i32, ()>::pair();
    let ev = tx.listen();
    assert!(matches!(ev, CellEvent::Quiet));
    let (cell, _) = tx.complete(2);
    assert!(cell.interest);
}

#[test]
fn and_keeps_first_error() {
    let f = Future::<i32, &str>::error("stop").and(Future::<i32, &str>::of(4));
    assert_eq!(f.wait(), Err(AsyncError::Failed("stop")));
}

#[test]
fn and_takes_next_outcome_on_success() {
    let f = Future::<i32, &str>::of(1).and(Future::<i32, &str>::of(4));
    assert_eq!(f.wait(), Ok(4));
}

#[test]
fn or_keeps_success() {
    let f = Future::<i32, &str>::of(2).or(Future::<i32, &str>::of(9));
    assert_eq!(f.wait(), Ok(2));
}

#[test]
fn or_takes_alternative_on_failure() {
    let f = Future::<i32, &str>::error("x").or(Future::<i32, &str>::of(9));
    assert_eq!(f.wait(), Ok(9));
}

#[test]
fn or_else_cannot_intercept_abort() {
    let f = Future::<i32, &str>::aborted().or_else(|_| Future::<i32, &str>::of(1));
    assert_eq!(f.wait(), Err(AsyncError::Aborted));
}

#[test]
fn and_then_cannot_intercept_abort() {
    let f = Future::<i32, ()>::aborted().and_then(|v| -> Result<i32, ()> { Ok(v) });
    assert_eq!(f.wait(), Err(AsyncError::Aborted));
}

#[test]
fn map_keeps_failures() {
    let f = Future::<i32, &str>::error("e").map(|v| v + 1);
    assert_eq!(f.wait(), Err(AsyncError::Failed("e")));
}

#[test]
fn from_outcome_wraps_any_outcome() {
    let f = Future::<i32, ()>::from_outcome(Err(AsyncError::Aborted));
    assert_eq!(f.wait(), Err(AsyncError::Aborted));
    let g = Future::<i32, ()>::from_outcome(Ok(12));
    assert_eq!(g.wait(), Ok(12));
}

#[test]
fn lazy_runs_the_fallible_producer() {
    assert_eq!(Future::<i32, &str>::lazy(|| Ok(6)).wait(), Ok(6));
    assert_eq!(
        Future::<i32, &str>::lazy(|| Err("sad")).wait(),
        Err(AsyncError::Failed("sad"))
    );
}

#[test]
fn plain_results_are_async() {
    let r: Result<i32, &str> = Ok(3);
    assert!(r.is_ready());
    assert_eq!(Async::poll(r), Ok(Ok(3)));
    let e: Result<i32, &str> = Err("w");
    assert!(Async::is_err(&e));
    assert_eq!(Async::poll(e), Ok(Err(AsyncError::Failed("w"))));
}

#[test]
fn unit_is_async() {
    assert!(().is_ready());
    assert!(!Async::is_err(&()));
    assert_eq!(Async::poll(()), Ok(Ok(())));
}

#[test]
fn option_cancel_returns_itself() {
    let c: Option<Result<i32, &str>> = Some(Ok(2));
    assert_eq!(c.cancel(), Some(Ok(2)));
}
