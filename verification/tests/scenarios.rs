use eventual::Async;
use eventual::AsyncError;
use eventual::Future;
use eventual::join;
use eventual::select;
use eventual::sequence;

#[test]
fn of_then_map_doubles() {
    let res = Future::<i32, ()>::of(42).map(|v| v * 2).wait();
    assert_eq!(res, Ok(84));
}

#[test]
fn join_then_and_then_adds() {
    let a = Future::<i32, ()>::of(1);
    let b = Future::<i32, ()>::of(2);
    let res = join((a, b)).and_then(|(x, y)| -> Result<i32, ()> { Ok(x + y) }).wait();
    assert_eq!(res, Ok(3));
}

#[test]
fn error_recovers_through_or_else() {
    let res = Future::<i32, &str>::error("boom").or_else(|_| Future::<i32, &str>::of(7)).wait();
    assert_eq!(res, Ok(7));
}

#[test]
fn spawned_pair_joined_mapped() {
    let f1 = Future::<i32, ()>::spawn(|| 42);
    let f2 = Future::<i32, ()>::spawn(|| 18);
    let res = join((f1.map(|v| v * 2), f2.map(|v| v + 5)))
        .and_then(|(a, b)| -> Result<i32, ()> { Ok(a - b) })
        .wait();
    assert_eq!(res, Ok(61));
}

#[test]
fn stream_map_collect() {
    let s = sequence(vec![
        Future::<i32, ()>::of(1),
        Future::<i32, ()>::of(2),
        Future::<i32, ()>::of(3),
    ]);
    let res = s.map(|v| v * 10).collect().wait();
    assert_eq!(res, Ok(vec![10, 20, 30]));
}

#[test]
fn select_picks_ready_and_cancels_rest() {
    let v = vec![Future::<i32, ()>::of(1), Future::<i32, ()>::pending()];
    let res = select(v).wait();
    let (idx, val, mut remaining) = res.ok().unwrap();
    assert_eq!(idx, 0);
    assert_eq!(val, 1);
    assert_eq!(remaining.len(), 1);
    let leftover = remaining.pop().unwrap();
    assert_eq!(leftover.wait(), Err(AsyncError::Aborted));
}

#[test]
fn join_surfaces_first_failure() {
    let a = Future::<i32, &str>::of(5);
    let b = Future::<i32, &str>::error("bad");
    assert_eq!(join((a, b)).wait(), Err(AsyncError::Failed("bad")));
}

#[test]
fn join_propagates_abort() {
    let a = Future::<i32, &str>::of(5);
    let b = Future::<i32, &str>::aborted();
    assert_eq!(join((a, b)).wait(), Err(AsyncError::Aborted));
}

#[test]
fn select_of_nothing_aborts() {
    let v: Vec<Future<i32, ()>> = vec![];
    assert_eq!(select(v).wait(), Err(AsyncError::Aborted));
}

#[test]
fn select_surfaces_earliest_failure() {
    let v = vec![
        Future::<i32, &str>::pending(),
        Future::<i32, &str>::error("first"),
        Future::<i32, &str>::of(9),
    ];
    assert_eq!(select(v).wait(), Err(AsyncError::Failed("first")));
}

#[test]
fn sequence_waits_at_a_pending_input() {
    let s = sequence(vec![
        Future::<i32, ()>::of(1),
        Future::<i32, ()>::pending(),
        Future::<i32, ()>::of(3),
    ]);
    assert!(!s.collect().is_ready());
}

#[test]
fn sequence_stops_at_failure() {
    let s = sequence(vec![
        Future::<i32, &str>::of(1),
        Future::<i32, &str>::error("broke"),
        Future::<i32, &str>::of(3),
    ]);
    assert_eq!(s.collect().wait(), Err(AsyncError::Failed("broke")));
}
