use eventual::Async;
use eventual::AsyncError;
use eventual::Stream;
use eventual::StreamEnd;

fn digits() -> Stream<i32, &'static str> {
    Stream::done_with(vec![1, 2, 3, 4])
}

#[test]
fn head_walks_in_order() {
    let s = digits();
    let (h, t) = s.head().ok().unwrap().unwrap().unwrap();
    assert_eq!(h, 1);
    let (h2, _) = t.head().ok().unwrap().unwrap().unwrap();
    assert_eq!(h2, 2);
}

#[test]
fn head_of_done_stream_is_none() {
    let s: Stream<i32, ()> = Stream::done_with(vec![]);
    match s.head() {
        Ok(Ok(None)) => (),
        _ => panic!("an ended stream yields nothing"),
    }
}

#[test]
fn head_surfaces_failure() {
    let s = Stream::<i32, &str> { items: vec![], end: StreamEnd::Failed("gone") };
    match s.head() {
        Ok(Err(e)) => assert_eq!(e, AsyncError::Failed("gone")),
        _ => panic!("the failure terminates the stream"),
    }
}

#[test]
fn map_preserves_order_and_end() {
    let s = digits().map(|v| v * 10);
    assert_eq!(s.collect().wait(), Ok(vec![10, 20, 30, 40]));
}

#[test]
fn filter_keeps_order_of_kept_values() {
    let s = digits().filter(|v| *v % 2 == 0);
    assert_eq!(s.collect().wait(), Ok(vec![2, 4]));
}

#[test]
fn take_cuts_and_ends() {
    let s = digits().take(2);
    assert_eq!(s.collect().wait(), Ok(vec![1, 2]));
}

#[test]
fn take_more_than_present_keeps_all() {
    let s = digits().take(9);
    assert_eq!(s.collect().wait(), Ok(vec![1, 2, 3, 4]));
}

#[test]
fn take_while_stops_at_first_rejection() {
    let s = digits().take_while(|v| *v < 3);
    assert_eq!(s.collect().wait(), Ok(vec![1, 2]));
}

#[test]
fn reduce_folds_in_order() {
    let total = digits().reduce(0, |acc, v| acc * 10 + v);
    assert_eq!(total.wait(), Ok(1234));
}

#[test]
fn reduce_surfaces_failure() {
    let s = Stream::<i32, &str> { items: vec![1], end: StreamEnd::Failed("cut") };
    assert_eq!(s.reduce(0, |acc, v| acc + v).wait(), Err(AsyncError::Failed("cut")));
}

#[test]
fn collect_on_open_stream_is_pending() {
    let s = Stream::<i32, ()> { items: vec![1], end: StreamEnd::Open };
    assert!(!s.collect().is_ready());
}

#[test]
fn each_visits_everything() {
    let seen = std::cell::Cell::new(0);
    let done = digits().each(|v| {
        seen.set(seen.get() + v);
    });
    assert_eq!(seen.get(), 10);
    assert_eq!(done.wait(), Ok(()));
}

#[test]
fn iter_yields_values_then_error_then_nothing() {
    let s = Stream::<i32, &str> { items: vec![5, 6], end: StreamEnd::Failed("end") };
    let mut it = s.iter();
    assert_eq!(it.next(), Some(Ok(5)));
    assert_eq!(it.next(), Some(Ok(6)));
    assert_eq!(it.next(), Some(Err(AsyncError::Failed("end"))));
    assert_eq!(it.next(), None);
}

#[test]
fn iter_on_aborted_stream() {
    let s = Stream::<i32, ()> { items: vec![], end: StreamEnd::Aborted };
    let mut it = s.iter();
    assert_eq!(it.next(), Some(Err(AsyncError::Aborted)));
    assert_eq!(it.next(), None);
}
