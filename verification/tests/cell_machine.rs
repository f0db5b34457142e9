use eventual::AsyncError;
use eventual::cell::Cell;
use eventual::cell::CellEvent;
use eventual::cell::CellState;

#[test]
fn value_then_consumer_delivers() {
    let mut c: Cell<i32, ()> = Cell::new();
    let ev = c.set_value(Ok(7));
    assert!(matches!(ev, CellEvent::Quiet));
    let ev = c.set_consumer();
    assert!(matches!(ev, CellEvent::Deliver(Ok(7))));
    assert!(matches!(c.state, CellState::Consumed));
}

#[test]
fn consumer_then_value_delivers() {
    let mut c: Cell<i32, ()> = Cell::new();
    let ev = c.set_consumer();
    assert!(matches!(ev, CellEvent::Quiet));
    let ev = c.set_value(Ok(9));
    assert!(matches!(ev, CellEvent::Deliver(Ok(9))));
    assert!(matches!(c.state, CellState::Consumed));
}

#[test]
fn producer_abort_reaches_waiting_consumer() {
    let mut c: Cell<i32, &str> = Cell::new();
    c.set_consumer();
    let ev = c.abort_producer();
    assert!(matches!(ev, CellEvent::Deliver(Err(AsyncError::Aborted))));
}

#[test]
fn consumer_abort_fires_interest_listener() {
    let mut c: Cell<i32, ()> = Cell::new();
    let ev = c.set_interest();
    assert!(matches!(ev, CellEvent::Quiet));
    let ev = c.abort_consumer();
    assert!(matches!(ev, CellEvent::ProducerAbort));
}

#[test]
fn interest_fires_license_when_consumer_waits() {
    let mut c: Cell<i32, ()> = Cell::new();
    c.set_interest();
    let ev = c.set_consumer();
    assert!(matches!(ev, CellEvent::License));
}

#[test]
fn interest_after_consumer_gone_reports_abort() {
    let mut c: Cell<i32, ()> = Cell::new();
    c.abort_consumer();
    let ev = c.set_interest();
    assert!(matches!(ev, CellEvent::ProducerAbort));
}

#[test]
fn no_second_delivery_after_pickup() {
    let mut c: Cell<i32, ()> = Cell::new();
    c.set_value(Ok(1));
    let ev = c.set_consumer();
    assert!(matches!(ev, CellEvent::Deliver(Ok(1))));
    let ev = c.abort_producer();
    assert!(matches!(ev, CellEvent::Quiet));
    let ev = c.abort_consumer();
    assert!(matches!(ev, CellEvent::Quiet));
}

#[test]
fn abort_without_listeners_is_quiet() {
    let mut c: Cell<i32, ()> = Cell::new();
    let ev = c.abort_consumer();
    assert!(matches!(ev, CellEvent::Quiet));
    assert!(matches!(c.state, CellState::Consumed));
}
