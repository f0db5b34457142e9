use eventual::Channel;
use eventual::Pair;
use eventual::SendPoll;
use eventual::StreamEnd;

#[test]
fn send_take_handshake() {
    let (tx, mut ch) = Channel::<i32, ()>::pair();
    let busy = tx.send(&mut ch, 1);
    let busy = match busy.poll_sender(&ch) {
        SendPoll::Waiting(b) => b,
        _ => panic!("the value was not taken yet"),
    };
    assert_eq!(ch.take(), Some(1));
    let tx = match busy.poll_sender(&ch) {
        SendPoll::Ready(s) => s,
        _ => panic!("the value was taken"),
    };
    let _busy = tx.send(&mut ch, 2);
    assert_eq!(ch.take(), Some(2));
}

#[test]
fn nothing_to_take_on_fresh_channel() {
    let (_tx, mut ch) = Channel::<i32, ()>::pair();
    assert_eq!(ch.take(), None);
}

#[test]
fn done_closes_the_channel() {
    let (tx, mut ch) = Channel::<i32, ()>::pair();
    tx.done(&mut ch);
    assert!(matches!(ch.end, StreamEnd::Done));
}

#[test]
fn fail_closes_with_the_error() {
    let (tx, mut ch) = Channel::<i32, &str>::pair();
    tx.fail(&mut ch, "wrong");
    assert!(matches!(ch.end, StreamEnd::Failed("wrong")));
}

#[test]
fn abandoned_producer_cancels() {
    let (tx, mut ch) = Channel::<i32, ()>::pair();
    tx.abandon(&mut ch);
    assert!(matches!(ch.end, StreamEnd::Aborted));
}

#[test]
fn consumer_cancel_reaches_the_producer() {
    let (tx, mut ch) = Channel::<i32, ()>::pair();
    let busy = tx.send(&mut ch, 3);
    ch.cancel();
    assert!(matches!(busy.poll_sender(&ch), SendPoll::Cancelled));
}

#[test]
fn backpressure_blocks_until_taken() {
    let (tx, mut ch) = Channel::<i32, ()>::pair();
    let busy = tx.send(&mut ch, 10);
    let busy = match busy.poll_sender(&ch) {
        SendPoll::Waiting(b) => b,
        _ => panic!("the first value is still in flight"),
    };
    let busy = match busy.poll_sender(&ch) {
        SendPoll::Waiting(b) => b,
        _ => panic!("still in flight, however often polled"),
    };
    assert_eq!(ch.take(), Some(10));
    assert!(matches!(busy.poll_sender(&ch), SendPoll::Ready(_)));
}
