use crossbeam::channel::bounded;
use crossbeam::channel::unbounded;

use workpool::errors::RecvTimeoutError;
use workpool::errors::SendError;
use workpool::errors::TrySendError;
use workpool::pipeline::StageOp;
use workpool::transport::PollOutcome;
use workpool::transport::drain;
use workpool::transport::drain_now;
use workpool::transport::offer_value;
use workpool::transport::poll_select;
use workpool::transport::recv_within;
use workpool::transport::run_stage;
use workpool::transport::send_all;
use workpool::transport::send_value;
use workpool::transport::worker_loop;

#[test]
fn send_then_receive_returns_the_value() {
    let (tx, rx) = unbounded();
    send_value(&tx, 42).unwrap();
    assert_eq!(recv_within(&rx, 1000), Ok(42));
}

#[test]
fn recv_timeout_distinguishes_timeout_from_value() {
    let (tx, rx) = unbounded::<u32>();
    assert_eq!(recv_within(&rx, 50), Err(RecvTimeoutError::Timeout));
    send_value(&tx, 77).unwrap();
    assert_eq!(recv_within(&rx, 50), Ok(77));
}

#[test]
fn recv_timeout_reports_closed_channel() {
    let (tx, rx) = unbounded::<u32>();
    drop(tx);
    assert_eq!(recv_within(&rx, 10), Err(RecvTimeoutError::Closed));
}

#[test]
fn zero_deadline_polls_instantly() {
    let (tx, rx) = unbounded::<u32>();
    assert_eq!(recv_within(&rx, 0), Err(RecvTimeoutError::Timeout));
    send_value(&tx, 5).unwrap();
    assert_eq!(recv_within(&rx, 0), Ok(5));
}

#[test]
fn sender_fifo_order_is_kept() {
    let (tx, rx) = unbounded();
    assert_eq!(send_all(&tx, vec![1, 2, 3, 4]), Ok(4));
    drop(tx);
    assert_eq!(drain(&rx), vec![1, 2, 3, 4]);
}

#[test]
fn fan_in_drain_ends_only_after_all_clones_drop() {
    let (tx, rx) = unbounded();
    let tx2 = tx.clone();
    send_value(&tx, 1).unwrap();
    send_value(&tx2, 2).unwrap();
    send_value(&tx, 3).unwrap();
    drop(tx);
    let (available, closed) = drain_now(&rx);
    assert_eq!(available, vec![1, 2, 3]);
    assert!(!closed);
    drop(tx2);
    let (rest, closed) = drain_now(&rx);
    assert!(rest.is_empty());
    assert!(closed);
}

#[test]
fn bounded_channel_pushes_back_when_full() {
    let (tx, rx) = bounded(2);
    assert_eq!(offer_value(&tx, 1), Ok(()));
    assert_eq!(offer_value(&tx, 2), Ok(()));
    assert_eq!(offer_value(&tx, 3), Err((TrySendError::Full, 3)));
    assert_eq!(recv_within(&rx, 0), Ok(1));
    assert_eq!(offer_value(&tx, 3), Ok(()));
}

#[test]
fn rendezvous_offer_needs_a_waiting_receiver() {
    let (tx, _rx) = bounded(0);
    assert_eq!(offer_value(&tx, 9), Err((TrySendError::Full, 9)));
}

#[test]
fn send_fails_loudly_once_receiver_is_gone() {
    let (tx, rx) = unbounded();
    drop(rx);
    assert_eq!(send_value(&tx, 1), Err(SendError::Closed));
    assert_eq!(send_all(&tx, vec![2, 3]), Err(SendError::Closed));
}

#[test]
fn worker_loop_executes_each_value_once() {
    let (tx, rx) = unbounded();
    send_all(&tx, (0..5).collect()).unwrap();
    drop(tx);
    let executed = worker_loop(&rx, |_v: i32| {});
    assert_eq!(executed, 5);
}

#[test]
fn stage_transforms_and_forwards_in_order() {
    let (tx1, rx1) = unbounded();
    let (tx2, rx2) = unbounded();
    send_all(&tx1, vec![1, 2, 3]).unwrap();
    drop(tx1);
    let log = run_stage(&rx1, &tx2, StageOp::Mul(2));
    assert_eq!(log, vec![(1, 2), (2, 4), (3, 6)]);
    drop(tx2);
    assert_eq!(drain(&rx2), vec![2, 4, 6]);
}

#[test]
fn poll_select_returns_an_available_value() {
    let (tx1, rx1) = unbounded::<u32>();
    let (tx2, rx2) = unbounded::<u32>();
    send_value(&tx2, 11).unwrap();
    let got = poll_select(&vec![rx1, rx2], 10, 100);
    assert_eq!(got, PollOutcome::Value(11));
    drop(tx1);
    drop(tx2);
}

#[test]
fn poll_select_sees_total_closure() {
    let (tx1, rx1) = unbounded::<u32>();
    let (tx2, rx2) = unbounded::<u32>();
    drop(tx1);
    drop(tx2);
    assert_eq!(poll_select(&vec![rx1, rx2], 5, 100), PollOutcome::AllClosed);
}

#[test]
fn poll_select_gives_up_after_its_budget() {
    let (_tx, rx) = unbounded::<u32>();
    assert_eq!(poll_select(&vec![rx], 1, 3), PollOutcome::Exhausted);
}
