use std::sync::Mutex;

use workpool::channel::Channel;
use workpool::channel::bounded_channel;
use workpool::channel::channel;
use workpool::errors::RecvError;
use workpool::errors::SendError;
use workpool::errors::TryRecvError;
use workpool::errors::TrySendError;

#[test]
fn test_channel() {
    let mut ch: Channel<i32> = channel();
    ch.send(42).unwrap();
    assert_eq!(ch.recv().unwrap(), 42);
}

#[test]
fn test_mutex() {
    let m = Mutex::new(5);
    {
        let mut num = m.lock().unwrap();
        *num = 6;
    }
    assert_eq!(*m.lock().unwrap(), 6);
}

#[test]
fn unbounded_fifo_order() {
    let mut ch: Channel<u64> = channel();
    ch.send(1).unwrap();
    ch.send(2).unwrap();
    ch.send(3).unwrap();
    assert_eq!(ch.recv().unwrap(), 1);
    assert_eq!(ch.recv().unwrap(), 2);
    assert_eq!(ch.recv().unwrap(), 3);
}

#[test]
fn try_recv_empty_then_closed() {
    let mut ch: Channel<u8> = channel();
    assert_eq!(ch.try_recv(), Err(TryRecvError::Empty));
    ch.drop_sender();
    assert_eq!(ch.try_recv(), Err(TryRecvError::Closed));
}

#[test]
fn closed_channel_drains_before_reporting_closed() {
    let mut ch: Channel<u8> = channel();
    ch.send(7).unwrap();
    ch.drop_sender();
    assert!(ch.closed());
    assert_eq!(ch.recv(), Ok(7));
    assert_eq!(ch.recv(), Err(RecvError::Closed));
}

#[test]
fn bounded_backpressure_boundary() {
    let mut ch: Channel<u8> = bounded_channel(2);
    assert_eq!(ch.try_send(1), Ok(()));
    assert_eq!(ch.try_send(2), Ok(()));
    assert_eq!(ch.try_send(3), Err(TrySendError::Full));
    assert_eq!(ch.try_recv(), Ok(1));
    assert_eq!(ch.try_send(3), Ok(()));
}

#[test]
fn rendezvous_never_buffers() {
    let mut ch: Channel<u8> = bounded_channel(0);
    assert_eq!(ch.try_send(1), Err(TrySendError::Full));
    assert_eq!(ch.queued(), 0);
}

#[test]
fn send_fails_loudly_without_receiver() {
    let mut ch: Channel<u8> = channel();
    ch.drop_receiver();
    assert_eq!(ch.try_send(1), Err(TrySendError::Closed));
    assert_eq!(ch.send(2), Err(SendError::Closed));
}

#[test]
fn fan_in_closes_after_last_clone_released() {
    let mut ch: Channel<u8> = channel();
    ch.clone_sender();
    ch.clone_sender();
    assert_eq!(ch.sender_handles(), 3);
    ch.send(9).unwrap();
    ch.drop_sender();
    ch.drop_sender();
    assert!(!ch.closed());
    assert_eq!(ch.try_recv(), Ok(9));
    assert_eq!(ch.try_recv(), Err(TryRecvError::Empty));
    ch.drop_sender();
    assert!(ch.closed());
    assert_eq!(ch.try_recv(), Err(TryRecvError::Closed));
}
