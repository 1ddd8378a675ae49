use uring_runtime::mpsc::channel;
use uring_runtime::mpsc::Channel;
use uring_runtime::mpsc::Receiver;
use uring_runtime::mpsc::RecvError;
use uring_runtime::mpsc::RecvStep;
use uring_runtime::mpsc::Sender;
use uring_runtime::mpsc::TryRecvError;
use uring_runtime::mpsc::WaitNotify;
use uring_runtime::mpsc::Wake;
use uring_runtime::runtime::iouring::Completion;
use uring_runtime::runtime::iouring::Executor;
use uring_runtime::runtime::iouring::Op;
use uring_runtime::runtime::iouring::RtInfo;
use uring_runtime::runtime::iouring::Sqe;
use uring_runtime::runtime::Errno;
use uring_runtime::runtime::Poll;
use uring_runtime::runtime::TaskId;

fn polling() -> (Executor<u8>, RtInfo<u8>, TaskId) {
    let mut exec: Executor<u8> = Executor::new();
    exec.spawn(0);
    let (mut exec, mut rt) = exec.start();
    let (id, _) = exec.poll_new(&mut rt).unwrap();
    (exec, rt, id)
}

fn open(fd: i32) -> (Sender, Receiver, Channel<u64>) {
    channel::<u64>(fd).unwrap()
}

#[test]
fn channel_needs_a_descriptor() {
    assert!(channel::<u64>(-1).is_none());
    assert!(channel::<u64>(i32::MIN).is_none());
    assert!(channel::<u64>(0).is_some());
}

#[test]
fn channel_ends_share_the_descriptor() {
    let (tx, rx, chan) = open(11);
    assert_eq!(tx.as_raw_fd(), 11);
    assert_eq!(rx.as_raw_fd(), 11);
    assert_eq!(chan.len(), 0);
    assert_eq!(chan.senders(), 1);
    assert!(chan.has_receiver());
}

#[test]
fn send_queues_the_value_and_owes_one_unit() {
    let (tx, _rx, mut chan) = open(11);
    assert_eq!(tx.send(&mut chan, 5).unwrap(), Wake { fd: 11 });
    assert_eq!(chan.len(), 1);
    assert_eq!(tx.send(&mut chan, 6).unwrap(), Wake { fd: 11 });
    assert_eq!(chan.len(), 2);
}

#[test]
fn values_arrive_in_send_order() {
    let (tx, _rx, mut chan) = open(11);
    let other = tx.clone(&mut chan);
    let _ = tx.send(&mut chan, 1).unwrap();
    let _ = other.send(&mut chan, 10).unwrap();
    let _ = tx.send(&mut chan, 2).unwrap();
    let _ = other.send(&mut chan, 20).unwrap();
    let mut got = Vec::new();
    while let Ok(v) = chan.try_recv() {
        got.push(v);
    }
    assert_eq!(got, vec![1, 10, 2, 20]);
}

#[test]
fn send_to_a_closed_receiver_returns_the_value() {
    let (tx, rx, mut chan) = open(11);
    let _ = tx.send(&mut chan, 1).unwrap();
    assert_eq!(rx.close(&mut chan), 11);
    assert!(!chan.has_receiver());
    let err = tx.send(&mut chan, 2).unwrap_err();
    assert_eq!(err.0, 2);
    assert_eq!(chan.len(), 1);
}

#[test]
fn empty_queue_with_live_sender_is_empty() {
    let mut chan: Channel<u64> = Channel::new();
    assert_eq!(chan.try_recv(), Err(TryRecvError::Empty));
}

#[test]
fn empty_queue_without_senders_is_disconnected() {
    let (tx, _rx, mut chan) = open(11);
    assert_eq!(tx.close(&mut chan), Wake { fd: 11 });
    assert_eq!(chan.senders(), 0);
    assert_eq!(chan.try_recv(), Err(TryRecvError::Disconnected));
    assert_eq!(chan.try_recv(), Err(TryRecvError::Disconnected));
}

#[test]
fn queued_values_outlive_their_senders() {
    let (tx, _rx, mut chan) = open(11);
    let _ = tx.send(&mut chan, 1).unwrap();
    let _ = tx.send(&mut chan, 2).unwrap();
    let _ = tx.close(&mut chan);
    assert_eq!(chan.try_recv(), Ok(1));
    assert_eq!(chan.try_recv(), Ok(2));
    assert_eq!(chan.try_recv(), Err(TryRecvError::Disconnected));
}

#[test]
fn every_sender_is_counted() {
    let (tx, _rx, mut chan) = open(11);
    let a = tx.clone(&mut chan);
    let b = a.clone(&mut chan);
    assert_eq!(b.as_raw_fd(), 11);
    assert_eq!(chan.senders(), 3);
    let _ = a.close(&mut chan);
    let _ = tx.close(&mut chan);
    assert_eq!(chan.senders(), 1);
    assert_eq!(chan.try_recv(), Err(TryRecvError::Empty));
    let _ = b.close(&mut chan);
    assert_eq!(chan.try_recv(), Err(TryRecvError::Disconnected));
}

#[test]
fn core_counts_its_ends() {
    let mut chan: Channel<u64> = Channel::new();
    chan.add_sender();
    assert_eq!(chan.senders(), 2);
    chan.drop_sender();
    chan.drop_sender();
    assert_eq!(chan.senders(), 0);
    assert!(chan.has_receiver());
    chan.drop_receiver();
    assert!(!chan.has_receiver());
    assert_eq!(chan.send(3).unwrap_err().0, 3);
}

#[test]
fn wait_entry_polls_the_descriptor() {
    let (_exec, mut rt, id) = polling();
    let (wait, sqe) = WaitNotify::new(11, &mut rt, true).unwrap();
    assert_eq!(sqe, Sqe { op: Op::PollAdd, fd: 11, offset: 0, user_data: 0 });
    assert_eq!(rt.notifier(0).unwrap().taskid, id);
    assert!(matches!(wait.poll(&mut rt), Poll::Pending));
    assert!(WaitNotify::new(11, &mut rt, false).is_none());
}

#[test]
fn recv_hands_out_a_queued_value_without_waiting() {
    let (_exec, mut rt, _id) = polling();
    let (tx, mut rx, mut chan) = open(11);
    let _ = tx.send(&mut chan, 77).unwrap();
    assert!(matches!(rx.recv(&mut chan, &mut rt), RecvStep::Ready(Ok(77))));
    assert_eq!(rt.notifier_count(), 0);
    assert_eq!(chan.len(), 0);
}

#[test]
fn recv_reports_disconnection() {
    let (_exec, mut rt, _id) = polling();
    let (tx, mut rx, mut chan) = open(11);
    let _ = tx.close(&mut chan);
    assert!(matches!(rx.recv(&mut chan, &mut rt), RecvStep::Ready(Err(RecvError::Disconnected))));
    assert!(matches!(rx.recv(&mut chan, &mut rt), RecvStep::Ready(Err(RecvError::Disconnected))));
}

#[test]
fn recv_waits_on_an_empty_queue() {
    let (mut exec, mut rt, id) = polling();
    let (tx, mut rx, mut chan) = open(11);
    assert!(matches!(rx.recv(&mut chan, &mut rt), RecvStep::Submit));
    let sqe = rx.submit(&mut rt, true).unwrap();
    assert_eq!(sqe, Sqe { op: Op::PollAdd, fd: 11, offset: 0, user_data: 0 });
    assert!(matches!(rx.recv(&mut chan, &mut rt), RecvStep::Pending));
    exec.polled_new(&mut rt, id, 0, false);

    // A value is sent while the receiver waits; it is not handed out before the wake.
    let wake = tx.send(&mut chan, 5).unwrap();
    assert_eq!(wake.fd, 11);
    let (resumed, task) = exec.poll_cqe(&mut rt, Completion { user_data: 0, result: 1 });
    assert_eq!(resumed, id);
    assert!(matches!(rx.recv(&mut chan, &mut rt), RecvStep::Consume));
    assert!(rt.delivered());
    assert!(matches!(rx.recv(&mut chan, &mut rt), RecvStep::Ready(Ok(5))));
    assert!(matches!(rx.recv(&mut chan, &mut rt), RecvStep::Submit));
    let _ = rx.submit(&mut rt, true).unwrap();
    exec.polled_cqe(&mut rt, resumed, task, false);
    assert_eq!(rt.notifier_count(), 1);
}

#[test]
fn recv_ends_when_the_wait_fails() {
    let (mut exec, mut rt, id) = polling();
    let (_tx, mut rx, mut chan) = open(11);
    assert!(matches!(rx.recv(&mut chan, &mut rt), RecvStep::Submit));
    let _ = rx.submit(&mut rt, true).unwrap();
    exec.polled_new(&mut rt, id, 0, false);
    let _ = exec.poll_cqe(&mut rt, Completion { user_data: 0, result: -9 });
    assert!(matches!(rx.recv(&mut chan, &mut rt), RecvStep::Ready(Err(RecvError::Os(Errno(9))))));
    assert!(matches!(rx.recv(&mut chan, &mut rt), RecvStep::Submit));
}

#[test]
fn recv_submission_fails_on_a_full_ring() {
    let (_exec, mut rt, _id) = polling();
    let (_tx, mut rx, mut chan) = open(11);
    assert!(rx.submit(&mut rt, false).is_none());
    assert!(matches!(rx.recv(&mut chan, &mut rt), RecvStep::Submit));
    assert_eq!(rt.notifier_count(), 0);
}

#[test]
fn ten_thousand_integers_are_received_once_each() {
    let (mut exec, mut rt, id) = polling();
    let (tx, mut rx, mut chan) = open(11);
    let mut units: u64 = 0;
    let mut sum: u64 = 0;
    let mut received: Vec<u64> = Vec::new();
    let mut next: u64 = 1;
    let mut first_poll = true;
    let mut task = 0u8;
    let mut sender = Some(tx);
    // The receiving task is polled; between polls the sender hands over a
    // batch and, at the end, goes away.
    loop {
        let step = rx.recv(&mut chan, &mut rt);
        match step {
            RecvStep::Ready(Ok(v)) => {
                sum += v;
                received.push(v);
            },
            RecvStep::Ready(Err(e)) => {
                assert_eq!(e, RecvError::Disconnected);
                break;
            },
            RecvStep::Consume => {
                assert!(units > 0);
                units -= 1;
            },
            RecvStep::Pending => unreachable!(),
            RecvStep::Submit => {
                let sqe = rx.submit(&mut rt, true).unwrap();
                assert!(matches!(rx.recv(&mut chan, &mut rt), RecvStep::Pending));
                if first_poll {
                    exec.polled_new(&mut rt, id, task, false);
                    first_poll = false;
                } else {
                    assert!(rt.delivered());
                    exec.polled_cqe(&mut rt, id, task, false);
                }
                if next <= 10_000 {
                    for _ in 0..137 {
                        if next <= 10_000 {
                            let wake = sender.as_ref().unwrap().send(&mut chan, next).unwrap();
                            assert_eq!(wake.fd, 11);
                            units += 1;
                            next += 1;
                        }
                    }
                } else if let Some(tx) = sender.take() {
                    let _ = tx.close(&mut chan);
                    units += 1;
                }
                // The descriptor is readable: the wait completes.
                assert!(units > 0);
                let cqe = Completion { user_data: sqe.user_data, result: 1 };
                let (resumed, t) = exec.poll_cqe(&mut rt, cqe);
                assert_eq!(resumed, id);
                task = t;
            },
        }
    }
    assert_eq!(sum, 10_000 * 10_001 / 2);
    assert_eq!(received, (1..=10_000u64).collect::<Vec<u64>>());
    assert_eq!(chan.len(), 0);
    assert_eq!(chan.senders(), 0);
}
