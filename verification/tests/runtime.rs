use std::collections::HashSet;

use uring_runtime::runtime::decode_result;
use uring_runtime::runtime::iouring::Executor;
use uring_runtime::runtime::iouring::Op;
use uring_runtime::runtime::iouring::RingError;
use uring_runtime::runtime::iouring::RtInfo;
use uring_runtime::runtime::iouring::Submitted;
use uring_runtime::runtime::iouring::Sqe;
use uring_runtime::runtime::iouring::NO_FD;
use uring_runtime::runtime::spawn;
use uring_runtime::runtime::spawn_dyn;
use uring_runtime::runtime::Errno;
use uring_runtime::runtime::Poll;
use uring_runtime::runtime::TaskId;
use uring_runtime::runtime::TaskNotify;

fn polling_handle() -> (Executor<&'static str>, RtInfo<&'static str>, TaskId) {
    let mut exec: Executor<&'static str> = Executor::new();
    exec.spawn("root");
    let (mut exec, mut rt) = exec.start();
    let (id, _task) = exec.poll_new(&mut rt).unwrap();
    (exec, rt, id)
}

#[test]
fn decode_zero_is_end_of_stream() {
    assert_eq!(decode_result(0), Ok(0));
}

#[test]
fn decode_positive_is_byte_count() {
    assert_eq!(decode_result(1), Ok(1));
    assert_eq!(decode_result(4096), Ok(4096));
    assert_eq!(decode_result(i32::MAX), Ok(2147483647));
}

#[test]
fn decode_negative_is_error_code() {
    assert_eq!(decode_result(-1), Err(Errno(1)));
    assert_eq!(decode_result(-11), Err(Errno(11)));
    assert_eq!(decode_result(-104), Err(Errno(104)));
}

#[test]
fn decode_most_negative_result() {
    assert_eq!(decode_result(i32::MIN), Err(Errno(2147483648)));
}

#[test]
fn task_id_is_a_plain_value() {
    let a = TaskId(3);
    let b = a;
    assert_eq!(a, b);
    assert_ne!(a, TaskId(4));
    let mut seen = HashSet::new();
    assert!(seen.insert(a));
    assert!(!seen.insert(b));
    assert_eq!(format!("{:?}", a), "TaskId(3)");
}

#[test]
fn notifier_starts_held_and_empty() {
    let n = TaskNotify::new();
    assert_eq!(n.refcnt, 2);
    assert_eq!(n.result, None);
}

#[test]
fn notifier_is_pending_before_completion() {
    let mut n = TaskNotify::new();
    assert!(matches!(n.poll(), Poll::Pending));
    assert_eq!(n.refcnt, 2);
    assert_eq!(n.result, None);
}

#[test]
fn notifier_hands_out_its_result_once() {
    let mut n = TaskNotify::new();
    n.complete(7);
    assert_eq!(n.refcnt, 1);
    assert_eq!(n.result, Some(Ok(7)));
    assert!(matches!(n.poll(), Poll::Ready(Ok(7))));
    assert_eq!(n.refcnt, 0);
    assert_eq!(n.result, None);
    assert!(matches!(n.poll(), Poll::Pending));
    assert_eq!(n.refcnt, 0);
}

#[test]
fn notifier_stores_errors() {
    let mut n = TaskNotify::new();
    n.complete(-32);
    assert_eq!(n.refcnt, 1);
    assert_eq!(n.result, Some(Err(Errno(32))));
    assert!(matches!(n.poll(), Poll::Ready(Err(Errno(32)))));
    assert_eq!(n.refcnt, 0);
}

#[test]
fn reservation_stamps_the_current_task() {
    let (_exec, mut rt, id) = polling_handle();
    assert_eq!(rt.current_task(), Some(id));
    let (sqe, token) = rt.next_sqe(true).unwrap();
    assert_eq!(token, 0);
    assert_eq!(sqe, Sqe { op: Op::Nop, fd: NO_FD, offset: 0, user_data: 0 });
    let info = rt.notifier(token).unwrap();
    assert_eq!(info.taskid, id);
    assert_eq!(info.task.refcnt, 2);
    assert_eq!(info.task.result, None);
    assert_eq!(rt.notifier_count(), 1);
}

#[test]
fn reservation_tokens_are_never_reused() {
    let (_exec, mut rt, _id) = polling_handle();
    let mut seen = HashSet::new();
    for expected in 0..50u64 {
        let (sqe, token) = rt.next_sqe(true).unwrap();
        assert_eq!(token, expected);
        assert_eq!(sqe.user_data, token);
        assert!(seen.insert(token));
    }
    assert_eq!(rt.notifier_count(), 50);
}

#[test]
fn reservation_fails_on_a_full_ring() {
    let (_exec, mut rt, _id) = polling_handle();
    assert!(rt.next_sqe(false).is_none());
    assert_eq!(rt.notifier_count(), 0);
    let (_, token) = rt.next_sqe(true).unwrap();
    assert_eq!(token, 0);
}

#[test]
fn reservation_fails_outside_a_poll() {
    let (mut exec, mut rt, id) = polling_handle();
    exec.polled_new(&mut rt, id, "root", false);
    assert_eq!(rt.current_task(), None);
    assert!(rt.next_sqe(true).is_none());
    assert_eq!(rt.notifier_count(), 0);
}

#[test]
fn unknown_token_polls_pending() {
    let (_exec, mut rt, _id) = polling_handle();
    assert!(matches!(rt.poll_notify(17), Poll::Pending));
    assert_eq!(rt.notifier_count(), 0);
    assert!(rt.notifier(17).is_none());
}

#[test]
fn fresh_reservation_polls_pending() {
    let (_exec, mut rt, _id) = polling_handle();
    let (_, token) = rt.next_sqe(true).unwrap();
    assert!(matches!(rt.poll_notify(token), Poll::Pending));
    let info = rt.notifier(token).unwrap();
    assert_eq!(info.task.refcnt, 2);
    assert_eq!(info.task.result, None);
}

#[test]
fn spawn_from_a_task_goes_to_the_queue_tail() {
    let (mut exec, mut rt, _id) = polling_handle();
    assert_eq!(rt.spawn_len(), 0);
    spawn(&mut rt, "first");
    spawn_dyn(&mut rt, "second");
    rt.spawn("third");
    assert_eq!(rt.spawn_len(), 3);
    assert_eq!(exec.task_count(), 0);
    exec.polled_new(&mut rt, TaskId(0), "root", true);
    let (id, task) = exec.poll_new(&mut rt).unwrap();
    assert_eq!((id, task), (TaskId(1), "first"));
    exec.polled_new(&mut rt, id, task, true);
    let (id, task) = exec.poll_new(&mut rt).unwrap();
    assert_eq!((id, task), (TaskId(2), "second"));
    exec.polled_new(&mut rt, id, task, true);
    let (id, task) = exec.poll_new(&mut rt).unwrap();
    assert_eq!((id, task), (TaskId(3), "third"));
}

#[test]
fn interrupted_submission_is_repeated() {
    let (_exec, rt, _id) = polling_handle();
    assert_eq!(rt.submit(Err(RingError::Interrupted)), Submitted::Retry);
}

#[test]
fn submission_passes_on_count_and_error() {
    let (_exec, rt, _id) = polling_handle();
    assert_eq!(rt.submit(Ok(0)), Submitted::Accepted(0));
    assert_eq!(rt.submit(Ok(3)), Submitted::Accepted(3));
    assert_eq!(rt.submit(Err(RingError::Other(Errno(16)))), Submitted::Failed(Errno(16)));
}
