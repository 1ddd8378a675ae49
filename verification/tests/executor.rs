use uring_runtime::runtime::iouring::Completion;
use uring_runtime::runtime::iouring::Executor;
use uring_runtime::runtime::iouring::RtInfo;
use uring_runtime::runtime::iouring::Step;
use uring_runtime::runtime::iouring::RingError;
use uring_runtime::runtime::spawn;
use uring_runtime::runtime::Errno;
use uring_runtime::runtime::Poll;
use uring_runtime::runtime::TaskId;

type Label = &'static str;

fn started(tasks: &[Label]) -> (Executor<Label>, RtInfo<Label>) {
    let mut exec: Executor<Label> = Executor::new();
    for task in tasks {
        exec.spawn(*task);
    }
    exec.start()
}

/// Admits the head of the spawn queue, lets it reserve one operation and
/// parks it; returns its identity and the token of the operation.
fn admit_with_one_operation(exec: &mut Executor<Label>, rt: &mut RtInfo<Label>) -> (TaskId, u64) {
    let (id, task) = exec.poll_new(rt).unwrap();
    let (_, token) = rt.next_sqe(true).unwrap();
    exec.polled_new(rt, id, task, false);
    (id, token)
}

#[test]
fn new_executor_is_empty() {
    let exec: Executor<Label> = Executor::new();
    assert_eq!(exec.admitted(), 0);
    assert_eq!(exec.finished(), 0);
    assert_eq!(exec.task_count(), 0);
}

#[test]
fn start_moves_spawns_to_the_handle() {
    let (exec, rt) = started(&["a", "b", "c"]);
    assert_eq!(rt.spawn_len(), 3);
    assert_eq!(rt.current_task(), None);
    assert_eq!(rt.delivering(), None);
    assert_eq!(rt.notifier_count(), 0);
    assert_eq!(exec.task_count(), 0);
    assert_eq!(exec.admitted(), 0);
}

#[test]
fn run_without_tasks_is_over_at_once() {
    let (mut exec, rt) = started(&[]);
    assert_eq!(exec.next_step(&rt), Step::Done);
}

#[test]
fn spawn_queue_is_drained_oldest_first() {
    let mut exec: Executor<Label> = Executor::new();
    exec.spawn("a");
    exec.spawn_dyn("b");
    exec.spawn("c");
    let (mut exec, mut rt) = exec.start();
    for (n, expected) in ["a", "b", "c"].iter().enumerate() {
        assert_eq!(exec.next_step(&rt), Step::Admit);
        let (id, task) = exec.poll_new(&mut rt).unwrap();
        assert_eq!(id, TaskId(n));
        assert_eq!(task, *expected);
        exec.polled_new(&mut rt, id, task, false);
    }
    assert_eq!(rt.spawn_len(), 0);
    assert!(exec.poll_new(&mut rt).is_none());
    assert_eq!(exec.admitted(), 3);
    assert_eq!(exec.task_count(), 3);
    assert_eq!(exec.next_step(&rt), Step::Wait);
}

#[test]
fn poll_new_on_empty_queue_changes_nothing() {
    let (mut exec, mut rt) = started(&[]);
    assert!(exec.poll_new(&mut rt).is_none());
    assert_eq!(exec.admitted(), 0);
    assert_eq!(rt.current_task(), None);
}

#[test]
fn current_task_is_set_exactly_during_a_poll() {
    let (mut exec, mut rt) = started(&["a"]);
    assert_eq!(rt.current_task(), None);
    let (id, task) = exec.poll_new(&mut rt).unwrap();
    assert_eq!(rt.current_task(), Some(id));
    let (_, token) = rt.next_sqe(true).unwrap();
    exec.polled_new(&mut rt, id, task, false);
    assert_eq!(rt.current_task(), None);

    let (id, task) = exec.poll_cqe(&mut rt, Completion { user_data: token, result: 1 });
    assert_eq!(rt.current_task(), Some(id));
    assert_eq!(rt.delivering(), Some(token));
    assert!(matches!(rt.poll_notify(token), Poll::Ready(Ok(1))));
    exec.polled_cqe(&mut rt, id, task, true);
    assert_eq!(rt.current_task(), None);
    assert_eq!(rt.delivering(), None);
}

#[test]
fn task_ready_at_first_poll_never_enters_the_table() {
    let (mut exec, mut rt) = started(&["a"]);
    let (id, task) = exec.poll_new(&mut rt).unwrap();
    exec.polled_new(&mut rt, id, task, true);
    assert_eq!(exec.task_count(), 0);
    assert_eq!(exec.admitted(), 1);
    assert_eq!(exec.finished(), 1);
    assert_eq!(exec.next_step(&rt), Step::Done);
}

#[test]
fn table_size_is_admitted_minus_finished() {
    let (mut exec, mut rt) = started(&["a", "b", "c", "d"]);
    let mut tokens = Vec::new();
    for n in 0..4 {
        let (id, task) = exec.poll_new(&mut rt).unwrap();
        let ready = n == 1;
        if !ready {
            tokens.push(rt.next_sqe(true).unwrap().1);
        }
        exec.polled_new(&mut rt, id, task, ready);
        assert_eq!(exec.task_count(), exec.admitted() - exec.finished());
    }
    assert_eq!((exec.admitted(), exec.finished(), exec.task_count()), (4, 1, 3));
    for (n, token) in tokens.iter().enumerate() {
        let (id, task) =
            exec.poll_cqe(&mut rt, Completion { user_data: *token, result: 0 });
        assert_eq!(exec.task_count() + 1, exec.admitted() - exec.finished());
        assert!(matches!(rt.poll_notify(*token), Poll::Ready(Ok(0))));
        exec.polled_cqe(&mut rt, id, task, true);
        assert_eq!(exec.task_count(), exec.admitted() - exec.finished());
        assert_eq!(exec.task_count(), 2 - n);
    }
    assert_eq!(exec.next_step(&rt), Step::Done);
    assert_eq!(rt.notifier_count(), 0);
}

#[test]
fn dispatch_resumes_the_owner_of_the_notifier() {
    let (mut exec, mut rt) = started(&["a", "b"]);
    let (id_a, token_a) = admit_with_one_operation(&mut exec, &mut rt);
    let (id_b, token_b) = admit_with_one_operation(&mut exec, &mut rt);
    assert_eq!((id_a, id_b), (TaskId(0), TaskId(1)));
    assert_ne!(token_a, token_b);

    let (id, task) = exec.poll_cqe(&mut rt, Completion { user_data: token_b, result: 42 });
    assert_eq!((id, task), (id_b, "b"));
    assert_eq!(exec.task_count(), 1);
    let info = rt.notifier(token_b).unwrap();
    assert_eq!(info.task.result, Some(Ok(42)));
    assert_eq!(info.task.refcnt, 1);
    assert!(!rt.delivered());
    assert!(matches!(rt.poll_notify(token_a), Poll::Pending));
    assert!(matches!(rt.poll_notify(token_b), Poll::Ready(Ok(42))));
    assert!(rt.delivered());
    assert!(matches!(rt.poll_notify(token_b), Poll::Pending));
    exec.polled_cqe(&mut rt, id, task, false);
    assert_eq!(exec.task_count(), 2);
    assert!(rt.notifier(token_b).is_none());
    assert!(rt.notifier(token_a).is_some());
    assert_eq!(rt.notifier_count(), 1);
}

#[test]
fn dispatch_delivers_kernel_errors() {
    let (mut exec, mut rt) = started(&["a"]);
    let (_, token) = admit_with_one_operation(&mut exec, &mut rt);
    let (id, task) =
        exec.poll_cqe(&mut rt, Completion { user_data: token, result: -104 });
    assert!(matches!(rt.poll_notify(token), Poll::Ready(Err(Errno(104)))));
    exec.polled_cqe(&mut rt, id, task, true);
    assert_eq!(exec.finished(), 1);
}

#[test]
fn completion_for_unknown_notifier_cannot_be_dispatched() {
    let (mut exec, mut rt) = started(&["a"]);
    let (_, token) = admit_with_one_operation(&mut exec, &mut rt);
    assert!(exec.can_dispatch(&rt, Completion { user_data: token, result: 0 }));
    assert!(!exec.can_dispatch(&rt, Completion { user_data: token + 1, result: 0 }));
    assert_eq!(rt.current_task(), None);
    assert_eq!(exec.task_count(), 1);
    assert_eq!(rt.notifier(token).unwrap().task.refcnt, 2);
}

#[test]
fn second_completion_for_a_freed_notifier_cannot_be_dispatched() {
    let (mut exec, mut rt) = started(&["a"]);
    let (_, token) = admit_with_one_operation(&mut exec, &mut rt);
    let cqe = Completion { user_data: token, result: 3 };
    assert!(exec.can_dispatch(&rt, cqe));
    let (id, task) = exec.poll_cqe(&mut rt, cqe);
    assert!(matches!(rt.poll_notify(token), Poll::Ready(Ok(3))));
    exec.polled_cqe(&mut rt, id, task, false);
    assert!(!exec.can_dispatch(&rt, cqe));
    assert_eq!(exec.task_count(), 1);
}

#[test]
fn completion_for_finished_task_cannot_be_dispatched() {
    let (mut exec, mut rt) = started(&["a", "b"]);
    let (id, task) = exec.poll_new(&mut rt).unwrap();
    let (_, token) = rt.next_sqe(true).unwrap();
    exec.polled_new(&mut rt, id, task, true);
    let (_, other) = admit_with_one_operation(&mut exec, &mut rt);
    assert!(!exec.can_dispatch(&rt, Completion { user_data: token, result: 0 }));
    assert_eq!(rt.notifier(token).unwrap().taskid, TaskId(0));
    assert!(exec.can_dispatch(&rt, Completion { user_data: other, result: 0 }));
    assert_eq!(exec.task_count(), 1);
}

#[test]
fn hold_count_follows_the_holders() {
    let (mut exec, mut rt) = started(&["a"]);
    let (_, token) = admit_with_one_operation(&mut exec, &mut rt);
    assert_eq!(rt.notifier(token).unwrap().task.refcnt, 2);
    let (id, task) = exec.poll_cqe(&mut rt, Completion { user_data: token, result: 8 });
    assert_eq!(rt.notifier(token).unwrap().task.refcnt, 1);
    assert!(!rt.delivered());
    assert!(matches!(rt.poll_notify(token), Poll::Ready(Ok(8))));
    assert_eq!(rt.notifier(token).unwrap().task.refcnt, 0);
    assert!(rt.delivered());
    exec.polled_cqe(&mut rt, id, task, true);
    assert!(rt.notifier(token).is_none());
}

#[test]
fn interrupted_wait_changes_nothing() {
    let (mut exec, mut rt) = started(&["a"]);
    let (_, token) = admit_with_one_operation(&mut exec, &mut rt);
    assert_eq!(exec.next_step(&rt), Step::Wait);
    for _ in 0..3 {
        let r = exec.waited(&mut rt, Err(RingError::Interrupted));
        assert_eq!(r, None);
        assert_eq!(rt.current_task(), None);
        assert_eq!(rt.delivering(), None);
        assert_eq!(exec.task_count(), 1);
        assert_eq!(rt.notifier(token).unwrap().task.result, None);
        assert_eq!(exec.next_step(&rt), Step::Wait);
    }
    let r = exec.waited(&mut rt, Ok(Completion { user_data: token, result: 9 }));
    assert_eq!(r, Some((TaskId(0), "a")));
    assert!(matches!(rt.poll_notify(token), Poll::Ready(Ok(9))));
}

#[test]
fn spawned_tasks_are_admitted_before_the_next_wait() {
    let (mut exec, mut rt) = started(&["a"]);
    assert_eq!(exec.next_step(&rt), Step::Admit);
    let (id_a, task_a) = exec.poll_new(&mut rt).unwrap();
    spawn(&mut rt, "b");
    let (_, token_a) = rt.next_sqe(true).unwrap();
    exec.polled_new(&mut rt, id_a, task_a, false);

    assert_eq!(exec.next_step(&rt), Step::Admit);
    let (id_b, task_b) = exec.poll_new(&mut rt).unwrap();
    assert_eq!((id_b, task_b), (TaskId(1), "b"));
    let (_, _) = rt.next_sqe(true).unwrap();
    exec.polled_new(&mut rt, id_b, task_b, false);
    assert_eq!(exec.next_step(&rt), Step::Wait);

    let (id, task) =
        exec.poll_cqe(&mut rt, Completion { user_data: token_a, result: 1 });
    assert!(matches!(rt.poll_notify(token_a), Poll::Ready(Ok(1))));
    spawn(&mut rt, "c");
    let (_, _) = rt.next_sqe(true).unwrap();
    exec.polled_cqe(&mut rt, id, task, false);
    assert_eq!(exec.next_step(&rt), Step::Admit);
    let (id_c, task_c) = exec.poll_new(&mut rt).unwrap();
    assert_eq!((id_c, task_c), (TaskId(2), "c"));
}

#[test]
fn spawns_made_during_a_drain_join_the_same_drain() {
    let (mut exec, mut rt) = started(&["a"]);
    assert_eq!(exec.next_step(&rt), Step::Admit);
    let (id, task) = exec.poll_new(&mut rt).unwrap();
    spawn(&mut rt, "b");
    exec.polled_new(&mut rt, id, task, true);
    // The table is empty, yet the drain goes on with the task that was spawned.
    assert_eq!(exec.task_count(), 0);
    assert_eq!(exec.next_step(&rt), Step::Admit);
    let (id, task) = exec.poll_new(&mut rt).unwrap();
    assert_eq!((id, task), (TaskId(1), "b"));
    exec.polled_new(&mut rt, id, task, true);
    assert_eq!(exec.next_step(&rt), Step::Done);
}

#[test]
fn run_ends_when_the_table_empties_after_a_dispatch() {
    let (mut exec, mut rt) = started(&["a"]);
    assert_eq!(exec.next_step(&rt), Step::Admit);
    let (_, token) = admit_with_one_operation(&mut exec, &mut rt);
    assert_eq!(exec.next_step(&rt), Step::Wait);
    let (id, task) = exec.poll_cqe(&mut rt, Completion { user_data: token, result: 0 });
    assert!(matches!(rt.poll_notify(token), Poll::Ready(Ok(0))));
    spawn(&mut rt, "late");
    exec.polled_cqe(&mut rt, id, task, true);
    // The last task has finished: the run is over although a spawn is queued.
    assert_eq!(rt.spawn_len(), 1);
    assert_eq!(exec.next_step(&rt), Step::Done);
}
