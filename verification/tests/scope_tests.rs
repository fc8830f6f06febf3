use std::cell::{Cell, RefCell};

use task_scope::{scope, Failure, Phase, Scope, TaskStatus};

/// A unit of work that borrows from its caller and runs when it is joined.
type Task<'a> = Box<dyn FnOnce() + 'a>;

fn run_task(task: Task<'_>) -> TaskStatus {
    task();
    TaskStatus::Completed
}

#[test]
fn it_works() {
    let one = scope(|_: &mut Scope<()>| Some(1), |_: ()| TaskStatus::Completed);
    assert!(one == Ok(1));
}

#[test]
fn one_thread() {
    let mut foo = 0;
    {
        let closure = || {
            foo = 1;
        };

        let done = scope(
            |scope: &mut Scope<Task<'_>>| {
                scope.spawn(Box::new(closure));
                Some(())
            },
            run_task,
        );
        assert!(done == Ok(()));
    }
    assert!(foo == 1);
}

#[test]
fn two_threads() {
    let mut foo = 0;
    let mut bar = 1;
    {
        let closure1 = || foo = 5;

        let closure2 = || bar = 7;

        let done = scope(
            |scope: &mut Scope<Task<'_>>| {
                scope.spawn(Box::new(closure1));
                scope.spawn(Box::new(closure2));
                Some(())
            },
            run_task,
        );
        assert!(done == Ok(()));
    }
    assert!(foo == 5);
    assert!(bar == 7);
}

#[test]
fn identity_for_other_values() {
    let text = scope(|_: &mut Scope<u8>| Some(String::from("kept")), |_: u8| TaskStatus::Panicked);
    assert_eq!(text, Ok(String::from("kept")));
    let unit = scope(|_: &mut Scope<u8>| Some(()), |_: u8| TaskStatus::JoinFailure);
    assert_eq!(unit, Ok(()));
    let list = scope(|_: &mut Scope<u8>| Some(vec![3u64, 1, 2]), |_: u8| TaskStatus::Completed);
    assert_eq!(list, Ok(vec![3u64, 1, 2]));
}

#[test]
fn identity_joins_nothing() {
    let joins = Cell::new(0usize);
    let value = scope(
        |_: &mut Scope<u8>| Some(42u32),
        |_: u8| {
            joins.set(joins.get() + 1);
            TaskStatus::Completed
        },
    );
    assert_eq!(value, Ok(42));
    assert_eq!(joins.get(), 0);
}

#[test]
fn many_tasks_all_visible() {
    let mut slots = vec![0usize; 8];
    let done = scope(
        |scope: &mut Scope<Task<'_>>| {
            for (i, slot) in slots.iter_mut().enumerate() {
                scope.spawn(Box::new(move || *slot = i + 10));
            }
            Some(scope.spawned())
        },
        run_task,
    );
    assert_eq!(done, Ok(8));
    assert_eq!(slots, vec![10, 11, 12, 13, 14, 15, 16, 17]);
}

#[test]
fn no_task_nothing_written() {
    let mut slots = vec![0usize; 3];
    let done = scope(
        |scope: &mut Scope<Task<'_>>| {
            for slot in slots.iter_mut().take(0) {
                scope.spawn(Box::new(move || *slot = 1));
            }
            Some(scope.spawned())
        },
        run_task,
    );
    assert_eq!(done, Ok(0));
    assert_eq!(slots, vec![0, 0, 0]);
}

#[test]
fn later_task_is_waited_for() {
    let first_done = Cell::new(false);
    let second_done = Cell::new(false);
    let done = scope(
        |scope: &mut Scope<Task<'_>>| {
            scope.spawn(Box::new(|| first_done.set(true)));
            scope.spawn(Box::new(|| {
                assert!(first_done.get());
                second_done.set(true);
            }));
            Some(())
        },
        run_task,
    );
    assert_eq!(done, Ok(()));
    assert!(first_done.get());
    assert!(second_done.get());
}

#[test]
fn failed_body_still_joins() {
    let written = Cell::new(false);
    let done: Result<(), Failure> = scope(
        |scope: &mut Scope<Task<'_>>| {
            scope.spawn(Box::new(|| written.set(true)));
            None
        },
        run_task,
    );
    assert_eq!(done, Err(Failure::Body));
    assert!(written.get());
}

#[test]
fn failed_body_joins_every_task() {
    let joined = RefCell::new(Vec::new());
    let done: Result<u8, Failure> = scope(
        |scope: &mut Scope<u32>| {
            scope.spawn(4);
            scope.spawn(5);
            scope.spawn(6);
            None
        },
        |handle: u32| {
            joined.borrow_mut().push(handle);
            TaskStatus::Panicked
        },
    );
    assert_eq!(done, Err(Failure::Body));
    assert_eq!(*joined.borrow(), vec![4, 5, 6]);
}

#[test]
fn no_write_after_return_under_stress() {
    for round in 0..200usize {
        let mut cell = 0usize;
        let done = scope(
            |scope: &mut Scope<Task<'_>>| {
                scope.spawn(Box::new(|| cell = round + 1));
                Some(())
            },
            run_task,
        );
        assert_eq!(done, Ok(()));
        assert_eq!(cell, round + 1);
        cell = 0;
        assert_eq!(cell, 0);
    }
}

#[test]
fn joins_in_registration_order() {
    let order = RefCell::new(Vec::new());
    let done = scope(
        |scope: &mut Scope<&str>| {
            scope.spawn("first");
            scope.spawn("second");
            scope.spawn("third");
            Some(7)
        },
        |handle: &str| {
            order.borrow_mut().push(handle);
            TaskStatus::Completed
        },
    );
    assert_eq!(done, Ok(7));
    assert_eq!(*order.borrow(), vec!["first", "second", "third"]);
}

#[test]
fn panicked_task_is_reported_after_all_joins() {
    let joined = RefCell::new(Vec::new());
    let done = scope(
        |scope: &mut Scope<u32>| {
            for handle in 0..5 {
                scope.spawn(handle);
            }
            Some("result")
        },
        |handle: u32| {
            joined.borrow_mut().push(handle);
            match handle {
                2 => TaskStatus::Panicked,
                3 => TaskStatus::JoinFailure,
                _ => TaskStatus::Completed,
            }
        },
    );
    assert_eq!(done, Err(Failure::TaskPanicked { index: 2 }));
    assert_eq!(*joined.borrow(), vec![0, 1, 2, 3, 4]);
}

#[test]
fn join_failure_is_reported() {
    let done = scope(
        |scope: &mut Scope<bool>| {
            scope.spawn(true);
            scope.spawn(false);
            scope.spawn(false);
            Some(1)
        },
        |joinable: bool| if joinable { TaskStatus::Completed } else { TaskStatus::JoinFailure },
    );
    assert_eq!(done, Err(Failure::JoinFailure { index: 1 }));
}

#[test]
fn scope_phases() {
    let mut scope: Scope<u8> = Scope::new();
    assert_eq!(scope.phase(), Phase::Empty);
    assert_eq!(scope.spawned(), 0);
    scope.spawn(9);
    assert_eq!(scope.phase(), Phase::Accumulating);
    assert_eq!(scope.spawned(), 1);
    scope.spawn(9);
    assert_eq!(scope.phase(), Phase::Accumulating);
    assert_eq!(scope.spawned(), 2);
}
