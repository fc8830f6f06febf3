//! The plain values that a scope and its driver exchange.

use vstd::prelude::*;

verus! {

/// How a task ended, as its join reports it.
#[derive(Clone, Copy, Debug, PartialEq, Eq, Structural)]
pub enum TaskStatus {
    /// The unit of work ran to its end.
    Completed,
    /// The unit of work terminated abnormally.
    Panicked,
    /// The host could not join the task.
    JoinFailure,
}

/// How the body of a scope ended.
#[derive(Clone, Copy, Debug, PartialEq, Eq, Structural)]
pub enum BodyExit {
    /// The body returned a result.
    Returned,
    /// The body exited abnormally.
    Failed,
}

/// Why a scope ends in a failure.
#[derive(Clone, Copy, Debug, PartialEq, Eq, Structural)]
pub enum Failure {
    /// The body itself exited abnormally.
    Body,
    /// The task registered at `index` terminated abnormally.
    TaskPanicked { index: usize },
    /// The task registered at `index` could not be joined.
    JoinFailure { index: usize },
}

/// Where a scope stands in its life.
#[derive(Clone, Copy, Debug, PartialEq, Eq, Structural)]
pub enum Phase {
    /// The body runs and has registered nothing yet.
    Empty,
    /// The body runs and has registered at least one task.
    Accumulating,
    /// The body has ended and a task is being joined.
    Draining,
    /// The body has ended and every task has been joined.
    Closed,
}

/// What the join barrier asks of its driver next.
#[derive(Debug)]
pub enum Action<H> {
    /// Block until the task behind the handle has finished, then hand in its status.
    Join(H),
    /// Every task has been joined: hand the body's result to the caller.
    Return,
    /// Every task has been joined: fail towards the caller.
    Propagate(Failure),
}

/// The failure, if any, that one joined task stands for.
pub open spec fn task_failure(status: TaskStatus, index: int) -> Option<Failure> {
    match status {
        TaskStatus::Completed => None,
        TaskStatus::Panicked => Some(Failure::TaskPanicked { index: index as usize }),
        TaskStatus::JoinFailure => Some(Failure::JoinFailure { index: index as usize }),
    }
}

/// The failure of the earliest joined task that did not complete.
pub open spec fn first_task_failure(statuses: Seq<TaskStatus>) -> Option<Failure>
    decreases statuses.len(),
{
    if statuses.len() == 0 {
        None
    } else {
        match first_task_failure(statuses.drop_last()) {
            Some(failure) => Some(failure),
            None => task_failure(statuses.last(), statuses.len() - 1),
        }
    }
}

/// What a scope tells its caller once the body has ended with `exit` and the
/// tasks joined so far gave `statuses`: the failure that came first in time.
pub open spec fn verdict(exit: BodyExit, statuses: Seq<TaskStatus>) -> Option<Failure> {
    match exit {
        BodyExit::Failed => Some(Failure::Body),
        BodyExit::Returned => first_task_failure(statuses),
    }
}

/// How a body that gave `ret` ended: `None` stands for an abnormal exit.
pub open spec fn body_exit<R>(ret: Option<R>) -> BodyExit {
    match ret {
        Some(_) => BodyExit::Returned,
        None => BodyExit::Failed,
    }
}

/// What the caller of a scope gets once every task has been joined: the
/// body's result, unless the body or a task failed.
pub open spec fn conclude<R>(ret: Option<R>, statuses: Seq<TaskStatus>) -> Result<R, Failure> {
    match ret {
        None => Err(Failure::Body),
        Some(value) => match first_task_failure(statuses) {
            None => Ok(value),
            Some(failure) => Err(failure),
        },
    }
}

/// The action that ends a scope with this verdict.
pub open spec fn closing_action<H>(verdict: Option<Failure>) -> Action<H> {
    match verdict {
        None => Action::Return,
        Some(failure) => Action::Propagate(failure),
    }
}

} // verus!
