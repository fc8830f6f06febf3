//! The join barrier: what becomes of a scope once its body has ended. It hands
//! the registered handles out one by one, earliest first, takes note of what
//! each join gave, and lets the scope end only after the last.

use std::collections::VecDeque;
use vstd::prelude::*;
use crate::scope::Scope;
use crate::status::{Action, BodyExit, Failure, Phase, TaskStatus};
use crate::status::{closing_action, verdict};

verus! {

/// What a join barrier is, seen from outside.
pub struct BarrierView<H> {
    /// Every handle that the body registered, in registration order.
    pub handles: Seq<H>,
    /// The statuses reported so far: the one at `i` belongs to `handles[i]`.
    pub statuses: Seq<TaskStatus>,
    /// How the body ended.
    pub exit: BodyExit,
}

impl<H> BarrierView<H> {
    /// The barrier as it stands when the body has just ended.
    pub open spec fn opened(handles: Seq<H>, exit: BodyExit) -> Self {
        BarrierView { handles, statuses: Seq::empty(), exit }
    }

    /// No status without a handle.
    pub open spec fn wf(self) -> bool {
        self.statuses.len() <= self.handles.len() <= usize::MAX
    }

    /// True while a task is out to be joined.
    pub open spec fn draining(self) -> bool {
        self.statuses.len() < self.handles.len()
    }

    pub open spec fn phase(self) -> Phase {
        if self.draining() {
            Phase::Draining
        } else {
            Phase::Closed
        }
    }

    /// The handles that still wait in the barrier, earliest first: all but
    /// those already joined and the one that is out to be joined.
    pub open spec fn pending(self) -> Seq<H> {
        if self.draining() {
            self.handles.subrange(self.statuses.len() as int + 1, self.handles.len() as int)
        } else {
            Seq::empty()
        }
    }

    /// The barrier after the join that was under way gave `status`.
    pub open spec fn record(self, status: TaskStatus) -> Self {
        BarrierView { statuses: self.statuses.push(status), ..self }
    }

    /// The failure that the caller will be told of, as far as it is known.
    pub open spec fn failure(self) -> Option<Failure> {
        verdict(self.exit, self.statuses)
    }

    /// What the barrier asks for: the join of the earliest task that has not
    /// been joined, and the end only when there is none.
    pub open spec fn action(self) -> Action<H> {
        if self.draining() {
            Action::Join(self.handles[self.statuses.len() as int])
        } else {
            closing_action(self.failure())
        }
    }
}

/// A scope whose body has ended, while its tasks are joined.
pub struct JoinBarrier<H> {
    /// The handles that have not been handed out yet, earliest first.
    join_handles: VecDeque<H>,
    /// How many handles the body registered.
    registered: usize,
    /// How many join results were reported.
    joined: usize,
    /// How the body ended.
    exit: BodyExit,
    /// The failure that came first, if any came yet.
    failure: Option<Failure>,
    handles: Ghost<Seq<H>>,
    statuses: Ghost<Seq<TaskStatus>>,
}

impl<H> View for JoinBarrier<H> {
    type V = BarrierView<H>;

    closed spec fn view(&self) -> BarrierView<H> {
        BarrierView { handles: self.handles@, statuses: self.statuses@, exit: self.exit }
    }
}

impl<H> JoinBarrier<H> {
    /// The fields agree with the model, and the model is well formed.
    pub closed spec fn wf(&self) -> bool {
        &&& self@.wf()
        &&& self.registered == self.handles@.len()
        &&& self.joined == self.statuses@.len()
        &&& self.join_handles@ == self@.pending()
        &&& self.failure == self@.failure()
    }

    /// A well-formed barrier has a well-formed model.
    pub proof fn lemma_wf_view(&self)
        requires
            self.wf(),
        ensures
            self@.wf(),
    {
    }

    /// Ends the accumulating phase: takes the scope over from a body that
    /// ended with `exit`, and says what to do first.
    pub fn close(scope: Scope<H>, exit: BodyExit) -> (opened: (JoinBarrier<H>, Action<H>))
        ensures
            opened.0.wf(),
            opened.0@ == BarrierView::opened(scope@, exit),
            opened.1 == opened.0@.action(),
    {
        let mut join_handles = scope.into_handles();
        let registered = join_handles.len();
        let first = join_handles.pop_front();
        let failure = match exit {
            BodyExit::Failed => Some(Failure::Body),
            BodyExit::Returned => None,
        };
        let barrier = JoinBarrier {
            join_handles,
            registered,
            joined: 0,
            exit,
            failure,
            handles: Ghost(scope@),
            statuses: Ghost(Seq::empty()),
        };
        proof {
            assert(barrier.join_handles@ =~= barrier@.pending());
        }
        let action = barrier.next_action(first);
        (barrier, action)
    }

    /// Takes note of what the join that was under way gave, and says what to
    /// do next: join the task registered after it, or end the scope when it
    /// was the last.
    pub fn step(&mut self, status: TaskStatus) -> (action: Action<H>)
        requires
            old(self).wf(),
            old(self)@.draining(),
        ensures
            final(self).wf(),
            final(self)@ == old(self)@.record(status),
            action == final(self)@.action(),
    {
        if self.failure.is_none() {
            self.failure =
            match status {
                TaskStatus::Completed => None,
                TaskStatus::Panicked => Some(Failure::TaskPanicked { index: self.joined }),
                TaskStatus::JoinFailure => Some(Failure::JoinFailure { index: self.joined }),
            };
        }
        proof {
            assert(self.statuses@.push(status).drop_last() =~= self.statuses@);
        }
        self.joined = self.joined + 1;
        self.statuses = Ghost(self.statuses@.push(status));
        let next = self.join_handles.pop_front();
        proof {
            assert(self.join_handles@ =~= self@.pending());
        }
        self.next_action(next)
    }

    /// The action that goes with the handle just taken from the queue.
    fn next_action(&self, next: Option<H>) -> (action: Action<H>)
        requires
            self@.wf(),
            self.failure == self@.failure(),
            match next {
                Some(handle) => self@.draining() && handle == self@.handles[self@.statuses.len() as int],
                None => !self@.draining(),
            },
        ensures
            action == self@.action(),
    {
        match next {
            Some(handle) => Action::Join(handle),
            None => match self.failure {
                None => Action::Return,
                Some(failure) => Action::Propagate(failure),
            },
        }
    }

    /// Where the barrier stands.
    pub fn phase(&self) -> (phase: Phase)
        requires
            self.wf(),
        ensures
            phase == self@.phase(),
    {
        if self.joined < self.registered {
            Phase::Draining
        } else {
            Phase::Closed
        }
    }

    /// How many tasks the body registered.
    pub fn spawned(&self) -> (count: usize)
        requires
            self.wf(),
        ensures
            count == self@.handles.len(),
    {
        self.registered
    }

    /// How many tasks were joined and reported.
    pub fn joined(&self) -> (count: usize)
        requires
            self.wf(),
        ensures
            count == self@.statuses.len(),
    {
        self.joined
    }

    /// How many handles still wait in the barrier.
    pub fn waiting(&self) -> (count: usize)
        requires
            self.wf(),
        ensures
            count == self@.pending().len(),
    {
        self.join_handles.len()
    }

    /// The failure that the caller will be told of, as far as it is known.
    pub fn failure(&self) -> (failure: Option<Failure>)
        requires
            self.wf(),
        ensures
            failure == self@.failure(),
    {
        self.failure
    }
}

} // verus!
