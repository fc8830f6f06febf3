//! The scope that a body fills with tasks, and the entry point that runs a
//! body and joins what it registered.

use std::collections::VecDeque;
use vstd::prelude::*;
use crate::barrier::JoinBarrier;
use crate::status::{Action, BodyExit, Failure, Phase, TaskStatus};
use crate::status::conclude;

verus! {

/// An active, bounded concurrency region over task handles of type `H`: the
/// tasks registered so far, in registration order.
pub struct Scope<H> {
    join_handles: VecDeque<H>,
}

impl<H> View for Scope<H> {
    type V = Seq<H>;

    closed spec fn view(&self) -> Seq<H> {
        self.join_handles@
    }
}

impl<H> Scope<H> {
    /// The phase that a scope with these handles is in.
    pub open spec fn spec_phase(self) -> Phase {
        if self@.len() == 0 {
            Phase::Empty
        } else {
            Phase::Accumulating
        }
    }

    /// A scope with nothing registered.
    pub fn new() -> (fresh: Scope<H>)
        ensures
            fresh@ == Seq::<H>::empty(),
    {
        Scope { join_handles: VecDeque::new() }
    }

    /// Registers a task that has been started: its handle goes behind those
    /// registered before it.
    pub fn spawn(&mut self, handle: H)
        ensures
            final(self)@ == old(self)@.push(handle),
    {
        self.join_handles.push_back(handle);
    }

    /// How many tasks were registered.
    pub fn spawned(&self) -> (count: usize)
        ensures
            count == self@.len(),
    {
        self.join_handles.len()
    }

    /// Where the scope stands.
    pub fn phase(&self) -> (phase: Phase)
        ensures
            phase == self.spec_phase(),
    {
        if self.join_handles.len() == 0 {
            Phase::Empty
        } else {
            Phase::Accumulating
        }
    }

    /// Gives the handles up, earliest first.
    pub(crate) fn into_handles(self) -> (handles: VecDeque<H>)
        ensures
            handles@ == self@,
    {
        self.join_handles
    }
}

/// Runs `body` on a fresh scope, then joins every task that it registered, in
/// registration order, by one call of `join` each, and only then answers: with
/// the body's result, or with the failure that came first. A body that gives
/// `None` has failed; its tasks are joined all the same.
#[verifier::loop_isolation(false)]
pub fn scope<H, R, B, J>(body: B, join: J) -> (result: Result<R, Failure>) where
    B: FnOnce(&mut Scope<H>) -> Option<R>,
    J: Fn(H) -> TaskStatus,

    requires
        forall|s: &mut Scope<H>| s@ == Seq::<H>::empty() ==> call_requires(body, (s,)),
        forall|s: &mut Scope<H>, ret: Option<R>, i: int|
            {
                &&& s@ == Seq::<H>::empty()
                &&& #[trigger] call_ensures(body, (s,), ret)
                &&& 0 <= i < final(s)@.len()
            } ==> call_requires(join, (#[trigger] final(s)@[i],)),
    ensures
        exists|s: &mut Scope<H>, ret: Option<R>, statuses: Seq<TaskStatus>|
            {
                &&& s@ == Seq::<H>::empty()
                &&& call_ensures(body, (s,), ret)
                &&& statuses.len() == final(s)@.len()
                &&& forall|i: int|
                    0 <= i < statuses.len() ==> call_ensures(
                        join,
                        (final(s)@[i],),
                        #[trigger] statuses[i],
                    )
                &&& result == conclude(ret, statuses)
            },
{
    let mut fresh = Scope::new();
    let filling = &mut fresh;
    assert(filling@ == Seq::<H>::empty());
    let ret = body(filling);
    let exit = match ret {
        Some(_) => BodyExit::Returned,
        None => BodyExit::Failed,
    };
    let ghost handles = fresh@;
    // The borrow that the body was given is the witness of what it did.
    assert(exists|s: &mut Scope<H>| #[trigger]
        call_ensures(body, (s,), ret) && s@ == Seq::<H>::empty() && final(s)@ == handles);
    let (mut barrier, first) = JoinBarrier::close(fresh, exit);
    let mut action = first;
    loop
        invariant
            barrier.wf(),
            barrier@.handles == handles,
            barrier@.exit == exit,
            action == barrier@.action(),
            barrier@.statuses.len() <= handles.len(),
            forall|i: int| 0 <= i < handles.len() ==> call_requires(join, (#[trigger] handles[i],)),
            exists|s: &mut Scope<H>| #[trigger]
                call_ensures(body, (s,), ret) && s@ == Seq::<H>::empty() && final(s)@ == handles,
            forall|i: int|
                0 <= i < barrier@.statuses.len() ==> call_ensures(
                    join,
                    (handles[i],),
                    #[trigger] barrier@.statuses[i],
                ),
        decreases handles.len() - barrier@.statuses.len(),
    {
        proof {
            barrier.lemma_wf_view();
        }
        match action {
            Action::Join(handle) => {
                let status = join(handle);
                action = barrier.step(status);
            },
            Action::Return => {
                proof {
                    // The reports so far are a report for every handle.
                    let statuses = barrier@.statuses;
                    assert(statuses.len() == handles.len());
                    assert(Ok::<R, Failure>(ret.unwrap()) == conclude(ret, statuses));
                }
                return Ok(ret.unwrap());
            },
            Action::Propagate(failure) => {
                proof {
                    let statuses = barrier@.statuses;
                    assert(statuses.len() == handles.len());
                    assert(Err::<R, Failure>(failure) == conclude(ret, statuses));
                }
                return Err(failure);
            },
        }
    }
}

} // verus!
