//! What holds of every scope, proved over the models.

use vstd::prelude::*;
use crate::barrier::BarrierView;
use crate::status::{Action, BodyExit, Failure, TaskStatus};
use crate::status::{body_exit, closing_action, conclude, first_task_failure, task_failure, verdict};

verus! {

/// The barrier after a run of join results, taken in one after the other.
pub open spec fn replay<H>(start: BarrierView<H>, reports: Seq<TaskStatus>) -> BarrierView<H>
    decreases reports.len(),
{
    if reports.len() == 0 {
        start
    } else {
        replay(start, reports.drop_last()).record(reports.last())
    }
}

/// True if the task at `index` is the earliest that did not complete.
pub open spec fn earliest_failure(statuses: Seq<TaskStatus>, index: int) -> bool {
    &&& 0 <= index < statuses.len()
    &&& statuses[index] != TaskStatus::Completed
    &&& forall|j: int| 0 <= j < index ==> statuses[j] == TaskStatus::Completed
}

/// The failure reported for a run of joined tasks is that of the earliest
/// task, in registration order, that did not complete; there is none exactly
/// when every task completed.
pub proof fn law_first_failure_is_earliest(statuses: Seq<TaskStatus>)
    ensures
        match first_task_failure(statuses) {
            None => forall|i: int| 0 <= i < statuses.len() ==> statuses[i] == TaskStatus::Completed,
            Some(failure) => exists|i: int| #[trigger]
                earliest_failure(statuses, i) && Some(failure) == task_failure(statuses[i], i),
        },
    decreases statuses.len(),
{
    if statuses.len() > 0 {
        let before = statuses.drop_last();
        let last = statuses.len() - 1;
        law_first_failure_is_earliest(before);
        match first_task_failure(before) {
            None => {
                assert forall|j: int| 0 <= j < last implies statuses[j] == TaskStatus::Completed by {
                    assert(statuses[j] == before[j]);
                }
                if statuses.last() != TaskStatus::Completed {
                    assert(earliest_failure(statuses, last));
                }
            },
            Some(failure) => {
                let i = choose|i: int| #[trigger]
                    earliest_failure(before, i) && Some(failure) == task_failure(before[i], i);
                assert forall|j: int| 0 <= j < i implies statuses[j] == TaskStatus::Completed by {
                    assert(statuses[j] == before[j]);
                }
                assert(statuses[i] == before[i]);
                assert(earliest_failure(statuses, i));
            },
        }
    }
}

/// A body that registers nothing and returns a value has that value handed
/// on unchanged, and the barrier ends at once, with no join.
pub proof fn law_empty_scope_is_identity<H, R>(value: R)
    ensures
        conclude(Some(value), Seq::<TaskStatus>::empty()) == Ok::<R, Failure>(value),
        BarrierView::opened(Seq::<H>::empty(), BodyExit::Returned).action() == Action::<H>::Return,
{
}

/// A scope ends only when nothing is in flight: as long as a registered task
/// has not been joined and reported, the barrier asks for a join, of the
/// earliest such task, and for nothing else, however the body ended; and when
/// it asks for no join, no handle is left in it.
pub proof fn law_no_end_before_last_join<H>(barrier: BarrierView<H>)
    requires
        barrier.wf(),
    ensures
        barrier.draining() ==> barrier.action() == Action::Join(
            barrier.handles[barrier.statuses.len() as int],
        ),
        !(barrier.action() is Join) ==> barrier.statuses.len() == barrier.handles.len(),
        !(barrier.action() is Join) ==> barrier.pending() == Seq::<H>::empty(),
{
}

/// The body's result goes back to the caller only when the body returned and
/// every registered task was joined and had completed.
pub proof fn law_return_means_all_completed<H>(barrier: BarrierView<H>)
    requires
        barrier.wf(),
        barrier.action() == Action::<H>::Return,
    ensures
        barrier.exit == BodyExit::Returned,
        barrier.statuses.len() == barrier.handles.len(),
        forall|i: int| 0 <= i < barrier.handles.len() ==> barrier.statuses[i] == TaskStatus::Completed,
{
    law_first_failure_is_earliest(barrier.statuses);
}

/// The caller gets a result exactly when the body gave one and every joined
/// task had completed, and it is then the body's own.
pub proof fn law_result_means_all_completed<R>(ret: Option<R>, statuses: Seq<TaskStatus>)
    ensures
        conclude(ret, statuses) is Ok <==> ret is Some && forall|i: int|
            0 <= i < statuses.len() ==> statuses[i] == TaskStatus::Completed,
        conclude(ret, statuses) is Ok ==> conclude(ret, statuses) == Ok::<R, Failure>(ret->0),
{
    law_first_failure_is_earliest(statuses);
    if first_task_failure(statuses) is Some {
        let i = choose|i: int| #[trigger]
            earliest_failure(statuses, i) && first_task_failure(statuses) == task_failure(
                statuses[i],
                i,
            );
        assert(statuses[i] != TaskStatus::Completed);
    }
}

/// The entry point answers as the barrier ends: with the body's result where
/// the barrier's verdict is to return, and with the verdict's failure where it
/// is to fail.
pub proof fn law_answer_follows_verdict<R>(ret: Option<R>, statuses: Seq<TaskStatus>)
    ensures
        match verdict(body_exit(ret), statuses) {
            None => ret is Some && conclude(ret, statuses) == Ok::<R, Failure>(ret->0),
            Some(failure) => conclude(ret, statuses) == Err::<R, Failure>(failure),
        },
{
}

/// A body that failed has its failure handed on, whatever its tasks did, but
/// not before the last of them was joined.
pub proof fn law_body_failure_waits_for_joins<H, R>(barrier: BarrierView<H>)
    requires
        barrier.wf(),
        barrier.exit == BodyExit::Failed,
    ensures
        barrier.action() == Action::<H>::Propagate(Failure::Body) <==> barrier.statuses.len()
            == barrier.handles.len(),
        conclude(None::<R>, barrier.statuses) == Err::<R, Failure>(Failure::Body),
{
}

/// Joining goes by registration, not by completion: whatever the tasks
/// report, the barrier asks for them one by one in the order in which they
/// were registered, every report meets a join that is under way, and after
/// the last report the scope ends with the failure that came first, if any.
pub proof fn law_joins_follow_registration<H>(
    handles: Seq<H>,
    exit: BodyExit,
    reports: Seq<TaskStatus>,
)
    requires
        handles.len() <= usize::MAX,
        reports.len() <= handles.len(),
    ensures
        replay(BarrierView::opened(handles, exit), reports) == (BarrierView {
            handles,
            statuses: reports,
            exit,
        }),
        replay(BarrierView::opened(handles, exit), reports).wf(),
        forall|k: int|
            0 <= k < reports.len() ==> (#[trigger] replay(
                BarrierView::opened(handles, exit),
                reports.take(k),
            )).action() == Action::Join(handles[k]),
        reports.len() < handles.len() ==> replay(
            BarrierView::opened(handles, exit),
            reports,
        ).action() == Action::Join(handles[reports.len() as int]),
        reports.len() == handles.len() ==> replay(
            BarrierView::opened(handles, exit),
            reports,
        ).action() == closing_action::<H>(verdict(exit, reports)),
    decreases reports.len(),
{
    let start = BarrierView::opened(handles, exit);
    if reports.len() == 0 {
        assert(reports =~= Seq::<TaskStatus>::empty());
    } else {
        let before = reports.drop_last();
        law_joins_follow_registration(handles, exit, before);
        assert(before.push(reports.last()) =~= reports);
        assert forall|k: int| 0 <= k < reports.len() implies (#[trigger] replay(
            start,
            reports.take(k),
        )).action() == Action::Join(handles[k]) by {
            if k < before.len() {
                assert(reports.take(k) =~= before.take(k));
            } else {
                assert(reports.take(k) =~= before);
            }
        }
    }
}

} // verus!
