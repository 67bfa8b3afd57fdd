//! The in-memory goal set: the records loaded from the status document and
//! the aggregate queries the control loop decides by.

use vstd::prelude::*;

use crate::status::GoalStatus;
use crate::status::StatusClass;

verus! {

/// One unit of work tracked in the status document. The identifier and
/// description are opaque to the control loop; the optional plan is kept for
/// display only.
#[derive(Debug, PartialEq, Eq)]
pub struct Goal {
    pub id: String,
    pub description: String,
    pub status: GoalStatus,
    pub plan: Option<String>,
}

/// The ordered goal records of one read of the status document. A fresh
/// value is built on every loop iteration; nothing here mutates or persists
/// the document.
#[derive(Debug, PartialEq, Eq)]
pub struct GoalsFile {
    pub goals: Vec<Goal>,
}

/// How many of the states in `s` fall into bucket `c`.
pub open spec fn count_class(s: Seq<GoalStatus>, c: StatusClass) -> int
    decreases s.len(),
{
    if s.len() == 0 {
        0
    } else {
        count_class(s.drop_last(), c) + if s.last().class() == c {
            1int
        } else {
            0int
        }
    }
}

/// Every state falls into exactly one bucket, so the three counts partition
/// the sequence: they always sum to its length.
pub proof fn lemma_counts_partition(s: Seq<GoalStatus>)
    ensures
        count_class(s, StatusClass::Completed) + count_class(s, StatusClass::Active) + count_class(
            s,
            StatusClass::Pending,
        ) == s.len(),
    decreases s.len(),
{
    if s.len() > 0 {
        lemma_counts_partition(s.drop_last());
    }
}

impl GoalsFile {
    /// The statuses of the goals, in order.
    pub open spec fn statuses(self) -> Seq<GoalStatus> {
        self.goals@.map_values(|g: Goal| g.status)
    }

    /// Whether at least one goal's status calls for another session.
    pub open spec fn spec_has_pending_work(self) -> bool {
        exists|i: int|
            0 <= i < self.goals@.len() && self.goals@[i].status.spec_is_pending_work()
    }

    /// True iff some goal's status is in the set {pending,
    /// ready_for_execution, in_progress, ready_for_verification}.
    pub fn has_pending_work(&self) -> (r: bool)
        ensures
            r == self.spec_has_pending_work(),
    {
        let n = self.goals.len();
        for i in 0..n
            invariant
                n == self.goals@.len(),
                forall|j: int| 0 <= j < i ==> !self.goals@[j].status.spec_is_pending_work(),
        {
            if self.goals[i].status.is_pending_work() {
                return true;
            }
        }
        false
    }

    /// Tallies every goal into its bucket, returning `(completed, active,
    /// pending)`. The three counts always sum to the number of goals.
    pub fn count_by_status(&self) -> (r: (usize, usize, usize))
        ensures
            r.0 == count_class(self.statuses(), StatusClass::Completed),
            r.1 == count_class(self.statuses(), StatusClass::Active),
            r.2 == count_class(self.statuses(), StatusClass::Pending),
            r.0 + r.1 + r.2 == self.goals@.len(),
    {
        let mut completed: usize = 0;
        let mut active: usize = 0;
        let mut pending: usize = 0;
        let n = self.goals.len();
        for i in 0..n
            invariant
                n == self.goals@.len(),
                completed == count_class(self.statuses().take(i as int), StatusClass::Completed),
                active == count_class(self.statuses().take(i as int), StatusClass::Active),
                pending == count_class(self.statuses().take(i as int), StatusClass::Pending),
                completed + active + pending == i,
        {
            proof {
                assert(self.statuses().take(i + 1).drop_last() =~= self.statuses().take(i as int));
                assert(self.statuses().take(i + 1).last() == self.goals@[i as int].status);
            }
            match self.goals[i].status.classify() {
                StatusClass::Completed => {
                    completed = completed + 1;
                },
                StatusClass::Active => {
                    active = active + 1;
                },
                StatusClass::Pending => {
                    pending = pending + 1;
                },
            }
        }
        proof {
            assert(self.statuses().take(n as int) =~= self.statuses());
        }
        (completed, active, pending)
    }
}

/// A goal set with no goals has no pending work.
pub proof fn lemma_empty_has_no_pending_work(gs: GoalsFile)
    requires
        gs.goals@.len() == 0,
    ensures
        !gs.spec_has_pending_work(),
{
}

/// A goal set whose every goal is completed has no pending work.
pub proof fn lemma_all_completed_has_no_pending_work(gs: GoalsFile)
    requires
        forall|i: int| 0 <= i < gs.goals@.len() ==> gs.goals@[i].status == GoalStatus::Completed,
    ensures
        !gs.spec_has_pending_work(),
{
}

} // verus!
