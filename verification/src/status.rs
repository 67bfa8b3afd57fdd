//! Goal lifecycle states and their classification.
//!
//! A goal's status arrives as a free-form string; it is parsed into a closed
//! variant type with an explicit fallback for unrecognized strings, so that
//! classification is a total function: every status falls into exactly one of
//! the three buckets (completed, active, pending).

use vstd::prelude::*;

verus! {

/// The lifecycle state of a goal. Strings outside the fixed vocabulary map
/// to `Unrecognized`, which behaves like a goal not yet started.
#[derive(Clone, Copy, Debug, PartialEq, Eq, Structural)]
pub enum GoalStatus {
    NotStarted,
    Pending,
    ReadyForExecution,
    InProgress,
    ReadyForVerification,
    Completed,
    Unrecognized,
}

/// The three buckets the control loop cares about: exactly `completed`,
/// the in-flight states, and everything else.
#[derive(Clone, Copy, Debug, PartialEq, Eq, Structural)]
pub enum StatusClass {
    Completed,
    Active,
    Pending,
}

/// Which variant a raw status string denotes.
pub open spec fn spec_parse_status(s: Seq<char>) -> GoalStatus {
    if s == "not_started"@ {
        GoalStatus::NotStarted
    } else if s == "pending"@ {
        GoalStatus::Pending
    } else if s == "ready_for_execution"@ {
        GoalStatus::ReadyForExecution
    } else if s == "in_progress"@ {
        GoalStatus::InProgress
    } else if s == "ready_for_verification"@ {
        GoalStatus::ReadyForVerification
    } else if s == "completed"@ {
        GoalStatus::Completed
    } else {
        GoalStatus::Unrecognized
    }
}

/// A string is recognized when it names one of the fixed lifecycle states.
pub open spec fn is_recognized_status(s: Seq<char>) -> bool {
    ||| s == "not_started"@
    ||| s == "pending"@
    ||| s == "ready_for_execution"@
    ||| s == "in_progress"@
    ||| s == "ready_for_verification"@
    ||| s == "completed"@
}

impl GoalStatus {
    /// The bucket this state falls into: `completed` alone is completed; the
    /// three in-flight states are active; everything else, the fallback
    /// included, is pending.
    pub open spec fn class(self) -> StatusClass {
        match self {
            GoalStatus::Completed => StatusClass::Completed,
            GoalStatus::InProgress => StatusClass::Active,
            GoalStatus::ReadyForExecution => StatusClass::Active,
            GoalStatus::ReadyForVerification => StatusClass::Active,
            _ => StatusClass::Pending,
        }
    }

    /// Whether a goal in this state calls for another session. This is the
    /// fixed set {pending, ready_for_execution, in_progress,
    /// ready_for_verification}: a goal that is `not_started` or carries an
    /// unrecognized status counts as pending in the tallies but does not by
    /// itself trigger a session.
    pub open spec fn spec_is_pending_work(self) -> bool {
        match self {
            GoalStatus::Pending => true,
            GoalStatus::ReadyForExecution => true,
            GoalStatus::InProgress => true,
            GoalStatus::ReadyForVerification => true,
            _ => false,
        }
    }

    /// Parses a raw status string. Total: an unrecognized string yields the
    /// fallback variant rather than an error.
    pub fn parse(s: &str) -> (st: GoalStatus)
        ensures
            st == spec_parse_status(s@),
    {
        if str_eq(s, "not_started") {
            GoalStatus::NotStarted
        } else if str_eq(s, "pending") {
            GoalStatus::Pending
        } else if str_eq(s, "ready_for_execution") {
            GoalStatus::ReadyForExecution
        } else if str_eq(s, "in_progress") {
            GoalStatus::InProgress
        } else if str_eq(s, "ready_for_verification") {
            GoalStatus::ReadyForVerification
        } else if str_eq(s, "completed") {
            GoalStatus::Completed
        } else {
            GoalStatus::Unrecognized
        }
    }

    /// The bucket this state falls into, as executable code.
    pub fn classify(self) -> (c: StatusClass)
        ensures
            c == self.class(),
    {
        match self {
            GoalStatus::Completed => StatusClass::Completed,
            GoalStatus::InProgress => StatusClass::Active,
            GoalStatus::ReadyForExecution => StatusClass::Active,
            GoalStatus::ReadyForVerification => StatusClass::Active,
            _ => StatusClass::Pending,
        }
    }

    /// Whether a goal in this state calls for another session, as executable
    /// code.
    pub fn is_pending_work(self) -> (r: bool)
        ensures
            r == self.spec_is_pending_work(),
    {
        match self {
            GoalStatus::Pending => true,
            GoalStatus::ReadyForExecution => true,
            GoalStatus::InProgress => true,
            GoalStatus::ReadyForVerification => true,
            _ => false,
        }
    }
}

/// An unrecognized status string parses to the fallback variant, which is
/// classified as pending; parsing never fails, whatever the string holds.
pub proof fn lemma_unrecognized_classifies_pending(s: Seq<char>)
    requires
        !is_recognized_status(s),
    ensures
        spec_parse_status(s) == GoalStatus::Unrecognized,
        spec_parse_status(s).class() == StatusClass::Pending,
{
}

/// Character-by-character string equality, proved against the view of each
/// string.
fn str_eq(a: &str, b: &str) -> (r: bool)
    ensures
        r == (a@ == b@),
{
    let a_len = a.unicode_len();
    let b_len = b.unicode_len();
    if a_len != b_len {
        return false;
    }
    for i in 0..a_len
        invariant
            a_len == a@.len(),
            b_len == b@.len(),
            a@.len() == b@.len(),
            forall|j: int| 0 <= j < i ==> a@[j] == b@[j],
    {
        if a.get_char(i) != b.get_char(i) {
            return false;
        }
    }
    proof {
        assert(a@ =~= b@);
    }
    true
}

} // verus!
