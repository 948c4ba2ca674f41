//! Job lifecycle states and the transition table that every status change
//! must pass.

use vstd::prelude::*;
use crate::text::same_text;

verus! {

/// Lifecycle state of an ingestion job.
#[derive(Debug, Clone, Copy, PartialEq, Eq, Structural)]
pub enum JobStatus {
    Queued,
    Processing,
    Completed,
    Failed,
    Cancelled,
}

/// The transition graph: which state may follow which.
pub open spec fn allowed(from: JobStatus, to: JobStatus) -> bool {
    match from {
        JobStatus::Queued => to == JobStatus::Processing || to == JobStatus::Cancelled || to
            == JobStatus::Failed,
        JobStatus::Processing => to == JobStatus::Completed || to == JobStatus::Failed || to
            == JobStatus::Cancelled,
        JobStatus::Failed => to == JobStatus::Queued,
        JobStatus::Cancelled => to == JobStatus::Queued,
        JobStatus::Completed => false,
    }
}

/// The state that a stored name denotes, if any.
pub open spec fn status_of_name(s: Seq<char>) -> Option<JobStatus> {
    if s == JobStatus::Queued.spec_name() {
        Some(JobStatus::Queued)
    } else if s == JobStatus::Processing.spec_name() {
        Some(JobStatus::Processing)
    } else if s == JobStatus::Completed.spec_name() {
        Some(JobStatus::Completed)
    } else if s == JobStatus::Failed.spec_name() {
        Some(JobStatus::Failed)
    } else if s == JobStatus::Cancelled.spec_name() {
        Some(JobStatus::Cancelled)
    } else {
        None
    }
}

/// Whether a job stored with name `from` may move to the state named `to`.
pub open spec fn names_allowed(from: Seq<char>, to: Seq<char>) -> bool {
    match (status_of_name(from), status_of_name(to)) {
        (Some(f), Some(t)) => allowed(f, t),
        _ => false,
    }
}

impl JobStatus {
    /// The stored name of each state.
    pub open spec fn spec_name(self) -> Seq<char> {
        match self {
            JobStatus::Queued => seq!['q', 'u', 'e', 'u', 'e', 'd'],
            JobStatus::Processing => seq!['p', 'r', 'o', 'c', 'e', 's', 's', 'i', 'n', 'g'],
            JobStatus::Completed => seq!['c', 'o', 'm', 'p', 'l', 'e', 't', 'e', 'd'],
            JobStatus::Failed => seq!['f', 'a', 'i', 'l', 'e', 'd'],
            JobStatus::Cancelled => seq!['c', 'a', 'n', 'c', 'e', 'l', 'l', 'e', 'd'],
        }
    }

    pub fn as_str(&self) -> (r: &'static str)
        ensures
            r@ == self.spec_name(),
    {
        match self {
            JobStatus::Queued => {
                proof {
                    reveal_strlit("queued");
                }
                "queued"
            },
            JobStatus::Processing => {
                proof {
                    reveal_strlit("processing");
                }
                "processing"
            },
            JobStatus::Completed => {
                proof {
                    reveal_strlit("completed");
                }
                "completed"
            },
            JobStatus::Failed => {
                proof {
                    reveal_strlit("failed");
                }
                "failed"
            },
            JobStatus::Cancelled => {
                proof {
                    reveal_strlit("cancelled");
                }
                "cancelled"
            },
        }
    }

    /// The state with the given stored name.
    pub fn parse(s: &str) -> (r: Option<JobStatus>)
        ensures
            r == status_of_name(s@),
    {
        if same_text(s, JobStatus::Queued.as_str()) {
            Some(JobStatus::Queued)
        } else if same_text(s, JobStatus::Processing.as_str()) {
            Some(JobStatus::Processing)
        } else if same_text(s, JobStatus::Completed.as_str()) {
            Some(JobStatus::Completed)
        } else if same_text(s, JobStatus::Failed.as_str()) {
            Some(JobStatus::Failed)
        } else if same_text(s, JobStatus::Cancelled.as_str()) {
            Some(JobStatus::Cancelled)
        } else {
            None
        }
    }

    /// Whether this state may be followed by `next`.
    pub fn can_move_to(&self, next: JobStatus) -> (r: bool)
        ensures
            r == allowed(*self, next),
    {
        match self {
            JobStatus::Queued => next == JobStatus::Processing || next == JobStatus::Cancelled
                || next == JobStatus::Failed,
            JobStatus::Processing => next == JobStatus::Completed || next == JobStatus::Failed
                || next == JobStatus::Cancelled,
            JobStatus::Failed => next == JobStatus::Queued,
            JobStatus::Cancelled => next == JobStatus::Queued,
            JobStatus::Completed => false,
        }
    }
}

/// Whether a job whose stored status is `current_status` may move to
/// `next_status`; a name that is not one of the five states allows nothing.
pub fn can_transition(current_status: &str, next_status: &str) -> (r: bool)
    ensures
        r == names_allowed(current_status@, next_status@),
{
    match (JobStatus::parse(current_status), JobStatus::parse(next_status)) {
        (Some(f), Some(t)) => f.can_move_to(t),
        _ => false,
    }
}

/// Each state's stored name denotes that state and no other.
pub proof fn lemma_names_round_trip(s: JobStatus)
    ensures
        status_of_name(s.spec_name()) == Some(s),
{
    assert(JobStatus::Queued.spec_name() != JobStatus::Processing.spec_name());
    assert(JobStatus::Queued.spec_name() != JobStatus::Completed.spec_name());
    assert(JobStatus::Queued.spec_name() != JobStatus::Failed.spec_name());
    assert(JobStatus::Queued.spec_name() != JobStatus::Cancelled.spec_name());
    assert(JobStatus::Processing.spec_name() != JobStatus::Completed.spec_name());
    assert(JobStatus::Processing.spec_name() != JobStatus::Failed.spec_name());
    assert(JobStatus::Processing.spec_name() != JobStatus::Cancelled.spec_name());
    assert(JobStatus::Completed.spec_name() != JobStatus::Failed.spec_name());
    assert(JobStatus::Completed.spec_name()[0] != JobStatus::Cancelled.spec_name()[0]
        || JobStatus::Completed.spec_name()[1] != JobStatus::Cancelled.spec_name()[1]);
    assert(JobStatus::Failed.spec_name() != JobStatus::Cancelled.spec_name());
}

/// The transition table is total and exact: for every pair of states, the move
/// between their names is allowed exactly when the pair is one of the nine
/// listed edges; `completed` has no outgoing move, and a name that denotes no
/// state moves nowhere and is reached from nowhere.
pub proof fn lemma_transition_table(from: JobStatus, to: JobStatus, other: Seq<char>)
    ensures
        names_allowed(from.spec_name(), to.spec_name()) <==> {
            ||| from == JobStatus::Queued && to == JobStatus::Processing
            ||| from == JobStatus::Queued && to == JobStatus::Cancelled
            ||| from == JobStatus::Queued && to == JobStatus::Failed
            ||| from == JobStatus::Processing && to == JobStatus::Completed
            ||| from == JobStatus::Processing && to == JobStatus::Failed
            ||| from == JobStatus::Processing && to == JobStatus::Cancelled
            ||| from == JobStatus::Failed && to == JobStatus::Queued
            ||| from == JobStatus::Cancelled && to == JobStatus::Queued
        },
        !names_allowed(JobStatus::Completed.spec_name(), to.spec_name()),
        status_of_name(other) is None ==> !names_allowed(other, to.spec_name())
            && !names_allowed(from.spec_name(), other),
{
    lemma_names_round_trip(from);
    lemma_names_round_trip(to);
    lemma_names_round_trip(JobStatus::Completed);
}

} // verus!
