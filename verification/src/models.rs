use vstd::prelude::*;

use crate::text::str_eq;

verus! {

/// Where a job is in its life: waiting to be claimed, claimed by a worker,
/// done, or given up on.
#[derive(Debug, Clone, Copy, PartialEq, Eq, Structural)]
pub enum TaskStatus {
    Pending,
    Running,
    Completed,
    Failed,
}

/// The name under which the database stores a status (lower case).
pub open spec fn status_name(s: TaskStatus) -> Seq<char> {
    match s {
        TaskStatus::Pending => "pending"@,
        TaskStatus::Running => "running"@,
        TaskStatus::Completed => "completed"@,
        TaskStatus::Failed => "failed"@,
    }
}

/// The status stored under a database name, if any.
pub open spec fn status_named(name: Seq<char>) -> Option<TaskStatus> {
    if name == "pending"@ {
        Some(TaskStatus::Pending)
    } else if name == "running"@ {
        Some(TaskStatus::Running)
    } else if name == "completed"@ {
        Some(TaskStatus::Completed)
    } else if name == "failed"@ {
        Some(TaskStatus::Failed)
    } else {
        None
    }
}

impl TaskStatus {
    /// The database name of the status.
    pub fn as_db_str(&self) -> (s: &'static str)
        ensures
            s@ == status_name(*self),
            *self == TaskStatus::Pending ==> s@ == "pending"@,
            *self == TaskStatus::Running ==> s@ == "running"@,
            *self == TaskStatus::Completed ==> s@ == "completed"@,
            *self == TaskStatus::Failed ==> s@ == "failed"@,
    {
        match self {
            TaskStatus::Pending => "pending",
            TaskStatus::Running => "running",
            TaskStatus::Completed => "completed",
            TaskStatus::Failed => "failed",
        }
    }

    /// The status stored under `name`, if any.
    pub fn from_db_str(name: &str) -> (r: Option<TaskStatus>)
        ensures
            r == status_named(name@),
            name@ == "pending"@ ==> r == Some(TaskStatus::Pending),
            name@ == "running"@ ==> r == Some(TaskStatus::Running),
            name@ == "completed"@ ==> r == Some(TaskStatus::Completed),
            name@ == "failed"@ ==> r == Some(TaskStatus::Failed),
            (name@ != "pending"@ && name@ != "running"@ && name@ != "completed"@
                && name@ != "failed"@) ==> r is None,
    {
        proof {
            lemma_status_db_names();
        }
        if str_eq(name, "pending") {
            Some(TaskStatus::Pending)
        } else if str_eq(name, "running") {
            Some(TaskStatus::Running)
        } else if str_eq(name, "completed") {
            Some(TaskStatus::Completed)
        } else if str_eq(name, "failed") {
            Some(TaskStatus::Failed)
        } else {
            None
        }
    }
}

/// The database name of each status is its variant name in lower case,
/// and each of those names reads back as its status.
pub proof fn lemma_status_db_names()
    ensures
        status_name(TaskStatus::Pending) == "pending"@,
        status_name(TaskStatus::Running) == "running"@,
        status_name(TaskStatus::Completed) == "completed"@,
        status_name(TaskStatus::Failed) == "failed"@,
        status_named("pending"@) == Some(TaskStatus::Pending),
        status_named("running"@) == Some(TaskStatus::Running),
        status_named("completed"@) == Some(TaskStatus::Completed),
        status_named("failed"@) == Some(TaskStatus::Failed),
{
    lemma_status_name_round_trip(TaskStatus::Pending, seq![]);
    lemma_status_name_round_trip(TaskStatus::Running, seq![]);
    lemma_status_name_round_trip(TaskStatus::Completed, seq![]);
    lemma_status_name_round_trip(TaskStatus::Failed, seq![]);
}

/// Reading back the database name of a status gives the status, and no
/// other name reads as a status.
pub proof fn lemma_status_name_round_trip(s: TaskStatus, name: Seq<char>)
    ensures
        status_named(status_name(s)) == Some(s),
        status_named(name) matches Some(t) ==> status_name(t) == name,
{
    reveal_strlit("pending");
    reveal_strlit("running");
    reveal_strlit("completed");
    reveal_strlit("failed");
    assert("pending"@ != "running"@ && "pending"@ != "completed"@ && "pending"@ != "failed"@) by {
        assert("pending"@[0] != "running"@[0]);
        assert("pending"@.len() != "completed"@.len());
        assert("pending"@[0] != "failed"@[0]);
    }
    assert("running"@ != "completed"@ && "running"@ != "failed"@) by {
        assert("running"@.len() != "completed"@.len());
        assert("running"@[0] != "failed"@[0]);
    }
    assert("completed"@ != "failed"@) by {
        assert("completed"@.len() != "failed"@.len());
    }
}

/// A job to be inserted into the queue; `T` is the type of timestamps.
#[derive(Debug)]
pub struct NewJob<T> {
    pub job_type: String,
    pub payload: serde_json::Value,
    pub status: TaskStatus,
    pub priority: i16,
    pub max_retries: i16,
    pub created_at: T,
    pub run_at: T,
}

/// Counts of jobs by status.
#[derive(Debug)]
pub struct JobStats {
    pub pending: i64,
    pub running: i64,
    pub completed: i64,
    pub failed: i64,
}

/// Counts of the jobs of one job type, by status.
#[derive(Debug)]
pub struct JobStatsByJobType {
    pub job_type: String,
    pub pending: i64,
    pub running: i64,
    pub completed: i64,
    pub failed: i64,
}

} // verus!
