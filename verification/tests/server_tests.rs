use job_scheduler::models::{TaskStatus, JobStats, JobStatsByJobType};
use job_scheduler::server::{job_or_not_found, new_job_from_request, ServerError};

#[test]
fn found_job_is_returned() {
    assert_eq!(job_or_not_found(Some(7)).unwrap(), 7);
}

#[test]
fn missing_job_is_404() {
    let e = job_or_not_found::<u32>(None).unwrap_err();
    assert_eq!(e.into_reply(), (404, "Job Not Found".to_string()));
}

#[test]
fn other_errors_are_generic() {
    let e = ServerError::Internal(std::io::Error::other("disk"));
    assert_eq!(e.into_reply(), (500, "Something went wrong".to_string()));
    let e: ServerError = std::io::Error::other("disk").into();
    assert!(matches!(e, ServerError::Internal(_)));
    let e: ServerError = sqlx::Error::RowNotFound.into();
    assert!(matches!(e, ServerError::Database(_)));
    assert_eq!(e.into_reply().0, 500);
}

#[test]
fn new_job_defaults() {
    let payload: serde_json::Value = serde_json::from_str("{\"to\": \"a@b.c\"}").unwrap();
    let j = new_job_from_request("send_email".to_string(), payload.clone(), None, None, None, 42u64);
    assert_eq!(j.job_type, "send_email");
    assert_eq!(j.payload, payload);
    assert_eq!(j.status, TaskStatus::Pending);
    assert_eq!(j.priority, 1);
    assert_eq!(j.max_retries, 1);
    assert_eq!(j.created_at, 42);
    assert_eq!(j.run_at, 42);
}

#[test]
fn new_job_from_full_request() {
    let payload = serde_json::Value::String("A new job".to_string());
    let j = new_job_from_request("new_job".to_string(), payload, Some(10), Some(5), Some(99u64), 42u64);
    assert_eq!(j.priority, 10);
    assert_eq!(j.max_retries, 5);
    assert_eq!(j.created_at, 42);
    assert_eq!(j.run_at, 99);
}

#[test]
fn status_names_round_trip() {
    for s in [TaskStatus::Pending, TaskStatus::Running, TaskStatus::Completed, TaskStatus::Failed] {
        assert_eq!(TaskStatus::from_db_str(s.as_db_str()), Some(s));
    }
    assert_eq!(TaskStatus::Pending.as_db_str(), "pending");
    assert_eq!(TaskStatus::Failed.as_db_str(), "failed");
    assert_eq!(TaskStatus::from_db_str("Pending"), None);
    assert_eq!(TaskStatus::from_db_str("done"), None);
}

#[test]
fn stats_hold_counts() {
    let s = JobStats { pending: 1, running: 2, completed: 3, failed: 4 };
    assert_eq!(s.pending + s.running + s.completed + s.failed, 10);
    let t = JobStatsByJobType { job_type: "send_email".to_string(), pending: 0, running: 0, completed: 1, failed: 0 };
    assert_eq!(t.job_type, "send_email");
}
