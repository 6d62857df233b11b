use job_scheduler::error::{ErrorStatus, WorkerError};
use job_scheduler::executor::{
    invalid_job_error, job_handler, retry_backoff_secs, settle_job, JobHandler, JobSettlement,
};

#[test]
fn backoff_secs_with_4_attempts_returns_16() {
    assert_eq!(retry_backoff_secs(4), 16);
}

#[test]
fn backoff_secs_with_10_attempts_returns_1024() {
    assert_eq!(retry_backoff_secs(10), 1024);
}

#[test]
fn backoff_edges() {
    assert_eq!(retry_backoff_secs(0), 1);
    assert_eq!(retry_backoff_secs(1), 2);
    assert_eq!(retry_backoff_secs(14), 16384);
}

#[test]
fn backoff_doubles_with_each_attempt() {
    for a in 0..14 {
        assert_eq!(retry_backoff_secs(a + 1), 2 * retry_backoff_secs(a));
    }
}

#[test]
fn handlers_by_job_type() {
    assert_eq!(job_handler("send_email"), JobHandler::SendEmail);
    assert_eq!(job_handler("send_webhook"), JobHandler::SendWebhook);
    assert_eq!(job_handler("will_crash"), JobHandler::WillCrash);
    assert_eq!(job_handler("send_emails"), JobHandler::Invalid);
    assert_eq!(job_handler(""), JobHandler::Invalid);
    assert_eq!(job_handler("SEND_EMAIL"), JobHandler::Invalid);
}

#[test]
fn invalid_job_is_permanent() {
    let e = invalid_job_error();
    assert!(e.is_permanent());
    assert_eq!(e.message, "Invalid job");
}

#[test]
fn success_is_stored_as_result() {
    let value: serde_json::Value = serde_json::from_str("{\"ok\": true}").unwrap();
    match settle_job(3, Ok(Some(value.clone()))) {
        JobSettlement::Completed { result } => assert_eq!(result, Some(value)),
        JobSettlement::Retry { .. } => panic!("expected completion"),
    }
    match settle_job(100, Ok(None)) {
        JobSettlement::Completed { result } => assert_eq!(result, None),
        JobSettlement::Retry { .. } => panic!("expected completion"),
    }
}

#[test]
fn failure_is_retried_after_backoff() {
    match settle_job(3, Err(WorkerError::temporary("boom"))) {
        JobSettlement::Retry { error, backoff_secs } => {
            assert_eq!(backoff_secs, 8);
            assert_eq!(error.status, ErrorStatus::Temporary);
            assert_eq!(error.message, "boom");
        }
        JobSettlement::Completed { .. } => panic!("expected retry"),
    }
}
