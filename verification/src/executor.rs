use vstd::prelude::*;
use vstd::arithmetic::power2::{pow2, lemma_pow2_unfold, lemma_pow2_strictly_increases};

use crate::error::{ErrorStatus, WorkerError};
use crate::text::str_eq;

verus! {

/// Seconds to wait before a failed job may run again: two to the power of
/// the number of attempts made so far.
pub fn retry_backoff_secs(attempts: i16) -> (secs: i16)
    requires
        0 <= attempts <= 14,
    ensures
        secs as int == pow2(attempts as nat),
{
    let mut secs: i16 = 1;
    let mut i: i16 = 0;
    proof {
        assert(pow2(0) == 1) by {
            vstd::arithmetic::power2::lemma2_to64();
        }
    }
    while i < attempts
        invariant
            0 <= i <= attempts <= 14,
            secs as int == pow2(i as nat),
        decreases attempts - i,
    {
        proof {
            lemma_pow2_unfold((i + 1) as nat);
            lemma_pow2_strictly_increases((i + 1) as nat, 15);
            vstd::arithmetic::power2::lemma2_to64();
        }
        secs = secs * 2;
        i = i + 1;
    }
    secs
}

/// Each further attempt doubles the wait before the next try, so the wait
/// grows strictly with the number of attempts; the longest wait that the
/// backoff allows, after 14 attempts, still fits an `i16`.
pub proof fn backoff_doubles_per_attempt(attempts: nat, later: nat)
    requires
        attempts < later <= 14,
    ensures
        pow2(attempts + 1) == 2 * pow2(attempts),
        pow2(attempts) < pow2(later),
        pow2(later) <= i16::MAX,
{
    lemma_pow2_unfold(attempts + 1);
    lemma_pow2_strictly_increases(attempts, later);
    vstd::arithmetic::power2::lemma2_to64();
    if later < 14 {
        lemma_pow2_strictly_increases(later, 14);
    }
}

/// Which handler runs a job, chosen by its job type.
#[derive(Debug, PartialEq, Eq, Structural)]
pub enum JobHandler {
    SendEmail,
    SendWebhook,
    /// A job type kept for exercising crash recovery: the worker panics.
    WillCrash,
    Invalid,
}

/// The handler for a job type: `send_email`, `send_webhook` and
/// `will_crash` have their own; every other type is invalid.
pub fn job_handler(job_type: &str) -> (h: JobHandler)
    ensures
        h == (if job_type@ == "send_email"@ {
            JobHandler::SendEmail
        } else if job_type@ == "send_webhook"@ {
            JobHandler::SendWebhook
        } else if job_type@ == "will_crash"@ {
            JobHandler::WillCrash
        } else {
            JobHandler::Invalid
        }),
{
    if str_eq(job_type, "send_email") {
        JobHandler::SendEmail
    } else if str_eq(job_type, "send_webhook") {
        JobHandler::SendWebhook
    } else if str_eq(job_type, "will_crash") {
        JobHandler::WillCrash
    } else {
        JobHandler::Invalid
    }
}

/// The error recorded for a job whose type has no handler.
pub fn invalid_job_error() -> (e: WorkerError)
    ensures
        e.status == ErrorStatus::Permanent,
        e.message@ == "Invalid job"@,
        e.source is None,
{
    WorkerError::permanent("Invalid job")
}

/// What the worker writes back for a job once its handler has returned.
pub enum JobSettlement {
    /// Mark the job completed, storing the handler's result.
    Completed { result: Option<serde_json::Value> },
    /// Put the job back to pending with the error, runnable again after
    /// `backoff_secs` seconds.
    Retry { error: WorkerError, backoff_secs: i16 },
}

/// Settles a job that has been attempted `attempts` times: a success is
/// stored as the job's result, a failure puts the job back with a backoff
/// of `2^attempts` seconds.
pub fn settle_job(attempts: i16, outcome: Result<Option<serde_json::Value>, WorkerError>) -> (s: JobSettlement)
    requires
        outcome is Err ==> 0 <= attempts <= 14,
    ensures
        match outcome {
            Ok(result) => s == (JobSettlement::Completed { result }),
            Err(error) => s == (JobSettlement::Retry {
                error,
                backoff_secs: pow2(attempts as nat) as i16,
            }),
        },
{
    match outcome {
        Ok(result) => JobSettlement::Completed { result },
        Err(error) => {
            let backoff_secs = retry_backoff_secs(attempts);
            JobSettlement::Retry { error, backoff_secs }
        }
    }
}

} // verus!
