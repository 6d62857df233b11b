use vstd::prelude::*;
use vstd::std_specs::convert::FromSpecImpl;

use crate::models::{NewJob, TaskStatus};

verus! {

/// A failure reported by the database driver.
#[verifier::external_type_specification]
#[verifier::external_body]
pub struct ExSqlxError(sqlx::Error);

/// A failure of the operating system's input or output.
#[verifier::external_type_specification]
#[verifier::external_body]
pub struct ExIoError(std::io::Error);

/// Why the server could not answer a request.
#[derive(Debug)]
pub enum ServerError {
    Database(sqlx::Error),
    Internal(std::io::Error),
    NotFound(String),
}

impl From<sqlx::Error> for ServerError {
    fn from(err: sqlx::Error) -> (r: Self) {
        ServerError::Database(err)
    }
}

impl FromSpecImpl<sqlx::Error> for ServerError {
    open spec fn obeys_from_spec() -> bool {
        true
    }

    open spec fn from_spec(v: sqlx::Error) -> Self {
        ServerError::Database(v)
    }
}

impl From<std::io::Error> for ServerError {
    fn from(err: std::io::Error) -> (r: Self) {
        ServerError::Internal(err)
    }
}

impl FromSpecImpl<std::io::Error> for ServerError {
    open spec fn obeys_from_spec() -> bool {
        true
    }

    open spec fn from_spec(v: std::io::Error) -> Self {
        ServerError::Internal(v)
    }
}

pub const HTTP_CREATED: u16 = 201;
pub const HTTP_NOT_FOUND: u16 = 404;
pub const HTTP_INTERNAL_SERVER_ERROR: u16 = 500;

impl ServerError {
    /// The HTTP status and error text that answer a request that failed
    /// with this error. Only a missing resource is described to the
    /// client; every other failure is a generic internal error.
    pub fn into_reply(self) -> (r: (u16, String))
        ensures
            match self {
                ServerError::NotFound(msg) => r.0 == HTTP_NOT_FOUND && r.1@ == msg@,
                _ => r.0 == HTTP_INTERNAL_SERVER_ERROR && r.1@ == "Something went wrong"@,
            },
    {
        match self {
            ServerError::NotFound(msg) => (HTTP_NOT_FOUND, msg),
            _ => (HTTP_INTERNAL_SERVER_ERROR, String::from_str("Something went wrong")),
        }
    }
}

/// The answer to a request for one job: the job when it was found, a
/// "Job Not Found" error otherwise.
pub fn job_or_not_found<J>(job: Option<J>) -> (r: Result<J, ServerError>)
    ensures
        match job {
            Some(j) => r == Ok::<J, ServerError>(j),
            None => r matches Err(ServerError::NotFound(msg)) && msg@ == "Job Not Found"@,
        },
{
    match job {
        Some(j) => Ok(j),
        None => Err(ServerError::NotFound(String::from_str("Job Not Found"))),
    }
}

/// The job that a creation request describes, received at time `now`: it
/// starts pending, with priority 1 and at most one try unless the request
/// says otherwise, and may run at `schedule_at`, or at once.
pub fn new_job_from_request<T: Copy>(
    job_type: String,
    payload: serde_json::Value,
    priority: Option<i16>,
    max_retries: Option<i16>,
    schedule_at: Option<T>,
    now: T,
) -> (job: NewJob<T>)
    ensures
        job.job_type == job_type,
        job.payload == payload,
        job.status == TaskStatus::Pending,
        job.priority == (match priority { Some(p) => p, None => 1 }),
        job.max_retries == (match max_retries { Some(m) => m, None => 1 }),
        job.created_at == now,
        job.run_at == (match schedule_at { Some(t) => t, None => now }),
{
    let priority = match priority {
        Some(p) => p,
        None => 1,
    };
    let max_retries = match max_retries {
        Some(m) => m,
        None => 1,
    };
    let (created_at, run_at) = match schedule_at {
        Some(t) => (now, t),
        None => (now, now),
    };
    NewJob { job_type, payload, status: TaskStatus::Pending, priority, max_retries, created_at, run_at }
}

} // verus!
