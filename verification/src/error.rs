use vstd::prelude::*;

verus! {

/// The outside error type that a worker error may keep as its cause.
#[verifier::external_type_specification]
#[verifier::external_body]
pub struct ExAnyhowError(anyhow::Error);

/// Whether a failed job is worth retrying.
#[derive(Debug, PartialEq, Eq, Structural)]
pub enum ErrorStatus {
    Temporary,
    Permanent,
}

/// The error a job handler reports: whether it is temporary, a message,
/// and optionally the underlying cause.
#[derive(Debug)]
pub struct WorkerError {
    pub status: ErrorStatus,
    pub message: String,
    pub source: Option<anyhow::Error>,
}

impl WorkerError {
    /// An error that retrying will not cure.
    pub fn permanent(message: &str) -> (e: Self)
        ensures
            e.status == ErrorStatus::Permanent,
            e.message@ == message@,
            e.source is None,
    {
        Self { status: ErrorStatus::Permanent, message: String::from_str(message), source: None }
    }

    /// An error that may go away when the job is tried again.
    pub fn temporary(message: &str) -> (e: Self)
        ensures
            e.status == ErrorStatus::Temporary,
            e.message@ == message@,
            e.source is None,
    {
        Self { status: ErrorStatus::Temporary, message: String::from_str(message), source: None }
    }

    /// The same error, with `source` recorded as its cause.
    pub fn set_source(self, source: anyhow::Error) -> (e: Self)
        ensures
            e.status == self.status,
            e.message == self.message,
            e.source == Some(source),
    {
        let mut err = self;
        err.source = Some(source);
        err
    }

    pub fn is_permanent(&self) -> (r: bool)
        ensures
            r == (self.status == ErrorStatus::Permanent),
    {
        self.status == ErrorStatus::Permanent
    }
}

/// Keeps a standard error as the cause of a worker error.
///
/// Calls `anyhow::Error::new`. Nothing is claimed of the result: it is an
/// opaque value that only carries the cause along.
#[verifier::external_body]
pub(crate) fn error_source<E: std::error::Error + Send + Sync + 'static>(error: E) -> (r: anyhow::Error) {
    anyhow::Error::new(error)
}

} // verus!
