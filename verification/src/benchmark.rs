use vstd::prelude::*;

use crate::text::{decimal, decimal_string};

verus! {

/// The recipient of the `i`-th email job that the load test submits.
pub fn benchmark_recipient(i: u64) -> (r: String)
    ensures
        r@ == "user"@ + decimal(i as nat) + "@mail.com"@,
{
    let s = String::from_str("user").concat(decimal_string(i).as_str());
    s.concat("@mail.com")
}

/// Counts of the load test's submissions: accepted (answered `201
/// Created`) and failed to send. Counters wrap around as atomic counters
/// do.
#[derive(Debug)]
pub struct SubmissionTally {
    pub success: u64,
    pub error: u64,
}

pub open spec fn wrapping_inc(n: u64) -> u64 {
    if n < u64::MAX { (n + 1) as u64 } else { 0 }
}

impl SubmissionTally {
    pub fn new() -> (t: Self)
        ensures
            t.success == 0,
            t.error == 0,
    {
        SubmissionTally { success: 0, error: 0 }
    }

    /// Records a submission answered with HTTP status `status`: it counts
    /// as a success when the job was created; any other answer counts as
    /// neither.
    pub fn record_response(&mut self, status: u16)
        ensures
            final(self).success == (if status == 201 { wrapping_inc(old(self).success) } else { old(self).success }),
            final(self).error == old(self).error,
            status != 201 ==> final(self).success == old(self).success,
            (status == 201 && old(self).success < u64::MAX) ==> final(self).success == old(self).success + 1,
            (status == 201 && old(self).success == u64::MAX) ==> final(self).success == 0,
    {
        if status == 201 {
            self.success = if self.success < u64::MAX { self.success + 1 } else { 0 };
        }
    }

    /// Records a submission that could not be sent.
    pub fn record_send_error(&mut self)
        ensures
            final(self).success == old(self).success,
            final(self).error == wrapping_inc(old(self).error),
            old(self).error < u64::MAX ==> final(self).error == old(self).error + 1,
            old(self).error == u64::MAX ==> final(self).error == 0,
    {
        self.error = if self.error < u64::MAX { self.error + 1 } else { 0 };
    }
}

/// The submissions in flight: the load test waits for all of them once
/// `concurrency` are pending.
#[derive(Debug)]
pub struct SubmissionWindow {
    pending: usize,
    concurrency: usize,
}

impl SubmissionWindow {
    /// The window holds fewer submissions than its limit, or none.
    pub closed spec fn wf(&self) -> bool {
        self.pending == 0 || self.pending < self.concurrency
    }

    pub closed spec fn pending_count(&self) -> nat {
        self.pending as nat
    }

    pub closed spec fn limit(&self) -> nat {
        self.concurrency as nat
    }

    pub fn new(concurrency: usize) -> (w: Self)
        ensures
            w.wf(),
            w.pending_count() == 0,
            w.limit() == concurrency,
    {
        SubmissionWindow { pending: 0, concurrency }
    }

    /// Fewer submissions than the limit are ever left waiting in the window
    /// (none when the limit is zero).
    pub proof fn lemma_pending_below_limit(&self)
        requires
            self.wf(),
        ensures
            self.pending_count() < if self.limit() == 0 { 1 } else { self.limit() },
    {
    }

    /// Records one more submission in flight; returns whether the load test
    /// must now wait for every pending submission, which empties the
    /// window.
    pub fn submitted(&mut self) -> (wait_all: bool)
        requires
            old(self).wf(),
        ensures
            final(self).wf(),
            final(self).limit() == old(self).limit(),
            wait_all == (old(self).pending_count() + 1 >= old(self).limit()),
            final(self).pending_count() == (if wait_all { 0 } else { old(self).pending_count() + 1 }),
    {
        self.pending = self.pending + 1;
        if self.pending >= self.concurrency {
            self.pending = 0;
            true
        } else {
            false
        }
    }
}

} // verus!
