//! The batch coordinator: drives one user-initiated batch of files
//! from submission to a single terminal result.
//!
//! The coordinator validates the concurrency bound, schedules one
//! worker per file under the permit pool, consumes outcomes in
//! completion order, and aborts the whole batch on the first failure:
//! in-flight workers are cancelled, their permits returned, and files
//! not yet submitted never start.
//!
//! `run_batch` is the coordinator run against a table of wire results,
//! one per file, consumed in completion order; an unverified driver
//! performs the same steps against real transfers, feeding each
//! worker's wire result through the same classification.

use vstd::prelude::*;

use crate::limiter::PermitPool;
use crate::upload::OutcomeView;
use crate::upload::UploadOutcome;
use crate::upload::WireResult;
use crate::upload::classify_response;
use crate::upload::failure_detail;
use crate::upload::spec_failure_detail;
use crate::upload::spec_outcome;
use crate::upload::spec_wire_ok;
use crate::upload::wire_is_ok;

verus! {

/// Rejection of a batch before any work starts.
#[derive(Clone, Copy, PartialEq, Eq, Debug, Structural)]
pub enum ConfigError {
    /// The concurrency bound lies outside 1 through 16.
    InvalidConcurrency { bound: u8 },
}

/// Whether a concurrency bound is acceptable.
pub open spec fn spec_bound_ok(bound: u8) -> bool {
    1 <= bound <= 16
}

/// Checks the concurrency bound; a bound outside 1 through 16 is
/// rejected before any worker starts.
pub fn validate_concurrency(bound: u8) -> (r: Result<(), ConfigError>)
    ensures
        r is Ok <==> spec_bound_ok(bound),
        r is Err ==> r == Result::<(), ConfigError>::Err(ConfigError::InvalidConcurrency { bound }),
{
    if 1 <= bound && bound <= 16 {
        Ok(())
    } else {
        Err(ConfigError::InvalidConcurrency { bound })
    }
}

/// One selected file: where it lies and the name shown for it.
pub struct BatchFile {
    pub path: String,
    pub display_name: String,
}

/// One user-initiated group of files submitted together, with the
/// credentials and the concurrency bound to run it under. Created
/// fresh per invocation and discarded after the batch finishes.
pub struct BatchJob {
    pub files: Vec<BatchFile>,
    pub concurrency: u8,
    pub server_url: String,
    pub api_key: String,
}

/// What one worker needs to upload its single file. Immutable once
/// constructed; owned exclusively by the worker processing it.
pub struct UploadRequest {
    pub server_url: String,
    pub api_key: String,
    pub file_path: String,
}

/// Builds the request handed to the worker for the file at `index`.
pub fn worker_request(job: &BatchJob, index: usize) -> (r: UploadRequest)
    requires
        index < job.files@.len(),
    ensures
        r.server_url@ == job.server_url@,
        r.api_key@ == job.api_key@,
        r.file_path@ == job.files@[index as int].path@,
{
    UploadRequest {
        server_url: job.server_url.clone(),
        api_key: job.api_key.clone(),
        file_path: job.files[index].path.clone(),
    }
}

/// The first failure a batch ran into.
pub struct BatchFailure {
    pub failing_file: String,
    pub error_detail: String,
}

/// The running aggregate the coordinator owns: how many files are in
/// the batch, how many completed, the first failure if one was
/// recorded, and whether the remaining work was cancelled. Once a
/// failure is recorded no further success is counted.
pub struct BatchResult {
    pub total: usize,
    pub completed: usize,
    pub failure: Option<BatchFailure>,
    pub cancelled: bool,
}

impl BatchResult {
    /// The aggregate's invariant.
    pub open spec fn wf(&self) -> bool {
        self.completed <= self.total
    }

    /// A fresh aggregate for a batch of `total` files.
    pub fn new(total: usize) -> (r: Self)
        ensures
            r.wf(),
            r.total == total,
            r.completed == 0,
            r.failure is None,
            !r.cancelled,
    {
        BatchResult { total, completed: 0, failure: None, cancelled: false }
    }

    /// Counts one more completed file. Only callable while no failure
    /// has been recorded: after the first failure, remaining work is
    /// cancelled, not completed.
    pub fn record_success(&mut self)
        requires
            old(self).wf(),
            old(self).failure is None,
            old(self).completed < old(self).total,
        ensures
            final(self).wf(),
            final(self).total == old(self).total,
            final(self).completed == old(self).completed + 1,
            final(self).failure is None,
            final(self).cancelled == old(self).cancelled,
    {
        self.completed = self.completed + 1;
    }

    /// Records the batch's first failure and marks the remaining work
    /// cancelled. The completed count freezes at its current value.
    pub fn record_failure(&mut self, failing_file: String, error_detail: String)
        requires
            old(self).wf(),
            old(self).failure is None,
        ensures
            final(self).wf(),
            final(self).total == old(self).total,
            final(self).completed == old(self).completed,
            final(self).cancelled,
            final(self).failure matches Some(f) && f.failing_file@ == failing_file@
                && f.error_detail@ == error_detail@,
    {
        self.failure = Some(BatchFailure { failing_file, error_detail });
        self.cancelled = true;
    }

    /// Whether the aggregate is terminal: every file completed, or a
    /// failure was recorded.
    pub open spec fn is_terminal(&self) -> bool {
        self.failure is Some || self.completed == self.total
    }

    /// The single terminal state of the batch.
    pub fn status(&self) -> (st: BatchStatus)
        requires
            self.wf(),
            self.is_terminal(),
        ensures
            self.failure is None ==> st@ == (StatusView::AllSucceeded { total: self.total as int }),
            self.failure matches Some(f) ==> st@ == (StatusView::AbortedOnFailure {
                completed_before_failure: self.completed as int,
                total: self.total as int,
                failing_file: f.failing_file@,
                error_detail: f.error_detail@,
            }),
    {
        match &self.failure {
            None => BatchStatus::AllSucceeded { total: self.total },
            Some(f) => BatchStatus::AbortedOnFailure {
                completed_before_failure: self.completed,
                total: self.total,
                failing_file: f.failing_file.clone(),
                error_detail: f.error_detail.clone(),
            },
        }
    }
}

/// The terminal state of a batch: exactly one is reached per run.
#[derive(Debug, Clone, PartialEq, Eq)]
pub enum BatchStatus {
    AllSucceeded { total: usize },
    AbortedOnFailure {
        completed_before_failure: usize,
        total: usize,
        failing_file: String,
        error_detail: String,
    },
}

/// The mathematical shape of a `BatchStatus`.
pub enum StatusView {
    AllSucceeded { total: int },
    AbortedOnFailure {
        completed_before_failure: int,
        total: int,
        failing_file: Seq<char>,
        error_detail: Seq<char>,
    },
}

impl View for BatchStatus {
    type V = StatusView;

    open spec fn view(&self) -> StatusView {
        match self {
            BatchStatus::AllSucceeded { total } => StatusView::AllSucceeded {
                total: *total as int,
            },
            BatchStatus::AbortedOnFailure {
                completed_before_failure,
                total,
                failing_file,
                error_detail,
            } => StatusView::AbortedOnFailure {
                completed_before_failure: *completed_before_failure as int,
                total: *total as int,
                failing_file: failing_file@,
                error_detail: error_detail@,
            },
        }
    }
}

/// The position of the first failing wire result, if any.
pub open spec fn spec_first_fail(ws: Seq<WireResult>) -> Option<int>
    decreases ws.len(),
{
    if ws.len() == 0 {
        None
    } else if !spec_wire_ok(ws[0]@) {
        Some(0)
    } else {
        match spec_first_fail(ws.drop_first()) {
            Some(i) => Some(i + 1),
            None => None,
        }
    }
}

/// When every wire result succeeds, there is no first failure.
pub proof fn lemma_first_fail_none(ws: Seq<WireResult>)
    requires
        forall|j: int| 0 <= j < ws.len() ==> spec_wire_ok(#[trigger] ws[j]@),
    ensures
        spec_first_fail(ws) is None,
    decreases ws.len(),
{
    if ws.len() > 0 {
        lemma_first_fail_none(ws.drop_first());
    }
}

/// A failing wire result preceded only by successes is the first
/// failure.
pub proof fn lemma_first_fail_at(ws: Seq<WireResult>, k: int)
    requires
        0 <= k < ws.len(),
        !spec_wire_ok(ws[k]@),
        forall|j: int| 0 <= j < k ==> spec_wire_ok(#[trigger] ws[j]@),
    ensures
        spec_first_fail(ws) == Some(k),
    decreases k,
{
    if k > 0 {
        lemma_first_fail_at(ws.drop_first(), k - 1);
    }
}

/// Everything one coordinator run yields: the outcomes emitted in
/// completion order (each file's at most once, and none for cancelled
/// workers), the single terminal state, how many workers began their
/// transfer, and the largest number of permits held at any instant.
pub struct BatchRun {
    pub outcomes: Vec<UploadOutcome>,
    pub status: BatchStatus,
    pub spawned: usize,
    pub max_in_flight: u8,
}

/// Drives one batch to its terminal state against a table of wire
/// results, one per file, consumed in completion order.
///
/// A concurrency bound outside 1 through 16 is rejected before any
/// worker starts. Otherwise workers are submitted under the permit
/// pool; each success is counted, and the first failure aborts the
/// batch: its in-flight siblings are cancelled and their outcomes
/// discarded, files after it are never submitted, and every permit is
/// returned.
pub fn run_batch(job: &BatchJob, wire: &Vec<WireResult>) -> (r: Result<BatchRun, ConfigError>)
    requires
        wire@.len() == job.files@.len(),
    ensures
        r is Ok <==> spec_bound_ok(job.concurrency),
        r is Err ==> r == Result::<BatchRun, ConfigError>::Err(
            ConfigError::InvalidConcurrency { bound: job.concurrency },
        ),
        r matches Ok(run) ==> run.max_in_flight <= job.concurrency && run.max_in_flight == (
        if job.files@.len() <= job.concurrency {
            job.files@.len() as int
        } else {
            job.concurrency as int
        }),
        r matches Ok(run) ==> spec_first_fail(wire@) is None ==> run.status@
            == (StatusView::AllSucceeded { total: job.files@.len() as int })
            && run.outcomes@.len() == job.files@.len() && run.spawned == job.files@.len() && (
        forall|i: int|
            0 <= i < run.outcomes@.len() ==> #[trigger] run.outcomes@[i]@ == (
            OutcomeView::Success { display_name: job.files@[i].display_name@ })),
        r matches Ok(run) ==> spec_first_fail(wire@) matches Some(k) ==> run.status@ == (
        StatusView::AbortedOnFailure {
            completed_before_failure: k,
            total: job.files@.len() as int,
            failing_file: job.files@[k].display_name@,
            error_detail: spec_failure_detail(wire@[k]@),
        }) && run.outcomes@.len() == k + 1 && run.spawned == (
        if job.files@.len() <= k + job.concurrency {
            job.files@.len() as int
        } else {
            k + job.concurrency
        }),
        r matches Ok(run) ==> forall|i: int|
            0 <= i < run.outcomes@.len() ==> #[trigger] run.outcomes@[i]@ == spec_outcome(
                job.files@[i].display_name@,
                wire@[i]@,
            ),
{
    let bound = job.concurrency;
    if bound < 1 || bound > 16 {
        return Err(ConfigError::InvalidConcurrency { bound });
    }
    let n = job.files.len();
    let mut pool = PermitPool::new(bound);
    let mut agg = BatchResult::new(n);
    let mut outcomes: Vec<UploadOutcome> = Vec::new();
    let mut spawned: usize = 0;
    let mut completions: usize = 0;
    let mut max_in_flight: u8 = 0;
    let mut aborted = false;

    // Submission: take a permit and start the next file when one is
    // free; otherwise wait on the oldest in-flight worker.
    while spawned < n && !aborted
        invariant
            n == job.files@.len() == wire@.len(),
            1 <= bound <= 16,
            pool.wf(),
            pool.capacity == bound,
            pool.held == spawned - completions,
            completions <= spawned <= n,
            spawned <= completions + bound,
            completions > 0 ==> spawned >= bound,
            max_in_flight == if spawned <= bound {
                spawned as int
            } else {
                bound as int
            },
            agg.wf(),
            agg.total == n,
            outcomes@.len() == completions,
            forall|i: int|
                0 <= i < completions ==> #[trigger] outcomes@[i]@ == spec_outcome(
                    job.files@[i].display_name@,
                    wire@[i]@,
                ),
            !aborted ==> agg.failure is None && !agg.cancelled && agg.completed == completions
                && (forall|j: int| 0 <= j < completions ==> spec_wire_ok(#[trigger] wire@[j]@)),
            aborted ==> completions >= 1 && !spec_wire_ok(wire@[completions - 1]@) && (forall|
                j: int,
            |
                0 <= j < completions - 1 ==> spec_wire_ok(#[trigger] wire@[j]@)) && agg.completed
                == completions - 1 && agg.cancelled && (agg.failure matches Some(f)
                && f.failing_file@ == job.files@[completions - 1].display_name@ && f.error_detail@
                == spec_failure_detail(wire@[completions - 1]@)) && spawned == (
            if n <= completions - 1 + bound {
                n as int
            } else {
                completions - 1 + bound
            }),
        decreases 2 * n - spawned - completions,
    {
        if pool.try_acquire() {
            spawned = spawned + 1;
            if pool.held > max_in_flight {
                max_in_flight = pool.held;
            }
        } else {
            let file = &job.files[completions];
            let ok = wire_is_ok(&wire[completions]);
            let oc = classify_response(file.display_name.as_str(), &wire[completions]);
            outcomes.push(oc);
            pool.release();
            if ok {
                agg.record_success();
            } else {
                let detail = failure_detail(&wire[completions]);
                agg.record_failure(file.display_name.clone(), detail);
                aborted = true;
            }
            completions = completions + 1;
        }
    }

    // Collection: every file is submitted; wait out the in-flight
    // workers in completion order until the first failure, if any.
    while !aborted && completions < spawned
        invariant
            n == job.files@.len() == wire@.len(),
            1 <= bound <= 16,
            pool.wf(),
            pool.capacity == bound,
            pool.held == spawned - completions,
            completions <= spawned <= n,
            spawned <= completions + bound,
            !aborted ==> spawned == n,
            max_in_flight == if n <= bound {
                n as int
            } else {
                bound as int
            },
            agg.wf(),
            agg.total == n,
            outcomes@.len() == completions,
            forall|i: int|
                0 <= i < completions ==> #[trigger] outcomes@[i]@ == spec_outcome(
                    job.files@[i].display_name@,
                    wire@[i]@,
                ),
            !aborted ==> agg.failure is None && !agg.cancelled && agg.completed == completions
                && (forall|j: int| 0 <= j < completions ==> spec_wire_ok(#[trigger] wire@[j]@)),
            aborted ==> completions >= 1 && !spec_wire_ok(wire@[completions - 1]@) && (forall|
                j: int,
            |
                0 <= j < completions - 1 ==> spec_wire_ok(#[trigger] wire@[j]@)) && agg.completed
                == completions - 1 && agg.cancelled && (agg.failure matches Some(f)
                && f.failing_file@ == job.files@[completions - 1].display_name@ && f.error_detail@
                == spec_failure_detail(wire@[completions - 1]@)) && spawned == (
            if n <= completions - 1 + bound {
                n as int
            } else {
                completions - 1 + bound
            }),
        decreases spawned - completions,
    {
        let file = &job.files[completions];
        let ok = wire_is_ok(&wire[completions]);
        let oc = classify_response(file.display_name.as_str(), &wire[completions]);
        outcomes.push(oc);
        pool.release();
        if ok {
            agg.record_success();
        } else {
            let detail = failure_detail(&wire[completions]);
            agg.record_failure(file.display_name.clone(), detail);
            aborted = true;
        }
        completions = completions + 1;
    }

    // Abort: cancelled workers stop and return their permits; their
    // outcomes are discarded.
    while pool.held > 0
        invariant
            pool.wf(),
        decreases pool.held,
    {
        pool.release();
    }

    proof {
        if aborted {
            lemma_first_fail_at(wire@, completions - 1);
        } else {
            lemma_first_fail_none(wire@);
        }
    }
    let status = agg.status();
    Ok(BatchRun { outcomes, status, spawned, max_in_flight })
}

} // verus!
