//! The consumer's side of a job: the decisions between the steps that touch
//! the store, and the split of a kernel's points into write batches.

use vstd::prelude::*;
use crate::kernel::KernelError;

verus! {

/// Points written per transaction unless configured otherwise.
pub const DEFAULT_BATCH_SIZE: usize = 1000;

/// Consecutive half-open ranges covering `0 .. len`: all but the last hold
/// exactly `size` indices, the last at most `size`.
pub open spec fn chunks_cover(r: Seq<(usize, usize)>, len: int, size: int) -> bool {
    &&& (len == 0 <==> r.len() == 0)
    &&& r.len() > 0 ==> r[0].0 == 0 && r.last().1 == len
    &&& forall|k: int| 0 <= k < r.len() ==> #[trigger] r[k].0 < r[k].1 && r[k].1 - r[k].0 <= size
    &&& forall|k: int| 0 <= k < r.len() - 1 ==> #[trigger] r[k].1 == r[k + 1].0 && r[k].1 - r[k].0 == size
}

/// The write batches for `len` points: ranges of `batch_size` indices in
/// order, the last one holding what is left.
pub fn chunk_ranges(len: usize, batch_size: usize) -> (r: Vec<(usize, usize)>)
    requires
        batch_size > 0,
    ensures
        chunks_cover(r@, len as int, batch_size as int),
{
    let mut out: Vec<(usize, usize)> = Vec::new();
    let mut start: usize = 0;
    while start < len
        invariant
            start <= len,
            batch_size > 0,
            out@.len() == 0 <==> start == 0,
            out@.len() > 0 ==> out@[0].0 == 0 && out@.last().1 == start,
            forall|k: int| 0 <= k < out@.len() ==> #[trigger] out@[k].0 < out@[k].1 && out@[k].1 - out@[k].0 <= batch_size,
            forall|k: int| 0 <= k < out@.len() - 1 ==> #[trigger] out@[k].1 == out@[k + 1].0 && out@[k].1 - out@[k].0 == batch_size,
            out@.len() > 0 && start < len ==> out@.last().1 - out@.last().0 == batch_size,
        decreases len - start,
    {
        let end = if len - start > batch_size { start + batch_size } else { len };
        let ghost pre = out@;
        out.push((start, end));
        proof {
            assert forall|k: int| 0 <= k < out@.len() - 1 implies #[trigger] out@[k].1 == out@[k + 1].0 && out@[k].1 - out@[k].0 == batch_size by {
                if k < pre.len() - 1 {
                    assert(out@[k] == pre[k] && out@[k + 1] == pre[k + 1]);
                } else {
                    assert(out@[k] == pre.last());
                }
            }
            assert forall|k: int| 0 <= k < out@.len() implies #[trigger] out@[k].0 < out@[k].1 && out@[k].1 - out@[k].0 <= batch_size by {
                if k < pre.len() {
                    assert(out@[k] == pre[k]);
                }
            }
        }
        start = end;
    }
    out
}

/// Where a job stands.
#[derive(Clone, Copy, Debug, PartialEq, Eq, Structural)]
pub enum JobPhase {
    /// Waiting for a permit.
    Queued,
    /// Permit held; the candle series is being read.
    AwaitingSeries,
    /// The kernel is running over the series.
    AwaitingKernel,
    /// Writing `total` points; everything before `next_start` is stored.
    Storing { total: usize, next_start: usize },
    /// All points stored, or nothing was owed.
    Committed,
    /// The job failed; the next sweep retries it.
    Failed,
}

/// What happened since the last decision.
#[derive(Clone, Copy, Debug, PartialEq, Eq, Structural)]
pub enum JobEvent {
    PermitAcquired,
    SeriesLoaded { len: usize },
    SeriesFailed,
    KernelDone { points: usize },
    KernelFailed { error: KernelError },
    ChunkStored,
    ChunkFailed,
}

/// What to do next.
#[derive(Clone, Copy, Debug, PartialEq, Eq, Structural)]
pub enum JobAction {
    LoadSeries,
    RunKernel,
    /// Upsert the points with indices `start .. end` in one transaction.
    StoreChunk { start: usize, end: usize },
    /// Release the lease; on success also refresh the job's completeness record.
    Finish { committed: bool },
    /// The event does not apply in this phase.
    Ignore,
}

/// The end of the batch that starts at `start`.
pub open spec fn chunk_end(start: int, total: int, size: int) -> int {
    if total - start > size { start + size } else { total }
}

/// Kernel verdicts that mean "nothing to store yet" rather than failure.
pub open spec fn benign(e: KernelError) -> bool {
    e == KernelError::InsufficientData || e == KernelError::InvalidParameter
}

/// The consumer's decision table.
pub open spec fn transition_spec(p: JobPhase, e: JobEvent, size: int) -> (JobPhase, JobAction) {
    match (p, e) {
        (JobPhase::Queued, JobEvent::PermitAcquired) => (JobPhase::AwaitingSeries, JobAction::LoadSeries),
        (JobPhase::AwaitingSeries, JobEvent::SeriesLoaded { len }) =>
            if len == 0 {
                (JobPhase::Committed, JobAction::Finish { committed: true })
            } else {
                (JobPhase::AwaitingKernel, JobAction::RunKernel)
            },
        (JobPhase::AwaitingSeries, JobEvent::SeriesFailed) => (JobPhase::Failed, JobAction::Finish { committed: false }),
        (JobPhase::AwaitingKernel, JobEvent::KernelDone { points }) =>
            if points == 0 {
                (JobPhase::Committed, JobAction::Finish { committed: true })
            } else {
                (
                    JobPhase::Storing { total: points, next_start: 0 },
                    JobAction::StoreChunk { start: 0, end: chunk_end(0, points as int, size) as usize },
                )
            },
        (JobPhase::AwaitingKernel, JobEvent::KernelFailed { error }) =>
            if benign(error) {
                (JobPhase::Committed, JobAction::Finish { committed: true })
            } else {
                (JobPhase::Failed, JobAction::Finish { committed: false })
            },
        (JobPhase::Storing { total, next_start }, JobEvent::ChunkStored) => {
            let done = chunk_end(next_start as int, total as int, size);
            if done >= total {
                (JobPhase::Committed, JobAction::Finish { committed: true })
            } else {
                (
                    JobPhase::Storing { total, next_start: done as usize },
                    JobAction::StoreChunk { start: done as usize, end: chunk_end(done, total as int, size) as usize },
                )
            }
        },
        (JobPhase::Storing { .. }, JobEvent::ChunkFailed) => (JobPhase::Failed, JobAction::Finish { committed: false }),
        _ => (p, JobAction::Ignore),
    }
}

/// A storing phase writes forward through its points.
pub open spec fn phase_ok(p: JobPhase) -> bool {
    match p {
        JobPhase::Storing { total, next_start } => next_start < total,
        _ => true,
    }
}

fn end_of_chunk(start: usize, total: usize, size: usize) -> (r: usize)
    requires
        start <= total,
    ensures
        r as int == chunk_end(start as int, total as int, size as int),
{
    if total - start > size { start + size } else { total }
}

/// Decides the next phase and action of a job after `event`.
pub fn transition(phase: JobPhase, event: JobEvent, batch_size: usize) -> (r: (JobPhase, JobAction))
    requires
        batch_size > 0,
        phase_ok(phase),
    ensures
        r == transition_spec(phase, event, batch_size as int),
        phase_ok(r.0),
{
    match (phase, event) {
        (JobPhase::Queued, JobEvent::PermitAcquired) => (JobPhase::AwaitingSeries, JobAction::LoadSeries),
        (JobPhase::AwaitingSeries, JobEvent::SeriesLoaded { len }) => {
            if len == 0 {
                (JobPhase::Committed, JobAction::Finish { committed: true })
            } else {
                (JobPhase::AwaitingKernel, JobAction::RunKernel)
            }
        },
        (JobPhase::AwaitingSeries, JobEvent::SeriesFailed) => (JobPhase::Failed, JobAction::Finish { committed: false }),
        (JobPhase::AwaitingKernel, JobEvent::KernelDone { points }) => {
            if points == 0 {
                (JobPhase::Committed, JobAction::Finish { committed: true })
            } else {
                (
                    JobPhase::Storing { total: points, next_start: 0 },
                    JobAction::StoreChunk { start: 0, end: end_of_chunk(0, points, batch_size) },
                )
            }
        },
        (JobPhase::AwaitingKernel, JobEvent::KernelFailed { error }) => {
            if matches!(error, KernelError::InsufficientData | KernelError::InvalidParameter) {
                (JobPhase::Committed, JobAction::Finish { committed: true })
            } else {
                (JobPhase::Failed, JobAction::Finish { committed: false })
            }
        },
        (JobPhase::Storing { total, next_start }, JobEvent::ChunkStored) => {
            let done = end_of_chunk(next_start, total, batch_size);
            if done >= total {
                (JobPhase::Committed, JobAction::Finish { committed: true })
            } else {
                (
                    JobPhase::Storing { total, next_start: done },
                    JobAction::StoreChunk { start: done, end: end_of_chunk(done, total, batch_size) },
                )
            }
        },
        (JobPhase::Storing { .. }, JobEvent::ChunkFailed) => (JobPhase::Failed, JobAction::Finish { committed: false }),
        _ => (phase, JobAction::Ignore),
    }
}

/// Committed and failed jobs stay where they are, whatever happens.
pub proof fn law_terminal_phases_stay(p: JobPhase, e: JobEvent, size: int)
    requires
        p == JobPhase::Committed || p == JobPhase::Failed,
    ensures
        transition_spec(p, e, size) == (p, JobAction::Ignore),
{
}

/// The batches a job writes when every write succeeds are exactly the
/// ranges of `chunk_ranges`, in order: starting from the kernel's result,
/// the `k`-th store action writes the `k`-th range.
pub proof fn law_batches_follow_chunks(total: int, size: int, r: Seq<(usize, usize)>, k: int)
    requires
        size > 0,
        total > 0,
        total <= usize::MAX,
        chunks_cover(r, total, size),
        0 <= k < r.len(),
    ensures
        r[k].1 == chunk_end(r[k].0 as int, total, size),
        k + 1 < r.len() ==> transition_spec(JobPhase::Storing { total: total as usize, next_start: r[k].0 }, JobEvent::ChunkStored, size)
            == (JobPhase::Storing { total: total as usize, next_start: r[k + 1].0 }, JobAction::StoreChunk { start: r[k + 1].0, end: r[k + 1].1 }),
        k + 1 == r.len() ==> transition_spec(JobPhase::Storing { total: total as usize, next_start: r[k].0 }, JobEvent::ChunkStored, size)
            == (JobPhase::Committed, JobAction::Finish { committed: true }),
        k == 0 ==> transition_spec(JobPhase::AwaitingKernel, JobEvent::KernelDone { points: total as usize }, size)
            == (JobPhase::Storing { total: total as usize, next_start: 0 }, JobAction::StoreChunk { start: r[0].0, end: r[0].1 }),
    decreases r.len() - k,
{
    if k + 1 < r.len() {
        law_batches_follow_chunks(total, size, r, k + 1);
    }
}

} // verus!
