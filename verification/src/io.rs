//! Decisions of the B-tree I/O path: admission of writes under a limit on
//! concurrent I/O, and the page-read checkpoint statistics.
//!
//! Writes are numbered as they start; a write may proceed once its number is
//! within `max_io_concurrency` of the number of finished writes.  A waiting
//! process sleeps on the condition variable slot `start_num % max_procs`; a
//! finishing write wakes the slot of the write that its completion admits.
//! The caller runs the waiting loop and the condition variables; the
//! functions here compute what to do.
use vstd::prelude::*;

verus! {

/// `a + b` as 64-bit unsigned arithmetic with wrap-around.
pub open spec fn wrapping_add64(a: u64, b: u64) -> u64 {
    if a + b > u64::MAX {
        (a + b - 0x1_0000_0000_0000_0000) as u64
    } else {
        (a + b) as u64
    }
}

/// Shared I/O counters.
#[derive(Clone, Copy, Debug, PartialEq, Eq, Structural)]
pub struct IoShmem {
    /// Number of writes started so far.
    pub writes_started: u64,
    /// Number of writes finished so far.
    pub writes_finished: u64,
}

/// Per-process I/O state.
#[derive(Clone, Copy, Debug, PartialEq, Eq, Structural)]
pub struct IoProcState {
    /// A write of this process has started and not finished.
    pub io_in_progress: bool,
}

fn wrapping_add_u64(a: u64, b: u64) -> (r: u64)
    ensures
        r == wrapping_add64(a, b),
{
    if a <= u64::MAX - b {
        a + b
    } else {
        let r = a - (u64::MAX - b) - 1;
        r
    }
}

/// A write with start number `start_num` must wait while its number is
/// beyond the finished count plus the concurrency limit.
pub open spec fn spec_must_wait(start_num: u64, writes_finished: u64, max_io_concurrency: u64) -> bool {
    start_num > wrapping_add64(writes_finished, max_io_concurrency)
}

/// Starts a write.  With no concurrency limit (zero) nothing is counted and
/// `None` is returned.  Otherwise the started count is incremented (with
/// wrap-around), the process is marked as doing I/O, and the new count is
/// returned as the write's start number.
pub fn io_start(shmem: &mut IoShmem, proc_state: &mut IoProcState, max_io_concurrency: u64) -> (r:
    Option<u64>)
    ensures
        max_io_concurrency == 0 ==> r is None && *final(shmem) == *old(shmem) && *final(proc_state)
            == *old(proc_state),
        max_io_concurrency != 0 ==> r == Some(wrapping_add64(old(shmem).writes_started, 1))
            && *final(shmem) == (IoShmem {
            writes_started: wrapping_add64(old(shmem).writes_started, 1),
            ..*old(shmem)
        }) && final(proc_state).io_in_progress,
{
    if max_io_concurrency == 0 {
        return None;
    }
    let start_num = wrapping_add_u64(shmem.writes_started, 1);
    shmem.writes_started = start_num;
    proc_state.io_in_progress = true;
    Some(start_num)
}

/// Decides whether a started write must wait, given the current finished
/// count: `Some(slot)` names the condition variable slot to sleep on,
/// `None` lets the write proceed.
pub fn io_start_wait_slot(
    start_num: u64,
    writes_finished: u64,
    max_io_concurrency: u64,
    max_procs: u64,
) -> (r: Option<u64>)
    requires
        max_procs > 0,
    ensures
        r == (if spec_must_wait(start_num, writes_finished, max_io_concurrency) {
            Some(start_num % max_procs)
        } else {
            None
        }),
        writes_finished + max_io_concurrency <= u64::MAX ==> (r is Some <==> start_num
            > writes_finished + max_io_concurrency),
        r matches Some(slot) ==> slot == start_num % max_procs,
{
    if start_num > wrapping_add_u64(writes_finished, max_io_concurrency) {
        Some(start_num % max_procs)
    } else {
        None
    }
}

/// The condition variable slot a finishing write broadcasts: that of the
/// write whose start number is the finish number plus the limit.
pub fn io_finish_wake_slot(finish_num: u64, max_io_concurrency: u64, max_procs: u64) -> (r: u64)
    requires
        max_procs > 0,
    ensures
        r == wrapping_add64(finish_num, max_io_concurrency) % max_procs,
{
    wrapping_add_u64(finish_num, max_io_concurrency) % max_procs
}

/// Finishes a write.  With no concurrency limit nothing is counted and
/// `None` is returned.  Otherwise the finished count is incremented (with
/// wrap-around), the process is no longer doing I/O, and the condition
/// variable slot to broadcast is returned: that of the write whose start
/// number is the new finished count plus the limit.
pub fn io_finish(
    shmem: &mut IoShmem,
    proc_state: &mut IoProcState,
    max_io_concurrency: u64,
    max_procs: u64,
) -> (r: Option<u64>)
    requires
        max_procs > 0,
    ensures
        max_io_concurrency == 0 ==> r is None && *final(shmem) == *old(shmem) && *final(proc_state)
            == *old(proc_state),
        max_io_concurrency != 0 ==> {
            let finish_num = wrapping_add64(old(shmem).writes_finished, 1);
            &&& *final(shmem) == (IoShmem { writes_finished: finish_num, ..*old(shmem) })
            &&& !final(proc_state).io_in_progress
            &&& r == Some(wrapping_add64(finish_num, max_io_concurrency) % max_procs)
        },
{
    if max_io_concurrency == 0 {
        return None;
    }
    let finish_num = wrapping_add_u64(shmem.writes_finished, 1);
    shmem.writes_finished = finish_num;
    proc_state.io_in_progress = false;
    Some(io_finish_wake_slot(finish_num, max_io_concurrency, max_procs))
}

/// Cleanup after an error: finishes the process's write if one is in
/// progress.
pub fn btree_io_error_cleanup(
    shmem: &mut IoShmem,
    proc_state: &mut IoProcState,
    max_io_concurrency: u64,
    max_procs: u64,
) -> (r: Option<u64>)
    requires
        max_procs > 0,
    ensures
        !old(proc_state).io_in_progress ==> r is None && *final(shmem) == *old(shmem)
            && *final(proc_state) == *old(proc_state),
        old(proc_state).io_in_progress && max_io_concurrency != 0 ==> {
            let finish_num = wrapping_add64(old(shmem).writes_finished, 1);
            &&& *final(shmem) == (IoShmem { writes_finished: finish_num, ..*old(shmem) })
            &&& !final(proc_state).io_in_progress
            &&& r == Some(wrapping_add64(finish_num, max_io_concurrency) % max_procs)
        },
        old(proc_state).io_in_progress && max_io_concurrency == 0 ==> r is None && *final(shmem)
            == *old(shmem) && *final(proc_state) == *old(proc_state),
{
    if proc_state.io_in_progress {
        io_finish(shmem, proc_state, max_io_concurrency, max_procs)
    } else {
        None
    }
}

/// Away from wrap-around, a write waits exactly when its start number is
/// beyond the finished count plus the limit; in particular a write whose
/// number is at or below the finished count never waits.
pub proof fn lemma_must_wait_exactly_beyond_limit(start_num: u64, writes_finished: u64, max_io_concurrency: u64)
    requires
        writes_finished + max_io_concurrency <= u64::MAX,
    ensures
        spec_must_wait(start_num, writes_finished, max_io_concurrency) <==> start_num
            > writes_finished + max_io_concurrency,
        start_num <= writes_finished ==> !spec_must_wait(start_num, writes_finished, max_io_concurrency),
{
}

/// Admission bound: away from wrap-around, a write that is not made to wait
/// has a start number at most the finished count plus the limit, so at
/// most `max_io_concurrency` writes proceed beyond those finished.
pub proof fn lemma_admitted_write_within_limit(start_num: u64, writes_finished: u64, max_io_concurrency: u64)
    requires
        writes_finished + max_io_concurrency <= u64::MAX,
        !spec_must_wait(start_num, writes_finished, max_io_concurrency),
    ensures
        start_num <= writes_finished + max_io_concurrency,
{
}

/// Wake-up: away from wrap-around, the write numbered `finished + 1 +
/// limit` waits before a write finishes, may proceed after it, and sleeps on
/// exactly the slot that the finishing write broadcasts.
pub proof fn lemma_finish_wakes_next_admitted(
    writes_finished: u64,
    max_io_concurrency: u64,
    max_procs: u64,
)
    requires
        max_procs > 0,
        max_io_concurrency > 0,
        writes_finished + 1 + max_io_concurrency <= u64::MAX,
    ensures
        ({
            let finish_num = wrapping_add64(writes_finished, 1);
            let next = (writes_finished + 1 + max_io_concurrency) as u64;
            &&& spec_must_wait(next, writes_finished, max_io_concurrency)
            &&& !spec_must_wait(next, finish_num, max_io_concurrency)
            &&& next % max_procs == wrapping_add64(finish_num, max_io_concurrency) % max_procs
        }),
{
}

// ============================================================================
// Page-read checkpoint statistics
// ============================================================================

/// Smallest and largest checkpoint numbers of the pages read since the last
/// reset.
#[derive(Clone, Copy, Debug, PartialEq, Eq, Structural)]
pub struct ReadPageCheckpointStats {
    /// Smallest checkpoint number seen (`u32::MAX` when none).
    pub min_read_page_checkpoint: u32,
    /// Largest checkpoint number seen (0 when none).
    pub max_read_page_checkpoint: u32,
}

impl ReadPageCheckpointStats {
    /// Statistics after a reset: minimum `u32::MAX`, maximum 0.
    pub fn reset() -> (r: Self)
        ensures
            r.min_read_page_checkpoint == u32::MAX,
            r.max_read_page_checkpoint == 0,
    {
        ReadPageCheckpointStats { min_read_page_checkpoint: u32::MAX, max_read_page_checkpoint: 0 }
    }
}

/// The smallest of the numbers in `s`, starting from `u32::MAX`.
pub open spec fn seq_min(s: Seq<u32>) -> u32
    decreases s.len(),
{
    if s.len() == 0 {
        u32::MAX
    } else {
        let m = seq_min(s.drop_last());
        if s.last() < m {
            s.last()
        } else {
            m
        }
    }
}

/// The largest of the numbers in `s`, starting from 0.
pub open spec fn seq_max(s: Seq<u32>) -> u32
    decreases s.len(),
{
    if s.len() == 0 {
        0
    } else {
        let m = seq_max(s.drop_last());
        if s.last() > m {
            s.last()
        } else {
            m
        }
    }
}

/// Records the checkpoint number of a page that was read.
pub fn store_read_page_checkpoint_stats(stats: &mut ReadPageCheckpointStats, checkpoint_num: u32)
    ensures
        final(stats).max_read_page_checkpoint == (if checkpoint_num > old(
            stats,
        ).max_read_page_checkpoint {
            checkpoint_num
        } else {
            old(stats).max_read_page_checkpoint
        }),
        final(stats).min_read_page_checkpoint == (if checkpoint_num < old(
            stats,
        ).min_read_page_checkpoint {
            checkpoint_num
        } else {
            old(stats).min_read_page_checkpoint
        }),
{
    if checkpoint_num > stats.max_read_page_checkpoint {
        stats.max_read_page_checkpoint = checkpoint_num;
    }
    if checkpoint_num < stats.min_read_page_checkpoint {
        stats.min_read_page_checkpoint = checkpoint_num;
    }
}

/// Recording one more read updates the statistics of the series exactly as
/// `store_read_page_checkpoint_stats` does: starting from a reset and
/// recording the numbers of `s` one by one yields `seq_min(s)` and
/// `seq_max(s)`.
pub proof fn lemma_stats_record_one_more(s: Seq<u32>, n: u32)
    ensures
        seq_min(s.push(n)) == (if n < seq_min(s) {
            n
        } else {
            seq_min(s)
        }),
        seq_max(s.push(n)) == (if n > seq_max(s) {
            n
        } else {
            seq_max(s)
        }),
        seq_min(Seq::<u32>::empty()) == u32::MAX,
        seq_max(Seq::<u32>::empty()) == 0,
{
    assert(s.push(n).drop_last() =~= s);
}

/// After a reset and a series of recorded reads, the statistics hold the
/// smallest and the largest of the recorded checkpoint numbers.
pub proof fn lemma_stats_track_min_max(s: Seq<u32>, stats: ReadPageCheckpointStats)
    requires
        stats.min_read_page_checkpoint == seq_min(s),
        stats.max_read_page_checkpoint == seq_max(s),
    ensures
        forall|k: int| 0 <= k < s.len() ==> stats.min_read_page_checkpoint <= #[trigger] s[k]
            <= stats.max_read_page_checkpoint,
    decreases s.len(),
{
    if s.len() > 0 {
        let t = s.drop_last();
        lemma_stats_track_min_max(
            t,
            ReadPageCheckpointStats {
                min_read_page_checkpoint: seq_min(t),
                max_read_page_checkpoint: seq_max(t),
            },
        );
        assert forall|k: int| 0 <= k < s.len() implies stats.min_read_page_checkpoint
            <= #[trigger] s[k] <= stats.max_read_page_checkpoint by {
            if k < s.len() - 1 {
                assert(s[k] == t[k]);
            }
        }
    }
}

} // verus!
