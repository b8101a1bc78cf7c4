use vstd::prelude::*;

use crate::types::LogEvent;

verus! {

/// An inclusive block range `[from, to]`; empty when `to < from`.
#[derive(Clone, Copy, Debug, PartialEq, Eq, Structural)]
pub struct BlockRange {
    pub from: u64,
    pub to: u64,
}

impl BlockRange {
    /// Number of blocks the range covers.
    pub open spec fn len(self) -> int {
        if self.to < self.from {
            0
        } else {
            self.to - self.from + 1
        }
    }
}

/// Why a scan did not advance the cursor.
#[derive(Clone, Copy, Debug, PartialEq, Eq, Structural)]
pub enum ScanError {
    /// The node could not deliver the logs of the planned range.
    FetchFailed,
    /// The node returned a log outside the planned range.
    OutOfRange,
    /// The node returned logs that are not in ascending block order.
    Unordered,
}

/// Windowed, reorg-safe cursor over one log source.
///
/// A scan is planned from the current chain head with [`BlockScanner::plan`],
/// the logs of the planned range are fetched by the caller, and the outcome is
/// handed to [`BlockScanner::finish`], which advances the cursor only on success.
#[derive(Clone, Copy, Debug, PartialEq, Eq, Structural)]
pub struct BlockScanner {
    pub last_synced_block: u64,
    pub window_size: u64,
    pub chain_head_offset: u64,
}

/// The highest block that may be scanned at the given chain head.
pub open spec fn target_end(chain_head: u64, offset: u64) -> int {
    chain_head - offset
}

/// The range the next scan covers, if there is any progress to make.
pub open spec fn planned_range(s: BlockScanner, chain_head: u64) -> Option<BlockRange> {
    let target = target_end(chain_head, s.chain_head_offset);
    if target <= s.last_synced_block {
        None
    } else {
        let to = if s.last_synced_block + s.window_size <= target {
            s.last_synced_block + s.window_size
        } else {
            target
        };
        Some(BlockRange { from: (s.last_synced_block + 1) as u64, to: to as u64 })
    }
}

/// The logs are all within `range` and in ascending block order.
pub open spec fn logs_fit(logs: Seq<LogEvent>, range: BlockRange) -> bool {
    &&& forall|i: int|
        0 <= i < logs.len() ==> range.from <= #[trigger] logs[i].block_number <= range.to
    &&& forall|i: int, j: int|
        0 <= i <= j < logs.len() ==> logs[i].block_number <= logs[j].block_number
}

impl BlockScanner {
    /// A scanner that starts at the given chain head, skipping all history.
    pub fn new_latest(chain_head: u64, window_size: u64) -> (r: BlockScanner)
        ensures
            r.last_synced_block == chain_head,
            r.window_size == window_size,
            r.chain_head_offset == 0,
    {
        BlockScanner { last_synced_block: chain_head, window_size, chain_head_offset: 0 }
    }

    /// Sets how many blocks below the chain head are withheld from scanning.
    pub fn with_offset(self, chain_head_offset: u64) -> (r: BlockScanner)
        ensures
            r.last_synced_block == self.last_synced_block,
            r.window_size == self.window_size,
            r.chain_head_offset == chain_head_offset,
    {
        BlockScanner { chain_head_offset, ..self }
    }

    /// The range to fetch next, or `None` when the confirmed height has not
    /// moved past the cursor.
    pub fn plan(&self, chain_head: u64) -> (r: Option<BlockRange>)
        ensures
            r == planned_range(*self, chain_head),
            r.is_none() <==> target_end(chain_head, self.chain_head_offset)
                <= self.last_synced_block,
            r matches Some(range) ==> {
                &&& range.from == self.last_synced_block + 1
                &&& range.to <= target_end(chain_head, self.chain_head_offset)
                &&& range.len() <= self.window_size
                &&& range.to >= self.last_synced_block
            },
    {
        if chain_head < self.chain_head_offset {
            return None;
        }
        let target = chain_head - self.chain_head_offset;
        if target <= self.last_synced_block {
            return None;
        }
        let to = if self.window_size <= target - self.last_synced_block {
            self.last_synced_block + self.window_size
        } else {
            target
        };
        Some(BlockRange { from: self.last_synced_block + 1, to })
    }

    /// Completes a scan of `range` with what the node returned for it.
    ///
    /// On success the cursor moves to the end of the range and the logs are
    /// handed back; on any failure the cursor stays, so the range is retried.
    pub fn finish(&mut self, range: BlockRange, fetched: Result<Vec<LogEvent>, ()>) -> (r: Result<
        Vec<LogEvent>,
        ScanError,
    >)
        requires
            range.from == old(self).last_synced_block + 1,
            range.to >= old(self).last_synced_block,
        ensures
            final(self).last_synced_block >= old(self).last_synced_block,
            final(self).window_size == old(self).window_size,
            final(self).chain_head_offset == old(self).chain_head_offset,
            scan_outcome(*old(self), range, fetched, r, *final(self)),
    {
        let logs = match fetched {
            Err(_) => return Err(ScanError::FetchFailed),
            Ok(logs) => logs,
        };
        let mut i: usize = 0;
        while i < logs.len()
            invariant
                0 <= i <= logs@.len(),
                fetched == Ok::<Vec<LogEvent>, ()>(logs),
                forall|k: int|
                    0 <= k < i ==> range.from <= #[trigger] logs@[k].block_number <= range.to,
                forall|k: int, j: int|
                    0 <= k <= j < i ==> logs@[k].block_number <= logs@[j].block_number,
            decreases logs@.len() - i,
        {
            let b = logs[i].block_number;
            if b < range.from || b > range.to {
                return Err(ScanError::OutOfRange);
            }
            if i > 0 && logs[i - 1].block_number > b {
                return Err(ScanError::Unordered);
            }
            i = i + 1;
        }
        self.last_synced_block = range.to;
        Ok(logs)
    }

    /// One scan step at `chain_head`: plans the range itself and, when there
    /// is one, completes it with what was fetched for it (see
    /// [`BlockScanner::plan`] for the range to fetch).
    pub fn next(&mut self, chain_head: u64, fetched: Option<Result<Vec<LogEvent>, ()>>) -> (r:
        Result<Vec<LogEvent>, ScanError>)
        ensures
            next_outcome(*old(self), chain_head, fetched, r, *final(self)),
            final(self).window_size == old(self).window_size,
            final(self).chain_head_offset == old(self).chain_head_offset,
            final(self).last_synced_block >= old(self).last_synced_block,
            r matches Ok(out) ==> forall|i: int|
                0 <= i < out@.len() ==> old(self).last_synced_block < #[trigger] out@[i].block_number
                    <= target_end(chain_head, old(self).chain_head_offset),
    {
        match self.plan(chain_head) {
            None => Ok(Vec::new()),
            Some(range) => match fetched {
                None => Err(ScanError::FetchFailed),
                Some(f) => self.finish(range, f),
            },
        }
    }
}

/// What completing a scan of `range` with `fetched` yields: on a failed
/// fetch, `FetchFailed` and an unchanged cursor; on logs that fit the range,
/// those logs and the cursor at the end of the range; on logs that do not
/// fit, a refusal and an unchanged cursor.
pub open spec fn scan_outcome(
    before: BlockScanner,
    range: BlockRange,
    fetched: Result<Vec<LogEvent>, ()>,
    r: Result<Vec<LogEvent>, ScanError>,
    after: BlockScanner,
) -> bool {
    match fetched {
        Err(_) => r == Err::<Vec<LogEvent>, ScanError>(ScanError::FetchFailed) && after == before,
        Ok(logs) => if logs_fit(logs@, range) {
            r matches Ok(out) && out@ == logs@ && advanced(before, range, after)
        } else {
            after == before && (r == Err::<Vec<LogEvent>, ScanError>(ScanError::OutOfRange) || r
                == Err::<Vec<LogEvent>, ScanError>(ScanError::Unordered))
        },
    }
}

/// What one scan step at `chain_head` yields. With no progress to make, an
/// empty success and an unchanged cursor, whatever `fetched` holds; else the
/// outcome of completing the planned range, where `None` for `fetched`
/// (nothing was fetched) counts as a failed fetch.
pub open spec fn next_outcome(
    before: BlockScanner,
    chain_head: u64,
    fetched: Option<Result<Vec<LogEvent>, ()>>,
    r: Result<Vec<LogEvent>, ScanError>,
    after: BlockScanner,
) -> bool {
    match planned_range(before, chain_head) {
        None => r matches Ok(out) && out@.len() == 0 && after == before,
        Some(range) => match fetched {
            None => r == Err::<Vec<LogEvent>, ScanError>(ScanError::FetchFailed) && after == before,
            Some(f) => scan_outcome(before, range, f, r, after),
        },
    }
}

/// The cursor after a successful scan of `range` from `before`.
pub open spec fn advanced(before: BlockScanner, range: BlockRange, after: BlockScanner) -> bool {
    &&& after.last_synced_block == range.to
    &&& after.window_size == before.window_size
    &&& after.chain_head_offset == before.chain_head_offset
}

/// Consecutive successful scans on one scanner cover contiguous ranges: the
/// second begins right after the first ends, so they never overlap, and each
/// spans at most `window_size` blocks.
pub proof fn lemma_scans_contiguous(
    s0: BlockScanner,
    head1: u64,
    s1: BlockScanner,
    head2: u64,
)
    requires
        planned_range(s0, head1) is Some,
        advanced(s0, planned_range(s0, head1)->0, s1),
        planned_range(s1, head2) is Some,
    ensures
        ({
            let r1 = planned_range(s0, head1)->0;
            let r2 = planned_range(s1, head2)->0;
            &&& r2.from == r1.to + 1
            &&& r1.to < r2.from
            &&& r1.len() <= s0.window_size
            &&& r2.len() <= s0.window_size
        }),
{
}

/// Every log that a successful scan hands back lies at or below the
/// confirmed height `chain_head - chain_head_offset` of the head it was
/// planned from.
pub proof fn lemma_scan_within_confirmed(
    s: BlockScanner,
    chain_head: u64,
    logs: Seq<LogEvent>,
    i: int,
)
    requires
        planned_range(s, chain_head) is Some,
        logs_fit(logs, planned_range(s, chain_head)->0),
        0 <= i < logs.len(),
    ensures
        logs[i].block_number <= target_end(chain_head, s.chain_head_offset),
        logs[i].block_number > s.last_synced_block,
{
}

} // verus!
