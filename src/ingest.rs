use vstd::prelude::*;

verus! {

/// Snapshots are embedded in batches of this many.
pub const BATCH_SIZE: usize = 100;

/// Milliseconds in a minute.
pub const MINUTE_MS: u64 = 60_000;

/// Where the ingestion pipeline takes its snapshots from.
#[derive(PartialEq, Eq, Structural, Debug, Clone, Copy)]
pub enum DataSource {
    /// The key-value store of historical candles and indicators.
    Lmdb,
    /// Deterministic pseudo-data, for tests and bootstrap.
    Mock,
}

/// Counts reported by one ingestion run.
#[derive(PartialEq, Eq, Structural, Debug, Clone, Copy)]
pub struct IngestStats {
    pub snapshots_created: usize,
    pub embeddings_generated: usize,
    pub points_uploaded: usize,
}

impl IngestStats {
    /// Stats with every count at zero.
    pub fn zero() -> (r: IngestStats)
        ensures
            r == (IngestStats { snapshots_created: 0, embeddings_generated: 0, points_uploaded: 0 }),
    {
        IngestStats { snapshots_created: 0, embeddings_generated: 0, points_uploaded: 0 }
    }
}

/// `ticks` are `start, start + step, ...`, every one before `end`, and the
/// next one would not be.
pub open spec fn is_tick_sweep(ticks: Seq<u64>, start: u64, end: u64, step: u64) -> bool {
    &&& forall|i: int| 0 <= i < ticks.len() ==> ticks[i] == start + i * step
    &&& forall|i: int| 0 <= i < ticks.len() ==> ticks[i] < end
    &&& start + ticks.len() * step >= end
}

/// The timestamps `start, start + step, ...` that lie before `end`.
pub fn sweep_ticks(start: u64, end: u64, step: u64) -> (r: Vec<u64>)
    requires
        step > 0,
    ensures
        is_tick_sweep(r@, start, end, step),
{
    let mut ticks: Vec<u64> = Vec::new();
    let mut current: u64 = start;
    let mut more: bool = start < end;
    while more
        invariant
            step > 0,
            more ==> current == start + ticks@.len() * step,
            more ==> current < end,
            !more ==> start + ticks@.len() * step >= end,
            forall|i: int| 0 <= i < ticks@.len() ==> ticks@[i] == start + i * step,
            forall|i: int| 0 <= i < ticks@.len() ==> ticks@[i] < end,
        decreases (if more { end - current + 1 } else { 0 }),
    {
        let ghost len = ticks@.len();
        ticks.push(current);
        proof {
            assert(start + (len + 1) * step == start + len * step + step) by (nonlinear_arith);
        }
        if current > u64::MAX - step {
            more = false;
        } else {
            current = current + step;
            more = current < end;
        }
    }
    ticks
}

/// Milliseconds in `minutes` minutes, when that fits.
pub fn interval_ms(minutes: u64) -> (r: Option<u64>)
    ensures
        minutes * MINUTE_MS <= u64::MAX ==> r == Some((minutes * MINUTE_MS) as u64),
        minutes * MINUTE_MS > u64::MAX ==> r is None,
{
    if minutes > u64::MAX / MINUTE_MS {
        None
    } else {
        Some(minutes * MINUTE_MS)
    }
}

/// The snapshot timestamps of an ingestion run over `[start, end)`, one every
/// `interval_minutes`. An empty range gives no timestamps; a non-empty one
/// needs a positive interval that fits in milliseconds, else there is none.
pub fn snapshot_timestamps(start: u64, end: u64, interval_minutes: u64) -> (r: Option<Vec<u64>>)
    ensures
        start >= end ==> r is Some && r->0@.len() == 0,
        start < end && (interval_minutes == 0 || interval_minutes * MINUTE_MS > u64::MAX)
            ==> r is None,
        start < end && interval_minutes > 0 && interval_minutes * MINUTE_MS <= u64::MAX
            ==> r is Some && is_tick_sweep(r->0@, start, end, (interval_minutes * MINUTE_MS) as u64),
{
    if start >= end {
        return Some(Vec::new());
    }
    match interval_ms(interval_minutes) {
        Some(step) => {
            if step == 0 {
                None
            } else {
                Some(sweep_ticks(start, end, step))
            }
        },
        None => None,
    }
}

/// The next thing an ingestion run asks of its caller.
#[derive(PartialEq, Eq, Structural, Debug, Clone, Copy)]
pub enum IngestAction {
    /// Render and embed the snapshots with indices `first..end`.
    Embed { first: usize, end: usize },
    /// Upload the `points` points built so far.
    Upload { points: usize },
    /// Nothing is left to do.
    Finished,
}

/// The bookkeeping of one ingestion run: which batch comes next, which point
/// id is next, and the counts so far.
pub struct IngestRun {
    /// Snapshots in the run.
    pub total: usize,
    /// Index of the first snapshot not yet embedded.
    pub next: usize,
    /// The id the next point gets; ids are dense from zero.
    pub point_id: usize,
    /// Whether the points were uploaded.
    pub uploaded: bool,
    /// The counts so far.
    pub stats: IngestStats,
}

impl IngestRun {
    /// The run's invariant.
    pub open spec fn wf(&self) -> bool {
        &&& self.next <= self.total
        &&& self.point_id <= self.next
        &&& self.stats.snapshots_created == self.total
        &&& self.stats.embeddings_generated == self.point_id
        &&& self.uploaded ==> self.next == self.total && self.stats.points_uploaded == self.point_id
        &&& !self.uploaded ==> self.stats.points_uploaded == 0
    }

    /// The action that follows this state.
    pub open spec fn action(&self) -> IngestAction {
        if self.next < self.total {
            IngestAction::Embed {
                first: self.next,
                end: if self.total - self.next <= BATCH_SIZE { self.total } else { (self.next + BATCH_SIZE) as usize },
            }
        } else if !self.uploaded && self.point_id > 0 {
            IngestAction::Upload { points: self.point_id }
        } else {
            IngestAction::Finished
        }
    }

    /// A run over `snapshots_created` assembled snapshots.
    pub fn new(snapshots_created: usize) -> (r: IngestRun)
        ensures
            r.wf(),
            r.total == snapshots_created,
            r.next == 0,
            r.point_id == 0,
            !r.uploaded,
    {
        IngestRun {
            total: snapshots_created,
            next: 0,
            point_id: 0,
            uploaded: false,
            stats: IngestStats {
                snapshots_created,
                embeddings_generated: 0,
                points_uploaded: 0,
            },
        }
    }

    /// What the caller is to do next.
    pub fn next_action(&self) -> (r: IngestAction)
        requires
            self.wf(),
        ensures
            r == self.action(),
    {
        if self.next < self.total {
            let end = if self.total - self.next <= BATCH_SIZE {
                self.total
            } else {
                self.next + BATCH_SIZE
            };
            IngestAction::Embed { first: self.next, end }
        } else if !self.uploaded && self.point_id > 0 {
            IngestAction::Upload { points: self.point_id }
        } else {
            IngestAction::Finished
        }
    }

    /// Records that the current batch was embedded into `embedded` vectors,
    /// each paired with its snapshot into a point.
    pub fn batch_embedded(&mut self, embedded: usize)
        requires
            old(self).wf(),
            old(self).action() is Embed,
            embedded <= old(self).action()->end - old(self).action()->first,
        ensures
            final(self).wf(),
            final(self).total == old(self).total,
            final(self).next == old(self).action()->end,
            final(self).point_id == old(self).point_id + embedded,
            final(self).uploaded == old(self).uploaded,
            final(self).stats.embeddings_generated
                == old(self).stats.embeddings_generated + embedded,
    {
        let end = if self.total - self.next <= BATCH_SIZE {
            self.total
        } else {
            self.next + BATCH_SIZE
        };
        self.point_id = self.point_id + embedded;
        self.stats.embeddings_generated = self.point_id;
        self.next = end;
    }

    /// Records that the points were uploaded.
    pub fn upload_done(&mut self)
        requires
            old(self).wf(),
            old(self).action() is Upload,
        ensures
            final(self).wf(),
            final(self).total == old(self).total,
            final(self).next == old(self).next,
            final(self).point_id == old(self).point_id,
            final(self).uploaded,
            final(self).stats.points_uploaded == old(self).point_id,
            final(self).stats.embeddings_generated == old(self).stats.embeddings_generated,
            final(self).action() == IngestAction::Finished,
    {
        self.uploaded = true;
        self.stats.points_uploaded = self.point_id;
    }

}

/// A run over no snapshots has nothing to do and reports zero counts; an empty
/// time range gives no snapshot timestamps, hence such a run.
pub proof fn empty_run_reports_zero(run: IngestRun)
    requires
        run.wf(),
        run.total == 0,
        !run.uploaded,
    ensures
        run.action() == IngestAction::Finished,
        run.stats == (IngestStats { snapshots_created: 0, embeddings_generated: 0, points_uploaded: 0 }),
{
}

/// When a run is finished after uploading, and every snapshot was embedded,
/// the three counts agree.
pub proof fn finished_run_counts_agree(run: IngestRun)
    requires
        run.wf(),
        run.action() == IngestAction::Finished,
        run.point_id == run.total,
        run.total > 0,
    ensures
        run.stats.embeddings_generated == run.stats.snapshots_created,
        run.stats.points_uploaded == run.stats.snapshots_created,
{
}

} // verus!
