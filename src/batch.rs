//! Batches and buckets: the buckets a batch selector spans, and the Leader's
//! queue that assigns reports to fixed-size batches.

use crate::error::{DapAbort, DapError};
use crate::keyed::Key;
use crate::messages::BatchId;
use vstd::prelude::*;

verus! {

/// How the reports of a task are batched.
#[derive(Clone, Copy, Debug, PartialEq, Eq, Structural)]
pub enum DapQueryConfig {
    /// Batches are time intervals.
    TimeInterval,
    /// Batches are assigned by the Leader and hold at most `max_batch_size` reports.
    FixedSize { max_batch_size: u64 },
}

/// A batch, as a Collector selects it.
#[derive(Clone, Copy, Debug)]
pub enum BatchSelector {
    /// Reports with times in `[batch_interval_start, batch_interval_start + batch_interval_duration)`.
    TimeInterval { batch_interval_start: u64, batch_interval_duration: u64 },
    /// The reports assigned to a batch.
    FixedSizeByBatchId { batch_id: BatchId },
}

/// The minimal unit within which aggregate shares are accumulated.
#[derive(Clone, Copy, Debug)]
pub enum DapBatchBucket {
    FixedSize { batch_id: BatchId },
    TimeInterval { batch_window: u64 },
}

/// Mathematical view of a bucket.
pub enum BucketView {
    FixedSize(Seq<u8>),
    TimeInterval(int),
}

impl View for DapBatchBucket {
    type V = BucketView;

    open spec fn view(&self) -> BucketView {
        match self {
            DapBatchBucket::FixedSize { batch_id } => BucketView::FixedSize(batch_id@),
            DapBatchBucket::TimeInterval { batch_window } => BucketView::TimeInterval(
                *batch_window as int,
            ),
        }
    }
}

impl Key for DapBatchBucket {
    fn same_key(&self, other: &Self) -> (r: bool) {
        match (self, other) {
            (DapBatchBucket::FixedSize { batch_id: a }, DapBatchBucket::FixedSize { batch_id: b }) =>
                a.same_as(b),
            (
                DapBatchBucket::TimeInterval { batch_window: a },
                DapBatchBucket::TimeInterval { batch_window: b },
            ) => *a == *b,
            _ => false,
        }
    }
}

/// Start of the time window of a report time.
pub open spec fn window_of(time: int, precision: int) -> int {
    time - time % precision
}

/// The time window that holds a report time: the time rounded down to a
/// multiple of the precision.
pub fn bucket_start(time: u64, time_precision: u64) -> (r: u64)
    requires
        time_precision > 0,
    ensures
        r == window_of(time as int, time_precision as int),
{
    proof {
        vstd::arithmetic::div_mod::lemma_mod_decreases(time as nat, time_precision as nat);
    }
    time - time % time_precision
}

/// The windows that intersect `[start, start + duration)`: none for an empty
/// interval, else `n` windows, the `j`-th starting at
/// `window_of(start) + j * precision`, all starting before the interval ends,
/// and the next one starting at or after its end.
pub open spec fn is_window_span(
    windows: Seq<u64>,
    start: int,
    duration: int,
    precision: int,
) -> bool {
    let first = window_of(start, precision);
    if duration == 0 {
        windows.len() == 0
    } else {
        &&& forall|j: int|
            0 <= j < windows.len() ==> #[trigger] windows[j] as int == first + j * precision
                && (windows[j] as int) < start + duration
        &&& first + windows.len() * precision >= start + duration
    }
}

/// The windows of precision `time_precision` that intersect the interval
/// `[start, start + duration)`.
pub fn time_interval_span(start: u64, duration: u64, time_precision: u64) -> (r: Vec<u64>)
    requires
        time_precision > 0,
        start + duration <= u64::MAX,
    ensures
        is_window_span(r@, start as int, duration as int, time_precision as int),
{
    let mut out: Vec<u64> = Vec::new();
    if duration == 0 {
        return out;
    }
    let end = start + duration;
    let first = bucket_start(start, time_precision);
    let mut w: u64 = first;
    assert(first + 0 * time_precision == first);
    loop
        invariant_except_break
            w as int == first + out@.len() * time_precision,
            w <= end + time_precision,
        invariant
            first == window_of(start as int, time_precision as int),
            end == start + duration,
            duration > 0,
            time_precision > 0,
            forall|j: int|
                0 <= j < out@.len() ==> #[trigger] out@[j] as int == first + j * time_precision
                    && (out@[j] as int) < end,
        ensures
            first + out@.len() * time_precision >= end,
        decreases end + time_precision - w,
    {
        if w >= end {
            break;
        }
        out.push(w);
        proof {
            assert(first + (out@.len() - 1) * time_precision + time_precision == first
                + out@.len() * time_precision) by (nonlinear_arith);
        }
        match w.checked_add(time_precision) {
            Some(next) => {
                w = next;
            },
            None => {
                break;
            },
        }
    }
    out
}

/// Whether `buckets` are the buckets that a batch selector spans under a query
/// configuration; none are where the selector does not fit the configuration.
pub open spec fn span_spec(
    query: DapQueryConfig,
    sel: BatchSelector,
    time_precision: int,
    buckets: Seq<BucketView>,
) -> bool {
    match (query, sel) {
        (DapQueryConfig::TimeInterval, BatchSelector::TimeInterval {
            batch_interval_start,
            batch_interval_duration,
        }) => exists|windows: Seq<u64>|
            is_window_span(
                windows,
                batch_interval_start as int,
                batch_interval_duration as int,
                time_precision,
            ) && buckets == windows.map_values(|w: u64| BucketView::TimeInterval(w as int)),
        (DapQueryConfig::FixedSize { .. }, BatchSelector::FixedSizeByBatchId { batch_id }) => buckets
            == seq![BucketView::FixedSize(batch_id@)],
        _ => false,
    }
}

/// Whether a selector fits a query configuration.
pub open spec fn selector_fits(query: DapQueryConfig, sel: BatchSelector) -> bool {
    match (query, sel) {
        (DapQueryConfig::TimeInterval, BatchSelector::TimeInterval { .. }) => true,
        (DapQueryConfig::FixedSize { .. }, BatchSelector::FixedSizeByBatchId { .. }) => true,
        _ => false,
    }
}

/// The buckets that a batch selector spans.
pub fn batch_span_for_sel(query: DapQueryConfig, sel: &BatchSelector, time_precision: u64) -> (r:
    Result<Vec<DapBatchBucket>, DapError>)
    requires
        time_precision > 0,
    ensures
        match r {
            Ok(buckets) => selector_fits(query, *sel) && span_spec(
                query,
                *sel,
                time_precision as int,
                buckets@.map_values(|b: DapBatchBucket| b@),
            ),
            Err(_) => !selector_fits(query, *sel) || (*sel matches BatchSelector::TimeInterval {
                batch_interval_start,
                batch_interval_duration,
            } && batch_interval_start + batch_interval_duration > u64::MAX),
        },
{
    match (query, sel) {
        (
            DapQueryConfig::TimeInterval,
            BatchSelector::TimeInterval { batch_interval_start, batch_interval_duration },
        ) => {
            if *batch_interval_start > u64::MAX - *batch_interval_duration {
                return Err(
                    DapError::Abort(
                        DapAbort::InvalidMessage {
                            detail: "batch interval overflows".to_owned(),
                        },
                    ),
                );
            }
            let windows = time_interval_span(
                *batch_interval_start,
                *batch_interval_duration,
                time_precision,
            );
            let mut buckets: Vec<DapBatchBucket> = Vec::with_capacity(windows.len());
            let mut i: usize = 0;
            while i < windows.len()
                invariant
                    i <= windows@.len(),
                    buckets@.len() == i,
                    forall|j: int|
                        0 <= j < i ==> (#[trigger] buckets@[j])@ == BucketView::TimeInterval(
                            windows@[j] as int,
                        ),
                decreases windows@.len() - i,
            {
                buckets.push(DapBatchBucket::TimeInterval { batch_window: windows[i] });
                i += 1;
            }
            assert(buckets@.map_values(|b: DapBatchBucket| b@) =~= windows@.map_values(
                |w: u64| BucketView::TimeInterval(w as int),
            ));
            Ok(buckets)
        },
        (DapQueryConfig::FixedSize { .. }, BatchSelector::FixedSizeByBatchId { batch_id }) => {
            let buckets = vec![DapBatchBucket::FixedSize { batch_id: *batch_id }];
            assert(buckets@.map_values(|b: DapBatchBucket| b@) =~= seq![
                BucketView::FixedSize(batch_id@),
            ]);
            Ok(buckets)
        },
        _ => Err(
            DapError::Abort(
                DapAbort::InvalidMessage {
                    detail: "batch selector does not match the query type".to_owned(),
                },
            ),
        ),
    }
}

/// Whether a fixed-size batch holds enough reports to be collected.
pub fn batch_eligible(report_count: u64, min_batch_size: u64) -> (r: bool)
    ensures
        r == (report_count >= min_batch_size),
{
    report_count >= min_batch_size
}

/// Reports assigned to a batch.
#[derive(Clone, Copy, Debug)]
pub struct BatchCount {
    pub batch_id: BatchId,
    pub report_count: u64,
}

/// The Leader's queue of fixed-size batches, oldest first.
pub struct LeaderBatchQueue {
    pub min_batch_size: u64,
    pub max_batch_size: u64,
    pub batches: Vec<BatchCount>,
}

/// Every batch holds between the minimum and the maximum number of reports,
/// and only the newest may hold fewer than the maximum.
pub open spec fn queue_wf(min: u64, max: u64, batches: Seq<BatchCount>) -> bool {
    &&& 0 < min <= max
    &&& forall|i: int|
        0 <= i < batches.len() ==> min <= (#[trigger] batches[i]).report_count <= max
    &&& forall|i: int|
        0 <= i < batches.len() - 1 ==> (#[trigger] batches[i]).report_count == max
}

/// Number of reports the queue's open batch can still take.
pub open spec fn open_room(max: u64, batches: Seq<BatchCount>) -> int {
    if batches.len() > 0 && batches.last().report_count < max {
        max - batches.last().report_count
    } else {
        0
    }
}

/// Sum of the report counts of an assignment.
pub open spec fn assigned_total(a: Seq<BatchCount>) -> int
    decreases a.len(),
{
    if a.len() == 0 {
        0
    } else {
        assigned_total(a.drop_last()) + a.last().report_count
    }
}

/// New batches for `left` reports: while at least `min` reports are left and
/// identifiers remain, a batch takes the next of `ids` and up to `max` reports.
/// Fewer than `min` reports form no batch.
pub open spec fn fill_spec(min: int, max: int, left: int, ids: Seq<BatchId>) -> Seq<BatchCount>
    decreases ids.len(),
{
    if left <= 0 || left < min || ids.len() == 0 {
        Seq::empty()
    } else {
        let take = if left < max {
            left
        } else {
            max
        };
        seq![BatchCount { batch_id: ids[0], report_count: take as u64 }] + fill_spec(
            min,
            max,
            left - take,
            ids.drop_first(),
        )
    }
}

/// Reports of `n` that the open batch takes.
pub open spec fn open_take(max: u64, batches: Seq<BatchCount>, n: int) -> int {
    let room = open_room(max, batches);
    if n < room {
        n
    } else {
        room
    }
}

/// The assignment of up to `n` reports: what the open batch takes, then new
/// batches.
pub open spec fn assign_spec(
    min: u64,
    max: u64,
    batches: Seq<BatchCount>,
    n: int,
    ids: Seq<BatchId>,
) -> Seq<BatchCount> {
    let take = open_take(max, batches, n);
    let first = if take > 0 {
        seq![BatchCount { batch_id: batches.last().batch_id, report_count: take as u64 }]
    } else {
        Seq::empty()
    };
    first + fill_spec(min as int, max as int, n - take, ids)
}

/// The queue after assigning up to `n` reports.
pub open spec fn queue_after_assign(
    min: u64,
    max: u64,
    batches: Seq<BatchCount>,
    n: int,
    ids: Seq<BatchId>,
) -> Seq<BatchCount> {
    let take = open_take(max, batches, n);
    let updated = if take > 0 {
        batches.update(
            batches.len() - 1,
            BatchCount {
                batch_id: batches.last().batch_id,
                report_count: (batches.last().report_count + take) as u64,
            },
        )
    } else {
        batches
    };
    updated + fill_spec(min as int, max as int, n - take, ids)
}

/// Whether a batch is full and may be served as a current batch.
pub open spec fn is_full(max: u64, b: BatchCount) -> bool {
    b.report_count == max
}

impl LeaderBatchQueue {
    /// An empty queue for batches of `min_batch_size` to `max_batch_size`
    /// reports.
    pub fn new(min_batch_size: u64, max_batch_size: u64) -> (r: Self)
        requires
            0 < min_batch_size <= max_batch_size,
        ensures
            r.wf(),
            r.min_batch_size == min_batch_size,
            r.max_batch_size == max_batch_size,
            r.batches@.len() == 0,
    {
        LeaderBatchQueue { min_batch_size, max_batch_size, batches: Vec::new() }
    }

    pub open spec fn wf(&self) -> bool {
        queue_wf(self.min_batch_size, self.max_batch_size, self.batches@)
    }

    /// Whether the queue is well formed.
    pub fn is_well_formed(&self) -> (r: bool)
        ensures
            r == self.wf(),
    {
        let min = self.min_batch_size;
        let max = self.max_batch_size;
        if min == 0 || min > max {
            return false;
        }
        let n = self.batches.len();
        let mut i: usize = 0;
        while i < n
            invariant
                n == self.batches@.len(),
                i <= n,
                0 < min <= max,
                min == self.min_batch_size,
                max == self.max_batch_size,
                forall|j: int|
                    0 <= j < i ==> min <= (#[trigger] self.batches@[j]).report_count <= max,
                forall|j: int|
                    0 <= j < i && j < n - 1 ==> (#[trigger] self.batches@[j]).report_count == max,
            decreases n - i,
        {
            let c = self.batches[i].report_count;
            if c < min || c > max || (i + 1 < n && c != max) {
                return false;
            }
            i += 1;
        }
        true
    }

    /// Assign up to `num_reports` reports: first to the open batch, up to the
    /// maximum, then to new batches, the `k`-th taking the `k`-th of
    /// `fresh_ids`, each of at least the minimum size. Reports that cannot fill
    /// a batch of the minimum size, or for which no identifier is left, are not
    /// assigned. Returns the assignment in order.
    pub fn assign(&mut self, num_reports: u64, fresh_ids: &Vec<BatchId>) -> (r: Vec<BatchCount>)
        requires
            old(self).wf(),
        ensures
            final(self).wf(),
            final(self).min_batch_size == old(self).min_batch_size,
            final(self).max_batch_size == old(self).max_batch_size,
            r@ == assign_spec(
                old(self).min_batch_size,
                old(self).max_batch_size,
                old(self).batches@,
                num_reports as int,
                fresh_ids@,
            ),
            final(self).batches@ == queue_after_assign(
                old(self).min_batch_size,
                old(self).max_batch_size,
                old(self).batches@,
                num_reports as int,
                fresh_ids@,
            ),
            assigned_total(r@) <= num_reports,
            forall|k: int| 0 <= k < r@.len() ==> (#[trigger] r@[k]).report_count > 0,
            num_reports - assigned_total(r@) >= old(self).min_batch_size
                ==> final(self).batches@.len() == old(self).batches@.len() + fresh_ids@.len(),
    {
        let min = self.min_batch_size;
        let max = self.max_batch_size;
        let room: u64 = if self.batches.len() > 0 && self.batches[self.batches.len()
            - 1].report_count < max {
            max - self.batches[self.batches.len() - 1].report_count
        } else {
            0
        };
        let ghost pre = self.batches@;
        let mut assigned: Vec<BatchCount> = Vec::new();
        let mut left: u64 = num_reports;
        assert(assigned_total(assigned@) == 0);
        assert(room as int == open_room(max, pre));
        if room > 0 && left > 0 {
            let take = if left < room {
                left
            } else {
                room
            };
            let last = self.batches.len() - 1;
            let b = self.batches[last];
            self.batches.set(
                last,
                BatchCount { batch_id: b.batch_id, report_count: b.report_count + take },
            );
            let ghost before = assigned@;
            assigned.push(BatchCount { batch_id: b.batch_id, report_count: take });
            assert(assigned@.drop_last() =~= before);
            left = left - take;
        }
        let ghost head = assigned@;
        let ghost mid = self.batches@;
        let ghost left0 = left as int;
        let ghost take0 = open_take(max, pre, num_reports as int);
        assert(left0 == num_reports - take0);
        proof {
            if take0 > 0 {
                assert(head =~= seq![BatchCount { batch_id: pre.last().batch_id, report_count: take0 as u64 }]);
            } else {
                assert(head =~= Seq::<BatchCount>::empty());
            }
        }
        let ghost mut newb: Seq<BatchCount> = Seq::empty();
        proof {
            assert(fresh_ids@.subrange(0, fresh_ids@.len() as int) =~= fresh_ids@);
            assert(newb + fill_spec(min as int, max as int, left as int, fresh_ids@) =~= fill_spec(
                min as int,
                max as int,
                left as int,
                fresh_ids@,
            ));
        }
        let n_fresh = fresh_ids.len();
        let mut i: usize = 0;
        while left >= min && i < n_fresh
            invariant
                n_fresh == fresh_ids@.len(),
                queue_wf(min, max, self.batches@),
                min == self.min_batch_size,
                max == self.max_batch_size,
                self.batches@.len() >= pre.len(),
                assigned_total(assigned@) + left == num_reports,
                forall|j: int| 0 <= j < assigned@.len() ==> (#[trigger] assigned@[j]).report_count > 0,
                left > 0 ==> open_room(max, self.batches@) == 0,
                i <= fresh_ids@.len(),
                newb.len() == i,
                self.batches@.len() == mid.len() + newb.len(),
                mid.len() == pre.len(),
                assigned@ == head + newb,
                self.batches@ == mid + newb,
                fill_spec(min as int, max as int, left0, fresh_ids@) == newb + fill_spec(
                    min as int,
                    max as int,
                    left as int,
                    fresh_ids@.subrange(i as int, fresh_ids@.len() as int),
                ),
            decreases n_fresh - i,
        {
            let take = if left < max {
                left
            } else {
                max
            };
            let nb = BatchCount { batch_id: fresh_ids[i], report_count: take };
            proof {
                let rest = fresh_ids@.subrange(i as int, fresh_ids@.len() as int);
                assert(rest.drop_first() =~= fresh_ids@.subrange(i as int + 1, fresh_ids@.len() as int));
                assert(rest[0] == fresh_ids@[i as int]);
                assert(fill_spec(min as int, max as int, left as int, rest) == seq![nb] + fill_spec(
                    min as int,
                    max as int,
                    left - take,
                    rest.drop_first(),
                ));
                assert(newb + (seq![nb] + fill_spec(min as int, max as int, left - take, rest.drop_first()))
                    =~= newb.push(nb) + fill_spec(min as int, max as int, left - take, rest.drop_first()));
            }
            self.batches.push(nb);
            let ghost before = assigned@;
            assigned.push(nb);
            assert(assigned@.drop_last() =~= before);
            proof {
                assert(assigned@ =~= head + newb.push(nb));
                assert(self.batches@ =~= mid + newb.push(nb));
                newb = newb.push(nb);
            }
            left = left - take;
            i += 1;
        }
        proof {
            let rest = fresh_ids@.subrange(i as int, fresh_ids@.len() as int);
            assert(fill_spec(min as int, max as int, left as int, rest) =~= Seq::<BatchCount>::empty());
            assert(newb + fill_spec(min as int, max as int, left as int, rest) =~= newb);
            assert(assigned@ =~= assign_spec(min, max, pre, num_reports as int, fresh_ids@));
            assert(self.batches@ =~= queue_after_assign(min, max, pre, num_reports as int, fresh_ids@));
        }
        assigned
    }

    /// The oldest full batch, if any: the batch a Collector's "current batch"
    /// query is served from.
    pub fn current_batch(&self) -> (r: Option<BatchId>)
        requires
            self.wf(),
        ensures
            match r {
                Some(id) => exists|i: int|
                    0 <= i < self.batches@.len() && is_full(self.max_batch_size, #[trigger] self.batches@[i])
                        && self.batches@[i].batch_id == id && forall|j: int|
                        0 <= j < i ==> !is_full(self.max_batch_size, #[trigger] self.batches@[j]),
                None => forall|i: int|
                    0 <= i < self.batches@.len() ==> !is_full(self.max_batch_size, #[trigger] self.batches@[i]),
            },
    {
        let mut i: usize = 0;
        while i < self.batches.len()
            invariant
                i <= self.batches@.len(),
                forall|j: int|
                    0 <= j < i ==> !is_full(self.max_batch_size, #[trigger] self.batches@[j]),
            decreases self.batches@.len() - i,
        {
            if self.batches[i].report_count == self.max_batch_size {
                return Some(self.batches[i].batch_id);
            }
            i += 1;
        }
        None
    }

    /// Remove a batch once its collection is finished: the first batch with the
    /// identifier, if any.
    pub fn remove(&mut self, batch_id: &BatchId) -> (r: bool)
        requires
            old(self).wf(),
        ensures
            final(self).wf(),
            final(self).min_batch_size == old(self).min_batch_size,
            final(self).max_batch_size == old(self).max_batch_size,
            r == exists|i: int|
                0 <= i < old(self).batches@.len() && (#[trigger] old(self).batches@[i]).batch_id@
                    == batch_id@,
            r ==> exists|i: int|
                0 <= i < old(self).batches@.len() && (#[trigger] old(self).batches@[i]).batch_id@
                    == batch_id@ && final(self).batches@ == old(self).batches@.remove(i),
            !r ==> final(self).batches@ == old(self).batches@,
    {
        let mut i: usize = 0;
        while i < self.batches.len()
            invariant
                i <= self.batches@.len(),
                queue_wf(old(self).min_batch_size, old(self).max_batch_size, old(self).batches@),
                self.batches@ == old(self).batches@,
                self.min_batch_size == old(self).min_batch_size,
                self.max_batch_size == old(self).max_batch_size,
                forall|j: int| 0 <= j < i ==> (#[trigger] self.batches@[j]).batch_id@ != batch_id@,
            decreases self.batches@.len() - i,
        {
            if self.batches[i].batch_id.same_as(batch_id) {
                let ghost pre = self.batches@;
                self.batches.remove(i);
                proof {
                    assert forall|j: int| 0 <= j < self.batches@.len() implies (#[trigger] self.batches@[j]).report_count <= self.max_batch_size
                        && self.min_batch_size <= self.batches@[j].report_count
                        && (j < self.batches@.len() - 1 ==> self.batches@[j].report_count == self.max_batch_size) by {
                        if j < i {
                            assert(self.batches@[j] == pre[j]);
                        } else {
                            assert(self.batches@[j] == pre[j + 1]);
                        }
                    }
                }
                return true;
            }
            i += 1;
        }
        false
    }
}

/// Split reports, in order, among the batches of an assignment. Fails where the
/// assignment does not account for every report.
pub fn split_reports<T>(reports: Vec<T>, assignment: &Vec<BatchCount>) -> (r: Result<
    Vec<(BatchId, Vec<T>)>,
    DapError,
>)
    ensures
        (r is Ok) == (assigned_total(assignment@) == reports@.len()),
        r matches Ok(parts) ==> parts@.len() == assignment@.len() && forall|k: int|
            0 <= k < parts@.len() ==> (#[trigger] parts@[k]).0 == assignment@[k].batch_id
                && parts@[k].1@ == reports@.subrange(
                assigned_total(assignment@.subrange(0, k)),
                assigned_total(assignment@.subrange(0, k + 1)),
            ),
{
    let ghost all = reports@;
    let total_len = reports.len();
    let mut rest = reports;
    let mut parts: Vec<(BatchId, Vec<T>)> = Vec::new();
    let mut k: usize = 0;
    let mut offset: usize = 0;
    while k < assignment.len()
        invariant
            k <= assignment@.len(),
            parts@.len() == k,
            offset == assigned_total(assignment@.subrange(0, k as int)),
            offset <= all.len(),
            total_len == all.len(),
            reports@ == all,
            rest@ == all.subrange(offset as int, all.len() as int),
            forall|j: int|
                0 <= j < k ==> (#[trigger] parts@[j]).0 == assignment@[j].batch_id
                    && parts@[j].1@ == all.subrange(
                    assigned_total(assignment@.subrange(0, j)),
                    assigned_total(assignment@.subrange(0, j + 1)),
                ),
        decreases assignment@.len() - k,
    {
        let count = assignment[k].report_count;
        assert(assignment@.subrange(0, k as int + 1).drop_last() =~= assignment@.subrange(
            0,
            k as int,
        ));
        assert(assignment@.subrange(0, k as int + 1).last() == assignment@[k as int]);
        assert(assigned_total(assignment@.subrange(0, k as int + 1)) == offset + count);
        if count > rest.len() as u64 {
            proof {
                lemma_total_prefix_grows(assignment@, k as int + 1);
                assert(rest@.len() == all.len() - offset);
            }
            return Err(DapError::Fatal("the batch queue assigned too many reports".to_owned()));
        }
        let tail = rest.split_off(count as usize);
        parts.push((assignment[k].batch_id, rest));
        rest = tail;
        offset = offset + count as usize;
        k += 1;
    }
    assert(assignment@.subrange(0, assignment@.len() as int) =~= assignment@);
    if rest.len() > 0 {
        return Err(DapError::Fatal("the batch queue assigned too few reports".to_owned()));
    }
    Ok(parts)
}

/// The part of a batch that one aggregation job covers.
#[derive(Clone, Copy, Debug)]
pub enum PartialBatchSelector {
    TimeInterval,
    FixedSizeByBatchId { batch_id: BatchId },
}

/// The number of reports an assignment covers.
pub fn assigned_count(a: &Vec<BatchCount>) -> (r: u64)
    requires
        assigned_total(a@) <= u64::MAX,
    ensures
        r == assigned_total(a@),
{
    let mut sum: u64 = 0;
    let mut i: usize = 0;
    while i < a.len()
        invariant
            i <= a@.len(),
            assigned_total(a@) <= u64::MAX,
            sum == assigned_total(a@.subrange(0, i as int)),
        decreases a@.len() - i,
    {
        proof {
            lemma_total_step(a@, i as int);
        }
        sum = sum + a[i].report_count;
        i += 1;
    }
    assert(a@.subrange(0, a@.len() as int) =~= a@);
    sum
}

/// The bucket of a report, for a part of a batch.
pub open spec fn bucket_spec(sel: PartialBatchSelector, time: u64, time_precision: u64) -> BucketView {
    match sel {
        PartialBatchSelector::TimeInterval => BucketView::TimeInterval(
            window_of(time as int, time_precision as int),
        ),
        PartialBatchSelector::FixedSizeByBatchId { batch_id } => BucketView::FixedSize(batch_id@),
    }
}

/// The bucket that a report of the given time falls in, for a part of a batch.
pub fn bucket_for(sel: &PartialBatchSelector, time: u64, time_precision: u64) -> (r: DapBatchBucket)
    requires
        time_precision > 0,
    ensures
        r@ == bucket_spec(*sel, time, time_precision),
{
    match sel {
        PartialBatchSelector::TimeInterval => DapBatchBucket::TimeInterval {
            batch_window: bucket_start(time, time_precision),
        },
        PartialBatchSelector::FixedSizeByBatchId { batch_id } => DapBatchBucket::FixedSize {
            batch_id: *batch_id,
        },
    }
}

/// The total of one more entry of an assignment adds its count; totals of
/// prefixes stay within the whole.
pub proof fn lemma_total_step(a: Seq<BatchCount>, k: int)
    requires
        0 <= k < a.len(),
    ensures
        assigned_total(a.subrange(0, k + 1)) == assigned_total(a.subrange(0, k)) + a[k].report_count,
        assigned_total(a.subrange(0, k + 1)) <= assigned_total(a),
        assigned_total(a.subrange(0, k)) >= 0,
{
    assert(a.subrange(0, k + 1).drop_last() =~= a.subrange(0, k));
    lemma_total_prefix_grows(a, k + 1);
    lemma_total_nonnegative(a.subrange(0, k));
}

/// Totals are never negative.
proof fn lemma_total_nonnegative(a: Seq<BatchCount>)
    ensures
        assigned_total(a) >= 0,
    decreases a.len(),
{
    if a.len() > 0 {
        lemma_total_nonnegative(a.drop_last());
    }
}

/// Totals of longer prefixes are at least as large.
proof fn lemma_total_prefix_grows(a: Seq<BatchCount>, k: int)
    requires
        0 <= k <= a.len(),
    ensures
        assigned_total(a.subrange(0, k)) <= assigned_total(a),
    decreases a.len() - k,
{
    if k < a.len() {
        lemma_total_prefix_grows(a, k + 1);
        assert(a.subrange(0, k + 1).drop_last() =~= a.subrange(0, k));
    } else {
        assert(a.subrange(0, k) =~= a);
    }
}

} // verus!
