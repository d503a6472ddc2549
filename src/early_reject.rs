//! Early rejection of reports before any cryptographic work: replays, reports
//! of collected batches, and reports outside the window of valid times.

use crate::batch::{bucket_for, bucket_spec, PartialBatchSelector};
use crate::messages::{ReportId, ReportMetadata, TransitionFailure};
use crate::store::{store_entry, AggregateStore};
use vstd::prelude::*;

verus! {

/// The failure of a report found before its preparation, if any.
pub open spec fn early_check_spec(
    time: u64,
    processed: bool,
    collected: bool,
    min_time: u64,
    max_time: u64,
    expiration: u64,
) -> Option<TransitionFailure> {
    if processed {
        Some(TransitionFailure::ReportReplayed)
    } else if collected {
        Some(TransitionFailure::BatchCollected)
    } else if time < min_time {
        Some(TransitionFailure::ReportDropped)
    } else if time > max_time {
        Some(TransitionFailure::ReportTooEarly)
    } else if time > expiration {
        Some(TransitionFailure::TaskExpired)
    } else {
        None
    }
}

/// Check one report: whether its identifier was processed before, whether its
/// bucket is collected, whether its time lies in `[min_time, max_time]`, and
/// whether it comes after the task's expiration.
pub fn early_metadata_check(
    metadata: &ReportMetadata,
    processed: bool,
    collected: bool,
    min_time: u64,
    max_time: u64,
    expiration: u64,
) -> (r: Option<TransitionFailure>)
    ensures
        r == early_check_spec(metadata.time, processed, collected, min_time, max_time, expiration),
{
    if processed {
        Some(TransitionFailure::ReportReplayed)
    } else if collected {
        Some(TransitionFailure::BatchCollected)
    } else if metadata.time < min_time {
        Some(TransitionFailure::ReportDropped)
    } else if metadata.time > max_time {
        Some(TransitionFailure::ReportTooEarly)
    } else if metadata.time > expiration {
        Some(TransitionFailure::TaskExpired)
    } else {
        None
    }
}

/// The window of valid report times at time `now`: reports may be at most
/// `lifetime` seconds old and at most `max_skew` seconds in the future.
pub fn valid_report_window(now: u64, lifetime: u64, max_skew: u64) -> (r: (u64, u64))
    ensures
        r.0 == (if now >= lifetime {
            now - lifetime
        } else {
            0
        }),
        r.1 == (if now + max_skew <= u64::MAX {
            now + max_skew
        } else {
            u64::MAX as int
        }),
{
    (now.saturating_sub(lifetime), now.saturating_add(max_skew))
}

/// Check each report of a job; `processed[i]` and `collected[i]` are the flags
/// of report `i`.
pub fn check_early_reject(
    reports: &Vec<ReportMetadata>,
    processed: &Vec<bool>,
    collected: &Vec<bool>,
    min_time: u64,
    max_time: u64,
    expiration: u64,
) -> (r: Vec<Option<TransitionFailure>>)
    requires
        processed@.len() == reports@.len(),
        collected@.len() == reports@.len(),
    ensures
        r@.len() == reports@.len(),
        forall|i: int|
            0 <= i < reports@.len() ==> #[trigger] r@[i] == early_check_spec(
                reports@[i].time,
                processed@[i],
                collected@[i],
                min_time,
                max_time,
                expiration,
            ),
{
    let mut out: Vec<Option<TransitionFailure>> = Vec::with_capacity(reports.len());
    let mut i: usize = 0;
    while i < reports.len()
        invariant
            i <= reports@.len(),
            processed@.len() == reports@.len(),
            collected@.len() == reports@.len(),
            out@.len() == i,
            forall|j: int|
                0 <= j < i ==> #[trigger] out@[j] == early_check_spec(
                    reports@[j].time,
                    processed@[j],
                    collected@[j],
                    min_time,
                    max_time,
                    expiration,
                ),
        decreases reports@.len() - i,
    {
        out.push(early_metadata_check(
            &reports[i],
            processed[i],
            collected[i],
            min_time,
            max_time,
            expiration,
        ));
        i += 1;
    }
    out
}

/// Whether report `i` of a batch repeats an identifier that the store holds or
/// that an earlier report of the batch carries.
pub open spec fn replayed_at(store: Set<Seq<u8>>, ids: Seq<Seq<u8>>, i: int) -> bool {
    store.contains(ids[i]) || exists|j: int| 0 <= j < i && ids[j] == ids[i]
}

/// The identifiers of a batch of reports, viewed.
pub open spec fn id_views(ids: Seq<ReportId>) -> Seq<Seq<u8>> {
    Seq::new(ids.len(), |i: int| ids[i]@)
}

/// The identifiers of the reports processed for a task.
pub struct ReportsProcessed {
    ids: Vec<ReportId>,
}

impl View for ReportsProcessed {
    type V = Set<Seq<u8>>;

    closed spec fn view(&self) -> Set<Seq<u8>> {
        Set::new(|x: Seq<u8>| exists|i: int| 0 <= i < self.ids@.len() && (#[trigger] self.ids@[i])@ == x)
    }
}

impl ReportsProcessed {
    /// A store with no identifiers.
    pub fn new() -> (r: Self)
        ensures
            r@ == Set::<Seq<u8>>::empty(),
    {
        let r = ReportsProcessed { ids: Vec::new() };
        assert(r@ =~= Set::<Seq<u8>>::empty());
        r
    }

    /// Whether the store holds an identifier.
    pub fn contains(&self, id: &ReportId) -> (r: bool)
        ensures
            r == self@.contains(id@),
    {
        let mut i: usize = 0;
        while i < self.ids.len()
            invariant
                i <= self.ids@.len(),
                forall|j: int| 0 <= j < i ==> (#[trigger] self.ids@[j])@ != id@,
            decreases self.ids@.len() - i,
        {
            if self.ids[i].same_as(id) {
                assert(self@.contains(id@));
                return true;
            }
            i += 1;
        }
        false
    }

    /// Record the identifiers of a batch of reports as processed, and flag each
    /// report whose identifier was processed before, in this batch or earlier.
    pub fn mark_aggregated(&mut self, ids: &Vec<ReportId>) -> (r: Vec<bool>)
        ensures
            r@.len() == ids@.len(),
            forall|i: int|
                0 <= i < ids@.len() ==> #[trigger] r@[i] == replayed_at(
                    old(self)@,
                    id_views(ids@),
                    i,
                ),
            final(self)@ == old(self)@.union(id_views(ids@).to_set()),
    {
        let ghost pre = self@;
        let mut flags: Vec<bool> = Vec::with_capacity(ids.len());
        let mut i: usize = 0;
        while i < ids.len()
            invariant
                i <= ids@.len(),
                flags@.len() == i,
                self@ == pre.union(id_views(ids@).subrange(0, i as int).to_set()),
                forall|j: int|
                    0 <= j < i ==> #[trigger] flags@[j] == replayed_at(pre, id_views(ids@), j),
            decreases ids@.len() - i,
        {
            let ghost views = id_views(ids@);
            let seen = self.contains(&ids[i]);
            proof {
                if seen {
                    if !pre.contains(views[i as int]) {
                        assert(views.subrange(0, i as int).to_set().contains(views[i as int]));
                        let j = choose|j: int|
                            0 <= j < i && views.subrange(0, i as int)[j] == views[i as int];
                        assert(views[j] == views[i as int]);
                    }
                } else {
                    assert forall|j: int| 0 <= j < i implies views[j] != views[i as int] by {
                        assert(views.subrange(0, i as int)[j] == views[j]);
                        assert(views.subrange(0, i as int).to_set().contains(views[j]));
                    }
                }
            }
            flags.push(seen);
            let ghost before = self@;
            let ghost old_ids = self.ids@;
            self.ids.push(ids[i]);
            proof {
                assert(self@ =~= before.insert(views[i as int])) by {
                    assert forall|x: Seq<u8>| self@.contains(x) implies before.insert(
                        views[i as int],
                    ).contains(x) by {
                        let k = choose|k: int|
                            0 <= k < self.ids@.len() && (#[trigger] self.ids@[k])@ == x;
                        if k < self.ids@.len() - 1 {
                            assert(old_ids[k] == self.ids@[k]);
                            assert(before.contains(x));
                        }
                    }
                    assert forall|x: Seq<u8>| before.insert(views[i as int]).contains(x) implies self@.contains(
                        x,
                    ) by {
                        if x == views[i as int] {
                            assert(self.ids@[self.ids@.len() - 1]@ == x);
                        } else {
                            let k = choose|k: int|
                                0 <= k < old_ids.len() && (#[trigger] old_ids[k])@ == x;
                            assert(self.ids@[k] == old_ids[k]);
                        }
                    }
                }
                assert(views.subrange(0, i as int + 1).to_set() =~= views.subrange(
                    0,
                    i as int,
                ).to_set().insert(views[i as int])) by {
                    assert(views.subrange(0, i as int + 1) =~= views.subrange(0, i as int).push(
                        views[i as int],
                    ));
                    views.subrange(0, i as int).lemma_push_to_set_commute(views[i as int]);
                }
                assert(self@ =~= pre.union(views.subrange(0, i as int + 1).to_set()));
            }
            i += 1;
        }
        assert(id_views(ids@).subrange(0, ids@.len() as int) =~= id_views(ids@));
        flags
    }
}

/// The identifiers of a list of reports.
pub open spec fn metadata_ids(reports: Seq<ReportMetadata>) -> Seq<Seq<u8>> {
    Seq::new(reports.len(), |i: int| reports[i].id@)
}

/// Decide which reports of an aggregation job to reject before preparing them.
/// Each report's identifier is recorded as processed; a report fails where its
/// identifier was processed before (in an earlier job or earlier in this one),
/// where its bucket is collected, where its time lies outside
/// `[min_time, max_time]`, or where it comes after the task's expiration.
pub fn check_early_reject_with_stores(
    processed: &mut ReportsProcessed,
    store: &AggregateStore,
    part_batch_sel: &PartialBatchSelector,
    time_precision: u64,
    reports: &Vec<ReportMetadata>,
    min_time: u64,
    max_time: u64,
    expiration: u64,
) -> (r: Vec<Option<TransitionFailure>>)
    requires
        store.wf(),
        time_precision > 0,
    ensures
        r@.len() == reports@.len(),
        forall|i: int|
            0 <= i < reports@.len() ==> #[trigger] r@[i] == early_check_spec(
                reports@[i].time,
                replayed_at(old(processed)@, metadata_ids(reports@), i),
                store_entry(
                    store.entries@,
                    bucket_spec(*part_batch_sel, reports@[i].time, time_precision),
                ).collected,
                min_time,
                max_time,
                expiration,
            ),
        final(processed)@ == old(processed)@.union(metadata_ids(reports@).to_set()),
{
    let mut ids: Vec<ReportId> = Vec::with_capacity(reports.len());
    let mut collected: Vec<bool> = Vec::with_capacity(reports.len());
    let mut i: usize = 0;
    while i < reports.len()
        invariant
            store.wf(),
            time_precision > 0,
            i <= reports@.len(),
            ids@.len() == i,
            collected@.len() == i,
            forall|j: int| 0 <= j < i ==> (#[trigger] ids@[j])@ == reports@[j].id@,
            forall|j: int|
                0 <= j < i ==> #[trigger] collected@[j] == store_entry(
                    store.entries@,
                    bucket_spec(*part_batch_sel, reports@[j].time, time_precision),
                ).collected,
        decreases reports@.len() - i,
    {
        ids.push(reports[i].id);
        let bucket = bucket_for(part_batch_sel, reports[i].time, time_precision);
        collected.push(store.check_collected(&bucket));
        i += 1;
    }
    assert(id_views(ids@) =~= metadata_ids(reports@));
    let flags = processed.mark_aggregated(&ids);
    check_early_reject(reports, &flags, &collected, min_time, max_time, expiration)
}

/// A report at the least valid time is accepted, one second earlier it is
/// dropped, when it is neither replayed nor of a collected bucket.
pub proof fn lemma_min_time_boundary(min_time: u64, max_time: u64, expiration: u64)
    requires
        0 < min_time <= max_time,
        min_time <= expiration,
    ensures
        early_check_spec(min_time, false, false, min_time, max_time, expiration) is None,
        early_check_spec(
            (min_time - 1) as u64,
            false,
            false,
            min_time,
            max_time,
            expiration,
        ) == Some(TransitionFailure::ReportDropped),
{
}

/// Once a report identifier is recorded, a report with it in any later job is
/// rejected as replayed, whatever its time or bucket: no identifier yields an
/// output share twice.
pub proof fn lemma_replay_rejected_later(
    store: Set<Seq<u8>>,
    ids: Seq<Seq<u8>>,
    later_store: Set<Seq<u8>>,
    later_ids: Seq<Seq<u8>>,
    time: u64,
    collected: bool,
    min_time: u64,
    max_time: u64,
    expiration: u64,
)
    requires
        store.union(ids.to_set()).subset_of(later_store),
    ensures
        forall|i: int, k: int|
            #![trigger ids[i], later_ids[k]]
            0 <= i < ids.len() && 0 <= k < later_ids.len() && ids[i] == later_ids[k]
                ==> early_check_spec(
                time,
                replayed_at(later_store, later_ids, k),
                collected,
                min_time,
                max_time,
                expiration,
            ) == Some(TransitionFailure::ReportReplayed),
{
    lemma_replay_exclusive(store, ids, later_store, later_ids);
}

/// A report identifier is accepted at most once. Within a batch, every report
/// after the first with an identifier is flagged; and once a batch is recorded,
/// every report of any later batch with one of its identifiers is flagged, for
/// the store only grows.
pub proof fn lemma_replay_exclusive(
    store: Set<Seq<u8>>,
    ids: Seq<Seq<u8>>,
    later_store: Set<Seq<u8>>,
    later_ids: Seq<Seq<u8>>,
)
    requires
        store.union(ids.to_set()).subset_of(later_store),
    ensures
        forall|i: int, j: int|
            #![trigger ids[i], ids[j]]
            0 <= i < j < ids.len() && ids[i] == ids[j] ==> replayed_at(store, ids, j),
        forall|i: int, k: int|
            #![trigger ids[i], later_ids[k]]
            0 <= i < ids.len() && 0 <= k < later_ids.len() && ids[i] == later_ids[k]
                ==> replayed_at(later_store, later_ids, k),
{
    assert forall|i: int, k: int|
        #![trigger ids[i], later_ids[k]]
        0 <= i < ids.len() && 0 <= k < later_ids.len() && ids[i] == later_ids[k] implies replayed_at(
        later_store,
        later_ids,
        k,
    ) by {
        assert(ids.to_set().contains(ids[i]));
        assert(later_store.contains(later_ids[k]));
    }
}

} // verus!
