//! The Leader's queues: pending reports awaiting aggregation, and collection
//! jobs awaiting their aggregate shares.

use crate::batch::{
    assign_spec, assigned_count, assigned_total, lemma_total_step, queue_after_assign,
    split_reports, DapQueryConfig, LeaderBatchQueue, PartialBatchSelector,
};
use crate::aggregate::any_collected;
use crate::error::{DapAbort, DapError};
use crate::keyed::{entry_lookup, find_entry, set_entry, Key};
use crate::messages::{constant_time_eq, BatchId, ReportId, TaskId, TransitionFailure};
use vstd::prelude::*;
use vstd::slice::slice_to_vec;

verus! {

impl Key for ReportId {
    fn same_key(&self, other: &Self) -> (r: bool) {
        self.same_as(other)
    }
}

/// Reports uploaded and not yet drained into aggregation jobs, oldest first.
pub struct ReportsPending {
    pub reports: Vec<(ReportId, Vec<u8>)>,
}

/// The pending reports, viewed.
pub open spec fn pending_view(reports: Seq<(ReportId, Vec<u8>)>) -> Seq<(Seq<u8>, Seq<u8>)> {
    Seq::new(reports.len(), |i: int| (reports[i].0@, reports[i].1@))
}

impl ReportsPending {
    pub fn new() -> (r: Self)
        ensures
            r.reports@.len() == 0,
    {
        ReportsPending { reports: Vec::new() }
    }

    /// Queue an uploaded report; a report whose identifier is already pending is
    /// a replay and is refused.
    pub fn put(&mut self, id: &ReportId, report: Vec<u8>) -> (r: Result<(), DapError>)
        ensures
            match entry_lookup(old(self).reports@, id@) {
                Some(_) => r matches Err(DapError::Transition(TransitionFailure::ReportReplayed))
                    && final(self).reports@ == old(self).reports@,
                None => r is Ok && pending_view(final(self).reports@) == pending_view(
                    old(self).reports@,
                ).push((id@, report@)),
            },
    {
        match find_entry(&self.reports, id) {
            Some(_) => Err(DapError::Transition(TransitionFailure::ReportReplayed)),
            None => {
                let ghost pre = self.reports@;
                self.reports.push((*id, report));
                assert(pending_view(self.reports@) =~= pending_view(pre).push((id@, self.reports@.last().1@)));
                Ok(())
            },
        }
    }

    /// Drain at most `max` of the oldest reports, oldest first.
    pub fn drain(&mut self, max: usize) -> (r: Vec<Vec<u8>>)
        ensures
            ({
                let n = if max < old(self).reports@.len() {
                    max as int
                } else {
                    old(self).reports@.len() as int
                };
                &&& r@.len() == n
                &&& forall|i: int|
                    0 <= i < n ==> (#[trigger] r@[i])@ == old(self).reports@[i].1@
                &&& final(self).reports@ == old(self).reports@.subrange(
                    n,
                    old(self).reports@.len() as int,
                )
            }),
    {
        let n = if max < self.reports.len() {
            max
        } else {
            self.reports.len()
        };
        let rest = self.reports.split_off(n);
        let mut out: Vec<Vec<u8>> = Vec::with_capacity(n);
        let mut i: usize = 0;
        while i < n
            invariant
                n == self.reports@.len(),
                i <= n,
                out@.len() == i,
                forall|j: int| 0 <= j < i ==> (#[trigger] out@[j])@ == self.reports@[j].1@,
            decreases n - i,
        {
            out.push(slice_to_vec(self.reports[i].1.as_slice()));
            i += 1;
        }
        self.reports = rest;
        out
    }
}

/// Take at most `max_reports` of a task's oldest pending reports and group
/// them by the part of a batch they go to. For a time-interval task they all
/// form one part. For a fixed-size task they are assigned, in order, to the
/// Leader's batches (see `LeaderBatchQueue::assign`); reports that fill no
/// batch stay pending.
pub fn get_reports(
    pending: &mut ReportsPending,
    query: DapQueryConfig,
    queue: &mut LeaderBatchQueue,
    fresh_ids: &Vec<BatchId>,
    max_reports: usize,
) -> (r: Vec<(PartialBatchSelector, Vec<Vec<u8>>)>)
    requires
        old(queue).wf(),
    ensures
        final(queue).wf(),
        final(queue).min_batch_size == old(queue).min_batch_size,
        final(queue).max_batch_size == old(queue).max_batch_size,
        ({
            let n = if max_reports < old(pending).reports@.len() {
                max_reports as int
            } else {
                old(pending).reports@.len() as int
            };
            &&& query == DapQueryConfig::TimeInterval ==> {
                &&& final(pending).reports@ == old(pending).reports@.subrange(
                    n,
                    old(pending).reports@.len() as int,
                )
                &&& final(queue).batches@ == old(queue).batches@
                &&& r@.len() == 1
                &&& r@[0].0 is TimeInterval
                &&& r@[0].1@.len() == n
                &&& forall|i: int|
                    0 <= i < n ==> (#[trigger] r@[0].1@[i])@ == old(pending).reports@[i].1@
            }
            &&& query != DapQueryConfig::TimeInterval ==> {
                let a = assign_spec(
                    old(queue).min_batch_size,
                    old(queue).max_batch_size,
                    old(queue).batches@,
                    n,
                    fresh_ids@,
                );
                &&& final(queue).batches@ == queue_after_assign(
                    old(queue).min_batch_size,
                    old(queue).max_batch_size,
                    old(queue).batches@,
                    n,
                    fresh_ids@,
                )
                &&& assigned_total(a) <= n
                &&& final(pending).reports@ == old(pending).reports@.subrange(
                    assigned_total(a),
                    old(pending).reports@.len() as int,
                )
                &&& r@.len() == a.len()
                &&& forall|k: int|
                    0 <= k < a.len() ==> (#[trigger] r@[k]).0
                        == (PartialBatchSelector::FixedSizeByBatchId { batch_id: a[k].batch_id })
                        && r@[k].1@.len() == a[k].report_count
                        && forall|i: int|
                        0 <= i < a[k].report_count ==> (#[trigger] r@[k].1@[i])@ == old(
                            pending,
                        ).reports@[assigned_total(a.subrange(0, k)) + i].1@
            }
        }),
{
    let n = if max_reports < pending.reports.len() {
        max_reports
    } else {
        pending.reports.len()
    };
    match query {
        DapQueryConfig::TimeInterval => {
            let reports = pending.drain(n);
            let mut parts: Vec<(PartialBatchSelector, Vec<Vec<u8>>)> = Vec::new();
            parts.push((PartialBatchSelector::TimeInterval, reports));
            parts
        },
        DapQueryConfig::FixedSize { .. } => {
            let assignment = queue.assign(n as u64, fresh_ids);
            let t = assigned_count(&assignment);
            let ghost a = assignment@;
            let reports = pending.drain(t as usize);
            let ghost rv = reports@;
            let split = match split_reports(reports, &assignment) {
                Ok(sp) => sp,
                Err(_) => {
                    proof {
                        assert(false);
                    }
                    Vec::new()
                },
            };
            let ghost sv = split@;
            let mut parts: Vec<(PartialBatchSelector, Vec<Vec<u8>>)> = Vec::new();
            let mut rest = split;
            while rest.len() > 0
                invariant
                    parts@.len() + rest@.len() == sv.len(),
                    rest@ == sv.subrange(parts@.len() as int, sv.len() as int),
                    forall|k: int|
                        0 <= k < parts@.len() ==> (#[trigger] parts@[k]).0
                            == (PartialBatchSelector::FixedSizeByBatchId { batch_id: sv[k].0 })
                            && parts@[k].1 == sv[k].1,
                decreases rest@.len(),
            {
                let ghost before = rest@;
                let (batch_id, part) = rest.remove(0);
                assert(before[0] == sv[parts@.len() as int]);
                parts.push((PartialBatchSelector::FixedSizeByBatchId { batch_id }, part));
                assert(rest@ =~= sv.subrange(parts@.len() as int, sv.len() as int));
            }
            proof {
                assert forall|k: int| 0 <= k < a.len() implies parts@[k].1@.len() == a[k].report_count
                    && forall|i: int|
                    0 <= i < a[k].report_count ==> (#[trigger] parts@[k].1@[i])@ == old(
                        pending,
                    ).reports@[assigned_total(a.subrange(0, k)) + i].1@ by {
                    lemma_total_step(a, k);
                    let tk = assigned_total(a.subrange(0, k));
                    assert forall|i: int| 0 <= i < a[k].report_count implies (#[trigger] parts@[k].1@[i])@
                        == old(pending).reports@[tk + i].1@ by {
                        assert(parts@[k].1@[i] == rv[tk + i]);
                    }
                }
            }
            parts
        },
    }
}

/// A collection job identifier: 16 bytes.
#[derive(Clone, Copy, Debug)]
pub struct CollectionJobId(pub [u8; 16]);

impl View for CollectionJobId {
    type V = Seq<u8>;

    open spec fn view(&self) -> Seq<u8> {
        self.0@
    }
}

/// A collection job of a task.
#[derive(Clone, Copy, Debug)]
pub struct CollectJobKey {
    pub task_id: TaskId,
    pub collect_id: CollectionJobId,
}

impl View for CollectJobKey {
    type V = (Seq<u8>, Seq<u8>);

    open spec fn view(&self) -> (Seq<u8>, Seq<u8>) {
        (self.task_id@, self.collect_id@)
    }
}

impl Key for CollectJobKey {
    fn same_key(&self, other: &Self) -> (r: bool) {
        let same_task = self.task_id.same_as(&other.task_id);
        let same_job = constant_time_eq(self.collect_id.0.as_slice(), other.collect_id.0.as_slice());
        same_task && same_job
    }
}

/// The state of a collection job: waiting for its aggregate share, or done
/// with the encrypted collection.
#[derive(Clone, Debug)]
pub enum CollectJobState {
    Pending { collect_req: Vec<u8> },
    Done { collection: Vec<u8> },
}

/// What polling a collection job tells the Collector.
#[derive(Clone, Debug, PartialEq, Eq)]
pub enum DapCollectJob {
    Pending,
    Done(Vec<u8>),
    Unknown,
}

/// The result of a poll, viewed.
pub open spec fn poll_spec(state: Option<CollectJobState>) -> Option<Option<Seq<u8>>> {
    match state {
        None => None,
        Some(CollectJobState::Pending { .. }) => Some(None),
        Some(CollectJobState::Done { collection }) => Some(Some(collection@)),
    }
}

/// The Leader's collection jobs, oldest first.
pub struct CollectJobQueue {
    pub jobs: Vec<(CollectJobKey, CollectJobState)>,
}

impl CollectJobQueue {
    pub fn new() -> (r: Self)
        ensures
            r.jobs@.len() == 0,
    {
        CollectJobQueue { jobs: Vec::new() }
    }

    /// Enqueue a collection request under the given identifier; a job already
    /// under it is kept as it is.
    pub fn put(&mut self, key: &CollectJobKey, collect_req: Vec<u8>)
        ensures
            entry_lookup(old(self).jobs@, key@) is Some ==> final(self).jobs@ == old(self).jobs@,
            entry_lookup(old(self).jobs@, key@) is None ==> entry_lookup(final(self).jobs@, key@)
                == Some(CollectJobState::Pending { collect_req }),
            forall|k: (Seq<u8>, Seq<u8>)|
                k != key@ ==> entry_lookup(final(self).jobs@, k) == entry_lookup(old(self).jobs@, k),
    {
        if find_entry(&self.jobs, key).is_none() {
            set_entry(&mut self.jobs, key, CollectJobState::Pending { collect_req });
        }
    }

    /// Poll a collection job.
    pub fn poll(&self, key: &CollectJobKey) -> (r: DapCollectJob)
        ensures
            match poll_spec(entry_lookup(self.jobs@, key@)) {
                None => r == DapCollectJob::Unknown,
                Some(None) => r == DapCollectJob::Pending,
                Some(Some(c)) => r matches DapCollectJob::Done(v) && v@ == c,
            },
    {
        match find_entry(&self.jobs, key) {
            None => DapCollectJob::Unknown,
            Some(i) => match &self.jobs[i].1 {
                CollectJobState::Pending { .. } => DapCollectJob::Pending,
                CollectJobState::Done { collection } => DapCollectJob::Done(
                    slice_to_vec(collection.as_slice()),
                ),
            },
        }
    }

    /// Finish a collection job with its collection.
    pub fn finish(&mut self, key: &CollectJobKey, collection: Vec<u8>)
        ensures
            entry_lookup(final(self).jobs@, key@) == Some(CollectJobState::Done { collection }),
            forall|k: (Seq<u8>, Seq<u8>)|
                k != key@ ==> entry_lookup(final(self).jobs@, k) == entry_lookup(old(self).jobs@, k),
    {
        set_entry(&mut self.jobs, key, CollectJobState::Done { collection });
    }
}

/// The pending jobs among a list, in order, with their requests.
pub open spec fn pending_spec(jobs: Seq<(CollectJobKey, CollectJobState)>) -> Seq<
    ((Seq<u8>, Seq<u8>), Seq<u8>),
>
    decreases jobs.len(),
{
    if jobs.len() == 0 {
        Seq::empty()
    } else {
        let rest = pending_spec(jobs.drop_last());
        match jobs.last().1 {
            CollectJobState::Pending { collect_req } => rest.push((jobs.last().0@, collect_req@)),
            CollectJobState::Done { .. } => rest,
        }
    }
}

impl CollectJobQueue {
    /// The pending collection jobs, oldest first, with their requests.
    pub fn get_pending_collect_jobs(&self) -> (r: Vec<(CollectJobKey, Vec<u8>)>)
        ensures
            r@.len() == pending_spec(self.jobs@).len(),
            forall|i: int|
                0 <= i < r@.len() ==> ((#[trigger] r@[i]).0@, r@[i].1@) == pending_spec(
                    self.jobs@,
                )[i],
    {
        let mut out: Vec<(CollectJobKey, Vec<u8>)> = Vec::new();
        let mut i: usize = 0;
        while i < self.jobs.len()
            invariant
                i <= self.jobs@.len(),
                out@.len() == pending_spec(self.jobs@.subrange(0, i as int)).len(),
                forall|j: int|
                    0 <= j < out@.len() ==> ((#[trigger] out@[j]).0@, out@[j].1@) == pending_spec(
                        self.jobs@.subrange(0, i as int),
                    )[j],
            decreases self.jobs@.len() - i,
        {
            assert(self.jobs@.subrange(0, i as int + 1).drop_last() =~= self.jobs@.subrange(0, i as int));
            match &self.jobs[i].1 {
                CollectJobState::Pending { collect_req } => {
                    out.push((self.jobs[i].0, slice_to_vec(collect_req.as_slice())));
                },
                CollectJobState::Done { .. } => {},
            }
            i += 1;
        }
        assert(self.jobs@.subrange(0, self.jobs@.len() as int) =~= self.jobs@);
        out
    }
}

/// Start a collection job. Where the batch overlaps an earlier collection,
/// that is where a bucket of its span is collected (`collected[i]` says so of
/// the `i`-th bucket), the request is refused with `BatchOverlap` and nothing
/// changes. Otherwise the request is queued under the identifier the Collector
/// chose, or else under `fresh_id`, and that identifier is returned.
pub fn init_collect_job(
    jobs: &mut CollectJobQueue,
    task_id: &TaskId,
    collect_id: Option<CollectionJobId>,
    fresh_id: CollectionJobId,
    collect_req: Vec<u8>,
    collected: &Vec<bool>,
) -> (r: Result<CollectionJobId, DapError>)
    ensures
        (exists|i: int| 0 <= i < collected@.len() && collected@[i]) ==> (r matches Err(
            DapError::Abort(DapAbort::BatchOverlap),
        ) && final(jobs).jobs@ == old(jobs).jobs@),
        !(exists|i: int| 0 <= i < collected@.len() && collected@[i]) ==> (r matches Ok(id) && id
            == (match collect_id {
            Some(c) => c,
            None => fresh_id,
        }) && ({
            let key = (task_id@, id@);
            &&& entry_lookup(old(jobs).jobs@, key) is Some ==> final(jobs).jobs@ == old(
                jobs,
            ).jobs@
            &&& entry_lookup(old(jobs).jobs@, key) is None ==> entry_lookup(final(jobs).jobs@, key)
                == Some(CollectJobState::Pending { collect_req })
            &&& forall|k: (Seq<u8>, Seq<u8>)|
                k != key ==> entry_lookup(final(jobs).jobs@, k) == entry_lookup(old(jobs).jobs@, k)
        })),
{
    if any_collected(collected) {
        return Err(DapError::Abort(DapAbort::BatchOverlap));
    }
    let id = match collect_id {
        Some(c) => c,
        None => fresh_id,
    };
    jobs.put(&CollectJobKey { task_id: *task_id, collect_id: id }, collect_req);
    Ok(id)
}

/// Finish a collection job: the batch of a fixed-size collection leaves the
/// Leader's batch queue, and the job is done with its collection.
pub fn finish_collect_job(
    jobs: &mut CollectJobQueue,
    batches: &mut LeaderBatchQueue,
    key: &CollectJobKey,
    part_batch_sel: &PartialBatchSelector,
    collection: Vec<u8>,
)
    requires
        old(batches).wf(),
    ensures
        final(batches).wf(),
        final(batches).min_batch_size == old(batches).min_batch_size,
        final(batches).max_batch_size == old(batches).max_batch_size,
        entry_lookup(final(jobs).jobs@, key@) == Some(CollectJobState::Done { collection }),
        forall|k: (Seq<u8>, Seq<u8>)|
            k != key@ ==> entry_lookup(final(jobs).jobs@, k) == entry_lookup(old(jobs).jobs@, k),
        match *part_batch_sel {
            PartialBatchSelector::TimeInterval => final(batches).batches@ == old(batches).batches@,
            PartialBatchSelector::FixedSizeByBatchId { batch_id } => if exists|i: int|
                0 <= i < old(batches).batches@.len() && (#[trigger] old(batches).batches@[i]).batch_id@
                    == batch_id@ {
                exists|i: int|
                    0 <= i < old(batches).batches@.len() && (#[trigger] old(
                        batches,
                    ).batches@[i]).batch_id@ == batch_id@ && final(batches).batches@ == old(
                        batches,
                    ).batches@.remove(i)
            } else {
                final(batches).batches@ == old(batches).batches@
            },
        },
{
    if let PartialBatchSelector::FixedSizeByBatchId { batch_id } = part_batch_sel {
        batches.remove(batch_id);
    }
    jobs.finish(key, collection);
}

/// A finished job polls as done with its collection, whatever its earlier state.
pub proof fn lemma_finished_job_polls_done(
    jobs: Seq<(CollectJobKey, CollectJobState)>,
    key: (Seq<u8>, Seq<u8>),
    collection: Vec<u8>,
)
    requires
        entry_lookup(jobs, key) == Some(CollectJobState::Done { collection }),
    ensures
        poll_spec(entry_lookup(jobs, key)) == Some(Some(collection@)),
{
}

} // verus!
