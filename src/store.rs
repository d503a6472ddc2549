//! The aggregate store of a task: one entry per bucket, created on first use,
//! and the operations that fan out over the buckets of a batch.

use crate::aggregate::{
    empty_share, entry_merge_spec, mark_collected_spec, merge_seq, share_views, share_wf,
    AggregateShareView, AggregateStoreEntry, DapAggregateShare, EntryView, merge_all,
};
use crate::batch::{BucketView, DapBatchBucket};
use crate::error::DapError;
use crate::keyed::{entry_lookup, find_entry, set_entry};
use crate::messages::BatchId;
use vstd::prelude::*;

verus! {

/// An entry that was never used: the empty share, not collected.
pub open spec fn fresh_entry() -> EntryView {
    EntryView { share: empty_share(), collected: false }
}

/// The entry of a bucket.
pub open spec fn store_entry(entries: Seq<(DapBatchBucket, AggregateStoreEntry)>, b: BucketView) -> EntryView {
    match entry_lookup(entries, b) {
        Some(e) => e@,
        None => fresh_entry(),
    }
}

/// The entry of bucket `b` after the merges of `deltas` into their buckets, in
/// order, and whether every one of them into `b` succeeded. Merging stops at
/// the first failure.
pub open spec fn merge_deltas(
    e: EntryView,
    b: BucketView,
    deltas: Seq<(BucketView, AggregateShareView)>,
) -> (bool, EntryView)
    decreases deltas.len(),
{
    if deltas.len() == 0 {
        (true, e)
    } else {
        let (ok, prev) = merge_deltas(e, b, deltas.drop_last());
        if !ok || deltas.last().0 != b {
            (ok, prev)
        } else {
            entry_merge_spec(prev, deltas.last().1)
        }
    }
}

/// The (bucket, share) pairs, viewed.
pub open spec fn delta_views(deltas: Seq<(DapBatchBucket, DapAggregateShare)>) -> Seq<
    (BucketView, AggregateShareView),
> {
    Seq::new(deltas.len(), |i: int| (deltas[i].0@, deltas[i].1@))
}

/// The shares of the buckets of a span, viewed.
pub open spec fn span_shares(
    entries: Seq<(DapBatchBucket, AggregateStoreEntry)>,
    span: Seq<DapBatchBucket>,
) -> Seq<AggregateShareView> {
    Seq::new(span.len(), |i: int| store_entry(entries, span[i]@).share)
}

/// Whether `after` is `before` with every bucket of `span` marked collected:
/// those buckets are collected, every share is unchanged, and buckets outside
/// the span are unchanged.
pub open spec fn marked_span(
    before: Seq<(DapBatchBucket, AggregateStoreEntry)>,
    after: Seq<(DapBatchBucket, AggregateStoreEntry)>,
    span: Seq<DapBatchBucket>,
) -> bool {
    &&& forall|i: int| 0 <= i < span.len() ==> store_entry(after, (#[trigger] span[i])@).collected
    &&& forall|b: BucketView| #[trigger] store_entry(after, b).share == store_entry(before, b).share
    &&& forall|b: BucketView|
        (forall|i: int| 0 <= i < span.len() ==> (#[trigger] span[i])@ != b) ==> #[trigger] store_entry(
            after,
            b,
        ) == store_entry(before, b)
}

/// Marking the buckets of a span collected twice leaves every bucket as
/// marking them once does.
pub proof fn lemma_mark_span_idempotent(
    s0: Seq<(DapBatchBucket, AggregateStoreEntry)>,
    s1: Seq<(DapBatchBucket, AggregateStoreEntry)>,
    s2: Seq<(DapBatchBucket, AggregateStoreEntry)>,
    span: Seq<DapBatchBucket>,
)
    requires
        marked_span(s0, s1, span),
        marked_span(s1, s2, span),
    ensures
        forall|b: BucketView| #[trigger] store_entry(s2, b) == store_entry(s1, b),
{
    assert forall|b: BucketView| #[trigger] store_entry(s2, b) == store_entry(s1, b) by {
        if exists|i: int| 0 <= i < span.len() && (#[trigger] span[i])@ == b {
            let i = choose|i: int| 0 <= i < span.len() && (#[trigger] span[i])@ == b;
            assert(store_entry(s2, span[i]@).collected);
            assert(store_entry(s1, span[i]@).collected);
            assert(store_entry(s2, b).share == store_entry(s1, b).share);
        } else {
            assert(forall|i: int| 0 <= i < span.len() ==> (#[trigger] span[i])@ != b);
        }
    }
}

/// The aggregate store of a task.
pub struct AggregateStore {
    pub entries: Vec<(DapBatchBucket, AggregateStoreEntry)>,
}

impl AggregateStoreEntry {
    /// A copy of the entry.
    pub fn copy(&self) -> (r: Self)
        ensures
            r@ == self@,
    {
        AggregateStoreEntry { share: self.share.copy(), collected: self.collected }
    }
}

impl AggregateStore {
    /// Every stored share is well formed.
    pub open spec fn wf(&self) -> bool {
        forall|j: int| 0 <= j < self.entries@.len() ==> share_wf(#[trigger] self.entries@[j].1.share@)
    }

    /// A store in which no bucket was used.
    pub fn new() -> (r: Self)
        ensures
            r.wf(),
            forall|b: BucketView| store_entry(r.entries@, b) == fresh_entry(),
    {
        AggregateStore { entries: Vec::new() }
    }

    /// The entry of a bucket.
    pub fn entry(&self, bucket: &DapBatchBucket) -> (r: AggregateStoreEntry)
        requires
            self.wf(),
        ensures
            r@ == store_entry(self.entries@, bucket@),
            share_wf(r.share@),
    {
        match find_entry(&self.entries, bucket) {
            Some(i) => self.entries[i].1.copy(),
            None => AggregateStoreEntry::new(),
        }
    }

    /// Merge a share into the entry of a bucket; fails, changing nothing, where
    /// the bucket is collected or the shares do not merge.
    pub fn merge(&mut self, bucket: &DapBatchBucket, delta: &DapAggregateShare) -> (r: Result<(), DapError>)
        requires
            old(self).wf(),
            share_wf(delta@),
        ensures
            final(self).wf(),
            ((r is Ok), store_entry(final(self).entries@, bucket@)) == entry_merge_spec(
                store_entry(old(self).entries@, bucket@),
                delta@,
            ),
            r is Err ==> final(self).entries@ == old(self).entries@,
            forall|b: BucketView|
                b != bucket@ ==> store_entry(final(self).entries@, b) == store_entry(
                    old(self).entries@,
                    b,
                ),
    {
        let mut e = self.entry(bucket);
        match e.merge(delta) {
            Ok(()) => {
                set_entry(&mut self.entries, bucket, e);
                Ok(())
            },
            Err(err) => Err(err),
        }
    }

    /// The share of a bucket.
    pub fn get(&self, bucket: &DapBatchBucket) -> (r: DapAggregateShare)
        requires
            self.wf(),
        ensures
            r@ == store_entry(self.entries@, bucket@).share,
    {
        self.entry(bucket).share
    }

    /// Mark a bucket collected.
    pub fn mark_collected(&mut self, bucket: &DapBatchBucket)
        requires
            old(self).wf(),
        ensures
            final(self).wf(),
            store_entry(final(self).entries@, bucket@) == mark_collected_spec(
                store_entry(old(self).entries@, bucket@),
            ),
            forall|b: BucketView|
                b != bucket@ ==> store_entry(final(self).entries@, b) == store_entry(
                    old(self).entries@,
                    b,
                ),
    {
        let mut e = self.entry(bucket);
        e.mark_collected();
        set_entry(&mut self.entries, bucket, e);
    }

    /// Whether a bucket is collected.
    pub fn check_collected(&self, bucket: &DapBatchBucket) -> (r: bool)
        requires
            self.wf(),
        ensures
            r == store_entry(self.entries@, bucket@).collected,
    {
        self.entry(bucket).collected
    }

    /// Whether a batch overlaps an earlier collection: some bucket of its span
    /// is collected.
    pub fn is_batch_overlapping(&self, span: &Vec<DapBatchBucket>) -> (r: bool)
        requires
            self.wf(),
        ensures
            r == exists|i: int|
                0 <= i < span@.len() && store_entry(self.entries@, (#[trigger] span@[i])@).collected,
    {
        let mut i: usize = 0;
        while i < span.len()
            invariant
                self.wf(),
                i <= span@.len(),
                forall|j: int|
                    0 <= j < i ==> !store_entry(self.entries@, (#[trigger] span@[j])@).collected,
            decreases span@.len() - i,
        {
            if self.check_collected(&span[i]) {
                return true;
            }
            i += 1;
        }
        false
    }

    /// Whether a fixed-size batch holds any report.
    pub fn batch_exists(&self, batch_id: &BatchId) -> (r: bool)
        requires
            self.wf(),
        ensures
            r == (store_entry(self.entries@, BucketView::FixedSize(batch_id@)).share.report_count
                > 0),
    {
        !self.get(&DapBatchBucket::FixedSize { batch_id: *batch_id }).empty()
    }

    /// The aggregate share of a batch: the merge of the shares of the buckets of
    /// its span.
    pub fn get_agg_share(&self, span: &Vec<DapBatchBucket>) -> (r: Result<DapAggregateShare, DapError>)
        requires
            self.wf(),
        ensures
            match merge_seq(span_shares(self.entries@, span@)) {
                Some(m) => r matches Ok(s) && s@ == m,
                None => r is Err,
            },
    {
        let mut shares: Vec<DapAggregateShare> = Vec::with_capacity(span.len());
        let mut i: usize = 0;
        while i < span.len()
            invariant
                self.wf(),
                i <= span@.len(),
                shares@.len() == i,
                forall|j: int| 0 <= j < i ==> (#[trigger] shares@[j])@ == store_entry(self.entries@, span@[j]@).share,
                forall|j: int| 0 <= j < i ==> share_wf(#[trigger] shares@[j]@),
            decreases span@.len() - i,
        {
            shares.push(self.get(&span[i]));
            i += 1;
        }
        assert(share_views(shares@) =~= span_shares(self.entries@, span@));
        merge_all(&shares)
    }

    /// Mark every bucket of a span collected.
    pub fn mark_collected_span(&mut self, span: &Vec<DapBatchBucket>)
        requires
            old(self).wf(),
        ensures
            final(self).wf(),
            marked_span(old(self).entries@, final(self).entries@, span@),
    {
        let mut i: usize = 0;
        while i < span.len()
            invariant
                self.wf(),
                i <= span@.len(),
                forall|j: int| 0 <= j < i ==> store_entry(self.entries@, (#[trigger] span@[j])@).collected,
                forall|b: BucketView| store_entry(self.entries@, b).share == store_entry(
                    old(self).entries@,
                    b,
                ).share,
                forall|b: BucketView|
                    (forall|j: int| 0 <= j < i ==> (#[trigger] span@[j])@ != b) ==> store_entry(
                        self.entries@,
                        b,
                    ) == store_entry(old(self).entries@, b),
            decreases span@.len() - i,
        {
            self.mark_collected(&span[i]);
            i += 1;
        }
    }

    /// Merge output shares into their buckets, in order, stopping at the first
    /// merge that fails.
    pub fn put_out_shares(&mut self, deltas: &Vec<(DapBatchBucket, DapAggregateShare)>) -> (r: Result<(), DapError>)
        requires
            old(self).wf(),
            forall|i: int| 0 <= i < deltas@.len() ==> share_wf(#[trigger] deltas@[i].1@),
        ensures
            final(self).wf(),
            r is Ok ==> forall|b: BucketView|
                #[trigger] merge_deltas(store_entry(old(self).entries@, b), b, delta_views(deltas@))
                    == (true, store_entry(final(self).entries@, b)),
            r is Err ==> exists|b: BucketView|
                !(#[trigger] merge_deltas(store_entry(old(self).entries@, b), b, delta_views(deltas@))).0,
            r is Err ==> exists|k: int|
                0 <= k < deltas@.len() && (forall|b: BucketView|
                    #[trigger] merge_deltas(
                        store_entry(old(self).entries@, b),
                        b,
                        delta_views(deltas@).subrange(0, k),
                    ) == (true, store_entry(final(self).entries@, b))) && !entry_merge_spec(
                    store_entry(final(self).entries@, delta_views(deltas@)[k].0),
                    delta_views(deltas@)[k].1,
                ).0,
            forall|b: BucketView|
                store_entry(old(self).entries@, b).collected ==> #[trigger] store_entry(
                    final(self).entries@,
                    b,
                ) == store_entry(old(self).entries@, b),
    {
        let ghost start = self.entries@;
        let mut i: usize = 0;
        while i < deltas.len()
            invariant
                start == old(self).entries@,
                self.wf(),
                i <= deltas@.len(),
                forall|j: int| 0 <= j < deltas@.len() ==> share_wf(#[trigger] deltas@[j].1@),
                forall|b: BucketView|
                    #[trigger] merge_deltas(store_entry(start, b), b, delta_views(deltas@).subrange(0, i as int))
                        == (true, store_entry(self.entries@, b)),
            decreases deltas@.len() - i,
        {
            let ghost views = delta_views(deltas@);
            let ghost pre = self.entries@;
            proof {
                assert(views.subrange(0, i as int + 1).drop_last() =~= views.subrange(0, i as int));
                assert(views.subrange(0, i as int + 1).last() == views[i as int]);
            }
            match self.merge(&deltas[i].0, &deltas[i].1) {
                Ok(()) => {
                    proof {
                        assert forall|b: BucketView|
                            #[trigger] merge_deltas(store_entry(start, b), b, views.subrange(0, i as int + 1))
                                == (true, store_entry(self.entries@, b)) by {
                            assert(merge_deltas(store_entry(start, b), b, views.subrange(0, i as int))
                                == (true, store_entry(pre, b)));
                        }
                    }
                },
                Err(e) => {
                    proof {
                        let b = views[i as int].0;
                        assert(merge_deltas(store_entry(start, b), b, views.subrange(0, i as int))
                            == (true, store_entry(pre, b)));
                        assert(!merge_deltas(store_entry(start, b), b, views.subrange(0, i as int + 1)).0);
                        lemma_merge_deltas_fails(store_entry(start, b), b, views, i as int + 1);
                        assert(!merge_deltas(store_entry(old(self).entries@, b), b, delta_views(deltas@)).0);
                        assert(self.entries@ == pre);
                        assert forall|c: BucketView|
                            store_entry(old(self).entries@, c).collected implies #[trigger] store_entry(
                            self.entries@,
                            c,
                        ) == store_entry(old(self).entries@, c) by {
                            lemma_collected_stays(store_entry(start, c), c, views.subrange(0, i as int));
                            assert(merge_deltas(store_entry(start, c), c, views.subrange(0, i as int))
                                == (true, store_entry(pre, c)));
                        }
                    }
                    return Err(e);
                },
            }
            i += 1;
        }
        assert(delta_views(deltas@).subrange(0, deltas@.len() as int) =~= delta_views(deltas@));
        proof {
            assert forall|c: BucketView|
                store_entry(old(self).entries@, c).collected implies #[trigger] store_entry(
                self.entries@,
                c,
            ) == store_entry(old(self).entries@, c) by {
                lemma_collected_stays(store_entry(start, c), c, delta_views(deltas@));
                assert(merge_deltas(store_entry(start, c), c, delta_views(deltas@)) == (
                true,
                store_entry(self.entries@, c),
            ));
            }
        }
        Ok(())
    }
}

/// Merges leave a collected entry as it is.
pub proof fn lemma_collected_stays(e: EntryView, b: BucketView, deltas: Seq<(BucketView, AggregateShareView)>)
    requires
        e.collected,
    ensures
        merge_deltas(e, b, deltas).1 == e,
    decreases deltas.len(),
{
    if deltas.len() > 0 {
        lemma_collected_stays(e, b, deltas.drop_last());
    }
}

/// A failed merge into a bucket stays failed as more merges follow.
proof fn lemma_merge_deltas_fails(
    e: EntryView,
    b: BucketView,
    deltas: Seq<(BucketView, AggregateShareView)>,
    n: int,
)
    requires
        0 <= n <= deltas.len(),
        !merge_deltas(e, b, deltas.subrange(0, n)).0,
    ensures
        !merge_deltas(e, b, deltas).0,
    decreases deltas.len() - n,
{
    if n < deltas.len() {
        assert(deltas.subrange(0, n + 1).drop_last() =~= deltas.subrange(0, n));
        lemma_merge_deltas_fails(e, b, deltas, n + 1);
    } else {
        assert(deltas.subrange(0, n) =~= deltas);
    }
}

} // verus!
