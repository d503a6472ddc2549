use daphne::aggregate::{
    any_collected, merge_all, AggregateStoreEntry, DapAggregateShare, FieldKind,
    VdafAggregateShare, FIELD64_MODULUS, FIELD_PRIO2_MODULUS,
};
use daphne::batch::{batch_eligible, batch_span_for_sel, bucket_start, BatchSelector, DapBatchBucket, DapQueryConfig};
use daphne::error::DapError;
use daphne::messages::BatchId;
use daphne::store::AggregateStore;
use daphne::messages::TransitionFailure;

fn share(count: u64, first_byte: u8, field: FieldKind, elems: Vec<u128>) -> DapAggregateShare {
    let mut checksum = [0u8; 32];
    checksum[0] = first_byte;
    DapAggregateShare {
        report_count: count,
        checksum,
        data: Some(VdafAggregateShare { field, elems }),
    }
}

fn same(a: &DapAggregateShare, b: &DapAggregateShare) -> bool {
    a.report_count == b.report_count
        && a.checksum == b.checksum
        && match (&a.data, &b.data) {
            (None, None) => true,
            (Some(x), Some(y)) => x.field == y.field && x.elems == y.elems,
            _ => false,
        }
}

#[test]
fn merge_adds_counts_xors_checksums_and_sums_in_the_field() {
    let mut a = share(2, 0b1100, FieldKind::Field64, vec![FIELD64_MODULUS - 1, 5]);
    let b = share(3, 0b1010, FieldKind::Field64, vec![3, 7]);
    a.merge(&b).unwrap();
    assert_eq!(a.report_count, 5);
    assert_eq!(a.checksum[0], 0b0110);
    assert_eq!(a.data.as_ref().unwrap().elems, vec![2, 12]);
}

#[test]
fn merge_wraps_in_prio2_field() {
    let mut a = share(1, 0, FieldKind::FieldPrio2, vec![FIELD_PRIO2_MODULUS - 2]);
    let b = share(1, 0, FieldKind::FieldPrio2, vec![5]);
    a.merge(&b).unwrap();
    assert_eq!(a.data.unwrap().elems, vec![3]);
}

#[test]
fn merge_into_empty_takes_the_other_share() {
    let mut a = DapAggregateShare::empty_share();
    assert!(a.empty());
    let b = share(4, 9, FieldKind::Field128, vec![1, 2, 3]);
    a.merge(&b).unwrap();
    assert!(same(&a, &b));
    assert!(!a.empty());
}

#[test]
fn merging_the_empty_share_changes_nothing() {
    let mut a = share(4, 9, FieldKind::Field64, vec![1, 2, 3]);
    let before = a.clone();
    a.merge(&DapAggregateShare::empty_share()).unwrap();
    assert!(same(&a, &before));
}

#[test]
fn merge_of_mismatched_shares_fails_and_changes_nothing() {
    let mut a = share(1, 1, FieldKind::Field64, vec![1, 2]);
    let before = a.clone();
    assert!(a.merge(&share(1, 2, FieldKind::Field64, vec![1])).is_err());
    assert!(same(&a, &before));
    assert!(a.merge(&share(1, 2, FieldKind::Field128, vec![1, 2])).is_err());
    assert!(same(&a, &before));
    assert!(a.merge(&share(u64::MAX, 2, FieldKind::Field64, vec![1, 2])).is_err());
    assert!(same(&a, &before));
}

#[test]
fn merge_order_does_not_matter() {
    let x = share(1, 3, FieldKind::Field64, vec![FIELD64_MODULUS - 1]);
    let y = share(2, 5, FieldKind::Field64, vec![4]);
    let mut xy = x.clone();
    xy.merge(&y).unwrap();
    let mut yx = y.clone();
    yx.merge(&x).unwrap();
    assert!(same(&xy, &yx));
}

#[test]
fn collected_entry_refuses_merges() {
    let mut e = AggregateStoreEntry::new();
    e.merge(&share(1, 1, FieldKind::Field64, vec![1])).unwrap();
    e.mark_collected();
    assert!(e.check_collected());
    let before = e.get().clone();
    let r = e.merge(&share(1, 2, FieldKind::Field64, vec![1]));
    assert!(matches!(r, Err(DapError::Transition(TransitionFailure::BatchCollected))));
    let r = e.merge(&DapAggregateShare::empty_share());
    assert!(matches!(r, Err(DapError::Transition(TransitionFailure::BatchCollected))));
    assert!(same(e.get(), &before));
}

#[test]
fn mark_collected_twice_is_once() {
    let mut once = AggregateStoreEntry::new();
    once.merge(&share(2, 1, FieldKind::Field64, vec![7])).unwrap();
    let mut twice = once.clone();
    once.mark_collected();
    twice.mark_collected();
    twice.mark_collected();
    assert_eq!(once.check_collected(), twice.check_collected());
    assert!(same(once.get(), twice.get()));
}

#[test]
fn entry_merge_of_empty_share_is_a_no_op() {
    let mut e = AggregateStoreEntry::new();
    e.merge(&share(2, 1, FieldKind::Field64, vec![7])).unwrap();
    let before = e.get().clone();
    e.merge(&DapAggregateShare::empty_share()).unwrap();
    assert!(same(e.get(), &before));
    assert!(!e.check_collected());
}

#[test]
fn overlap_when_any_bucket_collected() {
    assert!(!any_collected(&vec![]));
    assert!(!any_collected(&vec![false, false]));
    assert!(any_collected(&vec![false, true, false]));
}

#[test]
fn ten_count_reports_aggregate_to_ten() {
    // Ten reports, each with output share 1 in the 64-bit field.
    let mut entry = AggregateStoreEntry::new();
    for i in 0..10u8 {
        entry.merge(&share(1, i, FieldKind::Field64, vec![1])).unwrap();
    }
    let total = entry.get();
    assert_eq!(total.report_count, 10);
    assert_eq!(total.data.as_ref().unwrap().elems, vec![10]);
    // The checksum is the XOR of the report identifiers: 0 ^ 1 ^ ... ^ 9 = 1.
    assert_eq!(total.checksum[0], 1);
}

#[test]
fn merge_all_over_a_span() {
    let shares = vec![
        share(1, 1, FieldKind::Field64, vec![2]),
        DapAggregateShare::empty_share(),
        share(3, 2, FieldKind::Field64, vec![5]),
    ];
    let m = merge_all(&shares).unwrap();
    assert_eq!(m.report_count, 4);
    assert_eq!(m.checksum[0], 3);
    assert_eq!(m.data.unwrap().elems, vec![7]);
    let bad = vec![
        share(1, 1, FieldKind::Field64, vec![2]),
        share(1, 1, FieldKind::FieldPrio2, vec![2]),
    ];
    assert!(merge_all(&bad).is_err());
    assert!(merge_all(&vec![]).unwrap().empty());
}

fn window(start: u64) -> DapBatchBucket {
    DapBatchBucket::TimeInterval { batch_window: start }
}

#[test]
fn store_collects_a_time_interval_batch() {
    // Ten count reports with times in [120, 179], precision 60: one bucket.
    let mut store = AggregateStore::new();
    let deltas: Vec<(DapBatchBucket, DapAggregateShare)> = (0..10u8)
        .map(|i| (window(bucket_start(120 + 5 * i as u64, 60)), share(1, i, FieldKind::Field64, vec![1])))
        .collect();
    store.put_out_shares(&deltas).unwrap();
    let sel = BatchSelector::TimeInterval { batch_interval_start: 120, batch_interval_duration: 60 };
    let span = batch_span_for_sel(DapQueryConfig::TimeInterval, &sel, 60).unwrap();
    assert!(!store.is_batch_overlapping(&span));
    let agg = store.get_agg_share(&span).unwrap();
    assert_eq!(agg.report_count, 10);
    assert!(batch_eligible(agg.report_count, 10));
    assert_eq!(agg.data.unwrap().elems, vec![10]);
    store.mark_collected_span(&span);
    assert!(store.is_batch_overlapping(&span));
    // Later output shares for the collected bucket are refused.
    let late = vec![(window(120), share(1, 99, FieldKind::Field64, vec![1]))];
    assert!(store.put_out_shares(&late).is_err());
    assert_eq!(store.get(&window(120)).report_count, 10);
}

#[test]
fn store_buckets_are_independent() {
    let mut store = AggregateStore::new();
    store.merge(&window(0), &share(2, 1, FieldKind::Field64, vec![3])).unwrap();
    store.mark_collected(&window(0));
    store.merge(&window(60), &share(1, 1, FieldKind::Field64, vec![4])).unwrap();
    assert!(store.check_collected(&window(0)));
    assert!(!store.check_collected(&window(60)));
    assert!(!store.check_collected(&window(120)));
    assert_eq!(store.get(&window(60)).report_count, 1);
    assert!(store.get(&window(120)).empty());
    let id = BatchId([3; 32]);
    assert!(!store.batch_exists(&id));
    store.merge(&DapBatchBucket::FixedSize { batch_id: id }, &share(5, 1, FieldKind::Field64, vec![1])).unwrap();
    assert!(store.batch_exists(&id));
}

#[test]
fn marking_a_span_twice_is_marking_it_once() {
    let mut store = AggregateStore::new();
    store.merge(&window(0), &share(2, 1, FieldKind::Field64, vec![3])).unwrap();
    store.merge(&window(120), &share(1, 1, FieldKind::Field64, vec![4])).unwrap();
    let span = vec![window(0), window(60)];
    store.mark_collected_span(&span);
    let once: Vec<(bool, u64)> = [0, 60, 120]
        .iter()
        .map(|w| (store.check_collected(&window(*w)), store.get(&window(*w)).report_count))
        .collect();
    store.mark_collected_span(&span);
    let twice: Vec<(bool, u64)> = [0, 60, 120]
        .iter()
        .map(|w| (store.check_collected(&window(*w)), store.get(&window(*w)).report_count))
        .collect();
    assert_eq!(once, twice);
    assert_eq!(once, vec![(true, 2), (true, 0), (false, 1)]);
}
