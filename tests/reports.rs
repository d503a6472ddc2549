use daphne::aggregate::{DapAggregateShare, FieldKind, VdafAggregateShare};
use daphne::batch::{bucket_for, DapBatchBucket, PartialBatchSelector};
use daphne::early_reject::{
    check_early_reject, check_early_reject_with_stores, early_metadata_check,
    valid_report_window, ReportsProcessed,
};
use daphne::store::AggregateStore;
use daphne::messages::{ReportId, ReportMetadata, TransitionFailure};

fn meta(id: u8, time: u64) -> ReportMetadata {
    ReportMetadata { id: ReportId([id; 16]), time }
}

#[test]
fn report_at_min_time_accepted_one_second_earlier_dropped() {
    let (min_time, max_time) = (1000, 2000);
    assert_eq!(early_metadata_check(&meta(1, 1000), false, false, min_time, max_time, u64::MAX), None);
    assert_eq!(
        early_metadata_check(&meta(1, 999), false, false, min_time, max_time, u64::MAX),
        Some(TransitionFailure::ReportDropped)
    );
}

#[test]
fn report_after_max_time_too_early() {
    assert_eq!(early_metadata_check(&meta(1, 2000), false, false, 1000, 2000, u64::MAX), None);
    assert_eq!(
        early_metadata_check(&meta(1, 2001), false, false, 1000, 2000, u64::MAX),
        Some(TransitionFailure::ReportTooEarly)
    );
}

#[test]
fn replay_and_collected_take_precedence() {
    assert_eq!(
        early_metadata_check(&meta(1, 5), true, true, 1000, 2000, u64::MAX),
        Some(TransitionFailure::ReportReplayed)
    );
    assert_eq!(
        early_metadata_check(&meta(1, 1500), false, true, 1000, 2000, u64::MAX),
        Some(TransitionFailure::BatchCollected)
    );
}

#[test]
fn window_of_valid_times_saturates() {
    assert_eq!(valid_report_window(100, 30, 10), (70, 110));
    assert_eq!(valid_report_window(10, 30, 10), (0, 20));
    assert_eq!(valid_report_window(u64::MAX - 5, 0, 10), (u64::MAX - 5, u64::MAX));
}

#[test]
fn duplicate_ids_in_one_request_first_kept() {
    let mut store = ReportsProcessed::new();
    let ids = vec![ReportId([1; 16]), ReportId([2; 16]), ReportId([1; 16]), ReportId([1; 16])];
    assert_eq!(store.mark_aggregated(&ids), vec![false, false, true, true]);
    assert!(store.contains(&ReportId([2; 16])));
    assert!(!store.contains(&ReportId([3; 16])));
}

#[test]
fn replayed_report_rejected_and_counted_once() {
    // Two reports with one identifier, two seconds apart, in two jobs.
    let mut store = ReportsProcessed::new();
    let first = vec![meta(7, 120)];
    let second = vec![meta(7, 122)];
    let flags = store.mark_aggregated(&vec![first[0].id]);
    let first_fails = check_early_reject(&first, &flags, &vec![false], 0, 1000, u64::MAX);
    assert_eq!(first_fails, vec![None]);
    let flags = store.mark_aggregated(&vec![second[0].id]);
    let second_fails = check_early_reject(&second, &flags, &vec![false], 0, 1000, u64::MAX);
    assert_eq!(second_fails, vec![Some(TransitionFailure::ReportReplayed)]);
    let accepted = first_fails.iter().chain(second_fails.iter()).filter(|f| f.is_none()).count();
    assert_eq!(accepted, 1);
}

#[test]
fn early_reject_per_report() {
    let reports = vec![meta(1, 50), meta(2, 150), meta(3, 150), meta(4, 250)];
    let fails = check_early_reject(
        &reports,
        &vec![false, true, false, false],
        &vec![false, false, true, false],
        100,
        200,
        u64::MAX,
    );
    assert_eq!(
        fails,
        vec![
            Some(TransitionFailure::ReportDropped),
            Some(TransitionFailure::ReportReplayed),
            Some(TransitionFailure::BatchCollected),
            Some(TransitionFailure::ReportTooEarly),
        ]
    );
}

#[test]
fn report_id_hex() {
    let mut bytes = [0u8; 16];
    bytes[0] = 0x1f;
    assert_eq!(ReportId(bytes).to_hex(), format!("1f{}", "0".repeat(30)));
}

fn one_report_share(id: u8) -> DapAggregateShare {
    let mut checksum = [0u8; 32];
    checksum[0] = id;
    DapAggregateShare {
        report_count: 1,
        checksum,
        data: Some(VdafAggregateShare { field: FieldKind::Field64, elems: vec![1] }),
    }
}

#[test]
fn replay_across_jobs_counts_once_in_the_aggregate() {
    let mut processed = ReportsProcessed::new();
    let mut store = AggregateStore::new();
    let sel = PartialBatchSelector::TimeInterval;
    for report in [meta(7, 120), meta(7, 122)] {
        let fails =
            check_early_reject_with_stores(&mut processed, &store, &sel, 60, &vec![report], 0, 1000, u64::MAX);
        if fails[0].is_none() {
            let bucket = bucket_for(&sel, report.time, 60);
            store.put_out_shares(&vec![(bucket, one_report_share(7))]).unwrap();
        } else {
            assert_eq!(fails[0], Some(TransitionFailure::ReportReplayed));
        }
    }
    let agg = store.get(&DapBatchBucket::TimeInterval { batch_window: 120 });
    assert_eq!(agg.report_count, 1);
}

#[test]
fn reports_of_a_collected_bucket_rejected() {
    let mut processed = ReportsProcessed::new();
    let mut store = AggregateStore::new();
    store.mark_collected(&DapBatchBucket::TimeInterval { batch_window: 0 });
    let sel = PartialBatchSelector::TimeInterval;
    let reports = vec![meta(1, 30), meta(2, 90), meta(2, 95), meta(3, 5000)];
    let fails = check_early_reject_with_stores(&mut processed, &store, &sel, 60, &reports, 0, 1000, u64::MAX);
    assert_eq!(
        fails,
        vec![
            Some(TransitionFailure::BatchCollected),
            None,
            Some(TransitionFailure::ReportReplayed),
            Some(TransitionFailure::ReportTooEarly),
        ]
    );
    assert!(processed.contains(&ReportId([3; 16])));
}

#[test]
fn report_after_task_expiration_rejected() {
    assert_eq!(early_metadata_check(&meta(1, 1500), false, false, 1000, 2000, 1500), None);
    assert_eq!(
        early_metadata_check(&meta(1, 1501), false, false, 1000, 2000, 1500),
        Some(TransitionFailure::TaskExpired)
    );
}
