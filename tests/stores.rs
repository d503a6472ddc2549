use daphne::batch::{DapQueryConfig, LeaderBatchQueue, PartialBatchSelector};
use daphne::collect::{
    finish_collect_job, get_reports, init_collect_job, CollectJobKey, CollectJobQueue, CollectionJobId, DapCollectJob,
    ReportsPending,
};
use daphne::error::{DapAbort, DapError};
use daphne::constants::{DapMediaType, DapVersion};
use daphne::helper::{
    require_media_type, AggJobKey, AggJobResponses, AggregationJobId, HelperStateStore,
};
use daphne::messages::{decode_hex, encode_hex, BatchId, ReportId, TaskId, TransitionFailure};

fn agg_key(task: u8, job: u8) -> AggJobKey {
    AggJobKey { task_id: TaskId([task; 32]), agg_job_id: AggregationJobId([job; 16]) }
}

fn collect_key(task: u8, job: u8) -> CollectJobKey {
    CollectJobKey { task_id: TaskId([task; 32]), collect_id: CollectionJobId([job; 16]) }
}

#[test]
fn hex_encoding_and_decoding() {
    assert_eq!(encode_hex(&[0x00, 0xff, 0x1a]), "00ff1a");
    assert_eq!(decode_hex("00ff1a"), Some(vec![0x00, 0xff, 0x1a]));
    assert_eq!(decode_hex("00FF1A"), Some(vec![0x00, 0xff, 0x1a]));
    assert_eq!(decode_hex("abc"), None);
    assert_eq!(decode_hex("zz"), None);
    assert_eq!(decode_hex(""), Some(vec![]));
}

#[test]
fn helper_state_is_read_back_as_put() {
    let mut store = HelperStateStore::new();
    assert_eq!(store.get_helper_state(&agg_key(1, 1)).unwrap(), None);
    store.put_helper_state(&agg_key(1, 1), &vec![1, 2, 254]);
    store.put_helper_state(&agg_key(1, 2), &vec![9]);
    assert_eq!(store.get_helper_state(&agg_key(1, 1)).unwrap(), Some(vec![1, 2, 254]));
    assert_eq!(store.states[0].1, "0102fe");
    store.put_helper_state(&agg_key(1, 1), &vec![]);
    assert_eq!(store.get_helper_state(&agg_key(1, 1)).unwrap(), Some(vec![]));
    assert_eq!(store.get_helper_state(&agg_key(1, 2)).unwrap(), Some(vec![9]));
    assert_eq!(store.get_helper_state(&agg_key(2, 1)).unwrap(), None);
}

#[test]
fn corrupt_helper_state_is_fatal() {
    let mut store = HelperStateStore::new();
    store.states.push((agg_key(1, 1), "not hex".to_string()));
    assert!(matches!(store.get_helper_state(&agg_key(1, 1)), Err(DapError::Fatal(_))));
}

#[test]
fn resent_init_request_gets_identical_response() {
    let mut responses = AggJobResponses::new();
    let key = agg_key(3, 4);
    assert_eq!(responses.check_init(&key, &vec![1, 2, 3]).unwrap(), None);
    responses.record_init(&key, vec![1, 2, 3], vec![7, 7, 7]);
    assert_eq!(responses.check_init(&key, &vec![1, 2, 3]).unwrap(), Some(vec![7, 7, 7]));
    assert_eq!(responses.check_init(&key, &vec![1, 2, 3]).unwrap(), Some(vec![7, 7, 7]));
    assert!(matches!(responses.check_init(&key, &vec![1, 2, 4]), Err(DapError::Abort(_))));
    assert_eq!(responses.check_init(&agg_key(3, 5), &vec![1, 2, 4]).unwrap(), None);
}

#[test]
fn pending_reports_refuse_replays_and_drain_oldest_first() {
    let mut pending = ReportsPending::new();
    pending.put(&ReportId([1; 16]), vec![1]).unwrap();
    pending.put(&ReportId([2; 16]), vec![2]).unwrap();
    assert!(matches!(
        pending.put(&ReportId([1; 16]), vec![3]),
        Err(DapError::Transition(TransitionFailure::ReportReplayed))
    ));
    pending.put(&ReportId([3; 16]), vec![3]).unwrap();
    assert_eq!(pending.drain(2), vec![vec![1], vec![2]]);
    assert_eq!(pending.drain(5), vec![vec![3]]);
    assert_eq!(pending.drain(5), Vec::<Vec<u8>>::new());
}

#[test]
fn collection_jobs_pending_then_done() {
    let mut queue = CollectJobQueue::new();
    assert_eq!(queue.poll(&collect_key(1, 1)), DapCollectJob::Unknown);
    queue.put(&collect_key(1, 1), vec![10]);
    queue.put(&collect_key(1, 2), vec![20]);
    queue.put(&collect_key(1, 1), vec![99]);
    assert_eq!(queue.poll(&collect_key(1, 1)), DapCollectJob::Pending);
    let pending = queue.get_pending_collect_jobs();
    assert_eq!(pending.len(), 2);
    assert_eq!(pending[0].1, vec![10]);
    assert_eq!(pending[1].1, vec![20]);
    queue.finish(&collect_key(1, 1), vec![42]);
    assert_eq!(queue.poll(&collect_key(1, 1)), DapCollectJob::Done(vec![42]));
    let pending = queue.get_pending_collect_jobs();
    assert_eq!(pending.len(), 1);
    assert_eq!(pending[0].1, vec![20]);
}

#[test]
fn finishing_a_fixed_size_collection_removes_its_batch() {
    let mut jobs = CollectJobQueue::new();
    let mut batches = LeaderBatchQueue::new(2, 2);
    batches.assign(4, &vec![BatchId([1; 32]), BatchId([2; 32])]);
    jobs.put(&collect_key(1, 1), vec![1]);
    finish_collect_job(
        &mut jobs,
        &mut batches,
        &collect_key(1, 1),
        &PartialBatchSelector::FixedSizeByBatchId { batch_id: BatchId([1; 32]) },
        vec![5],
    );
    assert_eq!(jobs.poll(&collect_key(1, 1)), DapCollectJob::Done(vec![5]));
    assert_eq!(batches.batches.len(), 1);
    assert_eq!(batches.current_batch(), Some(BatchId([2; 32])));
    jobs.put(&collect_key(1, 2), vec![2]);
    finish_collect_job(
        &mut jobs,
        &mut batches,
        &collect_key(1, 2),
        &PartialBatchSelector::TimeInterval,
        vec![6],
    );
    assert_eq!(batches.batches.len(), 1);
    assert_eq!(jobs.poll(&collect_key(1, 2)), DapCollectJob::Done(vec![6]));
}

#[test]
fn twelve_pending_reports_into_batches_of_five() {
    let mut pending = ReportsPending::new();
    for i in 0..12u8 {
        pending.put(&ReportId([i; 16]), vec![i]).unwrap();
    }
    let mut queue = LeaderBatchQueue::new(5, 5);
    let ids = vec![BatchId([1; 32]), BatchId([2; 32]), BatchId([3; 32])];
    let parts = get_reports(
        &mut pending,
        DapQueryConfig::FixedSize { max_batch_size: 5 },
        &mut queue,
        &ids,
        100,
    );
    // Exactly two batches become current, with distinct identifiers.
    assert_eq!(parts.len(), 2);
    assert!(matches!(parts[0].0, PartialBatchSelector::FixedSizeByBatchId { batch_id } if batch_id == BatchId([1; 32])));
    assert!(matches!(parts[1].0, PartialBatchSelector::FixedSizeByBatchId { batch_id } if batch_id == BatchId([2; 32])));
    assert_eq!(parts[0].1, (0..5u8).map(|i| vec![i]).collect::<Vec<_>>());
    assert_eq!(parts[1].1, (5..10u8).map(|i| vec![i]).collect::<Vec<_>>());
    // The two remaining reports stay pending and unassigned.
    assert_eq!(pending.reports.len(), 2);
    assert_eq!(pending.reports[0].1, vec![10]);
    assert_eq!(pending.reports[1].1, vec![11]);
    assert_eq!(queue.batches.len(), 2);
    assert_eq!(queue.current_batch(), Some(BatchId([1; 32])));
}

#[test]
fn time_interval_reports_drained_up_to_the_limit() {
    let mut pending = ReportsPending::new();
    for i in 0..4u8 {
        pending.put(&ReportId([i; 16]), vec![i]).unwrap();
    }
    let mut queue = LeaderBatchQueue::new(5, 5);
    let parts = get_reports(&mut pending, DapQueryConfig::TimeInterval, &mut queue, &vec![], 3);
    assert_eq!(parts.len(), 1);
    assert!(matches!(parts[0].0, PartialBatchSelector::TimeInterval));
    assert_eq!(parts[0].1, vec![vec![0], vec![1], vec![2]]);
    assert_eq!(pending.reports.len(), 1);
}

#[test]
fn collect_request_overlapping_a_collected_batch_is_refused() {
    let mut jobs = CollectJobQueue::new();
    let task = TaskId([1; 32]);
    let r = init_collect_job(&mut jobs, &task, None, CollectionJobId([7; 16]), vec![1], &vec![false, true]);
    assert!(matches!(r, Err(DapError::Abort(DapAbort::BatchOverlap))));
    assert!(jobs.jobs.is_empty());
    let id = init_collect_job(&mut jobs, &task, None, CollectionJobId([7; 16]), vec![1], &vec![false, false])
        .unwrap();
    assert_eq!(id.0, [7; 16]);
    assert_eq!(jobs.poll(&collect_key(1, 7)), DapCollectJob::Pending);
    let chosen = init_collect_job(
        &mut jobs,
        &task,
        Some(CollectionJobId([9; 16])),
        CollectionJobId([8; 16]),
        vec![2],
        &vec![],
    )
    .unwrap();
    assert_eq!(chosen.0, [9; 16]);
    assert_eq!(jobs.poll(&collect_key(1, 9)), DapCollectJob::Pending);
}

#[test]
fn draft02_init_request_at_draft04_aborts_without_state() {
    let store = HelperStateStore::new();
    let got = DapMediaType::from_str_for_version(
        DapVersion::Draft04,
        Some("application/dap-aggregate-initialize-req"),
    );
    let r = require_media_type(&got, &DapMediaType::AggregationJobInitReq);
    assert!(matches!(r, Err(DapError::Abort(_))));
    assert!(store.states.is_empty());
    let ok = DapMediaType::from_str_for_version(
        DapVersion::Draft04,
        Some("application/dap-aggregation-job-init-req"),
    );
    assert!(require_media_type(&ok, &DapMediaType::AggregationJobInitReq).is_ok());
}
