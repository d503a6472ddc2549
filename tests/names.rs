use daphne::batch::DapBatchBucket;
use daphne::constants::DapVersion;
use daphne::helper::{AggJobKey, AggregationJobId};
use daphne::messages::{BatchId, TaskId};
use daphne::names::{
    decimal, durable_name_agg_store, durable_name_helper_state, durable_name_reports_pending,
    durable_name_reports_processed,
};

fn task() -> TaskId {
    let mut bytes = [0u8; 32];
    bytes[0] = 0xab;
    TaskId(bytes)
}

fn task_hex() -> String {
    format!("ab{}", "0".repeat(62))
}

#[test]
fn decimal_text() {
    assert_eq!(decimal(0), "0");
    assert_eq!(decimal(7), "7");
    assert_eq!(decimal(120), "120");
    assert_eq!(decimal(u64::MAX), u64::MAX.to_string());
}

#[test]
fn aggregate_store_names() {
    assert_eq!(
        durable_name_agg_store(
            DapVersion::Draft04,
            &task(),
            &DapBatchBucket::TimeInterval { batch_window: 1200 }
        ),
        format!("agg_store/v04/{}/window/1200", task_hex())
    );
    assert_eq!(
        durable_name_agg_store(
            DapVersion::Draft02,
            &task(),
            &DapBatchBucket::FixedSize { batch_id: BatchId([0x11; 32]) }
        ),
        format!("agg_store/v02/{}/batch/{}", task_hex(), "11".repeat(32))
    );
}

#[test]
fn helper_state_names() {
    let key = AggJobKey { task_id: task(), agg_job_id: AggregationJobId([0xf0; 16]) };
    assert_eq!(
        durable_name_helper_state(DapVersion::Draft04, &key),
        format!("helper_state/v04/{}/{}", task_hex(), "f0".repeat(16))
    );
}

#[test]
fn report_store_names() {
    assert_eq!(
        durable_name_reports_pending(DapVersion::Draft02, &task(), 3725, 3600),
        format!("reports_pending/v02/{}/3600", task_hex())
    );
    assert_eq!(
        durable_name_reports_processed(DapVersion::Draft02, &task(), 3599, 3600),
        format!("reports_processed/v02/{}/0", task_hex())
    );
}
