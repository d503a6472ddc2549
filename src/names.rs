//! Names of the durable objects that hold the aggregator's state:
//! `agg_store/{version}/{task_id_hex}/{bucket}`,
//! `helper_state/{version}/{task_id_hex}/{agg_job_id_hex}`,
//! `reports_pending/{version}/{task_id_hex}/{time_bucket}` and
//! `reports_processed/{version}/{task_id_hex}/{time_bucket}`.

use crate::batch::{window_of, BucketView, DapBatchBucket};
use crate::constants::DapVersion;
use crate::helper::AggJobKey;
use crate::messages::{encode_hex, hex_digits, hex_spec, TaskId};
use vstd::prelude::*;

verus! {

/// Decimal text of a number, without leading zeros.
pub open spec fn decimal_spec(n: nat) -> Seq<char>
    decreases n,
{
    if n < 10 {
        seq![hex_digits()[n as int]]
    } else {
        decimal_spec(n / 10).push(hex_digits()[(n % 10) as int])
    }
}

/// The text of one decimal digit.
fn digit_str(d: u64) -> (r: &'static str)
    requires
        d < 10,
    ensures
        r@ == seq![hex_digits()[d as int]],
{
    proof {
        reveal_strlit("0");
        reveal_strlit("1");
        reveal_strlit("2");
        reveal_strlit("3");
        reveal_strlit("4");
        reveal_strlit("5");
        reveal_strlit("6");
        reveal_strlit("7");
        reveal_strlit("8");
        reveal_strlit("9");
    }
    let r = match d {
        0 => "0",
        1 => "1",
        2 => "2",
        3 => "3",
        4 => "4",
        5 => "5",
        6 => "6",
        7 => "7",
        8 => "8",
        _ => "9",
    };
    assert(r@ =~= seq![hex_digits()[d as int]]);
    r
}

/// Decimal text of a number.
pub fn decimal(n: u64) -> (r: String)
    ensures
        r@ == decimal_spec(n as nat),
    decreases n,
{
    let mut s = if n >= 10 {
        decimal(n / 10)
    } else {
        String::new()
    };
    s.append(digit_str(n % 10));
    assert(s@ =~= decimal_spec(n as nat));
    s
}

/// The text of a version in names.
pub open spec fn version_text(v: DapVersion) -> Seq<char> {
    match v {
        DapVersion::Draft02 => "v02"@,
        DapVersion::Draft04 => "v04"@,
        DapVersion::Unknown => "unknown"@,
    }
}

/// The text of a version in names.
pub fn version_str(v: DapVersion) -> (r: &'static str)
    ensures
        r@ == version_text(v),
{
    match v {
        DapVersion::Draft02 => "v02",
        DapVersion::Draft04 => "v04",
        DapVersion::Unknown => "unknown",
    }
}

/// The text of a bucket in names: `window/{start}` or `batch/{batch_id_hex}`.
pub open spec fn bucket_text(b: BucketView) -> Seq<char> {
    match b {
        BucketView::TimeInterval(start) => "window/"@ + decimal_spec(start as nat),
        BucketView::FixedSize(id) => "batch/"@ + hex_spec(id),
    }
}

/// The name `{prefix}/{version}/{task_id_hex}/{suffix}`.
pub open spec fn task_name_spec(
    prefix: Seq<char>,
    version: DapVersion,
    task: Seq<u8>,
    suffix: Seq<char>,
) -> Seq<char> {
    prefix + "/"@ + version_text(version) + "/"@ + hex_spec(task) + "/"@ + suffix
}

/// The name `{prefix}/{version}/{task_id_hex}/{suffix}`.
fn task_name(prefix: &str, version: DapVersion, task_id: &TaskId, suffix: &str) -> (r: String)
    ensures
        r@ == task_name_spec(prefix@, version, task_id@, suffix@),
{
    let mut s = prefix.to_owned();
    s.append("/");
    s.append(version_str(version));
    s.append("/");
    let hex = task_id.to_hex();
    s.append(hex.as_str());
    s.append("/");
    s.append(suffix);
    s
}

/// The text of a bucket in names.
pub fn bucket_name(bucket: &DapBatchBucket) -> (r: String)
    ensures
        r@ == bucket_text(bucket@),
{
    match bucket {
        DapBatchBucket::TimeInterval { batch_window } => {
            let mut s = "window/".to_owned();
            let d = decimal(*batch_window);
            s.append(d.as_str());
            s
        },
        DapBatchBucket::FixedSize { batch_id } => {
            let mut s = "batch/".to_owned();
            let h = batch_id.to_hex();
            s.append(h.as_str());
            s
        },
    }
}

/// The name of the aggregate store of a bucket of a task.
pub fn durable_name_agg_store(version: DapVersion, task_id: &TaskId, bucket: &DapBatchBucket) -> (r:
    String)
    ensures
        r@ == task_name_spec("agg_store"@, version, task_id@, bucket_text(bucket@)),
{
    let b = bucket_name(bucket);
    task_name("agg_store", version, task_id, b.as_str())
}

/// The name of the Helper's state of an aggregation job.
pub fn durable_name_helper_state(version: DapVersion, key: &AggJobKey) -> (r: String)
    ensures
        r@ == task_name_spec("helper_state"@, version, key.task_id@, hex_spec(key.agg_job_id@)),
{
    let h = encode_hex(key.agg_job_id.0.as_slice());
    task_name("helper_state", version, &key.task_id, h.as_str())
}

/// The text of the storage epoch of a report time.
pub open spec fn time_bucket_text(time: u64, epoch: u64) -> Seq<char> {
    decimal_spec(window_of(time as int, epoch as int) as nat)
}

/// The name of the store of pending reports of a task whose storage epoch
/// holds the report time.
pub fn durable_name_reports_pending(version: DapVersion, task_id: &TaskId, time: u64, epoch: u64) -> (r:
    String)
    requires
        epoch > 0,
    ensures
        r@ == task_name_spec("reports_pending"@, version, task_id@, time_bucket_text(time, epoch)),
{
    let d = decimal(crate::batch::bucket_start(time, epoch));
    task_name("reports_pending", version, task_id, d.as_str())
}

/// The name of the store of processed report identifiers of a task whose
/// storage epoch holds the report time.
pub fn durable_name_reports_processed(version: DapVersion, task_id: &TaskId, time: u64, epoch: u64) -> (r:
    String)
    requires
        epoch > 0,
    ensures
        r@ == task_name_spec("reports_processed"@, version, task_id@, time_bucket_text(time, epoch)),
{
    let d = decimal(crate::batch::bucket_start(time, epoch));
    task_name("reports_processed", version, task_id, d.as_str())
}

} // verus!
