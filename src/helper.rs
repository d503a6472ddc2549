//! The Helper's durable state per aggregation job: the continuation of a paused
//! job, persisted as hex, and the init request with the response it was given,
//! so that a re-sent request gets the same response.

use crate::constants::DapMediaType;
use crate::error::{DapAbort, DapError};
use crate::keyed::{entry_lookup, find_entry, set_entry, Key};
use crate::messages::{
    constant_time_eq, decode_hex, encode_hex, hex_decode_spec, hex_spec, is_hex,
    lemma_hex_round_trip, TaskId,
};
use vstd::prelude::*;
use vstd::slice::slice_to_vec;

verus! {

/// An aggregation job identifier: 16 bytes chosen by the Leader.
#[derive(Clone, Copy, Debug)]
pub struct AggregationJobId(pub [u8; 16]);

impl View for AggregationJobId {
    type V = Seq<u8>;

    open spec fn view(&self) -> Seq<u8> {
        self.0@
    }
}

/// An aggregation job of a task.
#[derive(Clone, Copy, Debug)]
pub struct AggJobKey {
    pub task_id: TaskId,
    pub agg_job_id: AggregationJobId,
}

impl View for AggJobKey {
    type V = (Seq<u8>, Seq<u8>);

    open spec fn view(&self) -> (Seq<u8>, Seq<u8>) {
        (self.task_id@, self.agg_job_id@)
    }
}

impl Key for AggJobKey {
    fn same_key(&self, other: &Self) -> (r: bool) {
        let same_task = self.task_id.same_as(&other.task_id);
        let same_job = constant_time_eq(self.agg_job_id.0.as_slice(), other.agg_job_id.0.as_slice());
        same_task && same_job
    }
}

/// Require a request of the expected media type. Any other, among them the
/// content type of another draft, aborts the request before any state of the
/// job is touched.
pub fn require_media_type(got: &DapMediaType, expected: &DapMediaType) -> (r: Result<(), DapError>)
    ensures
        (r is Ok) == (got@ == expected@),
        r is Err ==> r matches Err(DapError::Abort(DapAbort::InvalidMessage { .. })),
{
    if got.eq(expected) {
        Ok(())
    } else {
        Err(
            DapError::Abort(
                DapAbort::InvalidMessage { detail: "unexpected media type".to_owned() },
            ),
        )
    }
}

/// The continuations of paused aggregation jobs, each stored as hex.
pub struct HelperStateStore {
    pub states: Vec<(AggJobKey, String)>,
}

/// The stored text of a job's continuation, if any.
pub open spec fn stored_state(states: Seq<(AggJobKey, String)>, key: (Seq<u8>, Seq<u8>)) -> Option<
    Seq<char>,
> {
    match entry_lookup(states, key) {
        Some(s) => Some(s@),
        None => None,
    }
}

impl HelperStateStore {
    pub fn new() -> (r: Self)
        ensures
            r.states@.len() == 0,
    {
        HelperStateStore { states: Vec::new() }
    }

    /// Persist the encoded continuation of a job.
    pub fn put_helper_state(&mut self, key: &AggJobKey, state: &Vec<u8>)
        ensures
            stored_state(final(self).states@, key@) == Some(hex_spec(state@)),
            forall|k: (Seq<u8>, Seq<u8>)|
                k != key@ ==> entry_lookup(final(self).states@, k) == entry_lookup(
                    old(self).states@,
                    k,
                ),
    {
        let hex = encode_hex(state.as_slice());
        set_entry(&mut self.states, key, hex);
    }

    /// The encoded continuation of a job, if one is stored. Fails where the
    /// stored text is not hex.
    pub fn get_helper_state(&self, key: &AggJobKey) -> (r: Result<Option<Vec<u8>>, DapError>)
        ensures
            match stored_state(self.states@, key@) {
                None => r matches Ok(None),
                Some(s) => if is_hex(s) {
                    r matches Ok(Some(v)) && v@ == hex_decode_spec(s)
                } else {
                    r matches Err(DapError::Fatal(_))
                },
            },
    {
        match find_entry(&self.states, key) {
            None => Ok(None),
            Some(i) => match decode_hex(self.states[i].1.as_str()) {
                Some(v) => Ok(Some(v)),
                None => Err(DapError::Fatal("stored helper state is not valid hex".to_owned())),
            },
        }
    }
}

/// A stored continuation is read back as it was put.
pub proof fn lemma_helper_state_round_trip(
    states: Seq<(AggJobKey, String)>,
    key: (Seq<u8>, Seq<u8>),
    state: Seq<u8>,
)
    requires
        stored_state(states, key) == Some(hex_spec(state)),
    ensures
        is_hex(hex_spec(state)),
        hex_decode_spec(hex_spec(state)) == state,
{
    lemma_hex_round_trip(state);
}

/// An init request of an aggregation job and the response the Helper gave.
#[derive(Clone, Debug)]
pub struct InitRecord {
    pub request: Vec<u8>,
    pub response: Vec<u8>,
}

/// The init requests the Helper answered, with their responses.
pub struct AggJobResponses {
    pub records: Vec<(AggJobKey, InitRecord)>,
}

/// What answers an init request: `Some(None)` where the job is new and must be
/// computed, `Some(Some(resp))` where the same request was answered with
/// `resp`, and `None` where the job was initialized by a different request.
pub open spec fn init_outcome(
    records: Seq<(AggJobKey, InitRecord)>,
    key: (Seq<u8>, Seq<u8>),
    request: Seq<u8>,
) -> Option<Option<Seq<u8>>> {
    match entry_lookup(records, key) {
        None => Some(None),
        Some(rec) => if rec.request@ == request {
            Some(Some(rec.response@))
        } else {
            None
        },
    }
}

impl AggJobResponses {
    pub fn new() -> (r: Self)
        ensures
            r.records@.len() == 0,
    {
        AggJobResponses { records: Vec::new() }
    }

    /// Check an init request against those answered: the stored response for a
    /// re-sent request, nothing for a new job, and an abort for a job that a
    /// different request initialized.
    pub fn check_init(&self, key: &AggJobKey, request: &Vec<u8>) -> (r: Result<
        Option<Vec<u8>>,
        DapError,
    >)
        ensures
            match init_outcome(self.records@, key@, request@) {
                Some(None) => r matches Ok(None),
                Some(Some(resp)) => r matches Ok(Some(v)) && v@ == resp,
                None => r matches Err(DapError::Abort(_)),
            },
    {
        match find_entry(&self.records, key) {
            None => Ok(None),
            Some(i) => {
                let rec = &self.records[i].1;
                if constant_time_eq(rec.request.as_slice(), request.as_slice()) {
                    Ok(Some(slice_to_vec(rec.response.as_slice())))
                } else {
                    Err(
                        DapError::Abort(
                            DapAbort::InvalidMessage {
                                detail: "aggregation job was initialized by a different request".to_owned(),
                            },
                        ),
                    )
                }
            },
        }
    }

    /// Record the response given to an init request.
    pub fn record_init(&mut self, key: &AggJobKey, request: Vec<u8>, response: Vec<u8>)
        ensures
            entry_lookup(final(self).records@, key@) == Some(InitRecord { request, response }),
            forall|k: (Seq<u8>, Seq<u8>)|
                k != key@ ==> entry_lookup(final(self).records@, k) == entry_lookup(
                    old(self).records@,
                    k,
                ),
    {
        set_entry(&mut self.records, key, InitRecord { request, response });
    }
}

/// Once the response to an init request is recorded, re-sending the identical
/// request yields the identical response, and a different request for the job
/// is refused.
pub proof fn lemma_init_idempotent(
    records: Seq<(AggJobKey, InitRecord)>,
    key: (Seq<u8>, Seq<u8>),
    rec: InitRecord,
    other: Seq<u8>,
)
    requires
        entry_lookup(records, key) == Some(rec),
        other != rec.request@,
    ensures
        init_outcome(records, key, rec.request@) == Some(Some(rec.response@)),
        init_outcome(records, key, other) is None,
{
}

} // verus!
