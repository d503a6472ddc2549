//! Media types of DAP messages, and their content-type strings in each
//! supported draft of the protocol.

use vstd::prelude::*;

verus! {

const DRAFT02_MEDIA_TYPE_AGG_CONT_REQ: &'static str = "application/dap-aggregate-continue-req";
const DRAFT02_MEDIA_TYPE_AGG_CONT_RESP: &'static str = "application/dap-aggregate-continue-resp";
const DRAFT02_MEDIA_TYPE_AGG_INIT_REQ: &'static str = "application/dap-aggregate-initialize-req";
const DRAFT02_MEDIA_TYPE_AGG_INIT_RESP: &'static str = "application/dap-aggregate-initialize-resp";
const DRAFT02_MEDIA_TYPE_AGG_SHARE_RESP: &'static str = "application/dap-aggregate-share-resp";
const DRAFT02_MEDIA_TYPE_COLLECT_RESP: &'static str = "application/dap-collect-resp";
const DRAFT02_MEDIA_TYPE_HPKE_CONFIG: &'static str = "application/dap-hpke-config";
const MEDIA_TYPE_AGG_JOB_CONT_REQ: &'static str = "application/dap-aggregation-job-continue-req";
const MEDIA_TYPE_AGG_JOB_INIT_REQ: &'static str = "application/dap-aggregation-job-init-req";
const MEDIA_TYPE_AGG_JOB_RESP: &'static str = "application/dap-aggregation-job-resp";
const MEDIA_TYPE_AGG_SHARE_REQ: &'static str = "application/dap-aggregate-share-req";
const MEDIA_TYPE_AGG_SHARE: &'static str = "application/dap-aggregate-share";
const MEDIA_TYPE_COLLECTION: &'static str = "application/dap-collection";
const MEDIA_TYPE_COLLECT_REQ: &'static str = "application/dap-collect-req";
const MEDIA_TYPE_HPKE_CONFIG_LIST: &'static str = "application/dap-hpke-config-list";
const MEDIA_TYPE_REPORT: &'static str = "application/dap-report";

/// Wire version of the protocol.
#[derive(Clone, Copy, Debug, PartialEq, Eq, Structural, Hash)]
pub enum DapVersion {
    Draft02,
    Draft04,
    Unknown,
}

/// The role that sends a given message.
#[derive(Clone, Copy, Debug, PartialEq, Eq, Structural, Hash)]
pub enum DapSender {
    Client,
    Collector,
    Helper,
    Leader,
}

/// Media type for each DAP request. This is included in the "content-type" HTTP header.
#[derive(Clone, Debug)]
pub enum DapMediaType {
    AggregationJobInitReq,
    AggregationJobResp,
    AggregationJobContinueReq,
    /// draft02 compatibility: the latest draft doesn't define a separate media type for
    /// initialize and continue responses, but draft02 does.
    Draft02AggregateContinueResp,
    AggregateShareReq,
    AggregateShare,
    CollectReq,
    Collection,
    HpkeConfigList,
    Report,
    /// The content-type does not match a known media type.
    Invalid(String),
    /// No content-type header found.
    Missing,
}

/// Mathematical view of a media type: the raw text of an invalid one is a
/// sequence of characters.
pub enum MediaTypeView {
    AggregationJobInitReq,
    AggregationJobResp,
    AggregationJobContinueReq,
    Draft02AggregateContinueResp,
    AggregateShareReq,
    AggregateShare,
    CollectReq,
    Collection,
    HpkeConfigList,
    Report,
    Invalid(Seq<char>),
    Missing,
}

impl View for DapMediaType {
    type V = MediaTypeView;

    open spec fn view(&self) -> MediaTypeView {
        match self {
            DapMediaType::AggregationJobInitReq => MediaTypeView::AggregationJobInitReq,
            DapMediaType::AggregationJobResp => MediaTypeView::AggregationJobResp,
            DapMediaType::AggregationJobContinueReq => MediaTypeView::AggregationJobContinueReq,
            DapMediaType::Draft02AggregateContinueResp => MediaTypeView::Draft02AggregateContinueResp,
            DapMediaType::AggregateShareReq => MediaTypeView::AggregateShareReq,
            DapMediaType::AggregateShare => MediaTypeView::AggregateShare,
            DapMediaType::CollectReq => MediaTypeView::CollectReq,
            DapMediaType::Collection => MediaTypeView::Collection,
            DapMediaType::HpkeConfigList => MediaTypeView::HpkeConfigList,
            DapMediaType::Report => MediaTypeView::Report,
            DapMediaType::Invalid(s) => MediaTypeView::Invalid(s@),
            DapMediaType::Missing => MediaTypeView::Missing,
        }
    }
}

/// A media type that names a message kind (neither `Invalid` nor `Missing`).
pub open spec fn is_message_kind(m: MediaTypeView) -> bool {
    !(m is Invalid) && !(m is Missing)
}

/// The sender of each kind of message.
pub open spec fn sender_spec(m: MediaTypeView) -> Option<DapSender> {
    match m {
        MediaTypeView::AggregationJobInitReq
        | MediaTypeView::AggregationJobContinueReq
        | MediaTypeView::AggregateShareReq
        | MediaTypeView::Collection
        | MediaTypeView::HpkeConfigList => Some(DapSender::Leader),
        MediaTypeView::AggregationJobResp
        | MediaTypeView::Draft02AggregateContinueResp
        | MediaTypeView::AggregateShare => Some(DapSender::Helper),
        MediaTypeView::Report => Some(DapSender::Client),
        MediaTypeView::CollectReq => Some(DapSender::Collector),
        MediaTypeView::Invalid(_) | MediaTypeView::Missing => None,
    }
}

/// The name of a media type as `{:?}` prints it; the text of an invalid one
/// is written between double quotes.
pub open spec fn media_type_debug(m: MediaTypeView) -> Seq<char> {
    match m {
        MediaTypeView::AggregationJobInitReq => "AggregationJobInitReq"@,
        MediaTypeView::AggregationJobResp => "AggregationJobResp"@,
        MediaTypeView::AggregationJobContinueReq => "AggregationJobContinueReq"@,
        MediaTypeView::Draft02AggregateContinueResp => "Draft02AggregateContinueResp"@,
        MediaTypeView::AggregateShareReq => "AggregateShareReq"@,
        MediaTypeView::AggregateShare => "AggregateShare"@,
        MediaTypeView::CollectReq => "CollectReq"@,
        MediaTypeView::Collection => "Collection"@,
        MediaTypeView::HpkeConfigList => "HpkeConfigList"@,
        MediaTypeView::Report => "Report"@,
        MediaTypeView::Missing => "Missing"@,
        MediaTypeView::Invalid(t) => "Invalid(\""@ + t + "\")"@,
    }
}

/// The name of a sender as `{:?}` prints it.
pub open spec fn sender_debug(s: DapSender) -> Seq<char> {
    match s {
        DapSender::Client => "Client"@,
        DapSender::Collector => "Collector"@,
        DapSender::Helper => "Helper"@,
        DapSender::Leader => "Leader"@,
    }
}

/// The name of a sender as `{:?}` prints it.
pub fn sender_name(s: DapSender) -> (r: &'static str)
    ensures
        r@ == sender_debug(s),
{
    match s {
        DapSender::Client => "Client",
        DapSender::Collector => "Collector",
        DapSender::Helper => "Helper",
        DapSender::Leader => "Leader",
    }
}

/// The content-type table of each draft. An invalid media type renders as its
/// raw text; a missing one, and a kind that the draft does not define, render as
/// nothing.
pub open spec fn content_type_spec(version: DapVersion, m: MediaTypeView) -> Option<Seq<char>> {
    match m {
        MediaTypeView::Invalid(s) => Some(s),
        MediaTypeView::Missing => None,
        _ => match version {
            DapVersion::Draft02 => match m {
                MediaTypeView::AggregationJobInitReq => Some(
                    "application/dap-aggregate-initialize-req"@,
                ),
                MediaTypeView::AggregationJobResp => Some(
                    "application/dap-aggregate-initialize-resp"@,
                ),
                MediaTypeView::AggregationJobContinueReq => Some(
                    "application/dap-aggregate-continue-req"@,
                ),
                MediaTypeView::Draft02AggregateContinueResp => Some(
                    "application/dap-aggregate-continue-resp"@,
                ),
                MediaTypeView::AggregateShareReq => Some("application/dap-aggregate-share-req"@),
                MediaTypeView::AggregateShare => Some("application/dap-aggregate-share-resp"@),
                MediaTypeView::CollectReq => Some("application/dap-collect-req"@),
                MediaTypeView::Collection => Some("application/dap-collect-resp"@),
                MediaTypeView::HpkeConfigList => Some("application/dap-hpke-config"@),
                _ => Some("application/dap-report"@),
            },
            DapVersion::Draft04 => match m {
                MediaTypeView::AggregationJobInitReq => Some(
                    "application/dap-aggregation-job-init-req"@,
                ),
                MediaTypeView::AggregationJobResp => Some("application/dap-aggregation-job-resp"@),
                MediaTypeView::AggregationJobContinueReq => Some(
                    "application/dap-aggregation-job-continue-req"@,
                ),
                MediaTypeView::Draft02AggregateContinueResp => None,
                MediaTypeView::AggregateShareReq => Some("application/dap-aggregate-share-req"@),
                MediaTypeView::AggregateShare => Some("application/dap-aggregate-share"@),
                MediaTypeView::CollectReq => Some("application/dap-collect-req"@),
                MediaTypeView::Collection => Some("application/dap-collection"@),
                MediaTypeView::HpkeConfigList => Some("application/dap-hpke-config-list"@),
                _ => Some("application/dap-report"@),
            },
            DapVersion::Unknown => None,
        },
    }
}

/// A message kind that has a content type in the given draft.
pub open spec fn defined_in(version: DapVersion, m: MediaTypeView) -> bool {
    is_message_kind(m) && content_type_spec(version, m) is Some
}

/// Parsing inverts the table of the draft: a string names the kind whose
/// content type it is, and any other string is invalid.
pub open spec fn parse_spec(version: DapVersion, content_type: Option<Seq<char>>) -> MediaTypeView {
    match content_type {
        None => MediaTypeView::Missing,
        Some(s) => if exists|m: MediaTypeView|
            #[trigger] defined_in(version, m) && content_type_spec(version, m) == Some(s) {
            choose|m: MediaTypeView|
                #[trigger] defined_in(version, m) && content_type_spec(version, m) == Some(s)
        } else {
            MediaTypeView::Invalid(s)
        },
    }
}

/// Rendering is possible except for a message kind in an unknown version.
pub open spec fn renderable(version: DapVersion, m: MediaTypeView) -> bool {
    version != DapVersion::Unknown || !is_message_kind(m) || m is Draft02AggregateContinueResp
}

/// The text of an optional string slice.
pub open spec fn str_opt_view(s: Option<&str>) -> Option<Seq<char>> {
    match s {
        Some(t) => Some(t@),
        None => None,
    }
}

/// Characters of two strings are equal.
pub fn str_eq(a: &str, b: &str) -> (r: bool)
    ensures
        r == (a@ == b@),
{
    let n = a.unicode_len();
    if n != b.unicode_len() {
        return false;
    }
    let mut i: usize = 0;
    while i < n
        invariant
            n == a@.len(),
            n == b@.len(),
            i <= n,
            forall|j: int| 0 <= j < i ==> a@[j] == b@[j],
        decreases n - i,
    {
        if a.get_char(i) != b.get_char(i) {
            return false;
        }
        i += 1;
    }
    assert(a@ =~= b@);
    true
}

/// The content type strings of distinct kinds differ within one draft.
pub proof fn lemma_content_types_distinct(version: DapVersion, m1: MediaTypeView, m2: MediaTypeView)
    requires
        defined_in(version, m1),
        defined_in(version, m2),
        content_type_spec(version, m1) == content_type_spec(version, m2),
    ensures
        m1 == m2,
{
    reveal_strlit("application/dap-aggregate-initialize-req");
    reveal_strlit("application/dap-aggregate-initialize-resp");
    reveal_strlit("application/dap-aggregate-continue-req");
    reveal_strlit("application/dap-aggregate-continue-resp");
    reveal_strlit("application/dap-aggregate-share-req");
    reveal_strlit("application/dap-aggregate-share-resp");
    reveal_strlit("application/dap-collect-req");
    reveal_strlit("application/dap-collect-resp");
    reveal_strlit("application/dap-hpke-config");
    reveal_strlit("application/dap-report");
    reveal_strlit("application/dap-aggregation-job-init-req");
    reveal_strlit("application/dap-aggregation-job-resp");
    reveal_strlit("application/dap-aggregation-job-continue-req");
    reveal_strlit("application/dap-aggregate-share");
    reveal_strlit("application/dap-collection");
    reveal_strlit("application/dap-hpke-config-list");
    assert("application/dap-aggregate-initialize-req"@.len() == 40);
    assert("application/dap-aggregate-initialize-resp"@.len() == 41);
    assert("application/dap-aggregate-continue-req"@.len() == 38);
    assert("application/dap-aggregate-continue-resp"@.len() == 39);
    assert("application/dap-aggregate-share-req"@.len() == 35);
    assert("application/dap-aggregate-share-resp"@.len() == 36);
    assert("application/dap-collect-req"@.len() == 27);
    assert("application/dap-collect-resp"@.len() == 28);
    assert("application/dap-hpke-config"@.len() == 27);
    assert("application/dap-report"@.len() == 22);
    assert("application/dap-aggregation-job-init-req"@.len() == 40);
    assert("application/dap-aggregation-job-resp"@.len() == 36);
    assert("application/dap-aggregation-job-continue-req"@.len() == 44);
    assert("application/dap-aggregate-share"@.len() == 31);
    assert("application/dap-collection"@.len() == 26);
    assert("application/dap-hpke-config-list"@.len() == 32);
    assert("application/dap-collect-req"@[16] != "application/dap-hpke-config"@[16]);
}

impl DapMediaType {
    /// The name of the media type as `{:?}` prints it, for an invalid one
    /// whose text holds no quote, backslash or control character.
    pub fn debug_text(&self) -> (r: String)
        ensures
            r@ == media_type_debug(self@),
    {
        match self {
            DapMediaType::AggregationJobInitReq => "AggregationJobInitReq".to_owned(),
            DapMediaType::AggregationJobResp => "AggregationJobResp".to_owned(),
            DapMediaType::AggregationJobContinueReq => "AggregationJobContinueReq".to_owned(),
            DapMediaType::Draft02AggregateContinueResp => "Draft02AggregateContinueResp".to_owned(),
            DapMediaType::AggregateShareReq => "AggregateShareReq".to_owned(),
            DapMediaType::AggregateShare => "AggregateShare".to_owned(),
            DapMediaType::CollectReq => "CollectReq".to_owned(),
            DapMediaType::Collection => "Collection".to_owned(),
            DapMediaType::HpkeConfigList => "HpkeConfigList".to_owned(),
            DapMediaType::Report => "Report".to_owned(),
            DapMediaType::Missing => "Missing".to_owned(),
            DapMediaType::Invalid(t) => {
                let mut s = "Invalid(\"".to_owned();
                s.append(t.as_str());
                s.append("\")");
                s
            },
        }
    }

    /// Return the sender that would send a DAP request or response with the given media type
    /// (or none if the sender can't be determined).
    pub fn sender(&self) -> (r: Option<DapSender>)
        ensures
            r == sender_spec(self@),
    {
        match self {
            DapMediaType::AggregationJobInitReq
            | DapMediaType::AggregationJobContinueReq
            | DapMediaType::AggregateShareReq
            | DapMediaType::Collection
            | DapMediaType::HpkeConfigList => Some(DapSender::Leader),
            DapMediaType::AggregationJobResp
            | DapMediaType::Draft02AggregateContinueResp
            | DapMediaType::AggregateShare => Some(DapSender::Helper),
            DapMediaType::Report => Some(DapSender::Client),
            DapMediaType::CollectReq => Some(DapSender::Collector),
            DapMediaType::Invalid(..) | DapMediaType::Missing => None,
        }
    }

    /// Parse the media type from the content-type HTTP header.
    pub fn from_str_for_version(version: DapVersion, content_type: Option<&str>) -> (r: Self)
        ensures
            r@ == parse_spec(version, str_opt_view(content_type)),
    {
        match content_type {
            None => DapMediaType::Missing,
            Some(ct) => match Self::lookup(version, ct) {
                Some(m) => {
                    proof {
                        lemma_parse_kind(version, m@, ct@);
                    }
                    m
                },
                None => DapMediaType::Invalid(ct.to_owned()),
            },
        }
    }

    /// The message kind whose content type in `version` is `ct`, if any.
    fn lookup(version: DapVersion, ct: &str) -> (r: Option<Self>)
        ensures
            match r {
                Some(m) => defined_in(version, m@) && content_type_spec(version, m@) == Some(ct@),
                None => forall|m: MediaTypeView|
                    #[trigger] defined_in(version, m) ==> content_type_spec(version, m) != Some(
                        ct@,
                    ),
            },
    {
        if version == DapVersion::Unknown {
            return None;
        }
        let kinds = vec![
            DapMediaType::AggregationJobInitReq,
            DapMediaType::AggregationJobResp,
            DapMediaType::AggregationJobContinueReq,
            DapMediaType::Draft02AggregateContinueResp,
            DapMediaType::AggregateShareReq,
            DapMediaType::AggregateShare,
            DapMediaType::CollectReq,
            DapMediaType::Collection,
            DapMediaType::HpkeConfigList,
            DapMediaType::Report,
        ];
        let mut i: usize = 0;
        while i < kinds.len()
            invariant
                version != DapVersion::Unknown,
                i <= kinds@.len(),
                forall|j: int| 0 <= j < kinds@.len() ==> is_message_kind(#[trigger] kinds@[j]@),
                forall|j: int|
                    0 <= j < i ==> content_type_spec(version, #[trigger] kinds@[j]@) != Some(ct@),
            decreases kinds@.len() - i,
        {
            let k = &kinds[i];
            match k.as_str_for_version(version) {
                Some(s) => {
                    if str_eq(s, ct) {
                        return Some(k.clone_kind());
                    }
                },
                None => {},
            }
            i += 1;
        }
        assert forall|m: MediaTypeView| #[trigger]
            defined_in(version, m) implies content_type_spec(version, m) != Some(ct@) by {
            match m {
                MediaTypeView::AggregationJobInitReq => assert(kinds@[0]@ == m),
                MediaTypeView::AggregationJobResp => assert(kinds@[1]@ == m),
                MediaTypeView::AggregationJobContinueReq => assert(kinds@[2]@ == m),
                MediaTypeView::Draft02AggregateContinueResp => assert(kinds@[3]@ == m),
                MediaTypeView::AggregateShareReq => assert(kinds@[4]@ == m),
                MediaTypeView::AggregateShare => assert(kinds@[5]@ == m),
                MediaTypeView::CollectReq => assert(kinds@[6]@ == m),
                MediaTypeView::Collection => assert(kinds@[7]@ == m),
                MediaTypeView::HpkeConfigList => assert(kinds@[8]@ == m),
                MediaTypeView::Report => assert(kinds@[9]@ == m),
                _ => {},
            }
        }
        None
    }

    /// A copy of a message kind.
    fn clone_kind(&self) -> (r: Self)
        requires
            is_message_kind(self@),
        ensures
            r@ == self@,
    {
        match self {
            DapMediaType::AggregationJobInitReq => DapMediaType::AggregationJobInitReq,
            DapMediaType::AggregationJobResp => DapMediaType::AggregationJobResp,
            DapMediaType::AggregationJobContinueReq => DapMediaType::AggregationJobContinueReq,
            DapMediaType::Draft02AggregateContinueResp => DapMediaType::Draft02AggregateContinueResp,
            DapMediaType::AggregateShareReq => DapMediaType::AggregateShareReq,
            DapMediaType::AggregateShare => DapMediaType::AggregateShare,
            DapMediaType::CollectReq => DapMediaType::CollectReq,
            DapMediaType::Collection => DapMediaType::Collection,
            DapMediaType::HpkeConfigList => DapMediaType::HpkeConfigList,
            DapMediaType::Report => DapMediaType::Report,
            DapMediaType::Invalid(_) | DapMediaType::Missing => DapMediaType::Missing,
        }
    }

    /// Get the content-type representation of the media type.
    pub fn as_str_for_version(&self, version: DapVersion) -> (r: Option<&str>)
        requires
            renderable(version, self@),
        ensures
            str_opt_view(r) == content_type_spec(version, self@),
    {
        match self {
            DapMediaType::Invalid(content_type) => Some(content_type.as_str()),
            DapMediaType::Missing => None,
            DapMediaType::Draft02AggregateContinueResp => match version {
                DapVersion::Draft02 => Some(DRAFT02_MEDIA_TYPE_AGG_CONT_RESP),
                _ => None,
            },
            _ => match version {
                DapVersion::Draft02 => Some(
                    match self {
                        DapMediaType::AggregationJobInitReq => DRAFT02_MEDIA_TYPE_AGG_INIT_REQ,
                        DapMediaType::AggregationJobResp => DRAFT02_MEDIA_TYPE_AGG_INIT_RESP,
                        DapMediaType::AggregationJobContinueReq => DRAFT02_MEDIA_TYPE_AGG_CONT_REQ,
                        DapMediaType::AggregateShareReq => MEDIA_TYPE_AGG_SHARE_REQ,
                        DapMediaType::AggregateShare => DRAFT02_MEDIA_TYPE_AGG_SHARE_RESP,
                        DapMediaType::CollectReq => MEDIA_TYPE_COLLECT_REQ,
                        DapMediaType::Collection => DRAFT02_MEDIA_TYPE_COLLECT_RESP,
                        DapMediaType::HpkeConfigList => DRAFT02_MEDIA_TYPE_HPKE_CONFIG,
                        _ => MEDIA_TYPE_REPORT,
                    },
                ),
                _ => Some(
                    match self {
                        DapMediaType::AggregationJobInitReq => MEDIA_TYPE_AGG_JOB_INIT_REQ,
                        DapMediaType::AggregationJobResp => MEDIA_TYPE_AGG_JOB_RESP,
                        DapMediaType::AggregationJobContinueReq => MEDIA_TYPE_AGG_JOB_CONT_REQ,
                        DapMediaType::AggregateShareReq => MEDIA_TYPE_AGG_SHARE_REQ,
                        DapMediaType::AggregateShare => MEDIA_TYPE_AGG_SHARE,
                        DapMediaType::CollectReq => MEDIA_TYPE_COLLECT_REQ,
                        DapMediaType::Collection => MEDIA_TYPE_COLLECTION,
                        DapMediaType::HpkeConfigList => MEDIA_TYPE_HPKE_CONFIG_LIST,
                        _ => MEDIA_TYPE_REPORT,
                    },
                ),
            },
        }
    }

    /// draft02 compatibility: the media type of the response to an aggregation-job
    /// continue request, which depends on the version.
    pub fn agg_job_cont_resp_for_version(version: DapVersion) -> (r: Self)
        requires
            version != DapVersion::Unknown,
        ensures
            r@ == (if version == DapVersion::Draft02 {
                MediaTypeView::Draft02AggregateContinueResp
            } else {
                MediaTypeView::AggregationJobResp
            }),
    {
        match version {
            DapVersion::Draft02 => DapMediaType::Draft02AggregateContinueResp,
            _ => DapMediaType::AggregationJobResp,
        }
    }
}

impl PartialEq for DapMediaType {
    fn eq(&self, other: &Self) -> (r: bool) {
        match (self, other) {
            (DapMediaType::Invalid(a), DapMediaType::Invalid(b)) => str_eq(a.as_str(), b.as_str()),
            (DapMediaType::AggregationJobInitReq, DapMediaType::AggregationJobInitReq) => true,
            (DapMediaType::AggregationJobResp, DapMediaType::AggregationJobResp) => true,
            (DapMediaType::AggregationJobContinueReq, DapMediaType::AggregationJobContinueReq) => true,
            (DapMediaType::Draft02AggregateContinueResp, DapMediaType::Draft02AggregateContinueResp) => true,
            (DapMediaType::AggregateShareReq, DapMediaType::AggregateShareReq) => true,
            (DapMediaType::AggregateShare, DapMediaType::AggregateShare) => true,
            (DapMediaType::CollectReq, DapMediaType::CollectReq) => true,
            (DapMediaType::Collection, DapMediaType::Collection) => true,
            (DapMediaType::HpkeConfigList, DapMediaType::HpkeConfigList) => true,
            (DapMediaType::Report, DapMediaType::Report) => true,
            (DapMediaType::Missing, DapMediaType::Missing) => true,
            _ => false,
        }
    }
}

impl vstd::std_specs::cmp::PartialEqSpecImpl for DapMediaType {
    open spec fn obeys_eq_spec() -> bool {
        true
    }

    open spec fn eq_spec(&self, other: &DapMediaType) -> bool {
        self@ == other@
    }
}

impl Eq for DapMediaType {

}

/// The kind that parsing finds for the content type of a defined kind.
proof fn lemma_parse_kind(version: DapVersion, m: MediaTypeView, s: Seq<char>)
    requires
        defined_in(version, m),
        content_type_spec(version, m) == Some(s),
    ensures
        parse_spec(version, Some(s)) == m,
{
    let c = choose|k: MediaTypeView|
        #[trigger] defined_in(version, k) && content_type_spec(version, k) == Some(s);
    lemma_content_types_distinct(version, c, m);
}

/// Parsing the rendering of a kind that a draft defines gives the kind back.
pub proof fn lemma_parse_render(version: DapVersion, m: MediaTypeView)
    requires
        defined_in(version, m),
    ensures
        parse_spec(version, content_type_spec(version, m)) == m,
{
    lemma_parse_kind(version, m, content_type_spec(version, m).unwrap());
}

} // verus!
