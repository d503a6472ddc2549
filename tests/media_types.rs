use daphne::constants::{str_eq, DapMediaType, DapSender, DapVersion};

const KINDS: [DapMediaType; 10] = [
    DapMediaType::AggregationJobInitReq,
    DapMediaType::AggregationJobResp,
    DapMediaType::AggregationJobContinueReq,
    DapMediaType::Draft02AggregateContinueResp,
    DapMediaType::AggregateShareReq,
    DapMediaType::AggregateShare,
    DapMediaType::CollectReq,
    DapMediaType::Collection,
    DapMediaType::HpkeConfigList,
    DapMediaType::Report,
];

#[test]
fn missing_content_type_is_missing() {
    assert_eq!(
        DapMediaType::from_str_for_version(DapVersion::Draft02, None),
        DapMediaType::Missing
    );
    assert_eq!(
        DapMediaType::from_str_for_version(DapVersion::Draft04, None),
        DapMediaType::Missing
    );
}

#[test]
fn unknown_content_type_is_invalid() {
    assert_eq!(
        DapMediaType::from_str_for_version(DapVersion::Draft04, Some("application/json")),
        DapMediaType::Invalid("application/json".to_string())
    );
    assert_eq!(
        DapMediaType::from_str_for_version(DapVersion::Draft02, Some("application/json")),
        DapMediaType::Invalid("application/json".to_string())
    );
}

#[test]
fn render_then_parse_gives_the_kind_back() {
    for version in [DapVersion::Draft02, DapVersion::Draft04] {
        for kind in KINDS.iter() {
            if let Some(s) = kind.as_str_for_version(version) {
                assert_eq!(
                    &DapMediaType::from_str_for_version(version, Some(s)),
                    kind,
                    "{s}"
                );
            }
        }
    }
}

#[test]
fn draft04_has_no_continue_response() {
    assert_eq!(
        DapMediaType::Draft02AggregateContinueResp.as_str_for_version(DapVersion::Draft04),
        None
    );
    assert_eq!(
        DapMediaType::Draft02AggregateContinueResp.as_str_for_version(DapVersion::Draft02),
        Some("application/dap-aggregate-continue-resp")
    );
    assert_eq!(DapMediaType::Missing.as_str_for_version(DapVersion::Draft02), None);
    assert_eq!(
        DapMediaType::Invalid("text/plain".to_string()).as_str_for_version(DapVersion::Draft04),
        Some("text/plain")
    );
}

#[test]
fn content_type_tables() {
    assert_eq!(
        DapMediaType::AggregationJobInitReq.as_str_for_version(DapVersion::Draft02),
        Some("application/dap-aggregate-initialize-req")
    );
    assert_eq!(
        DapMediaType::AggregationJobInitReq.as_str_for_version(DapVersion::Draft04),
        Some("application/dap-aggregation-job-init-req")
    );
    assert_eq!(
        DapMediaType::AggregationJobResp.as_str_for_version(DapVersion::Draft02),
        Some("application/dap-aggregate-initialize-resp")
    );
    assert_eq!(
        DapMediaType::AggregationJobResp.as_str_for_version(DapVersion::Draft04),
        Some("application/dap-aggregation-job-resp")
    );
    assert_eq!(
        DapMediaType::Collection.as_str_for_version(DapVersion::Draft02),
        Some("application/dap-collect-resp")
    );
    assert_eq!(
        DapMediaType::Collection.as_str_for_version(DapVersion::Draft04),
        Some("application/dap-collection")
    );
    assert_eq!(
        DapMediaType::HpkeConfigList.as_str_for_version(DapVersion::Draft04),
        Some("application/dap-hpke-config-list")
    );
    assert_eq!(
        DapMediaType::Report.as_str_for_version(DapVersion::Draft02),
        Some("application/dap-report")
    );
}

#[test]
fn draft02_content_type_at_draft04_is_invalid() {
    let parsed = DapMediaType::from_str_for_version(
        DapVersion::Draft04,
        Some("application/dap-aggregate-initialize-req"),
    );
    assert_eq!(
        parsed,
        DapMediaType::Invalid("application/dap-aggregate-initialize-req".to_string())
    );
    assert_eq!(parsed.sender(), None);
    assert_eq!(
        DapMediaType::from_str_for_version(
            DapVersion::Draft02,
            Some("application/dap-aggregation-job-init-req")
        ),
        DapMediaType::Invalid("application/dap-aggregation-job-init-req".to_string())
    );
}

#[test]
fn unknown_version_parses_nothing() {
    assert_eq!(
        DapMediaType::from_str_for_version(DapVersion::Unknown, Some("application/dap-report")),
        DapMediaType::Invalid("application/dap-report".to_string())
    );
}

#[test]
fn senders_of_kinds() {
    assert_eq!(DapMediaType::AggregationJobInitReq.sender(), Some(DapSender::Leader));
    assert_eq!(DapMediaType::AggregationJobContinueReq.sender(), Some(DapSender::Leader));
    assert_eq!(DapMediaType::AggregateShareReq.sender(), Some(DapSender::Leader));
    assert_eq!(DapMediaType::Collection.sender(), Some(DapSender::Leader));
    assert_eq!(DapMediaType::HpkeConfigList.sender(), Some(DapSender::Leader));
    assert_eq!(DapMediaType::AggregationJobResp.sender(), Some(DapSender::Helper));
    assert_eq!(DapMediaType::Draft02AggregateContinueResp.sender(), Some(DapSender::Helper));
    assert_eq!(DapMediaType::AggregateShare.sender(), Some(DapSender::Helper));
    assert_eq!(DapMediaType::Report.sender(), Some(DapSender::Client));
    assert_eq!(DapMediaType::CollectReq.sender(), Some(DapSender::Collector));
    assert_eq!(DapMediaType::Missing.sender(), None);
}

#[test]
fn continue_response_depends_on_version() {
    assert_eq!(
        DapMediaType::agg_job_cont_resp_for_version(DapVersion::Draft02),
        DapMediaType::Draft02AggregateContinueResp
    );
    assert_eq!(
        DapMediaType::agg_job_cont_resp_for_version(DapVersion::Draft04),
        DapMediaType::AggregationJobResp
    );
}

#[test]
fn media_type_equality() {
    assert_ne!(DapMediaType::Report, DapMediaType::CollectReq);
    assert_ne!(
        DapMediaType::Invalid("a".to_string()),
        DapMediaType::Invalid("b".to_string())
    );
    assert_ne!(DapMediaType::Invalid(String::new()), DapMediaType::Missing);
}

#[test]
fn string_equality_by_characters() {
    assert!(str_eq("abc", "abc"));
    assert!(!str_eq("abc", "abd"));
    assert!(!str_eq("abc", "ab"));
    assert!(str_eq("", ""));
}
