use daphne::auth::{
    check_bearer_token, AuthDenial, BearerToken, BearerTokenProvider, DapRequest,
    DaphneWorkerAuth, DaphneWorkerAuthMethod, TaskprovAuthConfig,
};
use daphne::authorizer::{check_tls, Authorizer};
use daphne::constants::{DapMediaType, DapSender, DapVersion};
use daphne::messages::{constant_time_eq, TaskId};

fn token(s: &str) -> BearerToken {
    BearerToken::from(s.to_string())
}

fn request(media_type: DapMediaType, task: Option<TaskId>, auth: Option<DaphneWorkerAuth>) -> DapRequest {
    DapRequest {
        version: DapVersion::Draft04,
        media_type,
        task_id: task,
        sender_auth: auth,
        payload: Vec::new(),
    }
}

fn tls_config() -> TaskprovAuthConfig {
    TaskprovAuthConfig {
        leader_auth: DaphneWorkerAuthMethod::CfTlsClientAuth {
            valid_cert_issuer: "CA".to_string(),
            valid_cert_subjects: vec!["leader.example".to_string(), "leader2.example".to_string()],
        },
        collector_auth: None,
    }
}

#[test]
fn constant_time_comparison() {
    assert!(constant_time_eq(b"", b""));
    assert!(constant_time_eq(b"token", b"token"));
    assert!(!constant_time_eq(b"token", b"tokem"));
    assert!(!constant_time_eq(b"xoken", b"token"));
    assert!(!constant_time_eq(b"token", b"token2"));
}

#[test]
fn bearer_token_equality() {
    assert_eq!(token("abc"), token("abc"));
    assert_ne!(token("abc"), token("abd"));
    assert!(token("abc").same_as(&token("abc")));
    assert_eq!(token("xyz").as_str(), "xyz");
}

#[test]
fn leader_token_checked_against_task() {
    let task = TaskId([1; 32]);
    let mut a = Authorizer::new(false, None);
    a.set_leader_bearer_token(&task, token("leader-token"));
    let ok = request(
        DapMediaType::AggregationJobInitReq,
        Some(task),
        Some(DaphneWorkerAuth::BearerToken(token("leader-token"))),
    );
    assert_eq!(a.unauthorized_reason(&ok).unwrap(), None);
    let bad = request(
        DapMediaType::AggregationJobInitReq,
        Some(task),
        Some(DaphneWorkerAuth::BearerToken(token("wrong"))),
    );
    assert_eq!(
        a.unauthorized_reason(&bad).unwrap(),
        Some("The indicated beareer token is incorrect for the Leader.".to_string())
    );
}

#[test]
fn collector_token_checked_against_task() {
    let task = TaskId([2; 32]);
    let mut a = Authorizer::new(false, None);
    a.set_collector_bearer_token(&task, token("collector-token"));
    let ok = request(
        DapMediaType::CollectReq,
        Some(task),
        Some(DaphneWorkerAuth::BearerToken(token("collector-token"))),
    );
    assert_eq!(a.bearer_token_authorized(&ok).unwrap(), None);
    let bad = request(
        DapMediaType::CollectReq,
        Some(task),
        Some(DaphneWorkerAuth::BearerToken(token("leader-token"))),
    );
    assert_eq!(
        a.bearer_token_authorized(&bad).unwrap(),
        Some("The indicated bearer token is incorrect for the Collector.".to_string())
    );
}

#[test]
fn taskprov_leader_token_used_for_unknown_task() {
    let config = TaskprovAuthConfig {
        leader_auth: DaphneWorkerAuthMethod::BearerToken(token("taskprov-leader")),
        collector_auth: Some(DaphneWorkerAuthMethod::BearerToken(token("taskprov-collector"))),
    };
    let a = Authorizer::new(true, Some(config.clone()));
    let task = TaskId([3; 32]);
    let ok = request(
        DapMediaType::AggregationJobContinueReq,
        Some(task),
        Some(DaphneWorkerAuth::BearerToken(token("taskprov-leader"))),
    );
    assert_eq!(a.unauthorized_reason(&ok).unwrap(), None);
    let bad = request(
        DapMediaType::AggregationJobContinueReq,
        Some(task),
        Some(DaphneWorkerAuth::BearerToken(token("other"))),
    );
    assert_eq!(
        a.unauthorized_reason(&bad).unwrap(),
        Some(AuthDenial::TaskprovLeaderTokenMismatch.reason(&DapMediaType::AggregationJobInitReq))
    );
    let collector = request(
        DapMediaType::CollectReq,
        Some(task),
        Some(DaphneWorkerAuth::BearerToken(token("taskprov-collector"))),
    );
    assert_eq!(a.unauthorized_reason(&collector).unwrap(), None);

    // With taskprov disabled the same token is refused.
    let disabled = Authorizer::new(false, Some(config));
    assert_eq!(
        disabled.unauthorized_reason(&ok).unwrap(),
        Some(AuthDenial::TaskprovLeaderTokenMismatch.reason(&DapMediaType::AggregationJobInitReq))
    );
    assert!(!disabled.is_taskprov_leader_bearer_token(&token("taskprov-leader")));
}

#[test]
fn missing_task_id_is_denied() {
    let a = Authorizer::new(false, None);
    let req = request(
        DapMediaType::AggregationJobInitReq,
        None,
        Some(DaphneWorkerAuth::BearerToken(token("t"))),
    );
    assert_eq!(
        a.unauthorized_reason(&req).unwrap(),
        Some("Cannot authorize request with missing task ID.".to_string())
    );
}

#[test]
fn unexpected_media_type_is_denied() {
    let a = Authorizer::new(false, None);
    let req = request(
        DapMediaType::Report,
        Some(TaskId([0; 32])),
        Some(DaphneWorkerAuth::BearerToken(token("t"))),
    );
    assert_eq!(
        a.unauthorized_reason(&req).unwrap(),
        Some("Cannot resolve sender due to unexpected media type (Report).".to_string())
    );
    let missing = request(
        DapMediaType::Missing,
        Some(TaskId([0; 32])),
        Some(DaphneWorkerAuth::BearerToken(token("t"))),
    );
    assert_eq!(
        a.unauthorized_reason(&missing).unwrap(),
        Some("Cannot resolve sender due to unexpected media type (Missing).".to_string())
    );
    let invalid = request(
        DapMediaType::Invalid("application/json".to_string()),
        Some(TaskId([0; 32])),
        Some(DaphneWorkerAuth::BearerToken(token("t"))),
    );
    assert_eq!(
        a.unauthorized_reason(&invalid).unwrap(),
        Some(
            "Cannot resolve sender due to unexpected media type (Invalid(\"application/json\"))."
                .to_string()
        )
    );
}

#[test]
fn no_authorization_is_denied() {
    let a = Authorizer::new(false, None);
    let req = request(DapMediaType::AggregationJobInitReq, Some(TaskId([0; 32])), None);
    assert_eq!(
        a.unauthorized_reason(&req).unwrap(),
        Some("request denied: no authorization provided".to_string())
    );
}

#[test]
fn tls_client_certificates() {
    let tls = |issuer: &str, subject: &str| DaphneWorkerAuth::CfTlsClientAuth {
        cert_issuer: issuer.to_string(),
        cert_subject: subject.to_string(),
    };
    let a = Authorizer::new(true, Some(tls_config()));
    let task = Some(TaskId([5; 32]));
    let ok = request(DapMediaType::AggregationJobInitReq, task, Some(tls("CA", "leader2.example")));
    assert_eq!(a.unauthorized_reason(&ok).unwrap(), None);
    let bad_subject = request(DapMediaType::AggregationJobInitReq, task, Some(tls("CA", "evil")));
    assert_eq!(
        a.unauthorized_reason(&bad_subject).unwrap(),
        Some(AuthDenial::CertificateMismatch.reason(&DapMediaType::AggregationJobInitReq))
    );
    let bad_issuer =
        request(DapMediaType::AggregationJobInitReq, task, Some(tls("XX", "leader.example")));
    assert_eq!(
        a.unauthorized_reason(&bad_issuer).unwrap(),
        Some(AuthDenial::CertificateMismatch.reason(&DapMediaType::AggregationJobInitReq))
    );
    let collector = request(DapMediaType::CollectReq, task, Some(tls("CA", "leader.example")));
    assert_eq!(
        a.unauthorized_reason(&collector).unwrap(),
        Some(AuthDenial::CollectorNoMethod.reason(&DapMediaType::AggregationJobInitReq))
    );
    let client = request(DapMediaType::Report, task, Some(tls("CA", "leader.example")));
    assert_eq!(
        a.unauthorized_reason(&client).unwrap(),
        Some("Request denied from unexpected sender (Client).".to_string())
    );
    let unknown = request(DapMediaType::Missing, task, Some(tls("CA", "leader.example")));
    assert_eq!(
        a.unauthorized_reason(&unknown).unwrap(),
        Some(AuthDenial::UndeterminedSender.reason(&DapMediaType::AggregationJobInitReq))
    );
    let without = Authorizer::new(true, None);
    assert_eq!(
        without.unauthorized_reason(&ok).unwrap(),
        Some(AuthDenial::MethodUnavailable.reason(&DapMediaType::AggregationJobInitReq))
    );
}

#[test]
fn tls_against_bearer_method() {
    let config = TaskprovAuthConfig {
        leader_auth: DaphneWorkerAuthMethod::BearerToken(token("t")),
        collector_auth: Some(DaphneWorkerAuthMethod::BearerToken(token("c"))),
    };
    let issuer = "CA".to_string();
    let subject = "s".to_string();
    assert_eq!(
        check_tls(&Some(config.clone()), Some(DapSender::Leader), &issuer, &subject),
        Some(AuthDenial::LeaderUnexpectedMethod)
    );
    assert_eq!(
        check_tls(&Some(config), Some(DapSender::Collector), &issuer, &subject),
        Some(AuthDenial::CollectorUnexpectedMethod)
    );
}

#[test]
fn bearer_decision_table() {
    let got = token("a");
    let other = token("b");
    assert_eq!(check_bearer_token(Some(DapSender::Leader), Some(&got), Some(&got), false), None);
    assert_eq!(
        check_bearer_token(Some(DapSender::Leader), Some(&got), Some(&other), true),
        Some(AuthDenial::LeaderTokenMismatch)
    );
    assert_eq!(check_bearer_token(Some(DapSender::Collector), Some(&got), None, true), None);
    assert_eq!(
        check_bearer_token(Some(DapSender::Collector), Some(&got), None, false),
        Some(AuthDenial::TaskprovCollectorTokenMismatch)
    );
    assert_eq!(
        check_bearer_token(Some(DapSender::Leader), None, Some(&got), true),
        Some(AuthDenial::UnexpectedMediaType)
    );
}

#[test]
fn authorize_attaches_leader_token() {
    let task = TaskId([9; 32]);
    let mut a = Authorizer::new(false, None);
    assert!(a.authorize(&task, &DapMediaType::AggregationJobInitReq).is_err());
    a.set_leader_bearer_token(&task, token("first"));
    a.set_leader_bearer_token(&task, token("second"));
    match a.authorize(&task, &DapMediaType::AggregationJobInitReq) {
        Ok(DaphneWorkerAuth::BearerToken(t)) => assert_eq!(t.as_str(), "second"),
        other => panic!("unexpected {other:?}"),
    }
    assert!(a.authorize(&task, &DapMediaType::CollectReq).is_err());
    assert_eq!(
        a.authorize_with_bearer_token(&task, &DapMediaType::AggregateShareReq).unwrap().as_str(),
        "second"
    );
    assert!(a.authorize_with_bearer_token(&TaskId([8; 32]), &DapMediaType::AggregateShareReq).is_err());
}

#[test]
fn task_id_hex() {
    let mut bytes = [0u8; 32];
    bytes[0] = 0xab;
    bytes[31] = 0x0f;
    let hex = TaskId(bytes).to_hex();
    assert_eq!(hex.len(), 64);
    assert!(hex.starts_with("ab00"));
    assert!(hex.ends_with("000f"));
}
