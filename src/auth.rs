//! DAP request authorization: bearer tokens compared in constant time, and TLS
//! client certificates for tasks provisioned in-band.

use crate::constants::{
    media_type_debug, sender_debug, sender_name, sender_spec, DapMediaType, DapSender, DapVersion,
    MediaTypeView,
};
use crate::error::DapError;
use crate::messages::{constant_time_eq, TaskId};
use vstd::prelude::*;
use vstd::utf8::encode_utf8_decode_utf8;

verus! {

/// A bearer token used for authorizing DAP requests.
#[derive(Clone, Debug)]
pub struct BearerToken {
    pub raw: String,
}

impl View for BearerToken {
    type V = Seq<char>;

    open spec fn view(&self) -> Seq<char> {
        self.raw@
    }
}

impl BearerToken {
    /// The token's text.
    pub fn as_str(&self) -> (r: &str)
        ensures
            r@ == self@,
    {
        self.raw.as_str()
    }

    /// Equality of the two tokens, comparing their bytes in constant time.
    pub fn same_as(&self, other: &Self) -> (r: bool)
        ensures
            r == (self@ == other@),
    {
        let a = self.raw.as_str();
        let b = other.raw.as_str();
        let r = constant_time_eq(a.as_bytes(), b.as_bytes());
        proof {
            encode_utf8_decode_utf8(self.raw@);
            encode_utf8_decode_utf8(other.raw@);
        }
        r
    }

    /// A copy of the token.
    pub fn duplicate(&self) -> (r: Self)
        ensures
            r@ == self@,
    {
        BearerToken { raw: self.raw.clone() }
    }
}

impl AsRef<str> for BearerToken {
    fn as_ref(&self) -> &str {
        self.raw.as_str()
    }
}

impl PartialEq for BearerToken {
    /// Compares the bytes of the two tokens in constant time.
    fn eq(&self, other: &Self) -> (r: bool) {
        self.same_as(other)
    }
}

impl vstd::std_specs::cmp::PartialEqSpecImpl for BearerToken {
    open spec fn obeys_eq_spec() -> bool {
        true
    }

    open spec fn eq_spec(&self, other: &BearerToken) -> bool {
        self@ == other@
    }
}

impl From<String> for BearerToken {
    fn from(raw: String) -> (r: Self) {
        BearerToken { raw }
    }
}

impl vstd::std_specs::convert::FromSpecImpl<String> for BearerToken {
    open spec fn obeys_from_spec() -> bool {
        true
    }

    open spec fn from_spec(raw: String) -> BearerToken {
        BearerToken { raw }
    }
}

/// How a sender proved who it is.
#[derive(Clone, Debug)]
pub enum DaphneWorkerAuth {
    BearerToken(BearerToken),
    CfTlsClientAuth { cert_issuer: String, cert_subject: String },
}

/// An authorization method configured for a role.
#[derive(Clone, Debug)]
pub enum DaphneWorkerAuthMethod {
    BearerToken(BearerToken),
    CfTlsClientAuth { valid_cert_issuer: String, valid_cert_subjects: Vec<String> },
}

/// The authorization methods configured for tasks provisioned in-band.
#[derive(Clone, Debug)]
pub struct TaskprovAuthConfig {
    pub leader_auth: DaphneWorkerAuthMethod,
    pub collector_auth: Option<DaphneWorkerAuthMethod>,
}

/// A request as the authorization logic sees it.
#[derive(Clone, Debug)]
pub struct DapRequest {
    pub version: DapVersion,
    pub media_type: DapMediaType,
    pub task_id: Option<TaskId>,
    pub sender_auth: Option<DaphneWorkerAuth>,
    pub payload: Vec<u8>,
}

/// A response as the aggregator produces it.
#[derive(Clone, Debug)]
pub struct DapResponse {
    pub version: DapVersion,
    pub media_type: DapMediaType,
    pub payload: Vec<u8>,
}

impl DapRequest {
    /// The bearer token that the request carries, if any.
    pub fn bearer_token(&self) -> (r: Option<&BearerToken>)
        ensures
            token_opt_view(r) == bearer_of(self.sender_auth),
    {
        match &self.sender_auth {
            Some(DaphneWorkerAuth::BearerToken(t)) => Some(t),
            _ => None,
        }
    }
}

/// The text of the bearer token that an authorization carries, if any.
pub open spec fn bearer_of(a: Option<DaphneWorkerAuth>) -> Option<Seq<char>> {
    match a {
        Some(DaphneWorkerAuth::BearerToken(t)) => Some(t@),
        _ => None,
    }
}

/// Why a request was denied.
#[derive(Clone, Copy, Debug, PartialEq, Eq, Structural)]
pub enum AuthDenial {
    MissingTaskId,
    LeaderTokenMismatch,
    TaskprovLeaderTokenMismatch,
    CollectorTokenMismatch,
    TaskprovCollectorTokenMismatch,
    UnexpectedMediaType,
    LeaderUnexpectedMethod,
    CollectorUnexpectedMethod,
    CollectorNoMethod,
    UnexpectedSender,
    UndeterminedSender,
    CertificateMismatch,
    MethodUnavailable,
    NoAuthorization,
}

/// The text of each denial reason, for a request of media type `m`.
pub open spec fn denial_text(d: AuthDenial, m: MediaTypeView) -> Seq<char> {
    match d {
        AuthDenial::MissingTaskId => "Cannot authorize request with missing task ID."@,
        AuthDenial::LeaderTokenMismatch => "The indicated beareer token is incorrect for the Leader."@,
        AuthDenial::TaskprovLeaderTokenMismatch =>
            "The indicated beaer token is incorrect for Taskprov Leader."@,
        AuthDenial::CollectorTokenMismatch =>
            "The indicated bearer token is incorrect for the Collector."@,
        AuthDenial::TaskprovCollectorTokenMismatch =>
            "The indicated bearer token is incorrect for the Taskprov Collector."@,
        AuthDenial::UnexpectedMediaType => "Cannot resolve sender due to unexpected media type ("@
            + media_type_debug(m) + ")."@,
        AuthDenial::LeaderUnexpectedMethod =>
            "Request from Leader denied due to unexpected authorization method (did not expect TLS client auth)."@,
        AuthDenial::CollectorUnexpectedMethod =>
            "Request from Collector denied due to unexpected authorization method (did not expect TLS client auth)."@,
        AuthDenial::CollectorNoMethod =>
            "Request from Collector denied: no authorization method configured."@,
        AuthDenial::UnexpectedSender => "Request denied from unexpected sender ("@ + match sender_spec(
            m,
        ) {
            Some(x) => sender_debug(x),
            None => Seq::empty(),
        } + ")."@,
        AuthDenial::UndeterminedSender =>
            "Request denied because the sender could not be determined."@,
        AuthDenial::CertificateMismatch =>
            "Request denied due to unexpected subject or issuer in TLS client certificate."@,
        AuthDenial::MethodUnavailable => "Request denied: authorization method unavailable."@,
        AuthDenial::NoAuthorization => "request denied: no authorization provided"@,
    }
}

/// The text of an optional denial, for a request of media type `m`.
pub open spec fn denial_opt_text(d: Option<AuthDenial>, m: MediaTypeView) -> Option<Seq<char>> {
    match d {
        Some(x) => Some(denial_text(x, m)),
        None => None,
    }
}

/// The text of an optional string.
pub open spec fn string_opt_view(s: Option<String>) -> Option<Seq<char>> {
    match s {
        Some(t) => Some(t@),
        None => None,
    }
}

impl AuthDenial {
    /// The reason, as written to logs, for a request of the given media type.
    pub fn reason(&self, media_type: &DapMediaType) -> (r: String)
        ensures
            r@ == denial_text(*self, media_type@),
    {
        match self {
            AuthDenial::UnexpectedMediaType => {
                let mut s = "Cannot resolve sender due to unexpected media type (".to_owned();
                let name = media_type.debug_text();
                s.append(name.as_str());
                s.append(").");
                return s;
            },
            AuthDenial::UnexpectedSender => {
                let mut s = "Request denied from unexpected sender (".to_owned();
                match media_type.sender() {
                    Some(x) => s.append(sender_name(x)),
                    None => {},
                }
                s.append(").");
                return s;
            },
            _ => {},
        }
        let s: &str = match self {
            AuthDenial::MissingTaskId => "Cannot authorize request with missing task ID.",
            AuthDenial::LeaderTokenMismatch => "The indicated beareer token is incorrect for the Leader.",
            AuthDenial::TaskprovLeaderTokenMismatch =>
                "The indicated beaer token is incorrect for Taskprov Leader.",
            AuthDenial::CollectorTokenMismatch =>
                "The indicated bearer token is incorrect for the Collector.",
            AuthDenial::TaskprovCollectorTokenMismatch =>
                "The indicated bearer token is incorrect for the Taskprov Collector.",
            AuthDenial::LeaderUnexpectedMethod =>
                "Request from Leader denied due to unexpected authorization method (did not expect TLS client auth).",
            AuthDenial::CollectorUnexpectedMethod =>
                "Request from Collector denied due to unexpected authorization method (did not expect TLS client auth).",
            AuthDenial::CollectorNoMethod =>
                "Request from Collector denied: no authorization method configured.",
            AuthDenial::UndeterminedSender =>
                "Request denied because the sender could not be determined.",
            AuthDenial::CertificateMismatch =>
                "Request denied due to unexpected subject or issuer in TLS client certificate.",
            AuthDenial::MethodUnavailable => "Request denied: authorization method unavailable.",
            AuthDenial::NoAuthorization => "request denied: no authorization provided",
            _ => "",
        };
        s.to_owned()
    }
}

/// The text of an optional denial, as returned to callers.
pub fn denial_reason(d: Option<AuthDenial>, media_type: &DapMediaType) -> (r: Option<String>)
    ensures
        string_opt_view(r) == denial_opt_text(d, media_type@),
{
    match d {
        Some(x) => Some(x.reason(media_type)),
        None => None,
    }
}

/// Outcome of checking a bearer token: `got` is the token the request carries,
/// `expected` the token configured for the task, and `taskprov_match` whether
/// `got` is the token configured for in-band provisioned tasks.
pub open spec fn bearer_decision(
    sender: Option<DapSender>,
    got: Option<Seq<char>>,
    expected: Option<Seq<char>>,
    taskprov_match: bool,
) -> Option<AuthDenial> {
    match (sender, got) {
        (Some(DapSender::Leader), Some(g)) => match expected {
            Some(e) => if g == e {
                None
            } else {
                Some(AuthDenial::LeaderTokenMismatch)
            },
            None => if taskprov_match {
                None
            } else {
                Some(AuthDenial::TaskprovLeaderTokenMismatch)
            },
        },
        (Some(DapSender::Collector), Some(g)) => match expected {
            Some(e) => if g == e {
                None
            } else {
                Some(AuthDenial::CollectorTokenMismatch)
            },
            None => if taskprov_match {
                None
            } else {
                Some(AuthDenial::TaskprovCollectorTokenMismatch)
            },
        },
        _ => Some(AuthDenial::UnexpectedMediaType),
    }
}

/// The text of an optional token.
pub open spec fn token_opt_view(t: Option<&BearerToken>) -> Option<Seq<char>> {
    match t {
        Some(x) => Some(x@),
        None => None,
    }
}

/// Decides a bearer-token check from the looked-up tokens.
pub fn check_bearer_token(
    sender: Option<DapSender>,
    got: Option<&BearerToken>,
    expected: Option<&BearerToken>,
    taskprov_match: bool,
) -> (r: Option<AuthDenial>)
    ensures
        r == bearer_decision(sender, token_opt_view(got), token_opt_view(expected), taskprov_match),
{
    match (sender, got) {
        (Some(DapSender::Leader), Some(g)) => match expected {
            Some(e) => if g.same_as(e) {
                None
            } else {
                Some(AuthDenial::LeaderTokenMismatch)
            },
            None => if taskprov_match {
                None
            } else {
                Some(AuthDenial::TaskprovLeaderTokenMismatch)
            },
        },
        (Some(DapSender::Collector), Some(g)) => match expected {
            Some(e) => if g.same_as(e) {
                None
            } else {
                Some(AuthDenial::CollectorTokenMismatch)
            },
            None => if taskprov_match {
                None
            } else {
                Some(AuthDenial::TaskprovCollectorTokenMismatch)
            },
        },
        _ => Some(AuthDenial::UnexpectedMediaType),
    }
}

/// The text of an optional owned token.
pub open spec fn owned_token_view(t: Option<BearerToken>) -> Option<Seq<char>> {
    match t {
        Some(x) => Some(x@),
        None => None,
    }
}

/// A source of bearer tokens used for authorizing DAP requests.
pub trait BearerTokenProvider {
    /// Whether token lookups of this provider never fail.
    spec fn lookups_succeed(&self) -> bool;

    /// The Leader's bearer token of a task, if the task is recognized.
    spec fn leader_token_spec(&self, task: Seq<u8>) -> Option<Seq<char>>;

    /// The Collector's bearer token of a task, if the task is recognized.
    spec fn collector_token_spec(&self, task: Seq<u8>) -> Option<Seq<char>>;

    /// Whether a token is the Leader's token for tasks provisioned in-band.
    spec fn taskprov_leader_spec(&self, token: Seq<char>) -> bool;

    /// Whether a token is the Collector's token for tasks provisioned in-band.
    spec fn taskprov_collector_spec(&self, token: Seq<char>) -> bool;

    /// Fetch the Leader's bearer token for the given task, if the task is recognized.
    fn get_leader_bearer_token_for(&self, task_id: &TaskId) -> (r: Result<
        Option<BearerToken>,
        DapError,
    >)
        ensures
            r matches Ok(t) ==> owned_token_view(t) == self.leader_token_spec(task_id@),
            self.lookups_succeed() ==> r is Ok,
    ;

    /// Fetch the Collector's bearer token for the given task, if the task is recognized.
    fn get_collector_bearer_token_for(&self, task_id: &TaskId) -> (r: Result<
        Option<BearerToken>,
        DapError,
    >)
        ensures
            r matches Ok(t) ==> owned_token_view(t) == self.collector_token_spec(task_id@),
            self.lookups_succeed() ==> r is Ok,
    ;

    /// Returns true if the given bearer token matches the leader token configured for the
    /// "taskprov" extension.
    fn is_taskprov_leader_bearer_token(&self, token: &BearerToken) -> (r: bool)
        ensures
            r == self.taskprov_leader_spec(token@),
    ;

    /// Returns true if the given bearer token matches the collector token configured for the
    /// "taskprov" extension.
    fn is_taskprov_collector_bearer_token(&self, token: &BearerToken) -> (r: bool)
        ensures
            r == self.taskprov_collector_spec(token@),
    ;

    /// Return a bearer token that can be used to authorize a request with the given task ID
    /// and media type. Only requests sent by the Leader are authorized this way.
    fn authorize_with_bearer_token(&self, task_id: &TaskId, media_type: &DapMediaType) -> (r:
        Result<BearerToken, DapError>)
        ensures
            sender_spec(media_type@) != Some(DapSender::Leader) ==> r matches Err(
                DapError::Fatal(_),
            ),
            r matches Ok(t) ==> self.leader_token_spec(task_id@) == Some(t@),
            self.leader_token_spec(task_id@) is None ==> r is Err,
            (self.lookups_succeed() && self.leader_token_spec(task_id@) is None) ==> r matches Err(
                DapError::Fatal(_),
            ),
            (sender_spec(media_type@) == Some(DapSender::Leader) && self.lookups_succeed()
                && self.leader_token_spec(task_id@) is Some) ==> r is Ok,
    {
        if media_type.sender() == Some(DapSender::Leader) {
            match self.get_leader_bearer_token_for(task_id) {
                Ok(Some(token)) => Ok(token),
                Ok(None) => Err(
                    DapError::Fatal(
                        "attempted to authorize request with unknown task ID".to_owned(),
                    ),
                ),
                Err(e) => Err(e),
            }
        } else {
            Err(DapError::Fatal("attempted to authorize request of this media type".to_owned()))
        }
    }

    /// Check that the bearer token carried by a request can be used to authorize that
    /// request.
    ///
    /// Return `None` if the request is authorized. Otherwise return `Some(reason)`, where
    /// `reason` is the reason for the failure. Only a failed token lookup is an error.
    fn bearer_token_authorized(&self, req: &DapRequest) -> (r: Result<Option<String>, DapError>)
        ensures
            r matches Ok(x) ==> string_opt_view(x) == denial_opt_text(
                bearer_outcome(
                    req,
                    self.leader_token_spec(task_of(req)),
                    self.collector_token_spec(task_of(req)),
                    self.taskprov_leader_spec(token_of(req)),
                    self.taskprov_collector_spec(token_of(req)),
                ),
                req.media_type@,
            ),
            req.task_id is None ==> r is Ok,
            bearer_of(req.sender_auth) is None ==> r is Ok,
            !(sender_spec(req.media_type@) == Some(DapSender::Leader) || sender_spec(
                req.media_type@,
            ) == Some(DapSender::Collector)) ==> r is Ok,
            self.lookups_succeed() ==> r is Ok,
    {
        let task_id = match &req.task_id {
            None => {
                return Ok(Some(AuthDenial::MissingTaskId.reason(&req.media_type)));
            },
            Some(t) => t,
        };
        let sender = req.media_type.sender();
        let got = req.bearer_token();
        let decision = match (sender, got) {
            (Some(DapSender::Leader), Some(g)) => {
                let expected = match self.get_leader_bearer_token_for(task_id) {
                    Ok(e) => e,
                    Err(e) => {
                        return Err(e);
                    },
                };
                let taskprov_match = self.is_taskprov_leader_bearer_token(g);
                check_bearer_token(sender, got, expected.as_ref(), taskprov_match)
            },
            (Some(DapSender::Collector), Some(g)) => {
                let expected = match self.get_collector_bearer_token_for(task_id) {
                    Ok(e) => e,
                    Err(e) => {
                        return Err(e);
                    },
                };
                let taskprov_match = self.is_taskprov_collector_bearer_token(g);
                check_bearer_token(sender, got, expected.as_ref(), taskprov_match)
            },
            _ => Some(AuthDenial::UnexpectedMediaType),
        };
        Ok(denial_reason(decision, &req.media_type))
    }
}

/// The task a request names, or the empty sequence.
pub open spec fn task_of(req: &DapRequest) -> Seq<u8> {
    match req.task_id {
        Some(t) => t@,
        None => Seq::empty(),
    }
}

/// The bearer token a request carries, or the empty sequence.
pub open spec fn token_of(req: &DapRequest) -> Seq<char> {
    match bearer_of(req.sender_auth) {
        Some(t) => t,
        None => Seq::empty(),
    }
}

/// Outcome of the bearer-token check of a request, given the tokens configured
/// for its task and whether its token is one of those for tasks provisioned
/// in-band.
pub open spec fn bearer_outcome(
    req: &DapRequest,
    leader_token: Option<Seq<char>>,
    collector_token: Option<Seq<char>>,
    taskprov_leader: bool,
    taskprov_collector: bool,
) -> Option<AuthDenial> {
    match req.task_id {
        None => Some(AuthDenial::MissingTaskId),
        Some(_) => {
            let sender = sender_spec(req.media_type@);
            let is_leader = sender == Some(DapSender::Leader);
            bearer_decision(
                sender,
                bearer_of(req.sender_auth),
                if is_leader {
                    leader_token
                } else {
                    collector_token
                },
                if is_leader {
                    taskprov_leader
                } else {
                    taskprov_collector
                },
            )
        },
    }
}

} // verus!
