//! The aggregator's authorization state: bearer tokens per task, and the
//! authorization methods for tasks provisioned in-band.

use crate::auth::{
    bearer_outcome, denial_opt_text, task_of, token_of, denial_reason, denial_text, owned_token_view,
    string_opt_view, AuthDenial, BearerToken, BearerTokenProvider, DapRequest, DaphneWorkerAuth,
    DaphneWorkerAuthMethod, TaskprovAuthConfig,
};
use crate::constants::{sender_spec, str_eq, DapMediaType, DapSender};
use crate::error::DapError;
use crate::keyed::{entry_lookup, find_entry, set_entry};
use crate::messages::TaskId;
use vstd::prelude::*;

verus! {

/// The token stored for a task in a list of (task, token) entries.
pub open spec fn token_lookup(entries: Seq<(TaskId, BearerToken)>, task: Seq<u8>) -> Option<
    Seq<char>,
> {
    match entry_lookup(entries, task) {
        Some(t) => Some(t@),
        None => None,
    }
}

/// Replace or add the token of a task.
fn set_token(entries: &mut Vec<(TaskId, BearerToken)>, task_id: &TaskId, token: BearerToken)
    ensures
        token_lookup(final(entries)@, task_id@) == Some(token@),
        forall|t: Seq<u8>|
            t != task_id@ ==> token_lookup(final(entries)@, t) == token_lookup(old(entries)@, t),
{
    set_entry(entries, task_id, token);
}

/// The token of a task, if any.
fn lookup_token(entries: &Vec<(TaskId, BearerToken)>, task_id: &TaskId) -> (r: Option<
    BearerToken,
>)
    ensures
        owned_token_view(r) == token_lookup(entries@, task_id@),
{
    match find_entry(entries, task_id) {
        Some(i) => Some(entries[i].1.duplicate()),
        None => None,
    }
}

/// Whether a TLS client certificate names the configured issuer and one of the
/// configured subjects.
pub open spec fn cert_matches(
    valid_issuer: Seq<char>,
    valid_subjects: Seq<String>,
    issuer: Seq<char>,
    subject: Seq<char>,
) -> bool {
    valid_issuer == issuer && exists|j: int| 0 <= j < valid_subjects.len() && (#[trigger] valid_subjects[j])@ == subject
}

/// Outcome of checking a TLS client certificate against a configured method.
pub open spec fn tls_method_decision(
    m: DaphneWorkerAuthMethod,
    unexpected: AuthDenial,
    issuer: Seq<char>,
    subject: Seq<char>,
) -> Option<AuthDenial> {
    match m {
        DaphneWorkerAuthMethod::CfTlsClientAuth { valid_cert_issuer, valid_cert_subjects } => {
            if cert_matches(valid_cert_issuer@, valid_cert_subjects@, issuer, subject) {
                None
            } else {
                Some(AuthDenial::CertificateMismatch)
            }
        },
        _ => Some(unexpected),
    }
}

/// Outcome of checking a request authorized by a TLS client certificate.
/// Certificates are accepted only for tasks provisioned in-band.
pub open spec fn tls_decision(
    taskprov: Option<TaskprovAuthConfig>,
    sender: Option<DapSender>,
    issuer: Seq<char>,
    subject: Seq<char>,
) -> Option<AuthDenial> {
    match taskprov {
        None => Some(AuthDenial::MethodUnavailable),
        Some(c) => match sender {
            Some(DapSender::Leader) => tls_method_decision(
                c.leader_auth,
                AuthDenial::LeaderUnexpectedMethod,
                issuer,
                subject,
            ),
            Some(DapSender::Collector) => match c.collector_auth {
                Some(m) => tls_method_decision(
                    m,
                    AuthDenial::CollectorUnexpectedMethod,
                    issuer,
                    subject,
                ),
                None => Some(AuthDenial::CollectorNoMethod),
            },
            Some(_) => Some(AuthDenial::UnexpectedSender),
            None => Some(AuthDenial::UndeterminedSender),
        },
    }
}

/// Whether `token` is the bearer token of a configured method.
pub open spec fn method_token_is(m: Option<DaphneWorkerAuthMethod>, token: Seq<char>) -> bool {
    match m {
        Some(DaphneWorkerAuthMethod::BearerToken(t)) => t@ == token,
        _ => false,
    }
}

/// Whether `subject` is among `subjects`.
fn contains_subject(subjects: &Vec<String>, subject: &String) -> (r: bool)
    ensures
        r == exists|j: int| 0 <= j < subjects@.len() && (#[trigger] subjects@[j])@ == subject@,
{
    let mut i: usize = 0;
    while i < subjects.len()
        invariant
            i <= subjects@.len(),
            forall|j: int| 0 <= j < i ==> (#[trigger] subjects@[j])@ != subject@,
        decreases subjects@.len() - i,
    {
        if str_eq(subjects[i].as_str(), subject.as_str()) {
            return true;
        }
        i += 1;
    }
    false
}

fn check_tls_method(
    m: &DaphneWorkerAuthMethod,
    unexpected: AuthDenial,
    issuer: &String,
    subject: &String,
) -> (r: Option<AuthDenial>)
    ensures
        r == tls_method_decision(*m, unexpected, issuer@, subject@),
{
    match m {
        DaphneWorkerAuthMethod::CfTlsClientAuth { valid_cert_issuer, valid_cert_subjects } => {
            if str_eq(issuer.as_str(), valid_cert_issuer.as_str()) && contains_subject(
                valid_cert_subjects,
                subject,
            ) {
                None
            } else {
                Some(AuthDenial::CertificateMismatch)
            }
        },
        _ => Some(unexpected),
    }
}

/// Decides a request authorized by a TLS client certificate.
pub fn check_tls(
    taskprov: &Option<TaskprovAuthConfig>,
    sender: Option<DapSender>,
    issuer: &String,
    subject: &String,
) -> (r: Option<AuthDenial>)
    ensures
        r == tls_decision(*taskprov, sender, issuer@, subject@),
{
    match taskprov {
        None => Some(AuthDenial::MethodUnavailable),
        Some(c) => match sender {
            Some(DapSender::Leader) => check_tls_method(
                &c.leader_auth,
                AuthDenial::LeaderUnexpectedMethod,
                issuer,
                subject,
            ),
            Some(DapSender::Collector) => match &c.collector_auth {
                Some(m) => check_tls_method(m, AuthDenial::CollectorUnexpectedMethod, issuer, subject),
                None => Some(AuthDenial::CollectorNoMethod),
            },
            Some(_) => Some(AuthDenial::UnexpectedSender),
            None => Some(AuthDenial::UndeterminedSender),
        },
    }
}

/// Whether `token` is the bearer token of a configured method.
fn method_token_matches(m: Option<&DaphneWorkerAuthMethod>, token: &BearerToken) -> (r: bool)
    ensures
        r == method_token_is(
            match m {
                Some(x) => Some(*x),
                None => None,
            },
            token@,
        ),
{
    match m {
        Some(DaphneWorkerAuthMethod::BearerToken(t)) => t.same_as(token),
        _ => false,
    }
}

/// The aggregator's authorization state.
pub struct Authorizer {
    /// Whether tasks may be provisioned in-band.
    pub allow_taskprov: bool,
    /// Authorization methods for tasks provisioned in-band.
    pub taskprov: Option<TaskprovAuthConfig>,
    /// The Leader's bearer token of each task.
    pub leader_tokens: Vec<(TaskId, BearerToken)>,
    /// The Collector's bearer token of each task.
    pub collector_tokens: Vec<(TaskId, BearerToken)>,
}

impl Authorizer {
    /// An authorizer with no task tokens.
    pub fn new(allow_taskprov: bool, taskprov: Option<TaskprovAuthConfig>) -> (r: Self)
        ensures
            r.allow_taskprov == allow_taskprov,
            r.taskprov == taskprov,
            r.leader_tokens@.len() == 0,
            r.collector_tokens@.len() == 0,
    {
        Authorizer {
            allow_taskprov,
            taskprov,
            leader_tokens: Vec::new(),
            collector_tokens: Vec::new(),
        }
    }

    /// Set the Leader's bearer token of a task, replacing any earlier one.
    pub fn set_leader_bearer_token(&mut self, task_id: &TaskId, token: BearerToken)
        ensures
            final(self).allow_taskprov == old(self).allow_taskprov,
            final(self).taskprov == old(self).taskprov,
            final(self).collector_tokens == old(self).collector_tokens,
            token_lookup(final(self).leader_tokens@, task_id@) == Some(token@),
            forall|t: Seq<u8>|
                t != task_id@ ==> token_lookup(final(self).leader_tokens@, t) == token_lookup(
                    old(self).leader_tokens@,
                    t,
                ),
    {
        set_token(&mut self.leader_tokens, task_id, token);
    }

    /// Set the Collector's bearer token of a task, replacing any earlier one.
    pub fn set_collector_bearer_token(&mut self, task_id: &TaskId, token: BearerToken)
        ensures
            final(self).allow_taskprov == old(self).allow_taskprov,
            final(self).taskprov == old(self).taskprov,
            final(self).leader_tokens == old(self).leader_tokens,
            token_lookup(final(self).collector_tokens@, task_id@) == Some(token@),
            forall|t: Seq<u8>|
                t != task_id@ ==> token_lookup(final(self).collector_tokens@, t) == token_lookup(
                    old(self).collector_tokens@,
                    t,
                ),
    {
        set_token(&mut self.collector_tokens, task_id, token);
    }

    /// Return the authorization to attach to a request of the given media type for
    /// the given task: the Leader's bearer token.
    pub fn authorize(&self, task_id: &TaskId, media_type: &DapMediaType) -> (r: Result<
        DaphneWorkerAuth,
        DapError,
    >)
        ensures
            sender_spec(media_type@) == Some(DapSender::Leader) ==> match token_lookup(
                self.leader_tokens@,
                task_id@,
            ) {
                Some(t) => r matches Ok(DaphneWorkerAuth::BearerToken(b)) && b@ == t,
                None => r matches Err(DapError::Fatal(_)),
            },
            sender_spec(media_type@) != Some(DapSender::Leader) ==> r matches Err(
                DapError::Fatal(_),
            ),
    {
        if media_type.sender() != Some(DapSender::Leader) {
            return Err(
                DapError::Fatal("attempted to authorize request of this media type".to_owned()),
            );
        }
        match lookup_token(&self.leader_tokens, task_id) {
            Some(token) => Ok(DaphneWorkerAuth::BearerToken(token)),
            None => Err(
                DapError::Fatal("attempted to authorize request with unknown task ID".to_owned()),
            ),
        }
    }

    /// Check whether a request is authorized. Return `None` if it is, else the
    /// reason why not.
    pub fn unauthorized_reason(&self, req: &DapRequest) -> (r: Result<Option<String>, DapError>)
        ensures
            r is Ok,
            match req.sender_auth {
                None => string_opt_view(r->Ok_0) == Some(
                    denial_text(AuthDenial::NoAuthorization, req.media_type@),
                ),
                Some(DaphneWorkerAuth::CfTlsClientAuth { cert_issuer, cert_subject }) =>
                    string_opt_view(r->Ok_0) == denial_opt_text(
                    tls_decision(
                        self.taskprov,
                        sender_spec(req.media_type@),
                        cert_issuer@,
                        cert_subject@,
                    ),
                    req.media_type@,
                ),
                Some(DaphneWorkerAuth::BearerToken(_)) => string_opt_view(r->Ok_0)
                    == denial_opt_text(
                    bearer_outcome(
                        req,
                        token_lookup(self.leader_tokens@, task_of(req)),
                        token_lookup(self.collector_tokens@, task_of(req)),
                        self.taskprov_leader_spec(token_of(req)),
                        self.taskprov_collector_spec(token_of(req)),
                    ),
                    req.media_type@,
                ),
            },
    {
        match &req.sender_auth {
            Some(DaphneWorkerAuth::BearerToken(..)) => self.bearer_token_authorized(req),
            Some(DaphneWorkerAuth::CfTlsClientAuth { cert_issuer, cert_subject }) => {
                let d = check_tls(&self.taskprov, req.media_type.sender(), cert_issuer, cert_subject);
                Ok(denial_reason(d, &req.media_type))
            },
            None => Ok(Some(AuthDenial::NoAuthorization.reason(&req.media_type))),
        }
    }
}

impl BearerTokenProvider for Authorizer {
    open spec fn lookups_succeed(&self) -> bool {
        true
    }

    open spec fn leader_token_spec(&self, task: Seq<u8>) -> Option<Seq<char>> {
        token_lookup(self.leader_tokens@, task)
    }

    open spec fn collector_token_spec(&self, task: Seq<u8>) -> Option<Seq<char>> {
        token_lookup(self.collector_tokens@, task)
    }

    open spec fn taskprov_leader_spec(&self, token: Seq<char>) -> bool {
        self.allow_taskprov && match self.taskprov {
            Some(c) => method_token_is(Some(c.leader_auth), token),
            None => false,
        }
    }

    open spec fn taskprov_collector_spec(&self, token: Seq<char>) -> bool {
        self.allow_taskprov && match self.taskprov {
            Some(c) => method_token_is(c.collector_auth, token),
            None => false,
        }
    }

    fn get_leader_bearer_token_for(&self, task_id: &TaskId) -> (r: Result<
        Option<BearerToken>,
        DapError,
    >) {
        Ok(lookup_token(&self.leader_tokens, task_id))
    }

    fn get_collector_bearer_token_for(&self, task_id: &TaskId) -> (r: Result<
        Option<BearerToken>,
        DapError,
    >) {
        Ok(lookup_token(&self.collector_tokens, task_id))
    }

    fn is_taskprov_leader_bearer_token(&self, token: &BearerToken) -> (r: bool) {
        self.allow_taskprov && match &self.taskprov {
            Some(config) => method_token_matches(Some(&config.leader_auth), token),
            None => false,
        }
    }

    fn is_taskprov_collector_bearer_token(&self, token: &BearerToken) -> (r: bool) {
        self.allow_taskprov && match &self.taskprov {
            Some(config) => method_token_matches(config.collector_auth.as_ref(), token),
            None => false,
        }
    }
}

} // verus!
