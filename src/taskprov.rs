//! Task resolution: a task is looked up among the configured tasks, and else
//! provisioned from the taskprov extension of a report.

use crate::auth::{BearerToken, DaphneWorkerAuthMethod, TaskprovAuthConfig};
use crate::authorizer::{token_lookup, Authorizer};
use crate::batch::DapQueryConfig;
use crate::constants::DapVersion;
use crate::error::{DapAbort, DapError};
use crate::keyed::{entry_lookup, find_entry, set_entry};
use crate::messages::TaskId;
use vstd::prelude::*;

verus! {

/// The configuration of a task.
#[derive(Clone, Copy, Debug, PartialEq, Eq, Structural)]
pub struct DapTaskConfig {
    pub version: DapVersion,
    pub query: DapQueryConfig,
    pub min_batch_size: u64,
    pub time_precision: u64,
    pub expiration: u64,
    /// Whether the task was provisioned in-band.
    pub taskprov: bool,
}

/// The configured tasks.
pub struct TaskRegistry {
    pub tasks: Vec<(TaskId, DapTaskConfig)>,
}


/// Outcome of resolving a task. `candidate` is what the report offers: `None`
/// where no report metadata came with the request, else the configuration that
/// its taskprov extension describes (`Ok(None)` where it has none, `Err` where
/// the extension is malformed or does not derive the task identifier).
/// `provisioning_configured` says whether authorization methods for in-band
/// tasks are configured, and `opted_out` whether the opt-in policy refused the
/// task.
pub open spec fn resolve_spec(
    tasks: Seq<(TaskId, DapTaskConfig)>,
    task: Seq<u8>,
    candidate: Option<Result<Option<DapTaskConfig>, DapError>>,
    allow_taskprov: bool,
    provisioning_configured: bool,
    opted_out: bool,
) -> Option<Result<Option<DapTaskConfig>, DapError>> {
    match entry_lookup(tasks, task) {
        Some(c) => Some(Ok(Some(c))),
        None => match candidate {
            None => Some(Ok(None)),
            Some(Err(e)) => Some(Err(e)),
            Some(Ok(None)) => Some(Ok(None)),
            Some(Ok(Some(c))) => if !allow_taskprov || opted_out || !provisioning_configured {
                // An error whose detail the function's contract gives.
                None
            } else {
                Some(Ok(Some(c)))
            },
        },
    }
}

/// The Leader's bearer token for tasks provisioned in-band, if that is how the
/// Leader authorizes.
pub open spec fn taskprov_leader_token(tp: Option<TaskprovAuthConfig>) -> Option<Seq<char>> {
    match tp {
        Some(c) => match c.leader_auth {
            DaphneWorkerAuthMethod::BearerToken(t) => Some(t@),
            _ => None,
        },
        None => None,
    }
}

impl TaskRegistry {
    /// A registry without tasks.
    pub fn new() -> (r: Self)
        ensures
            r.tasks@.len() == 0,
    {
        TaskRegistry { tasks: Vec::new() }
    }

    /// Add or replace the configuration of a task.
    pub fn set_task_config(&mut self, task_id: &TaskId, config: DapTaskConfig)
        ensures
            entry_lookup(final(self).tasks@, task_id@) == Some(config),
            forall|t: Seq<u8>|
                t != task_id@ ==> entry_lookup(final(self).tasks@, t) == entry_lookup(
                    old(self).tasks@,
                    t,
                ),
    {
        set_entry(&mut self.tasks, task_id, config);
    }

    /// The configuration of a task, if it is known.
    pub fn get_task_config(&self, task_id: &TaskId) -> (r: Option<DapTaskConfig>)
        ensures
            r == entry_lookup(self.tasks@, task_id@),
    {
        match find_entry(&self.tasks, task_id) {
            Some(i) => Some(self.tasks[i].1),
            None => None,
        }
    }

    /// Get an existing task. If there is none, provision the task that the
    /// report's taskprov extension describes, if any, where the policy allows:
    /// store its configuration and the Leader's bearer token for in-band tasks,
    /// so that later lookups and authorization find them.
    pub fn get_task_config_considering_taskprov(
        &mut self,
        authorizer: &mut Authorizer,
        task_id: &TaskId,
        candidate: Option<Result<Option<DapTaskConfig>, DapError>>,
        opt_out_reason: Option<String>,
    ) -> (r: Result<Option<DapTaskConfig>, DapError>)
        ensures
            match resolve_spec(
                old(self).tasks@,
                task_id@,
                candidate,
                old(authorizer).allow_taskprov,
                old(authorizer).taskprov is Some,
                opt_out_reason is Some,
            ) {
                Some(out) => r == out,
                None => if !old(authorizer).allow_taskprov {
                    r matches Err(DapError::Abort(DapAbort::InvalidTask { detail, task_id: t }))
                        && t@ == task_id@ && detail@ == "Taskprov extension is disabled."@
                } else if opt_out_reason is Some && old(authorizer).taskprov is Some {
                    r matches Err(DapError::Abort(DapAbort::InvalidTask { detail, task_id: t }))
                        && t@ == task_id@ && detail@ == opt_out_reason->Some_0@
                } else {
                    r matches Err(DapError::Fatal(_))
                },
            },
            r is Err || entry_lookup(old(self).tasks@, task_id@) is Some || !(candidate matches Some(
                Ok(Some(_)),
            )) ==> final(self).tasks@ == old(self).tasks@ && *final(authorizer)
                == *old(authorizer),
            r matches Ok(Some(c)) ==> entry_lookup(final(self).tasks@, task_id@) == Some(c),
            forall|t: Seq<u8>|
                t != task_id@ ==> entry_lookup(final(self).tasks@, t) == entry_lookup(
                    old(self).tasks@,
                    t,
                ),
            final(authorizer).allow_taskprov == old(authorizer).allow_taskprov,
            final(authorizer).taskprov == old(authorizer).taskprov,
            final(authorizer).collector_tokens == old(authorizer).collector_tokens,
            (r is Ok && entry_lookup(old(self).tasks@, task_id@) is None && (candidate matches Some(
                Ok(Some(_)),
            ))) ==> match taskprov_leader_token(old(authorizer).taskprov) {
                Some(t) => token_lookup(final(authorizer).leader_tokens@, task_id@) == Some(t),
                None => final(authorizer).leader_tokens == old(authorizer).leader_tokens,
            },
    {
        if let Some(found) = self.get_task_config(task_id) {
            return Ok(Some(found));
        }
        let config = match candidate {
            None => {
                return Ok(None);
            },
            Some(Err(e)) => {
                return Err(e);
            },
            Some(Ok(None)) => {
                return Ok(None);
            },
            Some(Ok(Some(c))) => c,
        };
        if !authorizer.allow_taskprov {
            return Err(
                DapError::Abort(
                    DapAbort::InvalidTask {
                        detail: "Taskprov extension is disabled.".to_owned(),
                        task_id: *task_id,
                    },
                ),
            );
        }
        let leader_token: Option<BearerToken> = match &authorizer.taskprov {
            None => {
                return Err(DapError::Fatal("taskprov configuration not found".to_owned()));
            },
            Some(tp) => match &tp.leader_auth {
                DaphneWorkerAuthMethod::BearerToken(t) => Some(t.duplicate()),
                _ => None,
            },
        };
        // The opt-in / opt-out decision point.
        if let Some(reason) = opt_out_reason {
            return Err(
                DapError::Abort(DapAbort::InvalidTask { detail: reason, task_id: *task_id }),
            );
        }
        if let Some(token) = leader_token {
            authorizer.set_leader_bearer_token(task_id, token);
        }
        self.set_task_config(task_id, config);
        Ok(Some(config))
    }
}

/// The opt-in policy for tasks provisioned in-band: the reason to refuse a
/// task, if any. Every task is accepted.
pub fn taskprov_opt_out_reason(_task_config: &DapTaskConfig) -> (r: Option<String>)
    ensures
        r is None,
{
    None
}

/// Once a task resolves to a configuration, every later resolution of it gives
/// that configuration, whatever the report offers: resolution depends only on
/// the registry, the task and the report.
pub proof fn lemma_resolution_stable(
    tasks: Seq<(TaskId, DapTaskConfig)>,
    task: Seq<u8>,
    c: DapTaskConfig,
    candidate: Option<Result<Option<DapTaskConfig>, DapError>>,
    allow_taskprov: bool,
    provisioning_configured: bool,
    opted_out: bool,
)
    requires
        entry_lookup(tasks, task) == Some(c),
    ensures
        resolve_spec(tasks, task, candidate, allow_taskprov, provisioning_configured, opted_out)
            == Some(Ok::<Option<DapTaskConfig>, DapError>(Some(c))),
{
}

} // verus!
