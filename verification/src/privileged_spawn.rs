//! The last authorisation before a helper process may be spawned.

use vstd::prelude::*;

use crate::privileged_tools;
use crate::privileged_argv;
use crate::json;
use crate::json_reading;
use crate::digest;
use crate::digest::fingerprint_text;
use crate::json::Parts;
use crate::privileged_argv::{PrivilegedCommandModel, PrivilegedCommandSpec};
use crate::privileged_prepared::PreparedPrivilegedInvocation;
use crate::privileged_start::PrivilegedExecutionStartReceipt;
use crate::privileged_tools::{
    resolve_privileged_command_tools, CandidateStates, PrivilegedToolResolution, TrustedToolError,
    TrustedToolFault,
};
use crate::text::same_text;

verus! {

/// The authorisation of one exact command with its tools.
#[derive(Clone, Debug, PartialEq, Eq)]
pub struct PrivilegedSpawnAuthorization {
    pub schema_version: u32,
    pub authorization_id: String,
    pub execution_id: String,
    pub prepared_id: String,
    pub execution_start_receipt_id: String,
    pub plan_step_id: u32,
    pub command_digest: String,
    pub tool_resolution_digest: String,
}

/// What an authorisation is fingerprinted by, in order.
pub open spec fn authorization_parts(authorization: PrivilegedSpawnAuthorization) -> Seq<Seq<char>> {
    Seq::empty()
        .push(json::json_number(authorization.schema_version as int))
        .push(json::json_text(authorization.execution_id@))
        .push(json::json_text(authorization.prepared_id@))
        .push(json::json_text(authorization.execution_start_receipt_id@))
        .push(json::json_number(authorization.plan_step_id as int))
        .push(json::json_text(authorization.command_digest@))
        .push(json::json_text(authorization.tool_resolution_digest@))
}

/// The JSON form that an authorisation is fingerprinted by.
pub open spec fn authorization_json(authorization: PrivilegedSpawnAuthorization) -> Seq<char> {
    json::json_array(authorization_parts(authorization))
}

impl PrivilegedSpawnAuthorization {
    /// The identifier is the fingerprint of the other fields.
    pub open spec fn is_intact(self) -> bool {
        self.authorization_id@ == digest::text_fingerprint(authorization_json(self))
    }

    pub fn integrity_matches(&self) -> (result: Result<bool, serde_json::Error>)
        ensures
            result is Ok,
            result->Ok_0 == self.is_intact(),
    {
        Ok(self.intact())
    }

    /// The identifier that the other fields ask for.
    pub fn expected_authorization_id(&self) -> (result: Result<String, serde_json::Error>)
        ensures
            result is Ok,
            result->Ok_0@ == digest::text_fingerprint(authorization_json(*self)),
    {
        Ok(self.fingerprint())
    }

    fn fingerprint(&self) -> (id: String)
        ensures
            id@ == digest::text_fingerprint(authorization_json(*self)),
    {
        let mut parts = Parts::new();
        parts.push_number(self.schema_version as u64);
        parts.push_text(self.execution_id.as_str());
        parts.push_text(self.prepared_id.as_str());
        parts.push_text(self.execution_start_receipt_id.as_str());
        parts.push_number(self.plan_step_id as u64);
        parts.push_text(self.command_digest.as_str());
        parts.push_text(self.tool_resolution_digest.as_str());
        fingerprint_text(parts.array().as_str())
    }

    pub(crate) fn intact(&self) -> (yes: bool)
        ensures
            yes == self.is_intact(),
    {
        same_text(self.authorization_id.as_str(), self.fingerprint().as_str())
    }
}

#[derive(Clone, Debug, PartialEq, Eq)]
pub enum PrivilegedSpawnAuthorizationError {
    ExecutionStartIntegrityMismatch,
    PreparedIntegrityMismatch,
    StartPreparedMismatch,
    CommandMismatch,
    ToolProvenanceDrift,
    Tools(TrustedToolError),
}

/// The content of a refusal.
pub enum SpawnFault {
    ExecutionStartIntegrityMismatch,
    PreparedIntegrityMismatch,
    StartPreparedMismatch,
    CommandMismatch,
    ToolProvenanceDrift,
    Tools(TrustedToolFault),
}

impl View for PrivilegedSpawnAuthorizationError {
    type V = SpawnFault;

    open spec fn view(&self) -> SpawnFault {
        match *self {
            PrivilegedSpawnAuthorizationError::ExecutionStartIntegrityMismatch => {
                SpawnFault::ExecutionStartIntegrityMismatch
            },
            PrivilegedSpawnAuthorizationError::PreparedIntegrityMismatch => {
                SpawnFault::PreparedIntegrityMismatch
            },
            PrivilegedSpawnAuthorizationError::StartPreparedMismatch => {
                SpawnFault::StartPreparedMismatch
            },
            PrivilegedSpawnAuthorizationError::CommandMismatch => SpawnFault::CommandMismatch,
            PrivilegedSpawnAuthorizationError::ToolProvenanceDrift => {
                SpawnFault::ToolProvenanceDrift
            },
            PrivilegedSpawnAuthorizationError::Tools(e) => SpawnFault::Tools(e@),
        }
    }
}

/// What an authorisation is refused for, if anything.
pub open spec fn spawn_refusal(
    start: PrivilegedExecutionStartReceipt,
    prepared: PreparedPrivilegedInvocation,
    command: PrivilegedCommandModel,
    fresh_tools: PrivilegedToolResolution,
) -> Option<SpawnFault> {
    if !start.is_intact() {
        Some(SpawnFault::ExecutionStartIntegrityMismatch)
    } else if !prepared.is_intact() {
        Some(SpawnFault::PreparedIntegrityMismatch)
    } else if start.execution_id@ != prepared.execution_id@ || start.prepared_id@
        != prepared.prepared_id@ || start.first_plan_step_id != prepared.plan_step_id {
        Some(SpawnFault::StartPreparedMismatch)
    } else if command.plan_step_id != prepared.plan_step_id || privileged_argv::command_fingerprint(command)
        != prepared.command_digest@ {
        Some(SpawnFault::CommandMismatch)
    } else if fresh_tools.command_digest@ != privileged_argv::command_fingerprint(command)
        || privileged_tools::resolution_fingerprint(fresh_tools) != prepared.tool_resolution_digest@ {
        Some(SpawnFault::ToolProvenanceDrift)
    } else {
        None
    }
}

/// The authorisation of a prepared command.
pub open spec fn authorizes(
    authorization: PrivilegedSpawnAuthorization,
    start: PrivilegedExecutionStartReceipt,
    prepared: PreparedPrivilegedInvocation,
) -> bool {
    &&& authorization.schema_version == 1
    &&& authorization.is_intact()
    &&& authorization.execution_id@ == prepared.execution_id@
    &&& authorization.prepared_id@ == prepared.prepared_id@
    &&& authorization.execution_start_receipt_id@ == start.receipt_id@
    &&& authorization.plan_step_id == prepared.plan_step_id
    &&& authorization.command_digest@ == prepared.command_digest@
    &&& authorization.tool_resolution_digest@ == prepared.tool_resolution_digest@
}

/// Authorises a prepared command whose tools were resolved once more.
pub fn authorize_with_resolution(
    start: &PrivilegedExecutionStartReceipt,
    prepared: &PreparedPrivilegedInvocation,
    command: &PrivilegedCommandSpec,
    fresh_tools: &PrivilegedToolResolution,
) -> (result: Result<PrivilegedSpawnAuthorization, PrivilegedSpawnAuthorizationError>)
    ensures
        match result {
            Ok(authorization) => spawn_refusal(*start, *prepared, command@, *fresh_tools) is None
                && authorizes(authorization, *start, *prepared),
            Err(e) => spawn_refusal(*start, *prepared, command@, *fresh_tools) == Some(e@),
        },
{
    if !start.intact() {
        return Err(PrivilegedSpawnAuthorizationError::ExecutionStartIntegrityMismatch);
    }
    if !prepared.intact() {
        return Err(PrivilegedSpawnAuthorizationError::PreparedIntegrityMismatch);
    }
    if !same_text(start.execution_id.as_str(), prepared.execution_id.as_str()) || !same_text(
        start.prepared_id.as_str(),
        prepared.prepared_id.as_str(),
    ) || start.first_plan_step_id != prepared.plan_step_id {
        return Err(PrivilegedSpawnAuthorizationError::StartPreparedMismatch);
    }
    let command_digest = command.fingerprint();
    if command.plan_step_id != prepared.plan_step_id || !same_text(
        command_digest.as_str(),
        prepared.command_digest.as_str(),
    ) {
        return Err(PrivilegedSpawnAuthorizationError::CommandMismatch);
    }
    if !same_text(fresh_tools.command_digest.as_str(), command_digest.as_str()) || !same_text(
        fresh_tools.fingerprint().as_str(),
        prepared.tool_resolution_digest.as_str(),
    ) {
        return Err(PrivilegedSpawnAuthorizationError::ToolProvenanceDrift);
    }
    let mut authorization = PrivilegedSpawnAuthorization {
        schema_version: 1,
        authorization_id: String::new(),
        execution_id: prepared.execution_id.clone(),
        prepared_id: prepared.prepared_id.clone(),
        execution_start_receipt_id: start.receipt_id.clone(),
        plan_step_id: prepared.plan_step_id,
        command_digest,
        tool_resolution_digest: prepared.tool_resolution_digest.clone(),
    };
    let authorization_id = authorization.fingerprint();
    authorization.authorization_id = authorization_id;
    Ok(authorization)
}

/// Resolves the tools of a prepared command once more and authorises it if nothing has changed
/// since it was prepared. No process is spawned.
pub fn authorize_privileged_spawn(
    start: &PrivilegedExecutionStartReceipt,
    prepared: &PreparedPrivilegedInvocation,
    command: &PrivilegedCommandSpec,
    primary: &CandidateStates,
    refresh: &CandidateStates,
) -> (result: Result<PrivilegedSpawnAuthorization, PrivilegedSpawnAuthorizationError>)
    ensures
        match privileged_tools::resolution_refusal(command@, primary@, refresh@) {
            Some(fault) => result matches Err(e) && e@ == SpawnFault::Tools(fault),
            None => exists|tools: PrivilegedToolResolution|
                #[trigger] privileged_tools::is_resolution_of(tools, command@, primary@, refresh@) && match result {
                    Ok(authorization) => spawn_refusal(*start, *prepared, command@, tools) is None
                        && authorizes(authorization, *start, *prepared),
                    Err(e) => spawn_refusal(*start, *prepared, command@, tools) == Some(e@),
                },
        },
{
    match resolve_privileged_command_tools(command, primary, refresh) {
        Err(e) => Err(PrivilegedSpawnAuthorizationError::Tools(e)),
        Ok(tools) => authorize_with_resolution(start, prepared, command, &tools),
    }
}

/// As long as nothing changes between preparation and start, the prepared command is authorised.
pub proof fn unchanged_preparation_is_authorized(
    start: PrivilegedExecutionStartReceipt,
    prepared: PreparedPrivilegedInvocation,
    command: PrivilegedCommandModel,
    tools: PrivilegedToolResolution,
)
    requires
        start.is_intact(),
        prepared.is_intact(),
        start.execution_id@ == prepared.execution_id@,
        start.prepared_id@ == prepared.prepared_id@,
        start.first_plan_step_id == prepared.plan_step_id,
        command.plan_step_id == prepared.plan_step_id,
        prepared.command_digest@ == privileged_argv::command_fingerprint(command),
        prepared.tool_resolution_digest@ == privileged_tools::resolution_fingerprint(tools),
        tools.command_digest@ == privileged_argv::command_fingerprint(command),
    ensures
        spawn_refusal(start, prepared, command, tools) is None,
{
}

/// The two hold the same, apart from their identifiers.
pub open spec fn same_authorization(a: PrivilegedSpawnAuthorization, b: PrivilegedSpawnAuthorization) -> bool {
    &&& a.schema_version == b.schema_version
    &&& a.execution_id@ == b.execution_id@
    &&& a.prepared_id@ == b.prepared_id@
    &&& a.execution_start_receipt_id@ == b.execution_start_receipt_id@
    &&& a.plan_step_id == b.plan_step_id
    &&& a.command_digest@ == b.command_digest@
    &&& a.tool_resolution_digest@ == b.tool_resolution_digest@
}

proof fn lemma_authorization_told(a: PrivilegedSpawnAuthorization, b: PrivilegedSpawnAuthorization)
    requires
        authorization_json(a) == authorization_json(b),
    ensures
        same_authorization(a, b),
{
    broadcast use crate::json_reading::group_json_reading;

    let p = authorization_parts(a);
    let q = authorization_parts(b);
    assert(json_reading::are_values(p) && json_reading::are_values(q));
    assert(p[0] == q[0]);
    assert(p[1] == q[1]);
    assert(p[2] == q[2]);
    assert(p[3] == q[3]);
    assert(p[4] == q[4]);
    assert(p[5] == q[5]);
    assert(p[6] == q[6]);
}

/// An authorisation that was changed under its identifier is noticed, short of a SHA-256 collision.
pub proof fn changed_authorization_is_detected(a: PrivilegedSpawnAuthorization, b: PrivilegedSpawnAuthorization)
    requires
        a.is_intact(),
        b.authorization_id@ == a.authorization_id@,
        !same_authorization(a, b),
    ensures
        !b.is_intact() || digest::is_collision(authorization_json(a), authorization_json(b)),
{
    if b.is_intact() {
        digest::fingerprint_tells_its_text(authorization_json(a), authorization_json(b));
        if authorization_json(a) == authorization_json(b) {
            lemma_authorization_told(a, b);
        }
    }
}

/// A command is authorised exactly where start and prepared command are intact and about one
/// execution and step, the command is the prepared one, and its tools are still the same.
pub proof fn command_is_authorised_while_its_tools_stay_the_same(
    start: PrivilegedExecutionStartReceipt,
    prepared: PreparedPrivilegedInvocation,
    command: PrivilegedCommandModel,
    fresh_tools: PrivilegedToolResolution,
)
    ensures
        spawn_refusal(start, prepared, command, fresh_tools) is None <==> {
            &&& start.is_intact()
            &&& prepared.is_intact()
            &&& start.execution_id@ == prepared.execution_id@
            &&& start.prepared_id@ == prepared.prepared_id@
            &&& start.first_plan_step_id == prepared.plan_step_id
            &&& command.plan_step_id == prepared.plan_step_id
            &&& privileged_argv::command_fingerprint(command) == prepared.command_digest@
            &&& fresh_tools.command_digest@ == prepared.command_digest@
            &&& privileged_tools::resolution_fingerprint(fresh_tools)
                == prepared.tool_resolution_digest@
        },
{
}

/// An authorisation repeats the prepared command and names the receipt of the start.
pub proof fn authorisation_names_its_start(
    authorization: PrivilegedSpawnAuthorization,
    start: PrivilegedExecutionStartReceipt,
    prepared: PreparedPrivilegedInvocation,
)
    requires
        authorizes(authorization, start, prepared),
    ensures
        authorization.schema_version == 1,
        authorization.execution_id@ == prepared.execution_id@,
        authorization.prepared_id@ == prepared.prepared_id@,
        authorization.execution_start_receipt_id@ == start.receipt_id@,
        authorization.plan_step_id == prepared.plan_step_id,
        authorization.command_digest@ == prepared.command_digest@,
        authorization.tool_resolution_digest@ == prepared.tool_resolution_digest@,
{
}

/// Each refusal of an authorisation names something that is wrong.
pub proof fn refused_authorisation_names_its_reason(
    start: PrivilegedExecutionStartReceipt,
    prepared: PreparedPrivilegedInvocation,
    command: PrivilegedCommandModel,
    fresh_tools: PrivilegedToolResolution,
)
    ensures
        spawn_refusal(start, prepared, command, fresh_tools) matches Some(e) ==> match e {
            SpawnFault::ExecutionStartIntegrityMismatch => !start.is_intact(),
            SpawnFault::PreparedIntegrityMismatch => !prepared.is_intact(),
            SpawnFault::StartPreparedMismatch => start.execution_id@ != prepared.execution_id@
                || start.prepared_id@ != prepared.prepared_id@ || start.first_plan_step_id
                != prepared.plan_step_id,
            SpawnFault::CommandMismatch => command.plan_step_id != prepared.plan_step_id
                || privileged_argv::command_fingerprint(command) != prepared.command_digest@,
            SpawnFault::ToolProvenanceDrift => fresh_tools.command_digest@
                != privileged_argv::command_fingerprint(command)
                || privileged_tools::resolution_fingerprint(fresh_tools)
                != prepared.tool_resolution_digest@,
            _ => false,
        },
{
}

} // verus!
