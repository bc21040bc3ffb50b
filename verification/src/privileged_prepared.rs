//! A command of the helper, bound to its request, its live identity and its tools.

use vstd::prelude::*;

use crate::privileged_tools;
use crate::privileged_protocol;
use crate::privileged_argv;
use crate::json;
use crate::json_reading;
use crate::digest;
use crate::digest::fingerprint_text;
use crate::json::Parts;
use crate::model::TargetIdentityManifest;
use crate::privileged_argv::{PrivilegedCommandModel, PrivilegedCommandSpec};
use crate::privileged_protocol::{
    validate_privileged_helper_live_identity, validate_privileged_helper_request,
    PrivilegedHelperProtocolError, PrivilegedHelperRequest,
};
use crate::privileged_tools::PrivilegedToolResolution;
use crate::text::same_text;

verus! {

/// A prepared command.
#[derive(Clone, Debug, PartialEq, Eq)]
pub struct PreparedPrivilegedInvocation {
    pub schema_version: u32,
    pub prepared_id: String,
    pub request_id: String,
    pub execution_id: String,
    pub plan_step_id: u32,
    pub live_identity_digest: String,
    pub command_digest: String,
    pub tool_resolution_digest: String,
}

/// What a prepared command is fingerprinted by, in order.
pub open spec fn prepared_parts(prepared: PreparedPrivilegedInvocation) -> Seq<Seq<char>> {
    Seq::empty()
        .push(json::json_number(prepared.schema_version as int))
        .push(json::json_text(prepared.request_id@))
        .push(json::json_text(prepared.execution_id@))
        .push(json::json_number(prepared.plan_step_id as int))
        .push(json::json_text(prepared.live_identity_digest@))
        .push(json::json_text(prepared.command_digest@))
        .push(json::json_text(prepared.tool_resolution_digest@))
}

/// The JSON form that a prepared command is fingerprinted by.
pub open spec fn prepared_json(prepared: PreparedPrivilegedInvocation) -> Seq<char> {
    json::json_array(prepared_parts(prepared))
}

impl PreparedPrivilegedInvocation {
    /// The identifier is the fingerprint of the other fields.
    pub open spec fn is_intact(self) -> bool {
        self.prepared_id@ == digest::text_fingerprint(prepared_json(self))
    }

    pub fn integrity_matches(&self) -> (result: Result<bool, serde_json::Error>)
        ensures
            result is Ok,
            result->Ok_0 == self.is_intact(),
    {
        Ok(self.intact())
    }

    /// The identifier that the other fields ask for.
    pub fn expected_prepared_id(&self) -> (result: Result<String, serde_json::Error>)
        ensures
            result is Ok,
            result->Ok_0@ == digest::text_fingerprint(prepared_json(*self)),
    {
        Ok(self.fingerprint())
    }

    fn fingerprint(&self) -> (id: String)
        ensures
            id@ == digest::text_fingerprint(prepared_json(*self)),
    {
        let mut parts = Parts::new();
        parts.push_number(self.schema_version as u64);
        parts.push_text(self.request_id.as_str());
        parts.push_text(self.execution_id.as_str());
        parts.push_number(self.plan_step_id as u64);
        parts.push_text(self.live_identity_digest.as_str());
        parts.push_text(self.command_digest.as_str());
        parts.push_text(self.tool_resolution_digest.as_str());
        fingerprint_text(parts.array().as_str())
    }

    pub(crate) fn intact(&self) -> (yes: bool)
        ensures
            yes == self.is_intact(),
    {
        same_text(self.prepared_id.as_str(), self.fingerprint().as_str())
    }
}

#[derive(Clone, Copy, Debug, PartialEq, Eq, Structural)]
pub enum PreparedInvocationError {
    Protocol(PrivilegedHelperProtocolError),
    CommandStepMismatch,
    ToolCommandDigestMismatch,
    PrimaryProgramMismatch,
    KernelRefreshProgramMismatch,
    KernelRefreshPresenceMismatch,
}

/// What the tools of a command are refused for, if anything.
pub open spec fn tool_mismatch(
    command: PrivilegedCommandModel,
    tools: PrivilegedToolResolution,
) -> Option<PreparedInvocationError> {
    if tools.command_digest@ != privileged_argv::command_fingerprint(command) {
        Some(PreparedInvocationError::ToolCommandDigestMismatch)
    } else if tools.primary.program != command.program {
        Some(PreparedInvocationError::PrimaryProgramMismatch)
    } else {
        match (command.kernel_refresh, tools.kernel_refresh) {
            (Some(refresh), Some(tool)) => {
                if refresh.program == tool.program {
                    None
                } else {
                    Some(PreparedInvocationError::KernelRefreshProgramMismatch)
                }
            },
            (None, None) => None,
            _ => Some(PreparedInvocationError::KernelRefreshPresenceMismatch),
        }
    }
}

/// What a preparation is refused for, if anything.
pub open spec fn preparation_refusal(
    request: PrivilegedHelperRequest,
    live: TargetIdentityManifest,
    command: PrivilegedCommandModel,
    tools: PrivilegedToolResolution,
) -> Option<PreparedInvocationError> {
    if privileged_protocol::request_refusal(request) is Some {
        Some(PreparedInvocationError::Protocol(privileged_protocol::request_refusal(request)->Some_0))
    } else if !privileged_protocol::is_live(request, live) {
        Some(
            PreparedInvocationError::Protocol(
                PrivilegedHelperProtocolError::FreshIdentityBindingMismatch,
            ),
        )
    } else if command.plan_step_id != request.plan_step_id {
        Some(PreparedInvocationError::CommandStepMismatch)
    } else {
        tool_mismatch(command, tools)
    }
}

/// The prepared form of a command.
pub open spec fn is_prepared(
    prepared: PreparedPrivilegedInvocation,
    request: PrivilegedHelperRequest,
    live: TargetIdentityManifest,
    command: PrivilegedCommandModel,
    tools: PrivilegedToolResolution,
) -> bool {
    &&& prepared.schema_version == 1
    &&& prepared.is_intact()
    &&& prepared.request_id@ == request.request_id@
    &&& prepared.execution_id@ == request.execution_id@
    &&& prepared.plan_step_id == request.plan_step_id
    &&& prepared.live_identity_digest@ == live.manifest_digest@
    &&& prepared.command_digest@ == privileged_argv::command_fingerprint(command)
    &&& prepared.tool_resolution_digest@ == privileged_tools::resolution_fingerprint(tools)
}

/// Binds a compiled command to its request, the live identity and its tools.
pub fn prepare_privileged_invocation(
    request: &PrivilegedHelperRequest,
    live_identity: &TargetIdentityManifest,
    command: &PrivilegedCommandSpec,
    tools: &PrivilegedToolResolution,
) -> (result: Result<PreparedPrivilegedInvocation, PreparedInvocationError>)
    ensures
        ({
            let refusal = preparation_refusal(*request, *live_identity, command@, *tools);
            match result {
                Ok(prepared) => refusal is None && is_prepared(
                    prepared,
                    *request,
                    *live_identity,
                    command@,
                    *tools,
                ),
                Err(e) => refusal == Some(e),
            }
        }),
{
    match validate_privileged_helper_request(request) {
        Ok(_) => {},
        Err(e) => return Err(PreparedInvocationError::Protocol(e)),
    }
    match validate_privileged_helper_live_identity(request, live_identity) {
        Ok(_) => {},
        Err(e) => return Err(PreparedInvocationError::Protocol(e)),
    }
    if command.plan_step_id != request.plan_step_id {
        return Err(PreparedInvocationError::CommandStepMismatch);
    }
    let command_digest = command.fingerprint();
    if !same_text(tools.command_digest.as_str(), command_digest.as_str()) {
        return Err(PreparedInvocationError::ToolCommandDigestMismatch);
    }
    if tools.primary.program != command.program {
        return Err(PreparedInvocationError::PrimaryProgramMismatch);
    }
    match (&command.kernel_refresh, &tools.kernel_refresh) {
        (Some(refresh), Some(tool)) => {
            if refresh.program != tool.program {
                return Err(PreparedInvocationError::KernelRefreshProgramMismatch);
            }
        },
        (None, None) => {},
        _ => return Err(PreparedInvocationError::KernelRefreshPresenceMismatch),
    }
    let mut prepared = PreparedPrivilegedInvocation {
        schema_version: 1,
        prepared_id: String::new(),
        request_id: request.request_id.clone(),
        execution_id: request.execution_id.clone(),
        plan_step_id: request.plan_step_id,
        live_identity_digest: live_identity.manifest_digest.clone(),
        command_digest,
        tool_resolution_digest: tools.fingerprint(),
    };
    let prepared_id = prepared.fingerprint();
    prepared.prepared_id = prepared_id;
    Ok(prepared)
}

/// The two hold the same, apart from their identifiers.
pub open spec fn same_prepared(a: PreparedPrivilegedInvocation, b: PreparedPrivilegedInvocation) -> bool {
    &&& a.schema_version == b.schema_version
    &&& a.request_id@ == b.request_id@
    &&& a.execution_id@ == b.execution_id@
    &&& a.plan_step_id == b.plan_step_id
    &&& a.live_identity_digest@ == b.live_identity_digest@
    &&& a.command_digest@ == b.command_digest@
    &&& a.tool_resolution_digest@ == b.tool_resolution_digest@
}

proof fn lemma_prepared_told(a: PreparedPrivilegedInvocation, b: PreparedPrivilegedInvocation)
    requires
        prepared_json(a) == prepared_json(b),
    ensures
        same_prepared(a, b),
{
    broadcast use crate::json_reading::group_json_reading;

    let p = prepared_parts(a);
    let q = prepared_parts(b);
    assert(json_reading::are_values(p) && json_reading::are_values(q));
    assert(p[0] == q[0]);
    assert(p[1] == q[1]);
    assert(p[2] == q[2]);
    assert(p[3] == q[3]);
    assert(p[4] == q[4]);
    assert(p[5] == q[5]);
    assert(p[6] == q[6]);
}

/// A prepared command that was changed under its identifier is noticed, short of a SHA-256 collision.
pub proof fn changed_prepared_is_detected(a: PreparedPrivilegedInvocation, b: PreparedPrivilegedInvocation)
    requires
        a.is_intact(),
        b.prepared_id@ == a.prepared_id@,
        !same_prepared(a, b),
    ensures
        !b.is_intact() || digest::is_collision(prepared_json(a), prepared_json(b)),
{
    if b.is_intact() {
        digest::fingerprint_tells_its_text(prepared_json(a), prepared_json(b));
        if prepared_json(a) == prepared_json(b) {
            lemma_prepared_told(a, b);
        }
    }
}

/// A command is prepared exactly where its request is valid and speaks of the live target, device and
/// state, the step is the requested one, and the tools are those of this command and its programs.
pub proof fn prepared_command_has_its_own_tools(
    request: PrivilegedHelperRequest,
    live: TargetIdentityManifest,
    command: PrivilegedCommandModel,
    tools: PrivilegedToolResolution,
)
    ensures
        preparation_refusal(request, live, command, tools) is None <==> {
            &&& privileged_protocol::request_refusal(request) is None
            &&& live.manifest_digest@ == request.fresh_identity_digest@
            &&& live.target@ == request.target@
            &&& live.resolved_device@ == request.resolved_device@
            &&& command.plan_step_id == request.plan_step_id
            &&& tools.command_digest@ == privileged_argv::command_fingerprint(command)
            &&& tools.primary.program == command.program
            &&& tools.kernel_refresh is Some <==> command.kernel_refresh is Some
            &&& tools.kernel_refresh is Some ==> tools.kernel_refresh->Some_0.program
                == command.kernel_refresh->Some_0.program
        },
{
}

/// A prepared command names its request, execution, step and live state, and the fingerprints of the
/// command and its tools.
pub proof fn prepared_command_names_its_request(
    prepared: PreparedPrivilegedInvocation,
    request: PrivilegedHelperRequest,
    live: TargetIdentityManifest,
    command: PrivilegedCommandModel,
    tools: PrivilegedToolResolution,
)
    requires
        is_prepared(prepared, request, live, command, tools),
    ensures
        prepared.schema_version == 1,
        prepared.request_id@ == request.request_id@,
        prepared.execution_id@ == request.execution_id@,
        prepared.plan_step_id == request.plan_step_id,
        prepared.live_identity_digest@ == live.manifest_digest@,
        prepared.command_digest@ == privileged_argv::command_fingerprint(command),
        prepared.tool_resolution_digest@ == privileged_tools::resolution_fingerprint(tools),
{
}

/// Each refusal to prepare names something that is wrong.
pub proof fn refused_preparation_names_its_reason(
    request: PrivilegedHelperRequest,
    live: TargetIdentityManifest,
    command: PrivilegedCommandModel,
    tools: PrivilegedToolResolution,
)
    ensures
        preparation_refusal(request, live, command, tools) matches Some(e) ==> match e {
            PreparedInvocationError::Protocol(fault) => {
                ||| privileged_protocol::request_refusal(request) == Some(fault)
                ||| fault is FreshIdentityBindingMismatch && (live.manifest_digest@
                    != request.fresh_identity_digest@ || live.target@ != request.target@
                    || live.resolved_device@ != request.resolved_device@)
            },
            PreparedInvocationError::CommandStepMismatch => command.plan_step_id
                != request.plan_step_id,
            PreparedInvocationError::ToolCommandDigestMismatch => tools.command_digest@
                != privileged_argv::command_fingerprint(command),
            PreparedInvocationError::PrimaryProgramMismatch => tools.primary.program
                != command.program,
            PreparedInvocationError::KernelRefreshPresenceMismatch => tools.kernel_refresh is Some
                != command.kernel_refresh is Some,
            PreparedInvocationError::KernelRefreshProgramMismatch => tools.kernel_refresh is Some
                && command.kernel_refresh is Some && tools.kernel_refresh->Some_0.program
                != command.kernel_refresh->Some_0.program,
            _ => false,
        },
{
}

} // verus!
