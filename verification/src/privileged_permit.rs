//! Sealed permits for one launch.

use vstd::prelude::*;

use crate::json;
use crate::json_reading;
use crate::digest;
use crate::digest::fingerprint_text;
use crate::json::Parts;
use crate::privileged_continue_start::PrivilegedContinuationStartReceipt;
use crate::privileged_launch::PrivilegedDescriptorLaunchSpec;
use crate::privileged_spawn::PrivilegedSpawnAuthorization;
use crate::privileged_start::PrivilegedExecutionStartReceipt;
use crate::text::same_text;
use crate::MUTATION_ENABLED;

verus! {

/// The seal over a start receipt, a spawn authorisation and a launch.
#[derive(Clone, Debug, PartialEq, Eq)]
pub struct PrivilegedLaunchPermit {
    pub schema_version: u32,
    pub permit_id: String,
    pub execution_id: String,
    pub execution_start_receipt_id: String,
    pub authorization_id: String,
    pub launch_id: String,
    pub plan_step_id: u32,
    pub command_digest: String,
    pub mutation_enabled: bool,
    pub process_spawned: bool,
}

/// What a permit is fingerprinted by, in order.
pub open spec fn permit_parts(permit: PrivilegedLaunchPermit) -> Seq<Seq<char>> {
    Seq::empty()
        .push(json::json_number(permit.schema_version as int))
        .push(json::json_text(permit.execution_id@))
        .push(json::json_text(permit.execution_start_receipt_id@))
        .push(json::json_text(permit.authorization_id@))
        .push(json::json_text(permit.launch_id@))
        .push(json::json_number(permit.plan_step_id as int))
        .push(json::json_text(permit.command_digest@))
        .push(json::json_bool(permit.mutation_enabled))
        .push(json::json_bool(permit.process_spawned))
}

/// The JSON form that a permit is fingerprinted by.
pub open spec fn permit_json(permit: PrivilegedLaunchPermit) -> Seq<char> {
    json::json_array(permit_parts(permit))
}

impl PrivilegedLaunchPermit {
    /// The identifier is the fingerprint of the other fields.
    pub open spec fn is_intact(self) -> bool {
        self.permit_id@ == digest::text_fingerprint(permit_json(self))
    }

    pub fn integrity_matches(&self) -> (result: Result<bool, serde_json::Error>)
        ensures
            result is Ok,
            result->Ok_0 == self.is_intact(),
    {
        Ok(self.intact())
    }

    /// The identifier that the other fields ask for.
    pub fn expected_permit_id(&self) -> (result: Result<String, serde_json::Error>)
        ensures
            result is Ok,
            result->Ok_0@ == digest::text_fingerprint(permit_json(*self)),
    {
        Ok(self.fingerprint())
    }

    fn fingerprint(&self) -> (id: String)
        ensures
            id@ == digest::text_fingerprint(permit_json(*self)),
    {
        let mut parts = Parts::new();
        parts.push_number(self.schema_version as u64);
        parts.push_text(self.execution_id.as_str());
        parts.push_text(self.execution_start_receipt_id.as_str());
        parts.push_text(self.authorization_id.as_str());
        parts.push_text(self.launch_id.as_str());
        parts.push_number(self.plan_step_id as u64);
        parts.push_text(self.command_digest.as_str());
        parts.push_bool(self.mutation_enabled);
        parts.push_bool(self.process_spawned);
        fingerprint_text(parts.array().as_str())
    }

    pub(crate) fn intact(&self) -> (yes: bool)
        ensures
            yes == self.is_intact(),
    {
        same_text(self.permit_id.as_str(), self.fingerprint().as_str())
    }
}

#[derive(Clone, Copy, Debug, PartialEq, Eq, Structural)]
pub enum PrivilegedLaunchPermitError {
    MutationEnabled,
    ExecutionStartIntegrityMismatch,
    ContinuationStartIntegrityMismatch,
    AuthorizationIntegrityMismatch,
    LaunchIntegrityMismatch,
    AlreadySpawned,
    BindingMismatch,
}

/// The authorisation belongs to the started step and the launch to the authorisation.
pub open spec fn is_launch_chain(
    execution_id: Seq<char>,
    receipt_id: Seq<char>,
    plan_step_id: u32,
    authorization: PrivilegedSpawnAuthorization,
    launch: PrivilegedDescriptorLaunchSpec,
) -> bool {
    &&& execution_id == authorization.execution_id@
    &&& receipt_id == authorization.execution_start_receipt_id@
    &&& plan_step_id == authorization.plan_step_id
    &&& authorization.authorization_id@ == launch.authorization_id@
    &&& authorization.plan_step_id == launch.plan_step_id
    &&& authorization.command_digest@ == launch.command_digest@
}

/// What a launch chain is refused for, if anything. `start_fault` is what its start is refused for.
pub open spec fn chain_refusal(
    start_fault: Option<PrivilegedLaunchPermitError>,
    execution_id: Seq<char>,
    receipt_id: Seq<char>,
    plan_step_id: u32,
    authorization: PrivilegedSpawnAuthorization,
    launch: PrivilegedDescriptorLaunchSpec,
) -> Option<PrivilegedLaunchPermitError> {
    if MUTATION_ENABLED {
        Some(PrivilegedLaunchPermitError::MutationEnabled)
    } else if start_fault is Some {
        start_fault
    } else if !authorization.is_intact() {
        Some(PrivilegedLaunchPermitError::AuthorizationIntegrityMismatch)
    } else if !launch.is_intact() {
        Some(PrivilegedLaunchPermitError::LaunchIntegrityMismatch)
    } else if launch.process_spawned {
        Some(PrivilegedLaunchPermitError::AlreadySpawned)
    } else if !is_launch_chain(execution_id, receipt_id, plan_step_id, authorization, launch) {
        Some(PrivilegedLaunchPermitError::BindingMismatch)
    } else {
        None
    }
}

/// The permit of a launch chain. It never claims that mutation is enabled or a process spawned.
pub open spec fn permits(
    permit: PrivilegedLaunchPermit,
    execution_id: Seq<char>,
    receipt_id: Seq<char>,
    authorization: PrivilegedSpawnAuthorization,
    launch: PrivilegedDescriptorLaunchSpec,
) -> bool {
    &&& permit.schema_version == 1
    &&& permit.is_intact()
    &&& permit.execution_id@ == execution_id
    &&& permit.execution_start_receipt_id@ == receipt_id
    &&& permit.authorization_id@ == authorization.authorization_id@
    &&& permit.launch_id@ == launch.launch_id@
    &&& permit.plan_step_id == launch.plan_step_id
    &&& permit.command_digest@ == launch.command_digest@
    &&& !permit.mutation_enabled
    &&& !permit.process_spawned
}

fn seal_chain(
    execution_id: &str,
    receipt_id: &str,
    plan_step_id: u32,
    authorization: &PrivilegedSpawnAuthorization,
    launch: &PrivilegedDescriptorLaunchSpec,
) -> (result: Result<PrivilegedLaunchPermit, PrivilegedLaunchPermitError>)
    ensures
        ({
            let refusal = chain_refusal(
                None,
                execution_id@,
                receipt_id@,
                plan_step_id,
                *authorization,
                *launch,
            );
            match result {
                Ok(permit) => refusal is None && permits(
                    permit,
                    execution_id@,
                    receipt_id@,
                    *authorization,
                    *launch,
                ),
                Err(e) => refusal == Some(e),
            }
        }),
{
    if MUTATION_ENABLED {
        return Err(PrivilegedLaunchPermitError::MutationEnabled);
    }
    if !authorization.intact() {
        return Err(PrivilegedLaunchPermitError::AuthorizationIntegrityMismatch);
    }
    if !launch.intact() {
        return Err(PrivilegedLaunchPermitError::LaunchIntegrityMismatch);
    }
    if launch.process_spawned {
        return Err(PrivilegedLaunchPermitError::AlreadySpawned);
    }
    if !same_text(execution_id, authorization.execution_id.as_str()) || !same_text(
        receipt_id,
        authorization.execution_start_receipt_id.as_str(),
    ) || plan_step_id != authorization.plan_step_id || !same_text(
        authorization.authorization_id.as_str(),
        launch.authorization_id.as_str(),
    ) || authorization.plan_step_id != launch.plan_step_id || !same_text(
        authorization.command_digest.as_str(),
        launch.command_digest.as_str(),
    ) {
        return Err(PrivilegedLaunchPermitError::BindingMismatch);
    }
    let mut permit = PrivilegedLaunchPermit {
        schema_version: 1,
        permit_id: String::new(),
        execution_id: execution_id.to_owned(),
        execution_start_receipt_id: receipt_id.to_owned(),
        authorization_id: authorization.authorization_id.clone(),
        launch_id: launch.launch_id.clone(),
        plan_step_id: launch.plan_step_id,
        command_digest: launch.command_digest.clone(),
        mutation_enabled: false,
        process_spawned: false,
    };
    let permit_id = permit.fingerprint();
    permit.permit_id = permit_id;
    Ok(permit)
}

/// What a permit for the first step is refused for, if anything.
pub open spec fn first_permit_refusal(
    start: PrivilegedExecutionStartReceipt,
    authorization: PrivilegedSpawnAuthorization,
    launch: PrivilegedDescriptorLaunchSpec,
) -> Option<PrivilegedLaunchPermitError> {
    chain_refusal(
        if start.is_intact() {
            None
        } else {
            Some(PrivilegedLaunchPermitError::ExecutionStartIntegrityMismatch)
        },
        start.execution_id@,
        start.receipt_id@,
        start.first_plan_step_id,
        authorization,
        launch,
    )
}

/// Seals the permit for the first step of an execution. No process is created.
pub fn seal_privileged_launch_permit(
    start: &PrivilegedExecutionStartReceipt,
    authorization: &PrivilegedSpawnAuthorization,
    launch: &PrivilegedDescriptorLaunchSpec,
) -> (result: Result<PrivilegedLaunchPermit, PrivilegedLaunchPermitError>)
    ensures
        match result {
            Ok(permit) => first_permit_refusal(*start, *authorization, *launch) is None && permits(
                permit,
                start.execution_id@,
                start.receipt_id@,
                *authorization,
                *launch,
            ),
            Err(e) => first_permit_refusal(*start, *authorization, *launch) == Some(e),
        },
{
    if MUTATION_ENABLED {
        return Err(PrivilegedLaunchPermitError::MutationEnabled);
    }
    if !start.intact() {
        return Err(PrivilegedLaunchPermitError::ExecutionStartIntegrityMismatch);
    }
    seal_chain(
        start.execution_id.as_str(),
        start.receipt_id.as_str(),
        start.first_plan_step_id,
        authorization,
        launch,
    )
}

/// What a permit for a later step is refused for, if anything.
pub open spec fn later_permit_refusal(
    start: PrivilegedContinuationStartReceipt,
    authorization: PrivilegedSpawnAuthorization,
    launch: PrivilegedDescriptorLaunchSpec,
) -> Option<PrivilegedLaunchPermitError> {
    chain_refusal(
        if start.is_intact() {
            None
        } else {
            Some(PrivilegedLaunchPermitError::ContinuationStartIntegrityMismatch)
        },
        start.execution_id@,
        start.receipt_id@,
        start.plan_step_id,
        authorization,
        launch,
    )
}

/// Seals the permit for a later step of an execution. No process is created.
pub fn seal_privileged_continuation_launch_permit(
    start: &PrivilegedContinuationStartReceipt,
    authorization: &PrivilegedSpawnAuthorization,
    launch: &PrivilegedDescriptorLaunchSpec,
) -> (result: Result<PrivilegedLaunchPermit, PrivilegedLaunchPermitError>)
    ensures
        match result {
            Ok(permit) => later_permit_refusal(*start, *authorization, *launch) is None && permits(
                permit,
                start.execution_id@,
                start.receipt_id@,
                *authorization,
                *launch,
            ),
            Err(e) => later_permit_refusal(*start, *authorization, *launch) == Some(e),
        },
{
    if MUTATION_ENABLED {
        return Err(PrivilegedLaunchPermitError::MutationEnabled);
    }
    if !start.intact() {
        return Err(PrivilegedLaunchPermitError::ContinuationStartIntegrityMismatch);
    }
    seal_chain(
        start.execution_id.as_str(),
        start.receipt_id.as_str(),
        start.plan_step_id,
        authorization,
        launch,
    )
}

/// The two hold the same, apart from their identifiers.
pub open spec fn same_permit(a: PrivilegedLaunchPermit, b: PrivilegedLaunchPermit) -> bool {
    &&& a.schema_version == b.schema_version
    &&& a.execution_id@ == b.execution_id@
    &&& a.execution_start_receipt_id@ == b.execution_start_receipt_id@
    &&& a.authorization_id@ == b.authorization_id@
    &&& a.launch_id@ == b.launch_id@
    &&& a.plan_step_id == b.plan_step_id
    &&& a.command_digest@ == b.command_digest@
    &&& a.mutation_enabled == b.mutation_enabled
    &&& a.process_spawned == b.process_spawned
}

proof fn lemma_permit_told(a: PrivilegedLaunchPermit, b: PrivilegedLaunchPermit)
    requires
        permit_json(a) == permit_json(b),
    ensures
        same_permit(a, b),
{
    broadcast use crate::json_reading::group_json_reading;

    let p = permit_parts(a);
    let q = permit_parts(b);
    assert(json_reading::are_values(p) && json_reading::are_values(q));
    assert(p[0] == q[0]);
    assert(p[1] == q[1]);
    assert(p[2] == q[2]);
    assert(p[3] == q[3]);
    assert(p[4] == q[4]);
    assert(p[5] == q[5]);
    assert(p[6] == q[6]);
    assert(p[7] == q[7]);
    assert(p[8] == q[8]);
}

/// A permit that was changed under its identifier is noticed, short of a SHA-256 collision.
pub proof fn changed_permit_is_detected(a: PrivilegedLaunchPermit, b: PrivilegedLaunchPermit)
    requires
        a.is_intact(),
        b.permit_id@ == a.permit_id@,
        !same_permit(a, b),
    ensures
        !b.is_intact() || digest::is_collision(permit_json(a), permit_json(b)),
{
    if b.is_intact() {
        digest::fingerprint_tells_its_text(permit_json(a), permit_json(b));
        if permit_json(a) == permit_json(b) {
            lemma_permit_told(a, b);
        }
    }
}

/// A permit is given exactly where mutations are off, start, authorisation and launch are intact,
/// all three are about one execution and step, and nothing was started yet.
pub proof fn permit_is_given_for_one_chain(
    first: PrivilegedExecutionStartReceipt,
    later: PrivilegedContinuationStartReceipt,
    authorization: PrivilegedSpawnAuthorization,
    launch: PrivilegedDescriptorLaunchSpec,
)
    ensures
        first_permit_refusal(first, authorization, launch) is None <==> {
            &&& first.is_intact()
            &&& authorization.is_intact()
            &&& launch.is_intact()
            &&& !launch.process_spawned
            &&& authorization.execution_id@ == first.execution_id@
            &&& authorization.execution_start_receipt_id@ == first.receipt_id@
            &&& authorization.plan_step_id == first.first_plan_step_id
            &&& launch.authorization_id@ == authorization.authorization_id@
            &&& launch.plan_step_id == authorization.plan_step_id
            &&& launch.command_digest@ == authorization.command_digest@
        },
        later_permit_refusal(later, authorization, launch) is None <==> {
            &&& later.is_intact()
            &&& authorization.is_intact()
            &&& launch.is_intact()
            &&& !launch.process_spawned
            &&& authorization.execution_id@ == later.execution_id@
            &&& authorization.execution_start_receipt_id@ == later.receipt_id@
            &&& authorization.plan_step_id == later.plan_step_id
            &&& launch.authorization_id@ == authorization.authorization_id@
            &&& launch.plan_step_id == authorization.plan_step_id
            &&& launch.command_digest@ == authorization.command_digest@
        },
{
}

/// A permit names the execution, start, authorisation, launch, step and command that it is for, and
/// claims neither that mutations are on nor that a process runs.
pub proof fn permit_names_its_chain(
    permit: PrivilegedLaunchPermit,
    execution_id: Seq<char>,
    receipt_id: Seq<char>,
    authorization: PrivilegedSpawnAuthorization,
    launch: PrivilegedDescriptorLaunchSpec,
)
    requires
        permits(permit, execution_id, receipt_id, authorization, launch),
    ensures
        permit.schema_version == 1,
        permit.execution_id@ == execution_id,
        permit.execution_start_receipt_id@ == receipt_id,
        permit.authorization_id@ == authorization.authorization_id@,
        permit.launch_id@ == launch.launch_id@,
        permit.plan_step_id == launch.plan_step_id,
        permit.command_digest@ == launch.command_digest@,
        !permit.mutation_enabled,
        !permit.process_spawned,
{
}

/// Each refusal of a permit names something that is wrong.
pub proof fn refused_launch_permit_names_its_reason(
    start: PrivilegedExecutionStartReceipt,
    authorization: PrivilegedSpawnAuthorization,
    launch: PrivilegedDescriptorLaunchSpec,
)
    ensures
        first_permit_refusal(start, authorization, launch) matches Some(e) ==> match e {
            PrivilegedLaunchPermitError::ExecutionStartIntegrityMismatch => !start.is_intact(),
            PrivilegedLaunchPermitError::AuthorizationIntegrityMismatch => {
                !authorization.is_intact()
            },
            PrivilegedLaunchPermitError::LaunchIntegrityMismatch => !launch.is_intact(),
            PrivilegedLaunchPermitError::AlreadySpawned => launch.process_spawned,
            PrivilegedLaunchPermitError::BindingMismatch => {
                ||| authorization.execution_id@ != start.execution_id@
                ||| authorization.execution_start_receipt_id@ != start.receipt_id@
                ||| authorization.plan_step_id != start.first_plan_step_id
                ||| launch.authorization_id@ != authorization.authorization_id@
                ||| launch.plan_step_id != authorization.plan_step_id
                ||| launch.command_digest@ != authorization.command_digest@
            },
            _ => false,
        },
{
}

} // verus!
