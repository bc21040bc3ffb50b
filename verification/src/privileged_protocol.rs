//! Requests to the privileged helper.

use vstd::prelude::*;

use crate::reading;
use crate::text;
use crate::native_operation;
use crate::model;
use crate::json;
use crate::json_reading;
use crate::disposable_verify;
use crate::digest;
use crate::digest::fingerprint_text;
use crate::execution_intent::FrozenIntentRole;
use crate::json::Parts;
use crate::model::{
    find_step, BindingIntegrity, ExecutionStartBinding, Lookup, OperationJournal,
    TargetIdentityManifest, VerifiedMutationBoundaryBinding,
};
use crate::native_operation::{
    operation_literal, NativeCompiledManifest, NativeCompiledStep, NativeOperationSpec,
    ValidatedNativeManifest,
};
use crate::text::{holds_id, is_lower_hex_digest, safe_absolute_path, safe_device_path, same_text};

verus! {

pub const PRIVILEGED_HELPER_PROTOCOL_VERSION: u32 = 1;

/// One mutation that the privileged helper is asked for.
#[derive(Debug, PartialEq, Eq)]
pub struct PrivilegedHelperRequest {
    pub schema_version: u32,
    pub request_id: String,
    pub execution_id: String,
    pub source_manifest_id: String,
    pub native_manifest_digest: String,
    pub fresh_identity_digest: String,
    pub target: String,
    pub resolved_device: String,
    pub plan_step_id: u32,
    pub operation: NativeOperationSpec,
}

impl Clone for PrivilegedHelperRequest {
    fn clone(&self) -> (copy: Self)
        ensures
            copy == *self,
    {
        PrivilegedHelperRequest {
            schema_version: self.schema_version,
            request_id: self.request_id.clone(),
            execution_id: self.execution_id.clone(),
            source_manifest_id: self.source_manifest_id.clone(),
            native_manifest_digest: self.native_manifest_digest.clone(),
            fresh_identity_digest: self.fresh_identity_digest.clone(),
            target: self.target.clone(),
            resolved_device: self.resolved_device.clone(),
            plan_step_id: self.plan_step_id,
            operation: self.operation.clone(),
        }
    }
}

#[derive(Clone, Copy, Debug, PartialEq, Eq, Structural)]
pub enum PrivilegedHelperProtocolError {
    UnsupportedVersion(u32),
    ExecutionBindingIntegrityMismatch,
    ExecutionBindingMismatch,
    FreshIdentityBindingMismatch,
    UnauthorizedStep(u32),
    StepNotUnique(u32),
    StepNotMutation(u32),
    UnsafeOperationPayload,
    RequestDigestMismatch,
    Serialization,
}

/// A mutation whose values can be handed to the helper.
pub open spec fn is_safe_operation(operation: NativeOperationSpec) -> bool {
    match operation {
        NativeOperationSpec::ExtendPartition {
            partition,
            start_sector,
            old_size_sectors,
            new_size_sectors,
            sector_size_bytes,
        } => {
            &&& text::is_safe_device_path(partition@)
            &&& start_sector > 0
            &&& old_size_sectors > 0
            &&& new_size_sectors > old_size_sectors
            &&& (sector_size_bytes == 512 || sector_size_bytes == 4096)
        },
        NativeOperationSpec::ResizePhysicalVolume { pv_uuid, expected_pv_size_bytes } => {
            pv_uuid@.len() > 0 && expected_pv_size_bytes > 0
        },
        NativeOperationSpec::ExtendLogicalVolume {
            lv_uuid,
            additional_extents,
            expected_lv_size_bytes,
        } => lv_uuid@.len() > 0 && additional_extents > 0 && expected_lv_size_bytes > 0,
        NativeOperationSpec::GrowFilesystem { fs_type, mountpoint } => {
            ||| fs_type@ == "ext4"@ && (mountpoint is None || text::is_safe_absolute_path(
                mountpoint->Some_0@,
            ))
            ||| fs_type@ == "xfs"@ && mountpoint is Some && text::is_safe_absolute_path(
                mountpoint->Some_0@,
            )
        },
        _ => false,
    }
}

/// Whether a mutation can be handed to the helper.
pub fn operation_is_safe(operation: &NativeOperationSpec) -> (yes: bool)
    ensures
        yes == is_safe_operation(*operation),
{
    match operation {
        NativeOperationSpec::ExtendPartition {
            partition,
            start_sector,
            old_size_sectors,
            new_size_sectors,
            sector_size_bytes,
        } => safe_device_path(partition.as_str()) && *start_sector > 0 && *old_size_sectors > 0
            && *new_size_sectors > *old_size_sectors && (*sector_size_bytes == 512
            || *sector_size_bytes == 4096),
        NativeOperationSpec::ResizePhysicalVolume { pv_uuid, expected_pv_size_bytes } => {
            !pv_uuid.as_str().is_empty() && *expected_pv_size_bytes > 0
        },
        NativeOperationSpec::ExtendLogicalVolume {
            lv_uuid,
            additional_extents,
            expected_lv_size_bytes,
        } => !lv_uuid.as_str().is_empty() && *additional_extents > 0 && *expected_lv_size_bytes > 0,
        NativeOperationSpec::GrowFilesystem { fs_type, mountpoint } => {
            proof {
                reveal_strlit("ext4");
                reveal_strlit("xfs");
                assert("ext4"@.len() != "xfs"@.len());
            }
            if same_text(fs_type.as_str(), "ext4") {
                match mountpoint {
                    None => true,
                    Some(path) => safe_absolute_path(path.as_str()),
                }
            } else if same_text(fs_type.as_str(), "xfs") {
                match mountpoint {
                    None => false,
                    Some(path) => safe_absolute_path(path.as_str()),
                }
            } else {
                false
            }
        },
        _ => false,
    }
}

/// The JSON form that a request is fingerprinted by. Target and device stand beside it: they are
/// compared with the live identity.
pub open spec fn request_parts_json(
    schema_version: u32,
    execution_id: Seq<char>,
    source_manifest_id: Seq<char>,
    native_manifest_digest: Seq<char>,
    fresh_identity_digest: Seq<char>,
    plan_step_id: u32,
    operation: NativeOperationSpec,
) -> Seq<char> {
    json::json_array(
        Seq::empty()
            .push(json::json_number(schema_version as int))
            .push(json::json_text(execution_id))
            .push(json::json_text(source_manifest_id))
            .push(json::json_text(native_manifest_digest))
            .push(json::json_text(fresh_identity_digest))
            .push(json::json_number(plan_step_id as int))
            .push(native_operation::operation_json(operation)),
    )
}

/// The JSON form that a request is fingerprinted by.
pub open spec fn request_json(request: PrivilegedHelperRequest) -> Seq<char> {
    request_parts_json(
        request.schema_version,
        request.execution_id@,
        request.source_manifest_id@,
        request.native_manifest_digest@,
        request.fresh_identity_digest@,
        request.plan_step_id,
        request.operation,
    )
}

fn expected_request_id(
    schema_version: u32,
    execution_id: &str,
    source_manifest_id: &str,
    native_manifest_digest: &str,
    fresh_identity_digest: &str,
    plan_step_id: u32,
    operation: &NativeOperationSpec,
) -> (id: String)
    ensures
        id@ == digest::text_fingerprint(
            request_parts_json(
                schema_version,
                execution_id@,
                source_manifest_id@,
                native_manifest_digest@,
                fresh_identity_digest@,
                plan_step_id,
                *operation,
            ),
        ),
{
    let mut parts = Parts::new();
    parts.push_number(schema_version as u64);
    parts.push_text(execution_id);
    parts.push_text(source_manifest_id);
    parts.push_text(native_manifest_digest);
    parts.push_text(fresh_identity_digest);
    parts.push_number(plan_step_id as u64);
    parts.push(operation_literal(operation));
    fingerprint_text(parts.array().as_str())
}

/// What an execution start is refused for by itself, if anything.
pub open spec fn execution_refusal(
    execution: ExecutionStartBinding,
    manifest: NativeCompiledManifest,
    digest: Seq<char>,
) -> Option<PrivilegedHelperProtocolError> {
    if execution.schema_version != 1 || execution.integrity == BindingIntegrity::Differs {
        Some(PrivilegedHelperProtocolError::ExecutionBindingIntegrityMismatch)
    } else if execution.integrity == BindingIntegrity::Unavailable {
        Some(PrivilegedHelperProtocolError::Serialization)
    } else if !disposable_verify::names_manifest(execution, manifest, digest) || !text::is_digest_text(
        execution.source_manifest_id@,
    ) || !text::is_digest_text(execution.native_manifest_digest@) || !text::is_digest_text(
        execution.fresh_identity_digest@,
    ) {
        Some(PrivilegedHelperProtocolError::ExecutionBindingMismatch)
    } else {
        None
    }
}

fn check_execution(execution: &ExecutionStartBinding, validated: &ValidatedNativeManifest) -> (result:
    Result<(), PrivilegedHelperProtocolError>)
    ensures
        match result {
            Ok(_) => execution_refusal(
                *execution,
                validated.source(),
                validated.digest_text(),
            ) is None,
            Err(e) => execution_refusal(*execution, validated.source(), validated.digest_text())
                == Some(e),
        },
{
    if execution.schema_version != 1 {
        return Err(PrivilegedHelperProtocolError::ExecutionBindingIntegrityMismatch);
    }
    match execution.integrity {
        BindingIntegrity::Matches => {},
        BindingIntegrity::Differs => {
            return Err(PrivilegedHelperProtocolError::ExecutionBindingIntegrityMismatch);
        },
        BindingIntegrity::Unavailable => return Err(PrivilegedHelperProtocolError::Serialization),
    }
    if !same_text(
        execution.source_manifest_id.as_str(),
        validated.manifest().source_manifest_id.as_str(),
    ) || !same_text(execution.native_manifest_digest.as_str(), validated.digest())
        || !is_lower_hex_digest(execution.source_manifest_id.as_str()) || !is_lower_hex_digest(
        execution.native_manifest_digest.as_str(),
    ) || !is_lower_hex_digest(execution.fresh_identity_digest.as_str()) {
        return Err(PrivilegedHelperProtocolError::ExecutionBindingMismatch);
    }
    Ok(())
}

/// The steps with one number.
pub open spec fn steps_numbered(steps: Seq<NativeCompiledStep>, id: u32) -> Seq<
    NativeCompiledStep,
> {
    steps.filter(|s: NativeCompiledStep| s.plan_step_id == id)
}

fn find_only_step(steps: &Vec<NativeCompiledStep>, id: u32) -> (found: Lookup)
    ensures
        model::lookup_of(steps@, steps_numbered(steps@, id), found),
{
    let ghost keep = |s: NativeCompiledStep| s.plan_step_id == id;
    let mut found = Lookup::Missing;
    let mut i: usize = 0;
    proof {
        reveal(Seq::filter);
    }
    while i < steps.len()
        invariant
            i <= steps.len(),
            keep == (|s: NativeCompiledStep| s.plan_step_id == id),
            model::lookup_of(steps@, steps@.take(i as int).filter(keep), found),
        decreases steps.len() - i,
    {
        proof {
            model::lemma_filter_next(steps@, i as int, keep);
        }
        if steps[i].plan_step_id == id {
            found = match found {
                Lookup::Missing => Lookup::Unique(i),
                _ => Lookup::Ambiguous,
            };
            assert(model::lookup_of(steps@, steps@.take(i + 1).filter(keep), found)) by {
                if found is Unique {
                    assert(steps@.take(i + 1).filter(keep) =~= seq![steps@[i as int]]);
                }
            }
        }
        i += 1;
    }
    assert(steps@.take(steps@.len() as int) =~= steps@);
    found
}

/// What the step of a request is refused for, if anything.
pub open spec fn step_refusal(steps: Seq<NativeCompiledStep>, plan_step_id: u32) -> Option<
    PrivilegedHelperProtocolError,
> {
    let found = steps_numbered(steps, plan_step_id);
    if found.len() != 1 {
        Some(PrivilegedHelperProtocolError::StepNotUnique(plan_step_id))
    } else if found[0].role != FrozenIntentRole::MutationCandidate {
        Some(PrivilegedHelperProtocolError::StepNotMutation(plan_step_id))
    } else if !is_safe_operation(found[0].operation) {
        Some(PrivilegedHelperProtocolError::UnsafeOperationPayload)
    } else {
        None
    }
}

fn check_step(steps: &Vec<NativeCompiledStep>, plan_step_id: u32) -> (result: Result<
    usize,
    PrivilegedHelperProtocolError,
>)
    ensures
        match result {
            Ok(i) => i < steps@.len() && step_refusal(steps@, plan_step_id) is None
                && steps_numbered(steps@, plan_step_id)[0] == steps@[i as int],
            Err(e) => step_refusal(steps@, plan_step_id) == Some(e),
        },
{
    match find_only_step(steps, plan_step_id) {
        Lookup::Unique(i) => {
            if !matches!(steps[i].role, FrozenIntentRole::MutationCandidate) {
                return Err(PrivilegedHelperProtocolError::StepNotMutation(plan_step_id));
            }
            if !operation_is_safe(&steps[i].operation) {
                return Err(PrivilegedHelperProtocolError::UnsafeOperationPayload);
            }
            Ok(i)
        },
        _ => Err(PrivilegedHelperProtocolError::StepNotUnique(plan_step_id)),
    }
}

/// The request for one step of an execution on one target.
pub open spec fn is_request_for(
    request: PrivilegedHelperRequest,
    execution: ExecutionStartBinding,
    step: NativeCompiledStep,
    fresh_identity_digest: Seq<char>,
    target: Seq<char>,
    resolved_device: Seq<char>,
) -> bool {
    &&& request.schema_version == PRIVILEGED_HELPER_PROTOCOL_VERSION
    &&& is_intact_request(request)
    &&& request.execution_id@ == execution.execution_id@
    &&& request.source_manifest_id@ == execution.source_manifest_id@
    &&& request.native_manifest_digest@ == execution.native_manifest_digest@
    &&& request.fresh_identity_digest@ == fresh_identity_digest
    &&& request.target@ == target
    &&& request.resolved_device@ == resolved_device
    &&& request.plan_step_id == step.plan_step_id
    &&& request.operation == step.operation
}

fn assemble_request(
    execution: &ExecutionStartBinding,
    step: &NativeCompiledStep,
    fresh_identity_digest: &str,
    target: &str,
    resolved_device: &str,
) -> (request: PrivilegedHelperRequest)
    ensures
        is_request_for(
            request,
            *execution,
            *step,
            fresh_identity_digest@,
            target@,
            resolved_device@,
        ),
{
    let request_id = expected_request_id(
        PRIVILEGED_HELPER_PROTOCOL_VERSION,
        execution.execution_id.as_str(),
        execution.source_manifest_id.as_str(),
        execution.native_manifest_digest.as_str(),
        fresh_identity_digest,
        step.plan_step_id,
        &step.operation,
    );
    PrivilegedHelperRequest {
        schema_version: PRIVILEGED_HELPER_PROTOCOL_VERSION,
        request_id,
        execution_id: execution.execution_id.clone(),
        source_manifest_id: execution.source_manifest_id.clone(),
        native_manifest_digest: execution.native_manifest_digest.clone(),
        fresh_identity_digest: fresh_identity_digest.to_owned(),
        target: target.to_owned(),
        resolved_device: resolved_device.to_owned(),
        plan_step_id: step.plan_step_id,
        operation: step.operation.clone(),
    }
}

/// What a request is refused for when it is built, if anything.
pub open spec fn request_build_refusal(
    execution: ExecutionStartBinding,
    manifest: NativeCompiledManifest,
    digest: Seq<char>,
    plan_step_id: u32,
) -> Option<PrivilegedHelperProtocolError> {
    let on_execution = execution_refusal(execution, manifest, digest);
    if on_execution is Some {
        on_execution
    } else if !execution.mutation_step_ids@.contains(plan_step_id) {
        Some(PrivilegedHelperProtocolError::UnauthorizedStep(plan_step_id))
    } else {
        step_refusal(manifest.steps@, plan_step_id)
    }
}

/// Builds the request for one authorised mutation, from the state that the execution started from.
pub fn build_privileged_helper_request(
    validated: &ValidatedNativeManifest,
    execution: &ExecutionStartBinding,
    target: &str,
    resolved_device: &str,
    plan_step_id: u32,
) -> (result: Result<PrivilegedHelperRequest, PrivilegedHelperProtocolError>)
    ensures
        ({
            let refusal = request_build_refusal(
                *execution,
                validated.source(),
                validated.digest_text(),
                plan_step_id,
            );
            match result {
                Ok(request) => refusal is None && is_request_for(
                    request,
                    *execution,
                    steps_numbered(validated.source().steps@, plan_step_id)[0],
                    execution.fresh_identity_digest@,
                    target@,
                    resolved_device@,
                ),
                Err(e) => refusal == Some(e),
            }
        }),
{
    match check_execution(execution, validated) {
        Ok(_) => {},
        Err(e) => return Err(e),
    }
    if !holds_id(&execution.mutation_step_ids, plan_step_id) {
        return Err(PrivilegedHelperProtocolError::UnauthorizedStep(plan_step_id));
    }
    let steps = &validated.manifest().steps;
    match check_step(steps, plan_step_id) {
        Err(e) => Err(e),
        Ok(i) => Ok(
            assemble_request(
                execution,
                &steps[i],
                execution.fresh_identity_digest.as_str(),
                target,
                resolved_device,
            ),
        ),
    }
}

/// A recorded boundary that hands over from one step to the next and is not the end.
pub open spec fn hands_over(
    boundary: VerifiedMutationBoundaryBinding,
    execution: ExecutionStartBinding,
    position: int,
) -> bool {
    &&& boundary.schema_version == 1
    &&& boundary.integrity == BindingIntegrity::Matches
    &&& boundary.execution_id@ == execution.execution_id@
    &&& boundary.completed_step_id == execution.mutation_step_ids@[position - 1]
    &&& boundary.next_step_id == execution.mutation_step_ids@[position]
    &&& boundary.final_step_id is None
    &&& boundary.final_identity_digest is None
}

/// Whether a recorded boundary hands over to the step at `position`.
pub fn boundary_hands_over(
    boundary: &VerifiedMutationBoundaryBinding,
    execution: &ExecutionStartBinding,
    position: usize,
) -> (yes: bool)
    requires
        0 < position < execution.mutation_step_ids@.len(),
    ensures
        yes == hands_over(*boundary, *execution, position as int),
{
    boundary.schema_version == 1 && matches!(boundary.integrity, BindingIntegrity::Matches)
        && same_text(boundary.execution_id.as_str(), execution.execution_id.as_str())
        && boundary.completed_step_id == execution.mutation_step_ids[position - 1]
        && boundary.next_step_id == execution.mutation_step_ids[position]
        && boundary.final_step_id.is_none() && boundary.final_identity_digest.is_none()
}

/// The identity that the journal authorises a step to start from: that of the execution start for
/// the first step, that of the boundary that hands over to it for a later one.
pub open spec fn durable_identity(
    journal: OperationJournal,
    execution: ExecutionStartBinding,
    plan_step_id: u32,
) -> Option<Seq<char>> {
    match model::step_position(execution.mutation_step_ids@, plan_step_id) {
        None => None,
        Some(p) => {
            if p == 0 {
                if journal.verified_boundary is None {
                    Some(execution.fresh_identity_digest@)
                } else {
                    None
                }
            } else {
                match journal.verified_boundary {
                    None => None,
                    Some(boundary) => if hands_over(boundary, execution, p) {
                        Some(boundary.fresh_identity_digest@)
                    } else {
                        None
                    },
                }
            }
        },
    }
}

/// Whether the journal authorises a step to start from one identity.
pub fn starts_from_durable_identity(
    journal: &OperationJournal,
    execution: &ExecutionStartBinding,
    plan_step_id: u32,
    identity_digest: &str,
) -> (yes: bool)
    ensures
        yes == (durable_identity(*journal, *execution, plan_step_id) == Some(identity_digest@)),
{
    match find_step(&execution.mutation_step_ids, plan_step_id) {
        None => false,
        Some(position) => {
            if position == 0 {
                journal.verified_boundary.is_none() && same_text(
                    execution.fresh_identity_digest.as_str(),
                    identity_digest,
                )
            } else {
                match &journal.verified_boundary {
                    None => false,
                    Some(boundary) => boundary_hands_over(boundary, execution, position)
                        && same_text(boundary.fresh_identity_digest.as_str(), identity_digest),
                }
            }
        },
    }
}

/// What a request for a durable step is refused for, if anything.
pub open spec fn durable_request_refusal(
    journal: OperationJournal,
    manifest: NativeCompiledManifest,
    digest: Seq<char>,
    live: TargetIdentityManifest,
    plan_step_id: u32,
) -> Option<PrivilegedHelperProtocolError> {
    match journal.execution {
        None => Some(PrivilegedHelperProtocolError::ExecutionBindingMismatch),
        Some(execution) => {
            let on_execution = execution_refusal(execution, manifest, digest);
            if on_execution is Some {
                on_execution
            } else if !execution.mutation_step_ids@.contains(plan_step_id) {
                Some(PrivilegedHelperProtocolError::UnauthorizedStep(plan_step_id))
            } else if durable_identity(journal, execution, plan_step_id) != Some(
                live.manifest_digest@,
            ) || !text::is_digest_text(live.manifest_digest@) {
                Some(PrivilegedHelperProtocolError::FreshIdentityBindingMismatch)
            } else {
                step_refusal(manifest.steps@, plan_step_id)
            }
        },
    }
}

/// Builds the request for the step that a durable journal authorises next, from the live identity.
pub fn build_privileged_helper_request_for_durable_step(
    validated: &ValidatedNativeManifest,
    journal: &OperationJournal,
    live_identity: &TargetIdentityManifest,
    plan_step_id: u32,
) -> (result: Result<PrivilegedHelperRequest, PrivilegedHelperProtocolError>)
    ensures
        ({
            let refusal = durable_request_refusal(
                *journal,
                validated.source(),
                validated.digest_text(),
                *live_identity,
                plan_step_id,
            );
            match result {
                Ok(request) => refusal is None && is_request_for(
                    request,
                    journal.execution->Some_0,
                    steps_numbered(validated.source().steps@, plan_step_id)[0],
                    live_identity.manifest_digest@,
                    live_identity.target@,
                    live_identity.resolved_device@,
                ),
                Err(e) => refusal == Some(e),
            }
        }),
{
    let execution = match &journal.execution {
        None => return Err(PrivilegedHelperProtocolError::ExecutionBindingMismatch),
        Some(execution) => execution,
    };
    match check_execution(execution, validated) {
        Ok(_) => {},
        Err(e) => return Err(e),
    }
    if !holds_id(&execution.mutation_step_ids, plan_step_id) {
        return Err(PrivilegedHelperProtocolError::UnauthorizedStep(plan_step_id));
    }
    if !starts_from_durable_identity(
        journal,
        execution,
        plan_step_id,
        live_identity.manifest_digest.as_str(),
    ) || !is_lower_hex_digest(live_identity.manifest_digest.as_str()) {
        return Err(PrivilegedHelperProtocolError::FreshIdentityBindingMismatch);
    }
    let steps = &validated.manifest().steps;
    match check_step(steps, plan_step_id) {
        Err(e) => Err(e),
        Ok(i) => Ok(
            assemble_request(
                execution,
                &steps[i],
                live_identity.manifest_digest.as_str(),
                live_identity.target.as_str(),
                live_identity.resolved_device.as_str(),
            ),
        ),
    }
}

/// What a request is refused for when it arrives, if anything.
pub open spec fn request_refusal(request: PrivilegedHelperRequest) -> Option<
    PrivilegedHelperProtocolError,
> {
    if request.schema_version != PRIVILEGED_HELPER_PROTOCOL_VERSION {
        Some(PrivilegedHelperProtocolError::UnsupportedVersion(request.schema_version))
    } else if !text::is_digest_text(request.execution_id@) || !text::is_digest_text(
        request.source_manifest_id@,
    ) || !text::is_digest_text(request.native_manifest_digest@) || !text::is_digest_text(
        request.fresh_identity_digest@,
    ) || request.plan_step_id == 0 || !is_safe_operation(request.operation) {
        Some(PrivilegedHelperProtocolError::UnsafeOperationPayload)
    } else if !is_intact_request(request) {
        Some(PrivilegedHelperProtocolError::RequestDigestMismatch)
    } else {
        None
    }
}

/// Validates a request that arrived.
pub fn validate_privileged_helper_request(request: &PrivilegedHelperRequest) -> (result: Result<
    (),
    PrivilegedHelperProtocolError,
>)
    ensures
        match result {
            Ok(_) => request_refusal(*request) is None,
            Err(e) => request_refusal(*request) == Some(e),
        },
{
    if request.schema_version != PRIVILEGED_HELPER_PROTOCOL_VERSION {
        return Err(PrivilegedHelperProtocolError::UnsupportedVersion(request.schema_version));
    }
    if !is_lower_hex_digest(request.execution_id.as_str()) || !is_lower_hex_digest(
        request.source_manifest_id.as_str(),
    ) || !is_lower_hex_digest(request.native_manifest_digest.as_str()) || !is_lower_hex_digest(
        request.fresh_identity_digest.as_str(),
    ) || request.plan_step_id == 0 || !operation_is_safe(&request.operation) {
        return Err(PrivilegedHelperProtocolError::UnsafeOperationPayload);
    }
    let expected = expected_request_id(
        request.schema_version,
        request.execution_id.as_str(),
        request.source_manifest_id.as_str(),
        request.native_manifest_digest.as_str(),
        request.fresh_identity_digest.as_str(),
        request.plan_step_id,
        &request.operation,
    );
    if !same_text(request.request_id.as_str(), expected.as_str()) {
        return Err(PrivilegedHelperProtocolError::RequestDigestMismatch);
    }
    Ok(())
}

/// The request speaks of the live target, device and state.
pub open spec fn is_live(request: PrivilegedHelperRequest, live: TargetIdentityManifest) -> bool {
    &&& live.manifest_digest@ == request.fresh_identity_digest@
    &&& live.target@ == request.target@
    &&& live.resolved_device@ == request.resolved_device@
}

/// Compares a request with the live identity of its target.
pub fn validate_privileged_helper_live_identity(
    request: &PrivilegedHelperRequest,
    live_identity: &TargetIdentityManifest,
) -> (result: Result<(), PrivilegedHelperProtocolError>)
    ensures
        match result {
            Ok(_) => is_live(*request, *live_identity),
            Err(e) => !is_live(*request, *live_identity) && e
                == PrivilegedHelperProtocolError::FreshIdentityBindingMismatch,
        },
{
    if same_text(
        live_identity.manifest_digest.as_str(),
        request.fresh_identity_digest.as_str(),
    ) && same_text(live_identity.target.as_str(), request.target.as_str()) && same_text(
        live_identity.resolved_device.as_str(),
        request.resolved_device.as_str(),
    ) {
        Ok(())
    } else {
        Err(PrivilegedHelperProtocolError::FreshIdentityBindingMismatch)
    }
}

/// What the helper is asked for, it accepts: a built request passes validation.
pub proof fn built_request_is_valid(
    execution: ExecutionStartBinding,
    manifest: NativeCompiledManifest,
    digest: Seq<char>,
    plan_step_id: u32,
    target: Seq<char>,
    resolved_device: Seq<char>,
    request: PrivilegedHelperRequest,
)
    requires
        native_operation::native_manifest_fault(manifest) is None,
        text::is_digest_text(execution.execution_id@),
        request_build_refusal(execution, manifest, digest, plan_step_id) is None,
        is_request_for(
            request,
            execution,
            steps_numbered(manifest.steps@, plan_step_id)[0],
            execution.fresh_identity_digest@,
            target,
            resolved_device,
        ),
    ensures
        request_refusal(request) is None,
{
    let keep = |s: NativeCompiledStep| s.plan_step_id == plan_step_id;
    let k = model::lemma_filter_from(manifest.steps@, keep, 0);
    native_operation::valid_manifest_numbers_its_steps(manifest, k, k);
}

/// A request for the step that a journal authorises passes validation and is live.
pub proof fn durable_request_is_valid(
    journal: OperationJournal,
    manifest: NativeCompiledManifest,
    digest: Seq<char>,
    live: TargetIdentityManifest,
    plan_step_id: u32,
    request: PrivilegedHelperRequest,
)
    requires
        native_operation::native_manifest_fault(manifest) is None,
        durable_request_refusal(journal, manifest, digest, live, plan_step_id) is None,
        text::is_digest_text(journal.execution->Some_0.execution_id@),
        is_request_for(
            request,
            journal.execution->Some_0,
            steps_numbered(manifest.steps@, plan_step_id)[0],
            live.manifest_digest@,
            live.target@,
            live.resolved_device@,
        ),
    ensures
        request_refusal(request) is None,
        is_live(request, live),
{
    let keep = |s: NativeCompiledStep| s.plan_step_id == plan_step_id;
    let k = model::lemma_filter_from(manifest.steps@, keep, 0);
    native_operation::valid_manifest_numbers_its_steps(manifest, k, k);
}

/// What a request is fingerprinted by, in order.
pub open spec fn request_parts(request: PrivilegedHelperRequest) -> Seq<Seq<char>> {
    Seq::empty()
        .push(json::json_number(request.schema_version as int))
        .push(json::json_text(request.execution_id@))
        .push(json::json_text(request.source_manifest_id@))
        .push(json::json_text(request.native_manifest_digest@))
        .push(json::json_text(request.fresh_identity_digest@))
        .push(json::json_number(request.plan_step_id as int))
        .push(native_operation::operation_json(request.operation))
}

/// The identifier is the fingerprint of the fields that it covers.
pub open spec fn is_intact_request(request: PrivilegedHelperRequest) -> bool {
    request.request_id@ == digest::text_fingerprint(request_json(request))
}

/// The two ask for the same step of the same execution. The target and its device, which the
/// identifier does not cover, may differ.
pub open spec fn same_request(a: PrivilegedHelperRequest, b: PrivilegedHelperRequest) -> bool {
    &&& a.schema_version == b.schema_version
    &&& a.execution_id@ == b.execution_id@
    &&& a.source_manifest_id@ == b.source_manifest_id@
    &&& a.native_manifest_digest@ == b.native_manifest_digest@
    &&& a.fresh_identity_digest@ == b.fresh_identity_digest@
    &&& a.plan_step_id == b.plan_step_id
    &&& native_operation::same_operation(a.operation, b.operation)
}

proof fn lemma_request_told(a: PrivilegedHelperRequest, b: PrivilegedHelperRequest)
    requires
        request_json(a) == request_json(b),
    ensures
        same_request(a, b),
{
    broadcast use crate::json_reading::group_json_reading;

    native_operation::lemma_operation_value(a.operation);
    native_operation::lemma_operation_value(b.operation);
    assert(request_json(a) == json::json_array(request_parts(a)));
    assert(request_json(b) == json::json_array(request_parts(b)));
    let p = request_parts(a);
    let q = request_parts(b);
    assert(json_reading::are_values(p) && json_reading::are_values(q));
    assert(p[0] == q[0]);
    assert(p[1] == q[1]);
    assert(p[2] == q[2]);
    assert(p[3] == q[3]);
    assert(p[4] == q[4]);
    assert(p[5] == q[5]);
    assert(p[6] == q[6]);
    native_operation::lemma_operation_told(a.operation, b.operation);
}

/// A request whose step, execution, identity or operation was changed under its identifier is
/// noticed, short of a SHA-256 collision. A changed `target` or `resolved_device` is not: the
/// identifier does not cover them, they are compared with the live identity.
pub proof fn changed_request_is_detected(a: PrivilegedHelperRequest, b: PrivilegedHelperRequest)
    requires
        is_intact_request(a),
        b.request_id@ == a.request_id@,
        !same_request(a, b),
    ensures
        !is_intact_request(b) || digest::is_collision(request_json(a), request_json(b)),
{
    if is_intact_request(b) {
        digest::fingerprint_tells_its_text(request_json(a), request_json(b));
        if request_json(a) == request_json(b) {
            lemma_request_told(a, b);
        }
    }
}

/// An operation is handed on exactly where it is one of the four mutations and its values make
/// sense: paths are safe, sizes are positive and grow, sectors are of a known size, and an xfs
/// filesystem has a mountpoint.
pub proof fn only_sensible_mutations_are_handed_on(operation: NativeOperationSpec)
    ensures
        is_safe_operation(operation) <==> {
            ||| {
                &&& operation is ExtendPartition
                &&& text::is_safe_device_path(operation->ExtendPartition_partition@)
                &&& 0 < operation->ExtendPartition_start_sector
                &&& 0 < operation->ExtendPartition_old_size_sectors
                &&& operation->ExtendPartition_old_size_sectors
                    < operation->ExtendPartition_new_size_sectors
                &&& operation->ExtendPartition_sector_size_bytes == 512
                    || operation->ExtendPartition_sector_size_bytes == 4096
            }
            ||| {
                &&& operation is ResizePhysicalVolume
                &&& operation->ResizePhysicalVolume_pv_uuid@.len() > 0
                &&& 0 < operation->ResizePhysicalVolume_expected_pv_size_bytes
            }
            ||| {
                &&& operation is ExtendLogicalVolume
                &&& operation->ExtendLogicalVolume_lv_uuid@.len() > 0
                &&& 0 < operation->ExtendLogicalVolume_additional_extents
                &&& 0 < operation->ExtendLogicalVolume_expected_lv_size_bytes
            }
            ||| {
                &&& operation is GrowFilesystem
                &&& operation->GrowFilesystem_mountpoint matches Some(m)
                    ==> text::is_safe_absolute_path(m@)
                &&& {
                    ||| operation->GrowFilesystem_fs_type@ == "ext4"@
                    ||| operation->GrowFilesystem_fs_type@ == "xfs"@
                        && operation->GrowFilesystem_mountpoint is Some
                }
            }
        },
{
}

/// A request is valid exactly where its version is known, its identifiers are digests, its step is
/// numbered, its operation makes sense, and its identifier covers what it says.
pub proof fn valid_request_is_intact_and_sensible(request: PrivilegedHelperRequest)
    ensures
        request_refusal(request) is None <==> {
            &&& request.schema_version == 1
            &&& text::is_digest_text(request.execution_id@)
            &&& text::is_digest_text(request.source_manifest_id@)
            &&& text::is_digest_text(request.native_manifest_digest@)
            &&& text::is_digest_text(request.fresh_identity_digest@)
            &&& request.plan_step_id > 0
            &&& is_safe_operation(request.operation)
            &&& is_intact_request(request)
        },
        request.schema_version != 1 ==> request_refusal(request) == Some(
            PrivilegedHelperProtocolError::UnsupportedVersion(request.schema_version),
        ),
{
}

/// The step at `i` is the only one with this number.
pub open spec fn only_step_at(steps: Seq<NativeCompiledStep>, id: u32, i: int) -> bool {
    &&& 0 <= i < steps.len()
    &&& forall|j: int| 0 <= j < steps.len() ==> ((#[trigger] steps[j]).plan_step_id == id <==> j == i)
}

/// A step can be requested exactly where it is the only one with its number, is a mutation, and
/// its operation makes sense.
pub proof fn requested_step_is_the_only_one_of_its_number(
    steps: Seq<NativeCompiledStep>,
    plan_step_id: u32,
)
    ensures
        step_refusal(steps, plan_step_id) is None <==> exists|i: int|
            {
                &&& #[trigger] only_step_at(steps, plan_step_id, i)
                &&& steps[i].role is MutationCandidate
                &&& is_safe_operation(steps[i].operation)
            },
        step_refusal(steps, plan_step_id) == Some(
            PrivilegedHelperProtocolError::StepNotUnique(plan_step_id),
        ) <==> !exists|i: int| only_step_at(steps, plan_step_id, i),
        forall|i: int| #[trigger]
            only_step_at(steps, plan_step_id, i) ==> steps_numbered(steps, plan_step_id) == seq![
                steps[i],
            ],
{
    let keep = |s: NativeCompiledStep| s.plan_step_id == plan_step_id;
    reading::lemma_one_kept(steps, keep);
    reading::lemma_same_search(steps, keep);
    assert forall|i: int| #[trigger] only_step_at(steps, plan_step_id, i) <==> reading::only_kept_at(
        steps,
        keep,
        i,
    ) by {
        assert(forall|j: int|
            0 <= j < steps.len() ==> (keep(#[trigger] steps[j]) <==> steps[j].plan_step_id
                == plan_step_id));
    }
    if exists|i: int| reading::only_kept_at(steps, keep, i) {
        let i = choose|i: int| reading::only_kept_at(steps, keep, i);
        assert(only_step_at(steps, plan_step_id, i));
    }
}

/// A request says which execution, manifest, state, target and device it is for, and what its step
/// says.
pub proof fn request_says_what_it_is_for(
    request: PrivilegedHelperRequest,
    execution: ExecutionStartBinding,
    step: NativeCompiledStep,
    fresh_identity_digest: Seq<char>,
    target: Seq<char>,
    resolved_device: Seq<char>,
)
    requires
        is_request_for(
            request,
            execution,
            step,
            fresh_identity_digest,
            target,
            resolved_device,
        ),
    ensures
        request.schema_version == 1,
        request.execution_id@ == execution.execution_id@,
        request.source_manifest_id@ == execution.source_manifest_id@,
        request.native_manifest_digest@ == execution.native_manifest_digest@,
        request.fresh_identity_digest@ == fresh_identity_digest,
        request.target@ == target,
        request.resolved_device@ == resolved_device,
        request.plan_step_id == step.plan_step_id,
        request.operation == step.operation,
{
}

/// A request can be built exactly where the execution is sound, names the manifest by digests, and
/// lists the step, and the step can be requested.
pub proof fn request_is_built_for_a_listed_step(
    execution: ExecutionStartBinding,
    manifest: NativeCompiledManifest,
    digest: Seq<char>,
    plan_step_id: u32,
)
    ensures
        execution_refusal(execution, manifest, digest) is None <==> {
            &&& execution.schema_version == 1
            &&& execution.integrity is Matches
            &&& execution.source_manifest_id@ == manifest.source_manifest_id@
            &&& execution.native_manifest_digest@ == digest
            &&& text::is_digest_text(execution.source_manifest_id@)
            &&& text::is_digest_text(execution.native_manifest_digest@)
            &&& text::is_digest_text(execution.fresh_identity_digest@)
        },
        request_build_refusal(execution, manifest, digest, plan_step_id) is None <==> {
            &&& execution_refusal(execution, manifest, digest) is None
            &&& exists|k: int|
                0 <= k < execution.mutation_step_ids@.len()
                    && #[trigger] execution.mutation_step_ids@[k] == plan_step_id
            &&& step_refusal(manifest.steps@, plan_step_id) is None
        },
{
}

/// A durable request is built exactly where the journal has an execution that could be requested,
/// and the live state is the one that the journal hands to that step: for the first step, that of
/// the execution start while no boundary is recorded; for a later one, that of a sound boundary
/// that hands over to it from the step before.
pub proof fn durable_request_starts_from_the_recorded_state(
    journal: OperationJournal,
    manifest: NativeCompiledManifest,
    digest: Seq<char>,
    live: TargetIdentityManifest,
    plan_step_id: u32,
)
    ensures
        durable_request_refusal(journal, manifest, digest, live, plan_step_id) is None <==> {
            &&& journal.execution matches Some(execution)
            &&& request_build_refusal(execution, manifest, digest, plan_step_id) is None
            &&& text::is_digest_text(live.manifest_digest@)
            &&& {
                let ids = execution.mutation_step_ids@;
                exists|p: int|
                    {
                        &&& 0 <= p < ids.len()
                        &&& #[trigger] ids[p] == plan_step_id
                        &&& forall|q: int| 0 <= q < p ==> #[trigger] ids[q] != plan_step_id
                        &&& p == 0 ==> journal.verified_boundary is None && live.manifest_digest@
                            == execution.fresh_identity_digest@
                        &&& p > 0 ==> {
                            &&& journal.verified_boundary matches Some(boundary)
                            &&& boundary.schema_version == 1
                            &&& boundary.integrity is Matches
                            &&& boundary.execution_id@ == execution.execution_id@
                            &&& boundary.completed_step_id == ids[p - 1]
                            &&& boundary.next_step_id == plan_step_id
                            &&& boundary.final_step_id is None
                            &&& boundary.final_identity_digest is None
                            &&& boundary.fresh_identity_digest@ == live.manifest_digest@
                        }
                    }
            }
        },
{
    if journal.execution is Some {
        let ids = journal.execution->Some_0.mutation_step_ids@;
        step_position_is_the_first_place(ids, plan_step_id);
    }
}

/// The place of a step is the first at which its number stands.
pub proof fn step_position_is_the_first_place(ids: Seq<u32>, id: u32)
    ensures
        model::step_position(ids, id) is None <==> forall|i: int|
            0 <= i < ids.len() ==> #[trigger] ids[i] != id,
        model::step_position(ids, id) matches Some(p) ==> {
            &&& 0 <= p < ids.len()
            &&& ids[p] == id
            &&& forall|q: int| 0 <= q < p ==> #[trigger] ids[q] != id
        },
{
    ids.index_of_first_ensures(id);
    if ids.contains(id) {
        let i = choose|i: int| 0 <= i < ids.len() && ids[i] == id;
        assert(ids[i] == id);
    } else {
        assert forall|i: int| 0 <= i < ids.len() implies #[trigger] ids[i] != id by {
            assert(ids.contains(ids[i]));
        }
    }
}

/// The journal hands this state to the step at `p`: for the first step, that of the execution start
/// while no boundary is recorded; for a later one, that of a sound boundary of this execution from
/// the step before.
pub open spec fn hands_state_at(
    journal: OperationJournal,
    execution: ExecutionStartBinding,
    plan_step_id: u32,
    digest: Seq<char>,
    p: int,
) -> bool {
    let ids = execution.mutation_step_ids@;
    &&& 0 <= p < ids.len()
    &&& ids[p] == plan_step_id
    &&& forall|q: int| 0 <= q < p ==> #[trigger] ids[q] != plan_step_id
    &&& p == 0 ==> journal.verified_boundary is None && execution.fresh_identity_digest@ == digest
    &&& p > 0 ==> {
        &&& journal.verified_boundary matches Some(boundary)
        &&& boundary.schema_version == 1
        &&& boundary.integrity is Matches
        &&& boundary.execution_id@ == execution.execution_id@
        &&& boundary.completed_step_id == ids[p - 1]
        &&& boundary.next_step_id == plan_step_id
        &&& boundary.final_step_id is None
        &&& boundary.final_identity_digest is None
        &&& boundary.fresh_identity_digest@ == digest
    }
}

/// The identity that the journal authorises a step to start from is the one that it hands to it.
pub proof fn durable_identity_is_the_handed_state(
    journal: OperationJournal,
    execution: ExecutionStartBinding,
    plan_step_id: u32,
    digest: Seq<char>,
)
    ensures
        durable_identity(journal, execution, plan_step_id) == Some(digest) <==> exists|p: int|
            hands_state_at(journal, execution, plan_step_id, digest, p),
{
    let ids = execution.mutation_step_ids@;
    step_position_is_the_first_place(ids, plan_step_id);
    let position = model::step_position(ids, plan_step_id);
    if durable_identity(journal, execution, plan_step_id) == Some(digest) {
        assert(hands_state_at(journal, execution, plan_step_id, digest, position->Some_0));
    }
    if exists|p: int| hands_state_at(journal, execution, plan_step_id, digest, p) {
        let p = choose|p: int| hands_state_at(journal, execution, plan_step_id, digest, p);
        assert(ids[p] == plan_step_id);
        let r = position->Some_0;
        if r < p {
            assert(ids[r] != plan_step_id);
        }
        assert(position == Some(p));
    }
}

/// Each refusal of a request, of the execution behind it or of its step names something that is
/// wrong.
pub proof fn refused_request_names_its_reason(
    request: PrivilegedHelperRequest,
    execution: ExecutionStartBinding,
    manifest: NativeCompiledManifest,
    digest: Seq<char>,
    plan_step_id: u32,
)
    ensures
        request_refusal(request) matches Some(e) ==> match e {
            PrivilegedHelperProtocolError::UnsupportedVersion(v) => v == request.schema_version && v
                != 1,
            PrivilegedHelperProtocolError::UnsafeOperationPayload => {
                ||| !text::is_digest_text(request.execution_id@)
                ||| !text::is_digest_text(request.source_manifest_id@)
                ||| !text::is_digest_text(request.native_manifest_digest@)
                ||| !text::is_digest_text(request.fresh_identity_digest@)
                ||| request.plan_step_id == 0
                ||| !is_safe_operation(request.operation)
            },
            PrivilegedHelperProtocolError::RequestDigestMismatch => !is_intact_request(request),
            _ => false,
        },
        execution_refusal(execution, manifest, digest) matches Some(e) ==> match e {
            PrivilegedHelperProtocolError::ExecutionBindingIntegrityMismatch => {
                execution.schema_version != 1 || execution.integrity is Differs
            },
            PrivilegedHelperProtocolError::Serialization => execution.integrity is Unavailable,
            PrivilegedHelperProtocolError::ExecutionBindingMismatch => {
                ||| execution.source_manifest_id@ != manifest.source_manifest_id@
                ||| execution.native_manifest_digest@ != digest
                ||| !text::is_digest_text(execution.source_manifest_id@)
                ||| !text::is_digest_text(execution.native_manifest_digest@)
                ||| !text::is_digest_text(execution.fresh_identity_digest@)
            },
            _ => false,
        },
        request_build_refusal(execution, manifest, digest, plan_step_id) matches Some(e) ==> match e {
            PrivilegedHelperProtocolError::UnauthorizedStep(id) => id == plan_step_id
                && !execution.mutation_step_ids@.contains(plan_step_id),
            _ => execution_refusal(execution, manifest, digest) == Some(e) || step_refusal(
                manifest.steps@,
                plan_step_id,
            ) == Some(e),
        },
        step_refusal(manifest.steps@, plan_step_id) matches Some(e) ==> match e {
            PrivilegedHelperProtocolError::StepNotUnique(id) => id == plan_step_id && !exists|i: int|
                only_step_at(manifest.steps@, plan_step_id, i),
            PrivilegedHelperProtocolError::StepNotMutation(id) => id == plan_step_id && exists|
                i: int,
            |
                #[trigger] only_step_at(manifest.steps@, plan_step_id, i) && !(
                manifest.steps@[i].role is MutationCandidate),
            PrivilegedHelperProtocolError::UnsafeOperationPayload => exists|i: int|
                #[trigger] only_step_at(manifest.steps@, plan_step_id, i) && !is_safe_operation(
                    manifest.steps@[i].operation,
                ),
            _ => false,
        },
{
    requested_step_is_the_only_one_of_its_number(manifest.steps@, plan_step_id);
    if exists|i: int| only_step_at(manifest.steps@, plan_step_id, i) {
        let i = choose|i: int| only_step_at(manifest.steps@, plan_step_id, i);
        assert(only_step_at(manifest.steps@, plan_step_id, i));
    }
}

} // verus!
