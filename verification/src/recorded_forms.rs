//! What stands where in the documents that records are fingerprinted by.

use vstd::prelude::*;

use crate::production_arm;
use crate::privileged_verify;
use crate::privileged_tools;
use crate::privileged_start;
use crate::privileged_spawn;
use crate::privileged_result;
use crate::privileged_protocol;
use crate::privileged_prepared;
use crate::privileged_pin;
use crate::privileged_permit;
use crate::privileged_launch;
use crate::privileged_continue_start;
use crate::privileged_argv;
use crate::precondition_evidence;
use crate::native_operation;
use crate::filesystem_health;
use crate::execution_intent;
use crate::backup_manifest;
use crate::backup_capture;
use crate::json;
use crate::json_reading;
use crate::text;
use crate::backup_capture::{ArtifactModel, BackupReceiptModel};
use crate::backup_manifest::{
    BackupCommandModel, BackupManifestModel, MetadataBackupKind, RequirementModel,
};
use crate::execution_intent::{
    FrozenIntentRole, FrozenIntentStep, IntentModel, VerificationBarrierSpec,
};
use crate::filesystem_health::HealthReceiptModel;
use crate::native_operation::{
    NativeCompiledManifest, NativeCompiledStep, NativeVerificationBarrier,
};
use crate::precondition_evidence::EvidenceModel;
use crate::privileged_argv::{PrivilegedCommandModel, RefreshModel};
use crate::privileged_continue_start::PrivilegedContinuationStartReceipt;
use crate::privileged_launch::{
    ElfClass, ElfDataEncoding, ElfExecutionIdentity, PrivilegedDescriptorLaunchSpec, StageModel,
};
use crate::privileged_permit::PrivilegedLaunchPermit;
use crate::privileged_pin::{PinnedPrivilegedTools, PinnedToolReceipt};
use crate::privileged_prepared::PreparedPrivilegedInvocation;
use crate::privileged_protocol::PrivilegedHelperRequest;
use crate::privileged_result::PrivilegedProcessReceipt;
use crate::privileged_spawn::PrivilegedSpawnAuthorization;
use crate::privileged_start::PrivilegedExecutionStartReceipt;
use crate::privileged_tools::{PrivilegedToolResolution, TrustedToolIdentity};
use crate::privileged_verify::PrivilegedLayerVerificationReceipt;
use crate::production_arm::ProductionMutationArm;
use crate::model::{FilesystemCheckKind, Reversibility, FilesystemDecisionState, DecisionModel};
use crate::precondition_evidence::PreMutationEvidenceStatus;
use crate::privileged_result::PrivilegedRuntimeDisposition;

verus! {

/// Whoever reads the form of a artifact as a record of values finds just these, in this order.
pub proof fn artifact_form_holds_these_values(artifact: ArtifactModel, found: Seq<Seq<char>>)
    requires
        json_reading::are_values(found),
        json::json_object(found) == backup_capture::artifact_json(artifact),
    ensures
        found.len() == 6,
        found[0] == json::json_field("ordinal"@, json::json_number(artifact.ordinal as int)),
        found[1] == json::json_field("kind"@, json::json_text(backup_manifest::backup_kind_name(artifact.kind))),
        found[2] == json::json_field("artifact_path"@, json::json_text(artifact.artifact_path)),
        found[3] == json::json_field("expected_identity"@, backup_manifest::expected_identity_json(artifact.expected_identity)),
        found[4] == json::json_field("size_bytes"@, json::json_number(artifact.size_bytes as int)),
        found[5] == json::json_field("sha256"@, json::json_text(artifact.sha256)),
{
    broadcast use crate::json_reading::group_json_reading;

    let parts = backup_capture::artifact_parts(artifact);
    assert(json_reading::are_values(parts));
    json_reading::object_tells_its_parts(found, parts);
}

/// Whoever reads the form of a backup receipt as a list of values finds just these, in this order.
pub proof fn backup_receipt_form_holds_these_values(receipt: BackupReceiptModel, found: Seq<Seq<char>>)
    requires
        json_reading::are_values(found),
        json::json_array(found) == backup_capture::receipt_form(receipt),
    ensures
        found.len() == 7,
        found[0] == json::json_number(1),
        found[1] == json::json_text(receipt.manifest_id),
        found[2] == json::json_text(receipt.handoff_id),
        found[3] == json::json_text(receipt.plan_id),
        found[4] == json::json_text(receipt.target_manifest_digest),
        found[5] == json::json_bool(false),
        found[6] == json::json_array(receipt.artifacts.map_values(|a: ArtifactModel| backup_capture::artifact_json(a))),
{
    broadcast use crate::json_reading::group_json_reading;

    let write = |x: ArtifactModel| backup_capture::artifact_json(x);
    assert forall|x: ArtifactModel| json_reading::is_value(#[trigger] write(x)) by {
        backup_capture::lemma_artifact_value(x);
    }
    json_reading::list_is_value(receipt.artifacts, write);
    let parts = backup_capture::backup_receipt_parts(receipt);
    assert(json_reading::are_values(parts));
    json_reading::array_tells_its_parts(found, parts);
}

/// Whoever reads the form of a backup command as a record of values finds just these, in this order.
pub proof fn backup_command_form_holds_these_values(command: BackupCommandModel, found: Seq<Seq<char>>)
    requires
        json_reading::are_values(found),
        json::json_object(found) == backup_manifest::backup_command_json(command),
    ensures
        found.len() == 5,
        found[0] == json::json_field("program"@, json::json_text(command.program)),
        found[1] == json::json_field("args"@, json::json_texts(command.args)),
        found[2] == json::json_field("stdin_path"@, json::json_opt_text(command.stdin_path)),
        found[3] == json::json_field("stdout_path"@, json::json_opt_text(command.stdout_path)),
        found[4] == json::json_field("mutates_storage_metadata"@, json::json_bool(command.mutates_storage_metadata)),
{
    broadcast use crate::json_reading::group_json_reading;

    let parts = backup_manifest::backup_command_parts(command);
    assert(json_reading::are_values(parts));
    json_reading::object_tells_its_parts(found, parts);
}

/// Whoever reads the form of a requirement as a record of values finds just these, in this order.
pub proof fn requirement_form_holds_these_values(requirement: RequirementModel, found: Seq<Seq<char>>)
    requires
        json_reading::are_values(found),
        json::json_object(found) == backup_manifest::requirement_json(requirement),
    ensures
        found.len() == 7,
        found[0] == json::json_field("ordinal"@, json::json_number(requirement.ordinal as int)),
        found[1] == json::json_field("kind"@, json::json_text(backup_manifest::backup_kind_name(requirement.kind))),
        found[2] == json::json_field("artifact_path"@, json::json_text(requirement.artifact_path)),
        found[3] == json::json_field("expected_identity"@, backup_manifest::expected_identity_json(requirement.expected_identity)),
        found[4] == json::json_field("capture"@, backup_manifest::backup_command_json(requirement.capture)),
        found[5] == json::json_field("recovery"@, backup_manifest::backup_command_json(requirement.recovery)),
        found[6] == json::json_field("verification_notes"@, json::json_texts(requirement.verification_notes)),
{
    broadcast use crate::json_reading::group_json_reading;

    let parts = backup_manifest::requirement_parts(requirement);
    assert(json_reading::are_values(parts));
    json_reading::object_tells_its_parts(found, parts);
}

/// Whoever reads the form of a backup manifest as a list of values finds just these, in this order.
pub proof fn backup_manifest_form_holds_these_values(manifest: BackupManifestModel, found: Seq<Seq<char>>)
    requires
        json_reading::are_values(found),
        json::json_array(found) == backup_manifest::manifest_form(manifest),
    ensures
        found.len() == 8,
        found[0] == json::json_number(1),
        found[1] == json::json_text(manifest.handoff_id),
        found[2] == json::json_text(manifest.plan_id),
        found[3] == json::json_text(manifest.target_manifest_digest),
        found[4] == json::json_text(manifest.artifact_directory),
        found[5] == json::json_bool(false),
        found[6] == json::json_bool(true),
        found[7] == json::json_array( manifest.requirements.map_values(|r: RequirementModel| backup_manifest::requirement_json(r)), ),
{
    broadcast use crate::json_reading::group_json_reading;

    let write = |x: RequirementModel| backup_manifest::requirement_json(x);
    assert forall|x: RequirementModel| json_reading::is_value(#[trigger] write(x)) by {
        backup_manifest::lemma_requirement_value(x);
    }
    json_reading::list_is_value(manifest.requirements, write);
    assert(backup_manifest::manifest_form(manifest) == json::json_array(backup_manifest::backup_manifest_parts(manifest)));
    let parts = backup_manifest::backup_manifest_parts(manifest);
    assert(json_reading::are_values(parts));
    json_reading::array_tells_its_parts(found, parts);
}

/// Whoever reads the form of a intent step as a record of values finds just these, in this order.
pub proof fn intent_step_form_holds_these_values(step: FrozenIntentStep, found: Seq<Seq<char>>)
    requires
        json_reading::are_values(found),
        json::json_object(found) == execution_intent::intent_step_json(step),
    ensures
        found.len() == 5,
        found[0] == json::json_field("plan_step_id"@, json::json_number(step.plan_step_id as int)),
        found[1] == json::json_field("depends_on"@, json::json_numbers(step.depends_on@)),
        found[2] == json::json_field("reversibility"@, json::json_text(native_operation::reversibility_name(step.reversibility))),
        found[3] == json::json_field("role"@, json::json_text(execution_intent::role_name(step.role))),
        found[4] == json::json_field("action"@, execution_intent::action_json(step.action)),
{
    broadcast use crate::json_reading::group_json_reading;

    let parts = execution_intent::intent_step_parts(step);
    assert(json_reading::are_values(parts));
    json_reading::object_tells_its_parts(found, parts);
}

/// Whoever reads the form of a intent barrier as a record of values finds just these, in this order.
pub proof fn intent_barrier_form_holds_these_values(barrier: VerificationBarrierSpec, found: Seq<Seq<char>>)
    requires
        json_reading::are_values(found),
        json::json_object(found) == execution_intent::intent_barrier_json(barrier),
    ensures
        found.len() == 6,
        found[0] == json::json_field("after_plan_step_id"@, json::json_number(barrier.after_plan_step_id as int)),
        found[1] == json::json_field("before_next_mutation"@, json::json_bool(barrier.before_next_mutation)),
        found[2] == json::json_field("require_fresh_target_identity"@, json::json_bool(barrier.require_fresh_target_identity)),
        found[3] == json::json_field("require_fresh_capabilities"@, json::json_bool(barrier.require_fresh_capabilities)),
        found[4] == json::json_field("require_expected_state_check"@, json::json_bool(barrier.require_expected_state_check)),
        found[5] == json::json_field("stop_on_mismatch"@, json::json_bool(barrier.stop_on_mismatch)),
{
    broadcast use crate::json_reading::group_json_reading;

    let parts = execution_intent::intent_barrier_parts(barrier);
    assert(json_reading::are_values(parts));
    json_reading::object_tells_its_parts(found, parts);
}

/// Whoever reads the form of a intent as a list of values finds just these, in this order.
pub proof fn intent_form_holds_these_values(intent: IntentModel, found: Seq<Seq<char>>)
    requires
        json_reading::are_values(found),
        json::json_array(found) == execution_intent::intent_json(intent),
    ensures
        found.len() == 15,
        found[0] == json::json_number(intent.schema_version as int),
        found[1] == json::json_text(intent.approval_id),
        found[2] == json::json_text(intent.approved_journal_id),
        found[3] == json::json_text(intent.approved_journal_digest),
        found[4] == json::json_text(intent.plan_id),
        found[5] == json::json_text(intent.evidence_bundle_id),
        found[6] == json::json_text(intent.target_manifest_digest),
        found[7] == json::json_text(intent.locked_session_id),
        found[8] == json::json_text("frozen_non_executable"@),
        found[9] == json::json_bool(intent.mutation_enabled),
        found[10] == json::json_bool(intent.owner_acceptance_required),
        found[11] == json::json_array(intent.steps.map_values(|s: FrozenIntentStep| execution_intent::intent_step_json(s))),
        found[12] == json::json_array(intent.verification_barriers.map_values(|b: VerificationBarrierSpec| execution_intent::intent_barrier_json(b))),
        found[13] == json::json_texts(intent.blockers),
        found[14] == json::json_texts(intent.future_gates),
{
    broadcast use crate::json_reading::group_json_reading;

    let write_step = |x: FrozenIntentStep| execution_intent::intent_step_json(x);
    assert forall|x: FrozenIntentStep| json_reading::is_value(#[trigger] write_step(x)) by {
        execution_intent::lemma_intent_step_value(x);
    }
    json_reading::list_is_value(intent.steps, write_step);
    let write_barrier = |x: VerificationBarrierSpec| execution_intent::intent_barrier_json(x);
    assert forall|x: VerificationBarrierSpec| json_reading::is_value(#[trigger] write_barrier(x)) by {
        execution_intent::lemma_intent_barrier_value(x);
    }
    json_reading::list_is_value(intent.verification_barriers, write_barrier);
    let parts = execution_intent::intent_parts(intent);
    assert(json_reading::are_values(parts));
    json_reading::array_tells_its_parts(found, parts);
}

/// Whoever reads the form of a health receipt as a list of values finds just these, in this order.
pub proof fn health_receipt_form_holds_these_values(receipt: HealthReceiptModel, found: Seq<Seq<char>>)
    requires
        json_reading::are_values(found),
        json::json_array(found) == filesystem_health::health_receipt_json(receipt),
    ensures
        found.len() == 10,
        found[0] == json::json_number(receipt.schema_version as int),
        found[1] == json::json_text(receipt.locked_session_id),
        found[2] == json::json_text(receipt.handoff_id),
        found[3] == json::json_text(receipt.plan_id),
        found[4] == json::json_text(receipt.target_manifest_digest),
        found[5] == json::json_text(filesystem_health::check_kind_name(receipt.kind)),
        found[6] == json::json_text(receipt.tool),
        found[7] == json::json_texts(receipt.args),
        found[8] == json::json_text(receipt.stdout_digest),
        found[9] == json::json_text(receipt.stderr_digest),
{
    broadcast use crate::json_reading::group_json_reading;

    let parts = filesystem_health::health_receipt_parts(receipt);
    assert(json_reading::are_values(parts));
    json_reading::array_tells_its_parts(found, parts);
}

/// Whoever reads the form of a native step as a record of values finds just these, in this order.
pub proof fn native_step_form_holds_these_values(step: NativeCompiledStep, found: Seq<Seq<char>>)
    requires
        json_reading::are_values(found),
        json::json_object(found) == native_operation::native_step_json(step),
    ensures
        found.len() == 5,
        found[0] == json::json_field("plan_step_id"@, json::json_number(step.plan_step_id as int)),
        found[1] == json::json_field("depends_on"@, json::json_numbers(step.depends_on@)),
        found[2] == json::json_field("reversibility"@, json::json_text(native_operation::reversibility_name(step.reversibility))),
        found[3] == json::json_field("role"@, json::json_text(execution_intent::role_name(step.role))),
        found[4] == json::json_field("operation"@, native_operation::operation_json(step.operation)),
{
    broadcast use crate::json_reading::group_json_reading;

    let parts = native_operation::native_step_parts(step);
    assert(json_reading::are_values(parts));
    json_reading::object_tells_its_parts(found, parts);
}

/// Whoever reads the form of a native barrier as a record of values finds just these, in this order.
pub proof fn native_barrier_form_holds_these_values(barrier: NativeVerificationBarrier, found: Seq<Seq<char>>)
    requires
        json_reading::are_values(found),
        json::json_object(found) == native_operation::native_barrier_json(barrier),
    ensures
        found.len() == 6,
        found[0] == json::json_field("after_plan_step_id"@, json::json_number(barrier.after_plan_step_id as int)),
        found[1] == json::json_field("before_next_mutation"@, json::json_bool(barrier.before_next_mutation)),
        found[2] == json::json_field("require_fresh_target_identity"@, json::json_bool(barrier.require_fresh_target_identity)),
        found[3] == json::json_field("require_fresh_capabilities"@, json::json_bool(barrier.require_fresh_capabilities)),
        found[4] == json::json_field("require_expected_state_check"@, json::json_bool(barrier.require_expected_state_check)),
        found[5] == json::json_field("stop_on_mismatch"@, json::json_bool(barrier.stop_on_mismatch)),
{
    broadcast use crate::json_reading::group_json_reading;

    let parts = native_operation::native_barrier_parts(barrier);
    assert(json_reading::are_values(parts));
    json_reading::object_tells_its_parts(found, parts);
}

/// Whoever reads the form of a native manifest as a record of values finds just these, in this order.
pub proof fn native_manifest_form_holds_these_values(manifest: NativeCompiledManifest, found: Seq<Seq<char>>)
    requires
        json_reading::are_values(found),
        json::json_object(found) == native_operation::native_manifest_json(manifest),
    ensures
        found.len() == 3,
        found[0] == json::json_field("source_manifest_id"@, json::json_text(manifest.source_manifest_id@)),
        found[1] == json::json_field("steps"@, json::json_array(manifest.steps@.map_values(|s: NativeCompiledStep| native_operation::native_step_json(s)))),
        found[2] == json::json_field("verification_barriers"@, json::json_array(manifest.verification_barriers@.map_values(|b: NativeVerificationBarrier| native_operation::native_barrier_json(b)))),
{
    broadcast use crate::json_reading::group_json_reading;

    let write_step = |x: NativeCompiledStep| native_operation::native_step_json(x);
    assert forall|x: NativeCompiledStep| json_reading::is_value(#[trigger] write_step(x)) by {
        native_operation::lemma_native_step_value(x);
    }
    json_reading::list_is_value(manifest.steps@, write_step);
    let write_barrier = |x: NativeVerificationBarrier| native_operation::native_barrier_json(x);
    assert forall|x: NativeVerificationBarrier| json_reading::is_value(#[trigger] write_barrier(x)) by {
        native_operation::lemma_native_barrier_value(x);
    }
    json_reading::list_is_value(manifest.verification_barriers@, write_barrier);
    let parts = native_operation::native_manifest_parts(manifest);
    assert(json_reading::are_values(parts));
    json_reading::object_tells_its_parts(found, parts);
}

/// Whoever reads the form of a decision as a record of values finds just these, in this order.
pub proof fn decision_form_holds_these_values(decision: DecisionModel, found: Seq<Seq<char>>)
    requires
        json_reading::are_values(found),
        json::json_object(found) == precondition_evidence::decision_json(decision),
    ensures
        found.len() == 9,
        found[0] == json::json_field("target"@, json::json_text(decision.target)),
        found[1] == json::json_field("device"@, json::json_opt_text(decision.device)),
        found[2] == json::json_field("mountpoint"@, json::json_opt_text(decision.mountpoint)),
        found[3] == json::json_field("fs_type"@, json::json_opt_text(decision.fs_type)),
        found[4] == json::json_field("state"@, json::json_text(precondition_evidence::decision_state_name(decision.state))),
        found[5] == json::json_field("metadata_state"@, json::json_opt_text(decision.metadata_state)),
        found[6] == json::json_field("read_only_check"@, precondition_evidence::check_json(decision.read_only_check)),
        found[7] == json::json_field("reasons"@, json::json_texts(decision.reasons)),
        found[8] == json::json_field("required_actions"@, json::json_texts(decision.required_actions)),
{
    broadcast use crate::json_reading::group_json_reading;

    precondition_evidence::lemma_check_value(decision.read_only_check);
    let parts = precondition_evidence::decision_parts(decision);
    assert(json_reading::are_values(parts));
    json_reading::object_tells_its_parts(found, parts);
}

/// Whoever reads the form of a evidence as a list of values finds just these, in this order.
pub proof fn evidence_form_holds_these_values(evidence: EvidenceModel, found: Seq<Seq<char>>)
    requires
        json_reading::are_values(found),
        json::json_array(found) == precondition_evidence::evidence_json(evidence),
    ensures
        found.len() == 15,
        found[0] == json::json_number(evidence.schema_version as int),
        found[1] == json::json_text(evidence.locked_session_id),
        found[2] == json::json_text(evidence.handoff_id),
        found[3] == json::json_text(evidence.plan_id),
        found[4] == json::json_text(evidence.target_manifest_digest),
        found[5] == json::json_text(evidence.backup_manifest_id),
        found[6] == json::json_text(evidence.backup_receipt_id),
        found[7] == json::json_bool(evidence.backup_receipt_revalidated),
        found[8] == json::json_opt_text(evidence.filesystem_health_receipt_id),
        found[9] == precondition_evidence::decision_json(evidence.filesystem_decision),
        found[10] == json::json_text(precondition_evidence::evidence_status_name(evidence.status)),
        found[11] == json::json_bool(evidence.owner_acceptance_required),
        found[12] == json::json_bool(evidence.mutation_enabled),
        found[13] == json::json_texts(evidence.blockers),
        found[14] == json::json_texts(evidence.future_gates),
{
    broadcast use crate::json_reading::group_json_reading;

    precondition_evidence::lemma_decision_value(evidence.filesystem_decision);
    let parts = precondition_evidence::evidence_parts(evidence);
    assert(json_reading::are_values(parts));
    json_reading::array_tells_its_parts(found, parts);
}

/// Whoever reads the form of a refresh as a record of values finds just these, in this order.
pub proof fn refresh_form_holds_these_values(refresh: RefreshModel, found: Seq<Seq<char>>)
    requires
        json_reading::are_values(found),
        json::json_object(found) == privileged_argv::refresh_json(refresh),
    ensures
        found.len() == 2,
        found[0] == json::json_field("program"@, json::json_text(privileged_argv::privileged_program_name(refresh.program))),
        found[1] == json::json_field("args"@, json::json_texts(refresh.args)),
{
    broadcast use crate::json_reading::group_json_reading;

    let parts = privileged_argv::refresh_parts(refresh);
    assert(json_reading::are_values(parts));
    json_reading::object_tells_its_parts(found, parts);
}

/// Whoever reads the form of a privileged command as a record of values finds just these, in this order.
pub proof fn privileged_command_form_holds_these_values(command: PrivilegedCommandModel, found: Seq<Seq<char>>)
    requires
        json_reading::are_values(found),
        json::json_object(found) == privileged_argv::privileged_command_json(command),
    ensures
        found.len() == 5,
        found[0] == json::json_field("plan_step_id"@, json::json_number(command.plan_step_id as int)),
        found[1] == json::json_field("program"@, json::json_text(privileged_argv::privileged_program_name(command.program))),
        found[2] == json::json_field("args"@, json::json_texts(command.args)),
        found[3] == json::json_field("stdin_payload"@, json::json_opt_text(command.stdin_payload)),
        found[4] == json::json_field("kernel_refresh"@, privileged_argv::opt_refresh_json(command.kernel_refresh)),
{
    broadcast use crate::json_reading::group_json_reading;

    privileged_argv::lemma_opt_refresh_value(command.kernel_refresh);
    let parts = privileged_argv::privileged_command_parts(command);
    assert(json_reading::are_values(parts));
    json_reading::object_tells_its_parts(found, parts);
}

/// Whoever reads the form of a continuation receipt as a list of values finds just these, in this order.
pub proof fn continuation_receipt_form_holds_these_values(receipt: PrivilegedContinuationStartReceipt, found: Seq<Seq<char>>)
    requires
        json_reading::are_values(found),
        json::json_array(found) == privileged_continue_start::continuation_receipt_json(receipt),
    ensures
        found.len() == 8,
        found[0] == json::json_number(receipt.schema_version as int),
        found[1] == json::json_text(receipt.execution_id@),
        found[2] == json::json_text(receipt.verified_boundary_id@),
        found[3] == json::json_text(receipt.prepared_id@),
        found[4] == json::json_text(receipt.journal_id@),
        found[5] == json::json_number(receipt.plan_step_id as int),
        found[6] == json::json_text(receipt.live_identity_digest@),
        found[7] == json::json_text(receipt.executing_journal_digest@),
{
    broadcast use crate::json_reading::group_json_reading;

    let parts = privileged_continue_start::continuation_receipt_parts(receipt);
    assert(json_reading::are_values(parts));
    json_reading::array_tells_its_parts(found, parts);
}

/// Whoever reads the form of a elf as a record of values finds just these, in this order.
pub proof fn elf_form_holds_these_values(elf: ElfExecutionIdentity, found: Seq<Seq<char>>)
    requires
        json_reading::are_values(found),
        json::json_object(found) == privileged_launch::elf_json(elf),
    ensures
        found.len() == 3,
        found[0] == json::json_field("class"@, json::json_text(privileged_launch::elf_class_name(elf.class))),
        found[1] == json::json_field("data_encoding"@, json::json_text(privileged_launch::elf_encoding_name(elf.data_encoding))),
        found[2] == json::json_field("version"@, json::json_number(elf.version as int)),
{
    broadcast use crate::json_reading::group_json_reading;

    let parts = privileged_launch::elf_parts(elf);
    assert(json_reading::are_values(parts));
    json_reading::object_tells_its_parts(found, parts);
}

/// Whoever reads the form of a stage as a record of values finds just these, in this order.
pub proof fn stage_form_holds_these_values(stage: StageModel, found: Seq<Seq<char>>)
    requires
        json_reading::are_values(found),
        json::json_object(found) == privileged_launch::stage_json(stage),
    ensures
        found.len() == 4,
        found[0] == json::json_field("program"@, json::json_text(privileged_argv::privileged_program_name(stage.program))),
        found[1] == json::json_field("argv"@, json::json_texts(stage.argv)),
        found[2] == json::json_field("executable"@, privileged_pin::pin_receipt_json(stage.executable)),
        found[3] == json::json_field("elf"@, privileged_launch::elf_json(stage.elf)),
{
    broadcast use crate::json_reading::group_json_reading;

    let parts = privileged_launch::stage_parts(stage);
    assert(json_reading::are_values(parts));
    json_reading::object_tells_its_parts(found, parts);
}

/// Whoever reads the form of a launch as a list of values finds just these, in this order.
pub proof fn launch_form_holds_these_values(launch: PrivilegedDescriptorLaunchSpec, found: Seq<Seq<char>>)
    requires
        json_reading::are_values(found),
        json::json_array(found) == privileged_launch::launch_json(launch),
    ensures
        found.len() == 13,
        found[0] == json::json_number(launch.schema_version as int),
        found[1] == json::json_text(launch.pin_id@),
        found[2] == json::json_text(launch.authorization_id@),
        found[3] == json::json_number(launch.plan_step_id as int),
        found[4] == json::json_text(launch.command_digest@),
        found[5] == privileged_launch::stage_json(launch.primary@),
        found[6] == privileged_launch::opt_stage_json(privileged_launch::opt_stage(launch.kernel_refresh)),
        found[7] == json::json_number(launch.stdin_len as int),
        found[8] == json::json_opt_text(text::opt_text(launch.stdin_sha256)),
        found[9] == json::json_text(launch.fixed_path@),
        found[10] == json::json_text(launch.fixed_locale@),
        found[11] == json::json_text(launch.descriptor_exec_api@),
        found[12] == json::json_bool(launch.process_spawned),
{
    broadcast use crate::json_reading::group_json_reading;

    privileged_launch::lemma_stage_value(launch.primary@);
    privileged_launch::lemma_opt_stage_value(privileged_launch::opt_stage(launch.kernel_refresh));
    let parts = privileged_launch::launch_parts(launch);
    assert(json_reading::are_values(parts));
    json_reading::array_tells_its_parts(found, parts);
}

/// Whoever reads the form of a permit as a list of values finds just these, in this order.
pub proof fn permit_form_holds_these_values(permit: PrivilegedLaunchPermit, found: Seq<Seq<char>>)
    requires
        json_reading::are_values(found),
        json::json_array(found) == privileged_permit::permit_json(permit),
    ensures
        found.len() == 9,
        found[0] == json::json_number(permit.schema_version as int),
        found[1] == json::json_text(permit.execution_id@),
        found[2] == json::json_text(permit.execution_start_receipt_id@),
        found[3] == json::json_text(permit.authorization_id@),
        found[4] == json::json_text(permit.launch_id@),
        found[5] == json::json_number(permit.plan_step_id as int),
        found[6] == json::json_text(permit.command_digest@),
        found[7] == json::json_bool(permit.mutation_enabled),
        found[8] == json::json_bool(permit.process_spawned),
{
    broadcast use crate::json_reading::group_json_reading;

    let parts = privileged_permit::permit_parts(permit);
    assert(json_reading::are_values(parts));
    json_reading::array_tells_its_parts(found, parts);
}

/// Whoever reads the form of a pin receipt as a record of values finds just these, in this order.
pub proof fn pin_receipt_form_holds_these_values(receipt: PinnedToolReceipt, found: Seq<Seq<char>>)
    requires
        json_reading::are_values(found),
        json::json_object(found) == privileged_pin::pin_receipt_json(receipt),
    ensures
        found.len() == 8,
        found[0] == json::json_field("program"@, json::json_text(privileged_argv::privileged_program_name(receipt.program))),
        found[1] == json::json_field("canonical_path"@, json::json_text(receipt.canonical_path@)),
        found[2] == json::json_field("device_id"@, json::json_number(receipt.device_id as int)),
        found[3] == json::json_field("inode"@, json::json_number(receipt.inode as int)),
        found[4] == json::json_field("uid"@, json::json_number(receipt.uid as int)),
        found[5] == json::json_field("mode"@, json::json_number(receipt.mode as int)),
        found[6] == json::json_field("size_bytes"@, json::json_number(receipt.size_bytes as int)),
        found[7] == json::json_field("sha256"@, json::json_text(receipt.sha256@)),
{
    broadcast use crate::json_reading::group_json_reading;

    let parts = privileged_pin::pin_receipt_parts(receipt);
    assert(json_reading::are_values(parts));
    json_reading::object_tells_its_parts(found, parts);
}

/// Whoever reads the form of a pins as a list of values finds just these, in this order.
pub proof fn pins_form_holds_these_values(pinned: PinnedPrivilegedTools, found: Seq<Seq<char>>)
    requires
        json_reading::are_values(found),
        json::json_array(found) == privileged_pin::pin_json(pinned),
    ensures
        found.len() == 7,
        found[0] == json::json_number(pinned.schema_version as int),
        found[1] == json::json_text(pinned.authorization_id@),
        found[2] == json::json_number(pinned.plan_step_id as int),
        found[3] == json::json_text(pinned.command_digest@),
        found[4] == json::json_text(pinned.tool_resolution_digest@),
        found[5] == privileged_pin::pin_receipt_json(pinned.primary),
        found[6] == privileged_pin::opt_pin_receipt_json(pinned.kernel_refresh),
{
    broadcast use crate::json_reading::group_json_reading;

    privileged_pin::lemma_pin_receipt_value(pinned.primary);
    privileged_pin::lemma_opt_pin_receipt_value(pinned.kernel_refresh);
    let parts = privileged_pin::pins_parts(pinned);
    assert(json_reading::are_values(parts));
    json_reading::array_tells_its_parts(found, parts);
}

/// Whoever reads the form of a prepared as a list of values finds just these, in this order.
pub proof fn prepared_form_holds_these_values(prepared: PreparedPrivilegedInvocation, found: Seq<Seq<char>>)
    requires
        json_reading::are_values(found),
        json::json_array(found) == privileged_prepared::prepared_json(prepared),
    ensures
        found.len() == 7,
        found[0] == json::json_number(prepared.schema_version as int),
        found[1] == json::json_text(prepared.request_id@),
        found[2] == json::json_text(prepared.execution_id@),
        found[3] == json::json_number(prepared.plan_step_id as int),
        found[4] == json::json_text(prepared.live_identity_digest@),
        found[5] == json::json_text(prepared.command_digest@),
        found[6] == json::json_text(prepared.tool_resolution_digest@),
{
    broadcast use crate::json_reading::group_json_reading;

    let parts = privileged_prepared::prepared_parts(prepared);
    assert(json_reading::are_values(parts));
    json_reading::array_tells_its_parts(found, parts);
}

/// Whoever reads the form of a request as a list of values finds just these, in this order.
pub proof fn request_form_holds_these_values(request: PrivilegedHelperRequest, found: Seq<Seq<char>>)
    requires
        json_reading::are_values(found),
        json::json_array(found) == privileged_protocol::request_json(request),
    ensures
        found.len() == 7,
        found[0] == json::json_number(request.schema_version as int),
        found[1] == json::json_text(request.execution_id@),
        found[2] == json::json_text(request.source_manifest_id@),
        found[3] == json::json_text(request.native_manifest_digest@),
        found[4] == json::json_text(request.fresh_identity_digest@),
        found[5] == json::json_number(request.plan_step_id as int),
        found[6] == native_operation::operation_json(request.operation),
{
    broadcast use crate::json_reading::group_json_reading;

    let parts = privileged_protocol::request_parts(request);
    assert(json_reading::are_values(parts));
    json_reading::array_tells_its_parts(found, parts);
}

/// Whoever reads the form of a process receipt as a record of values finds just these, in this order.
pub proof fn process_receipt_form_holds_these_values(receipt: PrivilegedProcessReceipt, found: Seq<Seq<char>>)
    requires
        json_reading::are_values(found),
        json::json_object(found) == privileged_result::process_receipt_json(receipt),
    ensures
        found.len() == 18,
        found[0] == json::json_field("schema_version"@, json::json_number(receipt.schema_version as int)),
        found[1] == json::json_field("execution_id"@, json::json_text(receipt.execution_id@)),
        found[2] == json::json_field("permit_id"@, json::json_text(receipt.permit_id@)),
        found[3] == json::json_field("launch_id"@, json::json_text(receipt.launch_id@)),
        found[4] == json::json_field("plan_step_id"@, json::json_number(receipt.plan_step_id as int)),
        found[5] == json::json_field("command_digest"@, json::json_text(receipt.command_digest@)),
        found[6] == json::json_field("primary_exit_code"@, json::json_number(receipt.primary_exit_code as int)),
        found[7] == json::json_field("primary_stdout_sha256"@, json::json_text(receipt.primary_stdout_sha256@)),
        found[8] == json::json_field("primary_stderr_sha256"@, json::json_text(receipt.primary_stderr_sha256@)),
        found[9] == json::json_field("primary_stdout_truncated"@, json::json_bool(receipt.primary_stdout_truncated)),
        found[10] == json::json_field("primary_stderr_truncated"@, json::json_bool(receipt.primary_stderr_truncated)),
        found[11] == json::json_field("kernel_refresh_exit_code"@, json::json_opt_number(privileged_result::opt_code(receipt.kernel_refresh_exit_code))),
        found[12] == json::json_field("kernel_refresh_stdout_sha256"@, json::json_opt_text(text::opt_text(receipt.kernel_refresh_stdout_sha256))),
        found[13] == json::json_field("kernel_refresh_stderr_sha256"@, json::json_opt_text(text::opt_text(receipt.kernel_refresh_stderr_sha256))),
        found[14] == json::json_field("kernel_refresh_stdout_truncated"@, json::json_opt_bool(receipt.kernel_refresh_stdout_truncated)),
        found[15] == json::json_field("kernel_refresh_stderr_truncated"@, json::json_opt_bool(receipt.kernel_refresh_stderr_truncated)),
        found[16] == json::json_field("mutation_may_have_started"@, json::json_bool(receipt.mutation_may_have_started)),
        found[17] == json::json_field("disposition"@, json::json_text(privileged_result::disposition_name(receipt.disposition))),
{
    broadcast use crate::json_reading::group_json_reading;

    let parts = privileged_result::process_receipt_parts(receipt);
    assert(json_reading::are_values(parts));
    json_reading::object_tells_its_parts(found, parts);
}

/// Whoever reads the form of a authorization as a list of values finds just these, in this order.
pub proof fn authorization_form_holds_these_values(authorization: PrivilegedSpawnAuthorization, found: Seq<Seq<char>>)
    requires
        json_reading::are_values(found),
        json::json_array(found) == privileged_spawn::authorization_json(authorization),
    ensures
        found.len() == 7,
        found[0] == json::json_number(authorization.schema_version as int),
        found[1] == json::json_text(authorization.execution_id@),
        found[2] == json::json_text(authorization.prepared_id@),
        found[3] == json::json_text(authorization.execution_start_receipt_id@),
        found[4] == json::json_number(authorization.plan_step_id as int),
        found[5] == json::json_text(authorization.command_digest@),
        found[6] == json::json_text(authorization.tool_resolution_digest@),
{
    broadcast use crate::json_reading::group_json_reading;

    let parts = privileged_spawn::authorization_parts(authorization);
    assert(json_reading::are_values(parts));
    json_reading::array_tells_its_parts(found, parts);
}

/// Whoever reads the form of a start receipt as a list of values finds just these, in this order.
pub proof fn start_receipt_form_holds_these_values(receipt: PrivilegedExecutionStartReceipt, found: Seq<Seq<char>>)
    requires
        json_reading::are_values(found),
        json::json_array(found) == privileged_start::start_receipt_json(receipt),
    ensures
        found.len() == 6,
        found[0] == json::json_number(receipt.schema_version as int),
        found[1] == json::json_text(receipt.execution_id@),
        found[2] == json::json_text(receipt.prepared_id@),
        found[3] == json::json_text(receipt.journal_id@),
        found[4] == json::json_number(receipt.first_plan_step_id as int),
        found[5] == json::json_text(receipt.executing_journal_digest@),
{
    broadcast use crate::json_reading::group_json_reading;

    let parts = privileged_start::start_receipt_parts(receipt);
    assert(json_reading::are_values(parts));
    json_reading::array_tells_its_parts(found, parts);
}

/// Whoever reads the form of a tool as a record of values finds just these, in this order.
pub proof fn tool_form_holds_these_values(tool: TrustedToolIdentity, found: Seq<Seq<char>>)
    requires
        json_reading::are_values(found),
        json::json_object(found) == privileged_tools::tool_json(tool),
    ensures
        found.len() == 9,
        found[0] == json::json_field("program"@, json::json_text(privileged_argv::privileged_program_name(tool.program))),
        found[1] == json::json_field("requested_path"@, json::json_text(tool.requested_path@)),
        found[2] == json::json_field("canonical_path"@, json::json_text(tool.canonical_path@)),
        found[3] == json::json_field("device_id"@, json::json_number(tool.device_id as int)),
        found[4] == json::json_field("inode"@, json::json_number(tool.inode as int)),
        found[5] == json::json_field("uid"@, json::json_number(tool.uid as int)),
        found[6] == json::json_field("mode"@, json::json_number(tool.mode as int)),
        found[7] == json::json_field("size_bytes"@, json::json_number(tool.size_bytes as int)),
        found[8] == json::json_field("sha256"@, json::json_text(tool.sha256@)),
{
    broadcast use crate::json_reading::group_json_reading;

    let parts = privileged_tools::tool_parts(tool);
    assert(json_reading::are_values(parts));
    json_reading::object_tells_its_parts(found, parts);
}

/// Whoever reads the form of a resolution as a record of values finds just these, in this order.
pub proof fn resolution_form_holds_these_values(tools: PrivilegedToolResolution, found: Seq<Seq<char>>)
    requires
        json_reading::are_values(found),
        json::json_object(found) == privileged_tools::resolution_json(tools),
    ensures
        found.len() == 3,
        found[0] == json::json_field("command_digest"@, json::json_text(tools.command_digest@)),
        found[1] == json::json_field("primary"@, privileged_tools::tool_json(tools.primary)),
        found[2] == json::json_field("kernel_refresh"@, privileged_tools::opt_tool_json(tools.kernel_refresh)),
{
    broadcast use crate::json_reading::group_json_reading;

    privileged_tools::lemma_tool_value(tools.primary);
    privileged_tools::lemma_opt_tool_value(tools.kernel_refresh);
    let parts = privileged_tools::resolution_parts(tools);
    assert(json_reading::are_values(parts));
    json_reading::object_tells_its_parts(found, parts);
}

/// Whoever reads the form of a verification receipt as a list of values finds just these, in this order.
pub proof fn verification_receipt_form_holds_these_values(receipt: PrivilegedLayerVerificationReceipt, found: Seq<Seq<char>>)
    requires
        json_reading::are_values(found),
        json::json_array(found) == privileged_verify::verification_receipt_json(receipt),
    ensures
        found.len() == 9,
        found[0] == json::json_number(receipt.schema_version as int),
        found[1] == json::json_text(receipt.execution_id@),
        found[2] == json::json_text(receipt.process_receipt_id@),
        found[3] == json::json_text(receipt.request_id@),
        found[4] == json::json_number(receipt.plan_step_id as int),
        found[5] == json::json_text(receipt.before_identity_digest@),
        found[6] == json::json_text(receipt.fresh_identity_digest@),
        found[7] == json::json_text(receipt.verified_operation@),
        found[8] == json::json_bool(receipt.expected_state_verified),
{
    broadcast use crate::json_reading::group_json_reading;

    let parts = privileged_verify::verification_receipt_parts(receipt);
    assert(json_reading::are_values(parts));
    json_reading::array_tells_its_parts(found, parts);
}

/// Whoever reads the form of a arm as a list of values finds just these, in this order.
pub proof fn arm_form_holds_these_values(arm: ProductionMutationArm, found: Seq<Seq<char>>)
    requires
        json_reading::are_values(found),
        json::json_array(found) == production_arm::arm_json(arm),
    ensures
        found.len() == 12,
        found[0] == json::json_number(arm.schema_version as int),
        found[1] == json::json_text(arm.execution_id@),
        found[2] == json::json_text(arm.journal_id@),
        found[3] == json::json_text(arm.journal_digest@),
        found[4] == json::json_text(arm.request_id@),
        found[5] == json::json_text(arm.permit_id@),
        found[6] == json::json_text(arm.launch_id@),
        found[7] == json::json_number(arm.plan_step_id as int),
        found[8] == json::json_text(arm.target@),
        found[9] == json::json_text(arm.resolved_device@),
        found[10] == json::json_text(arm.target_identity_digest@),
        found[11] == json::json_text(arm.scope@),
{
    broadcast use crate::json_reading::group_json_reading;

    let parts = production_arm::arm_parts(arm);
    assert(json_reading::are_values(parts));
    json_reading::array_tells_its_parts(found, parts);
}

/// Kinds, roles, states and the like are recorded by their names in small letters.
pub proof fn values_are_recorded_by_their_names(
    kind: MetadataBackupKind,
    role: FrozenIntentRole,
    check: FilesystemCheckKind,
    reversibility: Reversibility,
    status: PreMutationEvidenceStatus,
    state: FilesystemDecisionState,
    class: ElfClass,
    encoding: ElfDataEncoding,
    disposition: PrivilegedRuntimeDisposition,
)
    ensures
        kind is PartitionTable <==> backup_manifest::backup_kind_name(kind) == "partition_table"@,
        kind is LvmVolumeGroup <==> backup_manifest::backup_kind_name(kind) == "lvm_volume_group"@,
        role is PreExecutionEvidence ==> execution_intent::role_name(role) == "pre_execution_evidence"@,
        role is MutationCandidate ==> execution_intent::role_name(role) == "mutation_candidate"@,
        role is Verification ==> execution_intent::role_name(role) == "verification"@,
        check is XfsMountedScrubNoModify ==> filesystem_health::check_kind_name(check)
            == "xfs_mounted_scrub_no_modify"@,
        check is Ext4OfflineE2fsckNoModify ==> filesystem_health::check_kind_name(check)
            == "ext4_offline_e2fsck_no_modify"@,
        reversibility is NotApplicable ==> native_operation::reversibility_name(reversibility) == "not_applicable"@,
        reversibility is Reversible ==> native_operation::reversibility_name(reversibility) == "reversible"@,
        reversibility is Irreversible ==> native_operation::reversibility_name(reversibility) == "irreversible"@,
        status is EvidenceComplete ==> precondition_evidence::evidence_status_name(status) == "evidence_complete"@,
        status is FutureChecksRequired ==> precondition_evidence::evidence_status_name(status)
            == "future_checks_required"@,
        status is Blocked ==> precondition_evidence::evidence_status_name(status) == "blocked"@,
        state is ReadyOnlineGrow ==> precondition_evidence::decision_state_name(state) == "ready_online_grow"@,
        state is ReadOnlyHealthCheckRequired ==> precondition_evidence::decision_state_name(state)
            == "read_only_health_check_required"@,
        state is OfflineHealthCheckRequired ==> precondition_evidence::decision_state_name(state)
            == "offline_health_check_required"@,
        state is AdapterRequired ==> precondition_evidence::decision_state_name(state) == "adapter_required"@,
        state is Blocked ==> precondition_evidence::decision_state_name(state) == "blocked"@,
        class is Elf32 ==> privileged_launch::elf_class_name(class) == "elf32"@,
        class is Elf64 ==> privileged_launch::elf_class_name(class) == "elf64"@,
        encoding is LittleEndian ==> privileged_launch::elf_encoding_name(encoding) == "little_endian"@,
        encoding is BigEndian ==> privileged_launch::elf_encoding_name(encoding) == "big_endian"@,
        disposition is RediscoveryRequired ==> privileged_result::disposition_name(disposition)
            == "rediscovery_required"@,
        disposition is RecoveryRequired ==> privileged_result::disposition_name(disposition) == "recovery_required"@,
{
    reveal_strlit("partition_table");
    reveal_strlit("lvm_volume_group");
    assert("partition_table"@.len() != "lvm_volume_group"@.len());
}

} // verus!
