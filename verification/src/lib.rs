//! Decision core of a guarded storage executor.
//!
//! Every step that can lead to a storage mutation passes through a chain of exact bindings:
//! a frozen handoff, a durable journal, verified backups and preconditions, an exact approval,
//! a frozen intent, a compiled native manifest and finally a sealed launch permit. This crate
//! holds the rules of that chain. It performs no I/O and spawns no process.

pub mod approval;
pub mod argv_compiler;
pub mod backup_capture;
pub mod backup_manifest;
pub mod digest;
pub mod disposable_argv;
pub mod disposable_exec;
pub mod disposable_harness;
pub mod disposable_loop_association;
pub mod disposable_ownership;
pub mod disposable_permit;
pub mod disposable_start;
pub mod disposable_verify;
pub mod execution_intent;
pub mod filesystem_health;
pub mod graph;
pub mod harness_args;
pub mod harness_preparation;
pub mod host_lock;
pub mod journal_store;
pub mod json;
pub mod json_decoding;
pub mod json_reading;
pub mod locked_session;
pub mod model;
pub mod native_operation;
pub mod order;
pub mod paths;
pub mod precondition_evidence;
pub mod preconditions;
pub mod privileged_argv;
pub mod privileged_continue;
pub mod privileged_continue_start;
pub mod privileged_exec;
pub mod privileged_launch;
pub mod privileged_permit;
pub mod privileged_pin;
pub mod privileged_prepared;
pub mod privileged_protocol;
pub mod privileged_result;
pub mod privileged_spawn;
pub mod privileged_start;
pub mod privileged_tools;
pub mod privileged_verify;
pub mod production_arm;
pub mod reading;
pub mod recorded_forms;
pub mod secure_directory;
pub mod step_order;
pub mod text;

pub use approval::{
    approve_exact_plan, AcceptedApproval, ExactPlanApproval, ExactPlanApprovalError,
};
pub use argv_compiler::{CompiledCommandManifestStatus, NativeProgram};
pub use backup_capture::{
    revalidate_metadata_backup_receipt, BackupArtifactReceipt, BackupCaptureError,
    BackupReceiptRevalidation, MetadataBackupReceipt,
};
pub use backup_manifest::{
    build_metadata_backup_manifest, BackupCommandSpec, BackupExpectedIdentity, BackupManifestError,
    MetadataBackupKind, MetadataBackupManifest, MetadataBackupRequirement,
};
pub use disposable_argv::{
    compile_disposable_lvm_growth_commands, DisposableArgvError, DisposableCommandPlan,
    DisposableCommandSpec, DisposableProgram,
};
pub use disposable_exec::{DisposableCommandOutcome, DisposableExecutionError, DisposableToolPaths};
pub use disposable_loop_association::{
    verify_disposable_loop_association_row, DisposableLoopAssociation,
    DisposableLoopAssociationError,
};
pub use disposable_ownership::{
    capture_disposable_loop_ownership, revalidate_disposable_loop_ownership,
    DisposableLoopOwnershipProof, DisposableOwnershipError,
};
pub use disposable_permit::{
    bind_disposable_execution_permit, bind_verified_disposable_execution_permit,
    DisposableExecutionPermit, DisposablePermitError,
};
pub use disposable_start::DisposableExecutionStartError;
pub use disposable_verify::{
    verify_and_complete_disposable_execution, verify_and_continue_disposable_boundary,
    AcceptedBoundary, AcceptedCompletion, DisposableBoundaryVerificationError, DisposableVerifiedBoundary, DisposableVerifiedCompletion,
};
pub use execution_intent::{
    freeze_execution_intent, ExecutionIntentError, ExecutionIntentManifestStatus,
    FrozenExecutionIntentManifest, FrozenIntentAction, FrozenIntentRole, FrozenIntentStep,
    VerificationBarrierSpec,
};
pub use filesystem_health::{ExplicitFilesystemHealthError, ExplicitFilesystemHealthReceipt};
pub use host_lock::HostLockError;
pub use journal_store::{DurableJournalStore, JournalStoreError};
pub use locked_session::{
    LockedExecutionSession, LockedRevalidation, LockedRevalidationStatus, LockedSessionError,
};
pub use native_operation::{
    build_native_operation_spec, classify_frozen_intent_action, compile_native_manifest,
    compile_native_manifest_parts, compile_native_step, compile_native_steps,
    compile_native_verification_barrier, compile_native_verification_barriers,
    validate_native_manifest, NativeCompiledManifest, NativeCompiledStep,
    NativeManifestValidationError, NativeOperationKind, NativeOperationSpec,
    NativeVerificationBarrier,
};
pub use precondition_evidence::{
    build_pre_mutation_evidence, build_pre_mutation_evidence_with_filesystem_health,
    PreMutationEvidenceBundle, PreMutationEvidenceError, PreMutationEvidenceStatus,
};
pub use preconditions::{
    verify_preconditions, AcceptedPreconditions, PreconditionsVerification,
    PreconditionsVerificationError,
};
pub use privileged_argv::{
    compile_privileged_helper_command, PrivilegedArgvError, PrivilegedCommandSpec,
    PrivilegedKernelRefreshSpec, PrivilegedProgram,
};
pub use privileged_continue::{
    classify_privileged_durable_transition, PrivilegedDurableDisposition,
    PrivilegedDurableTransitionError,
};
pub use privileged_continue_start::{
    bind_prepared_privileged_continuation, PrivilegedContinuationStartError,
    PrivilegedContinuationStartReceipt,
};
pub use privileged_exec::{
    execute_privileged_descriptor_launch, DescriptorExecOutcome, PrivilegedDescriptorExecError,
    PrivilegedDescriptorSequenceOutcome,
};
pub use privileged_launch::{
    build_privileged_descriptor_launch_spec, DescriptorLaunchStage, ElfClass, ElfDataEncoding,
    ElfExecutionIdentity, PrivilegedDescriptorLaunchSpec, PrivilegedLaunchSpecError,
};
pub use privileged_permit::{
    seal_privileged_continuation_launch_permit, seal_privileged_launch_permit,
    PrivilegedLaunchPermit, PrivilegedLaunchPermitError,
};
pub use privileged_pin::{
    pin_privileged_tools_for_spawn, PinnedPrivilegedTools, PinnedToolReceipt,
    PrivilegedToolPinError,
};
pub use privileged_prepared::{
    prepare_privileged_invocation, PreparedInvocationError, PreparedPrivilegedInvocation,
};
pub use privileged_protocol::{
    build_privileged_helper_request, validate_privileged_helper_request,
    PrivilegedHelperProtocolError, PrivilegedHelperRequest,
};
pub use privileged_result::{
    classify_privileged_process_outcome, PrivilegedProcessReceipt, PrivilegedProcessReceiptError,
    PrivilegedRuntimeDisposition,
};
pub use privileged_spawn::{
    authorize_privileged_spawn, PrivilegedSpawnAuthorization, PrivilegedSpawnAuthorizationError,
};
pub use privileged_start::{
    AcceptedStart, PrivilegedExecutionStartError, PrivilegedExecutionStartReceipt,
};
pub use privileged_tools::{
    resolve_privileged_command_tools, resolve_trusted_privileged_tool, PrivilegedToolResolution,
    TrustedToolError, TrustedToolIdentity,
};
pub use privileged_verify::{
    verify_privileged_layer_post_state, PrivilegedLayerVerificationError,
    PrivilegedLayerVerificationReceipt,
};
pub use production_arm::{
    arm_production_mutation, ProductionMutationArm, ProductionMutationArmError,
};

use vstd::prelude::*;

verus! {

/// Storage mutation is switched off: no gate in this crate ever authorises a spawned mutation.
pub const MUTATION_ENABLED: bool = false;

} // verus!
