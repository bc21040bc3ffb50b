use serde::Serialize;
use sha2::{Digest, Sha256};

use storage_executor::disposable_exec::{DirectoryStatus, LinkStatus};
use storage_executor::model::{
    BindingIntegrity, DeviceIdentity, ExecutionStartBinding, FilesystemIdentity, JournalPhase,
    LayerRouteStatus, LvmIdentity, LvmIdentityKind, MountIdentity, NodeKind, OperationJournal,
    PartitionGeometryIdentity, Reversibility, TargetIdentityManifest,
    VerifiedMutationBoundaryBinding,
};
use storage_executor::native_operation::{
    validate_and_bind_native_manifest, ValidatedNativeManifest,
};
use storage_executor::privileged_argv::{compile_operation, partition_number};
use storage_executor::privileged_continue_start::build_continuation_start_receipt;
use storage_executor::privileged_exec::{
    check_descriptor_stage, conclude_descriptor_stage, launch_environment, refresh_follows,
    stdin_matches_launch, CapturedOutput, OUTPUT_CAPTURE_LIMIT,
};
use storage_executor::privileged_launch::{inspect_elf, validate_text, DescriptorProbe};
use storage_executor::privileged_pin::{receipt_from_open_file, OpenedTool};
use storage_executor::privileged_protocol::{
    build_privileged_helper_request_for_durable_step, operation_is_safe,
    validate_privileged_helper_live_identity, PRIVILEGED_HELPER_PROTOCOL_VERSION,
};
use storage_executor::privileged_spawn::authorize_with_resolution;
use storage_executor::privileged_tools::{
    inspect_candidate, trusted_tool_candidate, CandidateProbe, CandidateState, CandidateStates,
    FileStatus, TRUSTED_TOOL_DIRECTORY_COUNT,
};
use storage_executor::privileged_verify::{operation_name, verify_lvm_size, verify_partition};
use storage_executor::production_arm::{
    build_production_mutation_arm, PRODUCTION_MUTATION_ARM_CONFIRMATION,
    PRODUCTION_MUTATION_COMPILED,
};
use storage_executor::{
    authorize_privileged_spawn, build_privileged_descriptor_launch_spec,
    build_privileged_helper_request, classify_privileged_durable_transition,
    classify_privileged_process_outcome, compile_privileged_helper_command,
    execute_privileged_descriptor_launch, pin_privileged_tools_for_spawn,
    prepare_privileged_invocation, resolve_privileged_command_tools,
    resolve_trusted_privileged_tool, seal_privileged_continuation_launch_permit,
    seal_privileged_launch_permit, validate_privileged_helper_request,
    verify_privileged_layer_post_state, DescriptorExecOutcome, DescriptorLaunchStage, ElfClass,
    ElfDataEncoding, ElfExecutionIdentity, FrozenIntentRole, NativeCompiledManifest,
    NativeCompiledStep, NativeOperationSpec, NativeVerificationBarrier, PinnedPrivilegedTools,
    PinnedToolReceipt, PreparedInvocationError, PreparedPrivilegedInvocation, PrivilegedArgvError,
    PrivilegedCommandSpec, PrivilegedContinuationStartError, PrivilegedContinuationStartReceipt,
    PrivilegedDescriptorExecError, PrivilegedDescriptorLaunchSpec,
    PrivilegedDescriptorSequenceOutcome, PrivilegedDurableDisposition,
    PrivilegedDurableTransitionError, PrivilegedExecutionStartReceipt,
    PrivilegedHelperProtocolError, PrivilegedHelperRequest, PrivilegedKernelRefreshSpec,
    PrivilegedLaunchPermit, PrivilegedLaunchPermitError, PrivilegedLaunchSpecError,
    PrivilegedLayerVerificationError, PrivilegedLayerVerificationReceipt,
    PrivilegedProcessReceipt, PrivilegedProcessReceiptError, PrivilegedProgram,
    PrivilegedRuntimeDisposition, PrivilegedSpawnAuthorization,
    PrivilegedSpawnAuthorizationError, PrivilegedToolPinError, PrivilegedToolResolution,
    ProductionMutationArmError, TrustedToolError, TrustedToolIdentity,
};

const MIB: u64 = 1024 * 1024;

fn digest(byte: char) -> String {
    std::iter::repeat_n(byte, 64).collect()
}

fn serialized_digest(value: &impl Serialize) -> String {
    format!("{:x}", Sha256::digest(serde_json::to_vec(value).unwrap()))
}

fn lvm(kind: LvmIdentityKind, name: &str, uuid: &str, size_bytes: u64) -> LvmIdentity {
    LvmIdentity {
        kind,
        name: name.into(),
        uuid: Some(uuid.into()),
        size_bytes,
        free_bytes: None,
        pe_start_bytes: None,
        extent_size_bytes: None,
        free_extent_count: None,
        pv_count: None,
        lv_count: None,
        attributes: None,
        layout: None,
        role: None,
    }
}

fn host_identity() -> TargetIdentityManifest {
    let mut pv = lvm(LvmIdentityKind::PhysicalVolume, "/dev/sda1", "pv-uuid", 512 * MIB);
    pv.pe_start_bytes = Some(MIB);
    let mut lv = lvm(
        LvmIdentityKind::LogicalVolume,
        "/dev/mapper/vg-data",
        "lv-uuid",
        256 * MIB,
    );
    lv.attributes = Some("-wi-ao----".into());
    TargetIdentityManifest {
        schema_version: 1,
        target: "/mnt/data".into(),
        manifest_digest: digest('b'),
        resolved_device: "/dev/mapper/vg-data".into(),
        route_status: LayerRouteStatus::SupportedProfile,
        route_issue_codes: vec![],
        devices: vec![DeviceIdentity {
            kind: NodeKind::Disk,
            path: "/dev/sda".into(),
            kernel_name: Some("sda".into()),
            parent_kernel_name: None,
            size_bytes: 2 * 1024 * MIB,
            start_512_sector: None,
            logical_sector_bytes: Some(512),
            uuid: None,
            partition_uuid: None,
            model: None,
            serial: None,
            filesystem_type: None,
        }],
        partitions: vec![PartitionGeometryIdentity {
            partition: "/dev/sda1".into(),
            disk: Some("/dev/sda".into()),
            table_label: Some("gpt".into()),
            table_id: None,
            sector_size_bytes: Some(512),
            start_sector: Some(2048),
            size_sectors: Some(1024 * 1024),
            record_uuid: None,
        }],
        lvm: vec![pv, lv],
        filesystem: Some(FilesystemIdentity {
            device: "/dev/mapper/vg-data".into(),
            fs_type: "ext4".into(),
            fs_version: Some("1.0".into()),
            uuid: Some("fs-uuid".into()),
            backing_device_size_bytes: 256 * MIB,
            observed_filesystem_size_bytes: Some(240 * MIB),
        }),
        mounts: vec![MountIdentity {
            target: "/mnt/data".into(),
            source: Some("/dev/mapper/vg-data".into()),
            fs_type: Some("ext4".into()),
            options: vec!["rw".into()],
        }],
    }
}

fn grow_lv() -> NativeOperationSpec {
    NativeOperationSpec::ExtendLogicalVolume {
        lv_uuid: "lv-uuid".into(),
        additional_extents: 8,
        expected_lv_size_bytes: 288 * MIB,
    }
}

fn grow_partition() -> NativeOperationSpec {
    NativeOperationSpec::ExtendPartition {
        partition: "/dev/sda1".into(),
        start_sector: 2048,
        old_size_sectors: 1024 * 1024,
        new_size_sectors: 2 * 1024 * 1024,
        sector_size_bytes: 512,
    }
}

#[test]
fn compiles_exact_lvextend_without_shell_surface() {
    let spec = compile_operation(3, &grow_lv(), &host_identity()).unwrap();
    assert_eq!(spec.program, PrivilegedProgram::Lvextend);
    assert_eq!(
        spec.args,
        vec![
            "--extents".to_owned(),
            "+8".to_owned(),
            "--".to_owned(),
            "/dev/mapper/vg-data".to_owned()
        ]
    );
    assert!(spec.stdin_payload.is_none());
    assert!(spec.kernel_refresh.is_none());
    assert_eq!(spec.digest().unwrap().len(), 64);
}

#[test]
fn compiles_exact_partition_geometry_and_kernel_refresh() {
    let spec = compile_operation(1, &grow_partition(), &host_identity()).unwrap();
    assert_eq!(spec.program, PrivilegedProgram::Sfdisk);
    assert_eq!(
        spec.stdin_payload.as_deref(),
        Some("start=2048, size=2097152\n")
    );
    let refresh = spec.kernel_refresh.unwrap();
    assert_eq!(refresh.program, PrivilegedProgram::Partx);
    assert_eq!(refresh.args.last().map(String::as_str), Some("/dev/sda"));
}

#[test]
fn rejects_live_identity_mismatch_before_compilation() {
    let mut changed = host_identity();
    changed.resolved_device = "/dev/mapper/vg-other".into();
    let result = compile_operation(
        4,
        &NativeOperationSpec::GrowFilesystem {
            fs_type: "ext4".into(),
            mountpoint: Some("/mnt/data".into()),
        },
        &changed,
    );
    assert_eq!(result, Err(PrivilegedArgvError::FilesystemMismatch));
}

#[test]
fn command_digests_cover_the_whole_command() {
    let spec = compile_operation(3, &grow_lv(), &host_identity()).unwrap();
    let json = "{\"plan_step_id\":3,\"program\":\"lvextend\",\
                \"args\":[\"--extents\",\"+8\",\"--\",\"/dev/mapper/vg-data\"],\
                \"stdin_payload\":null,\"kernel_refresh\":null}";
    assert_eq!(
        spec.digest().unwrap(),
        format!("{:x}", Sha256::digest(json.as_bytes()))
    );
}

#[test]
fn partition_numbers_follow_the_disk_name() {
    assert_eq!(partition_number("/dev/sda1", "/dev/sda"), Some(1));
    assert_eq!(partition_number("/dev/sda12", "/dev/sda"), Some(12));
    assert_eq!(partition_number("/dev/nvme0n1p3", "/dev/nvme0n1"), Some(3));
    assert_eq!(partition_number("/dev/sdb1", "/dev/sda"), None);
    assert_eq!(partition_number("/dev/sda", "/dev/sda"), None);
    assert_eq!(partition_number("/dev/sda0", "/dev/sda"), None);
    assert_eq!(partition_number("/dev/sda1x", "/dev/sda"), None);
    assert_eq!(partition_number("/dev/sda99999999999", "/dev/sda"), None);
}

#[test]
fn argv_refusals_name_what_is_wrong() {
    let refusal = |operation: &NativeOperationSpec, identity: &TargetIdentityManifest| {
        compile_operation(1, operation, identity).unwrap_err()
    };
    let resize_pv = NativeOperationSpec::ResizePhysicalVolume {
        pv_uuid: "pv-uuid".into(),
        expected_pv_size_bytes: 512 * MIB,
    };
    let mut lost = host_identity();
    lost.partitions.clear();
    assert_eq!(
        refusal(&grow_partition(), &lost),
        PrivilegedArgvError::PartitionIdentityNotUnique
    );
    let mut moved = host_identity();
    moved.partitions[0].start_sector = Some(4096);
    assert_eq!(
        refusal(&grow_partition(), &moved),
        PrivilegedArgvError::PartitionGeometryMismatch
    );
    let mut renamed = host_identity();
    renamed.partitions[0].disk = Some("/dev/sdb".into());
    renamed.devices[0].path = "/dev/sdb".into();
    assert_eq!(
        refusal(&grow_partition(), &renamed),
        PrivilegedArgvError::PartitionNumberInvalid
    );
    let mut small = host_identity();
    small.devices[0].size_bytes = 600 * MIB;
    assert_eq!(
        refusal(&grow_partition(), &small),
        PrivilegedArgvError::PartitionGrowthOutOfBounds
    );
    let mut lost = host_identity();
    lost.lvm.clear();
    assert_eq!(
        refusal(&resize_pv, &lost),
        PrivilegedArgvError::PhysicalVolumeIdentityNotUnique
    );
    assert_eq!(
        refusal(&grow_lv(), &lost),
        PrivilegedArgvError::LogicalVolumeIdentityNotUnique
    );
    assert_eq!(
        refusal(&resize_pv, &host_identity()),
        PrivilegedArgvError::PhysicalVolumeMismatch
    );
    let mut grown = host_identity();
    grown.lvm[1].size_bytes = 288 * MIB;
    assert_eq!(
        refusal(&grow_lv(), &grown),
        PrivilegedArgvError::LogicalVolumeMismatch
    );
    let mut bare = host_identity();
    bare.filesystem = None;
    let grow_fs = NativeOperationSpec::GrowFilesystem {
        fs_type: "ext4".into(),
        mountpoint: Some("/mnt/data".into()),
    };
    assert_eq!(
        refusal(&grow_fs, &bare),
        PrivilegedArgvError::FilesystemIdentityMissing
    );
    let mut unmounted = host_identity();
    unmounted.mounts.clear();
    assert_eq!(
        refusal(&grow_fs, &unmounted),
        PrivilegedArgvError::FilesystemMountMismatch
    );
    assert_eq!(
        refusal(&NativeOperationSpec::RevalidateSnapshot, &host_identity()),
        PrivilegedArgvError::UnsupportedOperation
    );
}

fn barrier(after_plan_step_id: u32) -> NativeVerificationBarrier {
    NativeVerificationBarrier {
        after_plan_step_id,
        before_next_mutation: true,
        require_fresh_target_identity: true,
        require_fresh_capabilities: true,
        require_expected_state_check: true,
        stop_on_mismatch: true,
    }
}

fn mutation(
    plan_step_id: u32,
    depends_on: Vec<u32>,
    operation: NativeOperationSpec,
) -> NativeCompiledStep {
    NativeCompiledStep {
        plan_step_id,
        depends_on,
        reversibility: Reversibility::Irreversible,
        role: FrozenIntentRole::MutationCandidate,
        operation,
    }
}

fn one_step(operation: NativeOperationSpec) -> ValidatedNativeManifest {
    validate_and_bind_native_manifest(NativeCompiledManifest {
        source_manifest_id: digest('a'),
        steps: vec![mutation(3, vec![], operation)],
        verification_barriers: vec![barrier(3)],
    })
    .unwrap()
}

fn one_step_execution(validated: &ValidatedNativeManifest) -> ExecutionStartBinding {
    ExecutionStartBinding {
        schema_version: 1,
        execution_id: digest('e'),
        journal_id: "journal".into(),
        plan_id: "plan".into(),
        approval_id: "approval".into(),
        source_manifest_id: validated.manifest().source_manifest_id.clone(),
        native_manifest_digest: validated.digest().to_owned(),
        fresh_identity_digest: digest('b'),
        mutation_step_ids: vec![3],
        approved_journal_digest: digest('c'),
        integrity: BindingIntegrity::Matches,
    }
}

fn request_for(
    validated: &ValidatedNativeManifest,
    execution: &ExecutionStartBinding,
    step: u32,
) -> Result<PrivilegedHelperRequest, PrivilegedHelperProtocolError> {
    build_privileged_helper_request(
        validated,
        execution,
        "/mnt/data",
        "/dev/mapper/vg-data",
        step,
    )
}

#[test]
fn exact_native_mutation_builds_deterministic_protocol_request() {
    let validated = one_step(NativeOperationSpec::ExtendLogicalVolume {
        lv_uuid: "lv-uuid".into(),
        additional_extents: 8,
        expected_lv_size_bytes: 1024 * MIB,
    });
    let execution = one_step_execution(&validated);

    let first = request_for(&validated, &execution, 3).unwrap();
    let second = request_for(&validated, &execution, 3).unwrap();

    assert_eq!(first, second);
    assert_eq!(first.schema_version, PRIVILEGED_HELPER_PROTOCOL_VERSION);
    assert_eq!(first.plan_step_id, 3);
    assert_eq!(first.native_manifest_digest, validated.digest());
    validate_privileged_helper_request(&first).unwrap();
}

#[test]
fn protocol_rejects_unlisted_or_unsafe_filesystem_payloads() {
    let validated = one_step(NativeOperationSpec::GrowFilesystem {
        fs_type: "xfs".into(),
        mountpoint: None,
    });
    let execution = one_step_execution(&validated);
    assert_eq!(
        request_for(&validated, &execution, 3),
        Err(PrivilegedHelperProtocolError::UnsafeOperationPayload)
    );
}

#[test]
fn request_digest_detects_operation_tampering() {
    let validated = one_step(NativeOperationSpec::ExtendLogicalVolume {
        lv_uuid: "lv-uuid".into(),
        additional_extents: 4,
        expected_lv_size_bytes: 512 * MIB,
    });
    let execution = one_step_execution(&validated);
    let mut request = request_for(&validated, &execution, 3).unwrap();

    request.operation = NativeOperationSpec::ExtendLogicalVolume {
        lv_uuid: "lv-uuid".into(),
        additional_extents: 5,
        expected_lv_size_bytes: 512 * MIB,
    };

    assert_eq!(
        validate_privileged_helper_request(&request),
        Err(PrivilegedHelperProtocolError::RequestDigestMismatch)
    );
}

#[test]
fn request_builder_rejects_foreign_execution_binding() {
    let validated = one_step(NativeOperationSpec::ResizePhysicalVolume {
        pv_uuid: "pv-uuid".into(),
        expected_pv_size_bytes: 1024,
    });
    let mut execution = one_step_execution(&validated);
    execution.native_manifest_digest = digest('d');

    assert_eq!(
        request_for(&validated, &execution, 3),
        Err(PrivilegedHelperProtocolError::ExecutionBindingMismatch)
    );
}

#[test]
fn request_ids_cover_the_binding_and_the_operation() {
    let validated = one_step(grow_lv());
    let execution = one_step_execution(&validated);
    let request = request_for(&validated, &execution, 3).unwrap();
    let json = format!(
        "[1,\"{}\",\"{}\",\"{}\",\"{}\",3,{{\"operation\":\"extend_logical_volume\",\
         \"lv_uuid\":\"lv-uuid\",\"additional_extents\":8,\"expected_lv_size_bytes\":301989888}}]",
        execution.execution_id,
        execution.source_manifest_id,
        execution.native_manifest_digest,
        execution.fresh_identity_digest
    );
    assert_eq!(
        request.request_id,
        format!("{:x}", Sha256::digest(json.as_bytes()))
    );
}

#[test]
fn protocol_refusals_name_what_is_wrong() {
    let validated = one_step(grow_lv());
    let mut execution = one_step_execution(&validated);
    execution.integrity = BindingIntegrity::Differs;
    assert_eq!(
        request_for(&validated, &execution, 3),
        Err(PrivilegedHelperProtocolError::ExecutionBindingIntegrityMismatch)
    );
    execution.integrity = BindingIntegrity::Unavailable;
    assert_eq!(
        request_for(&validated, &execution, 3),
        Err(PrivilegedHelperProtocolError::Serialization)
    );
    let mut execution = one_step_execution(&validated);
    assert_eq!(
        request_for(&validated, &execution, 4),
        Err(PrivilegedHelperProtocolError::UnauthorizedStep(4))
    );
    execution.mutation_step_ids = vec![3, 4];
    assert_eq!(
        request_for(&validated, &execution, 4),
        Err(PrivilegedHelperProtocolError::StepNotUnique(4))
    );
    let evidence = validate_and_bind_native_manifest(NativeCompiledManifest {
        source_manifest_id: digest('a'),
        steps: vec![NativeCompiledStep {
            role: FrozenIntentRole::PreExecutionEvidence,
            ..mutation(3, vec![], NativeOperationSpec::RevalidateSnapshot)
        }],
        verification_barriers: vec![],
    })
    .unwrap();
    assert_eq!(
        request_for(&evidence, &one_step_execution(&evidence), 3),
        Err(PrivilegedHelperProtocolError::StepNotMutation(3))
    );
    let mut request = request_for(&validated, &one_step_execution(&validated), 3).unwrap();
    request.schema_version = 2;
    assert_eq!(
        validate_privileged_helper_request(&request),
        Err(PrivilegedHelperProtocolError::UnsupportedVersion(2))
    );
    let request = request_for(&validated, &one_step_execution(&validated), 3).unwrap();
    assert!(validate_privileged_helper_live_identity(&request, &host_identity()).is_ok());
    let mut other = host_identity();
    other.resolved_device = "/dev/mapper/other".into();
    assert_eq!(
        validate_privileged_helper_live_identity(&request, &other),
        Err(PrivilegedHelperProtocolError::FreshIdentityBindingMismatch)
    );
    assert!(operation_is_safe(&grow_partition()));
    assert!(!operation_is_safe(&NativeOperationSpec::GrowFilesystem {
        fs_type: "ntfs".into(),
        mountpoint: Some("/mnt".into()),
    }));
}

#[test]
fn a_request_compiles_to_its_command() {
    let validated = one_step(grow_lv());
    let request = request_for(&validated, &one_step_execution(&validated), 3).unwrap();
    let command = compile_privileged_helper_command(&request, &host_identity()).unwrap();
    assert_eq!(command.plan_step_id, 3);
    assert_eq!(command.program, PrivilegedProgram::Lvextend);
    let mut stale = host_identity();
    stale.manifest_digest = digest('0');
    assert_eq!(
        compile_privileged_helper_command(&request, &stale),
        Err(PrivilegedArgvError::Protocol(
            PrivilegedHelperProtocolError::FreshIdentityBindingMismatch
        ))
    );
}

fn two_steps() -> ValidatedNativeManifest {
    validate_and_bind_native_manifest(NativeCompiledManifest {
        source_manifest_id: digest('a'),
        steps: vec![
            mutation(
                3,
                vec![],
                NativeOperationSpec::ExtendLogicalVolume {
                    lv_uuid: "lv-uuid".into(),
                    additional_extents: 1,
                    expected_lv_size_bytes: 512,
                },
            ),
            mutation(
                4,
                vec![3],
                NativeOperationSpec::GrowFilesystem {
                    fs_type: "ext4".into(),
                    mountpoint: Some("/mnt/data".into()),
                },
            ),
        ],
        verification_barriers: vec![barrier(3), barrier(4)],
    })
    .unwrap()
}

fn execution(validated: &ValidatedNativeManifest) -> ExecutionStartBinding {
    ExecutionStartBinding {
        schema_version: 1,
        execution_id: digest('e'),
        journal_id: digest('1'),
        plan_id: digest('2'),
        approval_id: digest('3'),
        source_manifest_id: validated.manifest().source_manifest_id.clone(),
        native_manifest_digest: validated.digest().to_owned(),
        fresh_identity_digest: digest('b'),
        mutation_step_ids: vec![3, 4],
        approved_journal_digest: digest('4'),
        integrity: BindingIntegrity::Matches,
    }
}

fn identity(manifest_digest: String, lv_size: u64) -> TargetIdentityManifest {
    TargetIdentityManifest {
        schema_version: 1,
        target: "/mnt/data".into(),
        manifest_digest,
        resolved_device: "/dev/mapper/vg-data".into(),
        route_status: LayerRouteStatus::SupportedProfile,
        route_issue_codes: vec![],
        devices: vec![],
        partitions: vec![],
        lvm: vec![lvm(
            LvmIdentityKind::LogicalVolume,
            "/dev/mapper/vg-data",
            "lv-uuid",
            lv_size,
        )],
        filesystem: None,
        mounts: vec![],
    }
}

fn journal(execution: &ExecutionStartBinding) -> OperationJournal {
    OperationJournal {
        schema_version: 1,
        journal_id: execution.journal_id.clone(),
        plan_id: execution.plan_id.clone(),
        target: "/mnt/data".into(),
        baseline_manifest_digest: execution.fresh_identity_digest.clone(),
        phase: JournalPhase::Executing,
        mutation_may_have_started: true,
        approval: None,
        execution: Some(execution.clone()),
        verified_boundary: None,
        events: vec![],
    }
}

fn boundary(execution: &ExecutionStartBinding) -> VerifiedMutationBoundaryBinding {
    VerifiedMutationBoundaryBinding {
        schema_version: 1,
        boundary_id: digest('d'),
        execution_id: execution.execution_id.clone(),
        completed_step_id: 3,
        next_step_id: 4,
        fresh_identity_digest: digest('f'),
        final_step_id: None,
        final_identity_digest: None,
        integrity: BindingIntegrity::Matches,
    }
}

fn process(
    request: &PrivilegedHelperRequest,
    disposition: PrivilegedRuntimeDisposition,
) -> PrivilegedProcessReceipt {
    let mut value = PrivilegedProcessReceipt {
        schema_version: 1,
        receipt_id: String::new(),
        execution_id: request.execution_id.clone(),
        permit_id: digest('5'),
        launch_id: digest('6'),
        plan_step_id: request.plan_step_id,
        command_digest: digest('7'),
        primary_exit_code: if disposition == PrivilegedRuntimeDisposition::RecoveryRequired {
            1
        } else {
            0
        },
        primary_stdout_sha256: digest('8'),
        primary_stderr_sha256: digest('9'),
        primary_stdout_truncated: false,
        primary_stderr_truncated: false,
        kernel_refresh_exit_code: None,
        kernel_refresh_stdout_sha256: None,
        kernel_refresh_stderr_sha256: None,
        kernel_refresh_stdout_truncated: None,
        kernel_refresh_stderr_truncated: None,
        mutation_may_have_started: true,
        disposition,
    };
    value.receipt_id = value.expected_receipt_id().unwrap();
    value
}

fn verification(
    request: &PrivilegedHelperRequest,
    process: &PrivilegedProcessReceipt,
    fresh_digest: String,
) -> PrivilegedLayerVerificationReceipt {
    let mut value = PrivilegedLayerVerificationReceipt {
        schema_version: 1,
        receipt_id: String::new(),
        execution_id: request.execution_id.clone(),
        process_receipt_id: process.receipt_id.clone(),
        request_id: request.request_id.clone(),
        plan_step_id: request.plan_step_id,
        before_identity_digest: request.fresh_identity_digest.clone(),
        fresh_identity_digest: fresh_digest,
        verified_operation: operation_name(&request.operation).into(),
        expected_state_verified: true,
    };
    value.receipt_id = value.expected_receipt_id().unwrap();
    value
}

fn durable_request(
    journal: &OperationJournal,
    live: &TargetIdentityManifest,
    step: u32,
) -> Result<PrivilegedHelperRequest, PrivilegedHelperProtocolError> {
    build_privileged_helper_request_for_durable_step(&two_steps(), journal, live, step)
}

#[test]
fn first_verified_step_allows_only_the_next_exact_mutation() {
    let journal = journal(&execution(&two_steps()));
    let request = durable_request(&journal, &identity(digest('b'), 256), 3).unwrap();
    let process = process(&request, PrivilegedRuntimeDisposition::RediscoveryRequired);
    let verification = verification(&request, &process, digest('f'));

    assert_eq!(
        classify_privileged_durable_transition(&journal, &request, &process, &Some(verification))
            .unwrap(),
        PrivilegedDurableDisposition::Continue { next_step_id: 4 }
    );
}

#[test]
fn later_step_request_must_use_last_verified_identity() {
    let execution = execution(&two_steps());
    let mut journal = journal(&execution);
    journal.verified_boundary = Some(boundary(&execution));

    assert!(durable_request(&journal, &identity(digest('f'), 512), 4).is_ok());
    assert!(matches!(
        durable_request(&journal, &identity(digest('b'), 512), 4),
        Err(PrivilegedHelperProtocolError::FreshIdentityBindingMismatch)
    ));
}

#[test]
fn final_verified_step_requires_exact_previous_boundary() {
    let execution = execution(&two_steps());
    let mut journal = journal(&execution);
    journal.verified_boundary = Some(boundary(&execution));
    let request = durable_request(&journal, &identity(digest('f'), 512), 4).unwrap();
    let process = process(&request, PrivilegedRuntimeDisposition::RediscoveryRequired);
    let verification = verification(&request, &process, digest('e'));

    assert_eq!(
        classify_privileged_durable_transition(&journal, &request, &process, &Some(verification))
            .unwrap(),
        PrivilegedDurableDisposition::Complete
    );
}

#[test]
fn recovery_process_never_needs_a_completion_receipt() {
    let journal = journal(&execution(&two_steps()));
    let request = durable_request(&journal, &identity(digest('b'), 256), 3).unwrap();
    let process = process(&request, PrivilegedRuntimeDisposition::RecoveryRequired);

    assert_eq!(
        classify_privileged_durable_transition(&journal, &request, &process, &None).unwrap(),
        PrivilegedDurableDisposition::RecoveryRequired
    );
}

#[test]
fn tampered_verification_receipt_fails_closed() {
    let journal = journal(&execution(&two_steps()));
    let request = durable_request(&journal, &identity(digest('b'), 256), 3).unwrap();
    let process = process(&request, PrivilegedRuntimeDisposition::RediscoveryRequired);
    let mut verification = verification(&request, &process, digest('f'));
    verification.fresh_identity_digest = digest('e');

    assert!(matches!(
        classify_privileged_durable_transition(&journal, &request, &process, &Some(verification)),
        Err(PrivilegedDurableTransitionError::VerificationReceiptIntegrityMismatch)
    ));
}

#[test]
fn durable_transition_refusals_name_what_is_wrong() {
    let execution = execution(&two_steps());
    let good = journal(&execution);
    let request = durable_request(&good, &identity(digest('b'), 256), 3).unwrap();
    let done = process(&request, PrivilegedRuntimeDisposition::RediscoveryRequired);
    let refusal = |journal: &OperationJournal,
                   done: &PrivilegedProcessReceipt,
                   verified: Option<PrivilegedLayerVerificationReceipt>| {
        classify_privileged_durable_transition(journal, &request, done, &verified).unwrap_err()
    };

    assert!(matches!(
        refusal(&good, &done, None),
        PrivilegedDurableTransitionError::VerificationReceiptMissing
    ));
    let mut idle = journal(&execution);
    idle.phase = JournalPhase::Verifying;
    assert!(matches!(
        refusal(&idle, &done, None),
        PrivilegedDurableTransitionError::JournalNotExecuting
    ));
    let mut unbound = journal(&execution);
    unbound.execution = None;
    assert!(matches!(
        refusal(&unbound, &done, None),
        PrivilegedDurableTransitionError::ExecutionBindingInvalid
    ));
    let mut tampered = process(&request, PrivilegedRuntimeDisposition::RediscoveryRequired);
    tampered.primary_exit_code = 9;
    assert!(matches!(
        refusal(&good, &tampered, None),
        PrivilegedDurableTransitionError::ProcessReceiptIntegrityMismatch
    ));
    let mut foreign = process(&request, PrivilegedRuntimeDisposition::RediscoveryRequired);
    foreign.plan_step_id = 4;
    foreign.receipt_id = foreign.expected_receipt_id().unwrap();
    assert!(matches!(
        refusal(&good, &foreign, None),
        PrivilegedDurableTransitionError::RuntimeBindingMismatch
    ));
    let mut other = verification(&request, &done, digest('f'));
    other.request_id = digest('0');
    other.receipt_id = other.expected_receipt_id().unwrap();
    assert!(matches!(
        refusal(&good, &done, Some(other)),
        PrivilegedDurableTransitionError::VerificationBindingMismatch
    ));
}

fn continuation_journal(execution: &ExecutionStartBinding) -> OperationJournal {
    let mut journal = journal(execution);
    journal.verified_boundary = Some(boundary(execution));
    journal
}

fn prepared_for(request: &PrivilegedHelperRequest) -> PreparedPrivilegedInvocation {
    let tools = PrivilegedToolResolution {
        command_digest: digest('8'),
        primary: TrustedToolIdentity {
            program: PrivilegedProgram::Resize2fs,
            requested_path: "/usr/sbin/resize2fs".into(),
            canonical_path: "/usr/sbin/resize2fs".into(),
            device_id: 1,
            inode: 2,
            uid: 0,
            mode: 0o100755,
            size_bytes: 4096,
            sha256: digest('9'),
        },
        kernel_refresh: None,
    };
    let mut value = PreparedPrivilegedInvocation {
        schema_version: 1,
        prepared_id: String::new(),
        request_id: request.request_id.clone(),
        execution_id: request.execution_id.clone(),
        plan_step_id: request.plan_step_id,
        live_identity_digest: request.fresh_identity_digest.clone(),
        command_digest: tools.command_digest.clone(),
        tool_resolution_digest: tools.digest().unwrap(),
    };
    value.prepared_id = serialized_digest(&(
        value.schema_version,
        &value.request_id,
        &value.execution_id,
        value.plan_step_id,
        &value.live_identity_digest,
        &value.command_digest,
        &value.tool_resolution_digest,
    ));
    value
}

#[test]
fn exact_verified_boundary_binds_the_next_prepared_step() {
    let journal = continuation_journal(&execution(&two_steps()));
    let request = durable_request(&journal, &identity(digest('f'), 512), 4).unwrap();
    let prepared = prepared_for(&request);

    let receipt = build_continuation_start_receipt(&journal, &request, &prepared, b"{}").unwrap();
    assert!(receipt.integrity_matches().unwrap());
    assert_eq!(receipt.plan_step_id, 4);
    assert_eq!(receipt.live_identity_digest, digest('f'));
    assert_eq!(
        receipt.verified_boundary_id,
        journal.verified_boundary.as_ref().unwrap().boundary_id
    );
    assert_eq!(
        receipt.executing_journal_digest,
        "44136fa355b3678a1146ad16f7e8649e94fb4fc21fe77e8310c060f61caaff8a"
    );
}

#[test]
fn stale_pre_mutation_identity_is_rejected_for_continuation() {
    let journal = continuation_journal(&execution(&two_steps()));
    assert!(durable_request(&journal, &identity(digest('b'), 512), 4).is_err());
}

#[test]
fn tampered_continuation_receipt_is_detected() {
    let mut receipt = PrivilegedContinuationStartReceipt {
        schema_version: 1,
        receipt_id: String::new(),
        execution_id: digest('a'),
        verified_boundary_id: digest('b'),
        prepared_id: digest('c'),
        journal_id: digest('d'),
        plan_step_id: 4,
        live_identity_digest: digest('e'),
        executing_journal_digest: digest('f'),
    };
    receipt.receipt_id = receipt.expected_receipt_id().unwrap();
    assert!(receipt.integrity_matches().unwrap());
    receipt.plan_step_id = 5;
    assert!(!receipt.integrity_matches().unwrap());
}

#[test]
fn continuation_refusals_name_what_is_wrong() {
    let journal = continuation_journal(&execution(&two_steps()));
    let request = durable_request(&journal, &identity(digest('f'), 512), 4).unwrap();
    let prepared = prepared_for(&request);
    let refusal = |journal: &OperationJournal, prepared: &PreparedPrivilegedInvocation| {
        build_continuation_start_receipt(journal, &request, prepared, b"{}").unwrap_err()
    };

    let mut idle = continuation_journal(&execution(&two_steps()));
    idle.phase = JournalPhase::Verifying;
    assert!(matches!(
        refusal(&idle, &prepared),
        PrivilegedContinuationStartError::JournalNotExecuting
    ));
    let mut unbound = continuation_journal(&execution(&two_steps()));
    unbound.verified_boundary = None;
    assert!(matches!(
        refusal(&unbound, &prepared),
        PrivilegedContinuationStartError::VerifiedBoundaryInvalid
    ));
    let mut tampered = prepared_for(&request);
    tampered.command_digest = digest('0');
    assert!(matches!(
        refusal(&journal, &tampered),
        PrivilegedContinuationStartError::PreparedIntegrityMismatch
    ));
}

fn sealed_start() -> PrivilegedExecutionStartReceipt {
    let mut value = PrivilegedExecutionStartReceipt {
        schema_version: 1,
        receipt_id: String::new(),
        execution_id: digest('1'),
        prepared_id: digest('2'),
        journal_id: digest('3'),
        first_plan_step_id: 7,
        executing_journal_digest: digest('4'),
    };
    value.receipt_id = serialized_digest(&(
        value.schema_version,
        &value.execution_id,
        &value.prepared_id,
        &value.journal_id,
        value.first_plan_step_id,
        &value.executing_journal_digest,
    ));
    value
}

fn sealed_authorization(start: &PrivilegedExecutionStartReceipt) -> PrivilegedSpawnAuthorization {
    let mut value = PrivilegedSpawnAuthorization {
        schema_version: 1,
        authorization_id: String::new(),
        execution_id: start.execution_id.clone(),
        prepared_id: start.prepared_id.clone(),
        execution_start_receipt_id: start.receipt_id.clone(),
        plan_step_id: start.first_plan_step_id,
        command_digest: digest('5'),
        tool_resolution_digest: digest('6'),
    };
    value.authorization_id = serialized_digest(&(
        value.schema_version,
        &value.execution_id,
        &value.prepared_id,
        &value.execution_start_receipt_id,
        value.plan_step_id,
        &value.command_digest,
        &value.tool_resolution_digest,
    ));
    value
}

fn pinned_receipt(program: PrivilegedProgram) -> PinnedToolReceipt {
    PinnedToolReceipt {
        program,
        canonical_path: format!("/usr/sbin/{}", program.as_str()),
        device_id: 1,
        inode: 2,
        uid: 0,
        mode: 0o100755,
        size_bytes: 4096,
        sha256: digest('7'),
    }
}

fn launch_stage(program: PrivilegedProgram, args: &[&str]) -> DescriptorLaunchStage {
    let mut argv = vec![program.as_str().to_owned()];
    argv.extend(args.iter().map(|arg| (*arg).to_owned()));
    DescriptorLaunchStage {
        program,
        argv,
        executable: pinned_receipt(program),
        elf: ElfExecutionIdentity {
            class: ElfClass::Elf64,
            data_encoding: ElfDataEncoding::LittleEndian,
            version: 1,
        },
    }
}

fn sealed_launch(
    authorization: &PrivilegedSpawnAuthorization,
    refresh: bool,
) -> PrivilegedDescriptorLaunchSpec {
    let mut value = PrivilegedDescriptorLaunchSpec {
        schema_version: 1,
        launch_id: String::new(),
        pin_id: digest('8'),
        authorization_id: authorization.authorization_id.clone(),
        plan_step_id: authorization.plan_step_id,
        command_digest: authorization.command_digest.clone(),
        primary: launch_stage(
            PrivilegedProgram::Lvextend,
            &["--extents", "+8", "--", "/dev/vg/data"],
        ),
        kernel_refresh: if refresh {
            Some(launch_stage(PrivilegedProgram::Partx, &["--update"]))
        } else {
            None
        },
        stdin_len: 0,
        stdin_sha256: None,
        fixed_path: "/usr/sbin:/usr/bin:/sbin:/bin".into(),
        fixed_locale: "C".into(),
        descriptor_exec_api: "fexecve".into(),
        process_spawned: false,
    };
    value.launch_id = value.expected_launch_id().unwrap();
    value
}

#[test]
fn launch_ids_cover_the_whole_specification() {
    let start = sealed_start();
    let authorization = sealed_authorization(&start);
    let launch = sealed_launch(&authorization, false);
    let json = format!(
        "[1,\"{}\",\"{}\",7,\"{}\",{{\"program\":\"lvextend\",\"argv\":[\"lvextend\",\
         \"--extents\",\"+8\",\"--\",\"/dev/vg/data\"],\"executable\":{{\"program\":\"lvextend\",\
         \"canonical_path\":\"/usr/sbin/lvextend\",\"device_id\":1,\"inode\":2,\"uid\":0,\
         \"mode\":33261,\"size_bytes\":4096,\"sha256\":\"{}\"}},\"elf\":{{\"class\":\"elf64\",\
         \"data_encoding\":\"little_endian\",\"version\":1}}}},null,0,null,\
         \"/usr/sbin:/usr/bin:/sbin:/bin\",\"C\",\"fexecve\",false]",
        launch.pin_id,
        launch.authorization_id,
        launch.command_digest,
        digest('7')
    );
    assert_eq!(
        launch.launch_id,
        format!("{:x}", Sha256::digest(json.as_bytes()))
    );
}

#[test]
fn seals_exact_launch_chain_without_spawning() {
    let start = sealed_start();
    let authorization = sealed_authorization(&start);
    let launch = sealed_launch(&authorization, false);

    let permit = seal_privileged_launch_permit(&start, &authorization, &launch).unwrap();
    assert!(permit.integrity_matches().unwrap());
    assert!(!permit.mutation_enabled);
    assert!(!permit.process_spawned);
    assert_eq!(permit.plan_step_id, 7);
    assert_eq!(
        permit.permit_id,
        serialized_digest(&(
            permit.schema_version,
            &permit.execution_id,
            &permit.execution_start_receipt_id,
            &permit.authorization_id,
            &permit.launch_id,
            permit.plan_step_id,
            &permit.command_digest,
            permit.mutation_enabled,
            permit.process_spawned,
        ))
    );
}

#[test]
fn seals_exact_continuation_launch_chain_without_spawning() {
    let mut authorization = sealed_authorization(&sealed_start());
    let mut continuation = PrivilegedContinuationStartReceipt {
        schema_version: 1,
        receipt_id: String::new(),
        execution_id: authorization.execution_id.clone(),
        verified_boundary_id: digest('a'),
        prepared_id: authorization.prepared_id.clone(),
        journal_id: digest('b'),
        plan_step_id: authorization.plan_step_id,
        live_identity_digest: digest('c'),
        executing_journal_digest: digest('d'),
    };
    continuation.receipt_id = continuation.expected_receipt_id().unwrap();
    authorization.execution_start_receipt_id = continuation.receipt_id.clone();
    authorization.authorization_id = authorization.expected_authorization_id().unwrap();
    let launch = sealed_launch(&authorization, false);

    let permit =
        seal_privileged_continuation_launch_permit(&continuation, &authorization, &launch)
            .unwrap();
    assert!(permit.integrity_matches().unwrap());
    assert_eq!(permit.execution_start_receipt_id, continuation.receipt_id);
    assert_eq!(permit.plan_step_id, continuation.plan_step_id);

    continuation.plan_step_id = 8;
    assert!(matches!(
        seal_privileged_continuation_launch_permit(&continuation, &authorization, &launch),
        Err(PrivilegedLaunchPermitError::ContinuationStartIntegrityMismatch)
    ));
}

#[test]
fn rejects_launch_bound_to_another_authorization() {
    let start = sealed_start();
    let authorization = sealed_authorization(&start);
    let mut launch = sealed_launch(&authorization, false);
    launch.authorization_id = digest('f');

    assert!(matches!(
        seal_privileged_launch_permit(&start, &authorization, &launch),
        Err(PrivilegedLaunchPermitError::LaunchIntegrityMismatch)
    ));
}

#[test]
fn permit_refusals_name_what_is_wrong() {
    let start = sealed_start();
    let authorization = sealed_authorization(&start);
    let launch = sealed_launch(&authorization, false);

    let mut tampered = sealed_start();
    tampered.first_plan_step_id = 8;
    assert!(matches!(
        seal_privileged_launch_permit(&tampered, &authorization, &launch),
        Err(PrivilegedLaunchPermitError::ExecutionStartIntegrityMismatch)
    ));
    let mut forged = sealed_authorization(&start);
    forged.plan_step_id = 8;
    assert!(matches!(
        seal_privileged_launch_permit(&start, &forged, &launch),
        Err(PrivilegedLaunchPermitError::AuthorizationIntegrityMismatch)
    ));
    let mut spawned = sealed_launch(&authorization, false);
    spawned.process_spawned = true;
    spawned.launch_id = spawned.expected_launch_id().unwrap();
    assert!(matches!(
        seal_privileged_launch_permit(&start, &authorization, &spawned),
        Err(PrivilegedLaunchPermitError::AlreadySpawned)
    ));
    let mut other = sealed_launch(&authorization, false);
    other.command_digest = digest('0');
    other.launch_id = other.expected_launch_id().unwrap();
    assert!(matches!(
        seal_privileged_launch_permit(&start, &authorization, &other),
        Err(PrivilegedLaunchPermitError::BindingMismatch)
    ));
}

fn launch_permit(launch: &PrivilegedDescriptorLaunchSpec) -> PrivilegedLaunchPermit {
    let mut value = PrivilegedLaunchPermit {
        schema_version: 1,
        permit_id: String::new(),
        execution_id: digest('e'),
        execution_start_receipt_id: digest('f'),
        authorization_id: launch.authorization_id.clone(),
        launch_id: launch.launch_id.clone(),
        plan_step_id: launch.plan_step_id,
        command_digest: launch.command_digest.clone(),
        mutation_enabled: false,
        process_spawned: false,
    };
    value.permit_id = value.expected_permit_id().unwrap();
    value
}

fn outcome(exit_code: i32) -> DescriptorExecOutcome {
    DescriptorExecOutcome {
        exit_code,
        stdout: b"stdout".to_vec(),
        stderr: b"stderr".to_vec(),
        stdout_truncated: false,
        stderr_truncated: false,
    }
}

fn result_launch(refresh: bool) -> PrivilegedDescriptorLaunchSpec {
    sealed_launch(&sealed_authorization(&sealed_start()), refresh)
}

#[test]
fn successful_primary_requires_rediscovery_not_completion() {
    let launch = result_launch(false);
    let permit = launch_permit(&launch);
    let sequence = PrivilegedDescriptorSequenceOutcome {
        primary: outcome(0),
        kernel_refresh: None,
    };
    let receipt = classify_privileged_process_outcome(&permit, &launch, &sequence).unwrap();
    assert_eq!(
        receipt.disposition,
        PrivilegedRuntimeDisposition::RediscoveryRequired
    );
    assert!(receipt.mutation_may_have_started);
    assert!(receipt.integrity_matches().unwrap());
    assert_eq!(
        receipt.primary_stdout_sha256,
        format!("{:x}", Sha256::digest(b"stdout"))
    );
}

#[test]
fn every_field_of_a_permit_is_covered() {
    let permit = launch_permit(&result_launch(false));
    assert!(permit.integrity_matches().unwrap());
    let changes: Vec<fn(&mut PrivilegedLaunchPermit)> = vec![
        |permit| permit.schema_version += 1,
        |permit| permit.execution_id.push('0'),
        |permit| permit.execution_start_receipt_id.push('0'),
        |permit| permit.authorization_id.push('0'),
        |permit| permit.launch_id.push('0'),
        |permit| permit.plan_step_id += 1,
        |permit| permit.command_digest.push('0'),
        |permit| permit.mutation_enabled = true,
        |permit| permit.process_spawned = true,
    ];
    for change in changes {
        let mut changed = permit.clone();
        change(&mut changed);
        assert!(!changed.integrity_matches().unwrap());
    }
}

#[test]
fn recovery_cannot_be_relabelled() {
    let launch = result_launch(false);
    let permit = launch_permit(&launch);
    let sequence = PrivilegedDescriptorSequenceOutcome {
        primary: outcome(1),
        kernel_refresh: None,
    };
    let receipt = classify_privileged_process_outcome(&permit, &launch, &sequence).unwrap();
    assert_eq!(
        receipt.disposition,
        PrivilegedRuntimeDisposition::RecoveryRequired
    );
    let changes: Vec<fn(&mut PrivilegedProcessReceipt)> = vec![
        |receipt| receipt.disposition = PrivilegedRuntimeDisposition::RediscoveryRequired,
        |receipt| receipt.primary_exit_code = 0,
        |receipt| receipt.command_digest.push('0'),
        |receipt| receipt.primary_stderr_sha256.push('0'),
        |receipt| receipt.kernel_refresh_exit_code = Some(0),
        |receipt| receipt.kernel_refresh_stdout_sha256 = Some(String::new()),
        |receipt| receipt.kernel_refresh_stdout_truncated = Some(false),
        |receipt| receipt.mutation_may_have_started = false,
    ];
    for change in changes {
        let mut changed = receipt.clone();
        change(&mut changed);
        assert!(!changed.integrity_matches().unwrap());
    }
}

#[test]
fn an_argument_moved_into_its_neighbour_changes_the_launch() {
    let authorization = sealed_authorization(&sealed_start());
    let mut launch = sealed_launch(&authorization, false);
    assert!(launch.integrity_matches().unwrap());
    let first = launch.primary.argv.remove(0);
    launch.primary.argv[0] = format!("{first}\",\"{}", launch.primary.argv[0]);
    assert!(!launch.integrity_matches().unwrap());
}

#[test]
fn failed_primary_requires_recovery() {
    let launch = result_launch(false);
    let permit = launch_permit(&launch);
    let sequence = PrivilegedDescriptorSequenceOutcome {
        primary: outcome(5),
        kernel_refresh: None,
    };
    let receipt = classify_privileged_process_outcome(&permit, &launch, &sequence).unwrap();
    assert_eq!(
        receipt.disposition,
        PrivilegedRuntimeDisposition::RecoveryRequired
    );
}

#[test]
fn missing_expected_refresh_requires_recovery() {
    let launch = result_launch(true);
    let permit = launch_permit(&launch);
    let sequence = PrivilegedDescriptorSequenceOutcome {
        primary: outcome(0),
        kernel_refresh: None,
    };
    let receipt = classify_privileged_process_outcome(&permit, &launch, &sequence).unwrap();
    assert_eq!(
        receipt.disposition,
        PrivilegedRuntimeDisposition::RecoveryRequired
    );
}

#[test]
fn successful_expected_refresh_requires_rediscovery() {
    let launch = result_launch(true);
    let permit = launch_permit(&launch);
    let sequence = PrivilegedDescriptorSequenceOutcome {
        primary: outcome(0),
        kernel_refresh: Some(outcome(0)),
    };
    let receipt = classify_privileged_process_outcome(&permit, &launch, &sequence).unwrap();
    assert_eq!(
        receipt.disposition,
        PrivilegedRuntimeDisposition::RediscoveryRequired
    );
}

#[test]
fn process_receipt_refusals_name_what_is_wrong() {
    let launch = result_launch(false);
    let good = PrivilegedDescriptorSequenceOutcome {
        primary: outcome(0),
        kernel_refresh: None,
    };
    let mut permit = launch_permit(&launch);
    permit.mutation_enabled = true;
    assert!(matches!(
        classify_privileged_process_outcome(&permit, &launch, &good),
        Err(PrivilegedProcessReceiptError::PermitIntegrityMismatch)
    ));
    let permit = launch_permit(&launch);
    let mut tampered = result_launch(false);
    tampered.stdin_len = 1;
    assert!(matches!(
        classify_privileged_process_outcome(&permit, &tampered, &good),
        Err(PrivilegedProcessReceiptError::LaunchIntegrityMismatch)
    ));
    assert!(matches!(
        classify_privileged_process_outcome(&permit, &result_launch(true), &good),
        Err(PrivilegedProcessReceiptError::BindingMismatch)
    ));
    let surplus = PrivilegedDescriptorSequenceOutcome {
        primary: outcome(0),
        kernel_refresh: Some(outcome(0)),
    };
    assert!(matches!(
        classify_privileged_process_outcome(&permit, &launch, &surplus),
        Err(PrivilegedProcessReceiptError::KernelRefreshOutcomeMismatch)
    ));
}

fn tool(program: PrivilegedProgram, seed: u64) -> TrustedToolIdentity {
    TrustedToolIdentity {
        program,
        requested_path: format!("/usr/sbin/{}", program.as_str()),
        canonical_path: format!("/usr/sbin/{}", program.as_str()),
        device_id: 1,
        inode: seed,
        uid: 0,
        mode: 0o100755,
        size_bytes: 4096,
        sha256: format!("{seed:064x}"),
    }
}

fn lvextend() -> PrivilegedCommandSpec {
    PrivilegedCommandSpec {
        plan_step_id: 7,
        program: PrivilegedProgram::Lvextend,
        args: vec![
            "--extents".into(),
            "+8".into(),
            "--".into(),
            "/dev/vg/data".into(),
        ],
        stdin_payload: None,
        kernel_refresh: None,
    }
}

fn sfdisk() -> PrivilegedCommandSpec {
    PrivilegedCommandSpec {
        plan_step_id: 1,
        program: PrivilegedProgram::Sfdisk,
        args: vec!["-N".into(), "1".into(), "/dev/sda".into()],
        stdin_payload: Some("start=2048, size=4096\n".into()),
        kernel_refresh: Some(PrivilegedKernelRefreshSpec {
            program: PrivilegedProgram::Partx,
            args: vec![
                "--update".into(),
                "--nr".into(),
                "1".into(),
                "/dev/sda".into(),
            ],
        }),
    }
}

#[test]
fn rejects_tool_resolution_for_a_different_command() {
    let command = lvextend();
    let tools = PrivilegedToolResolution {
        command_digest: digest('0'),
        primary: tool(PrivilegedProgram::Lvextend, 1),
        kernel_refresh: None,
    };

    let digest = command.digest().unwrap();
    assert_ne!(tools.command_digest, digest);

    let validated = one_step(grow_lv());
    let request = request_for(&validated, &one_step_execution(&validated), 3).unwrap();
    let command = compile_privileged_helper_command(&request, &host_identity()).unwrap();
    assert!(matches!(
        prepare_privileged_invocation(&request, &host_identity(), &command, &tools),
        Err(PreparedInvocationError::ToolCommandDigestMismatch)
    ));
}

#[test]
fn prepared_invocation_digest_is_stable_and_tamper_evident() {
    let mut prepared = PreparedPrivilegedInvocation {
        schema_version: 1,
        prepared_id: String::new(),
        request_id: digest('a'),
        execution_id: digest('b'),
        plan_step_id: 3,
        live_identity_digest: digest('c'),
        command_digest: digest('d'),
        tool_resolution_digest: digest('e'),
    };
    prepared.prepared_id = prepared.expected_prepared_id().unwrap();
    assert!(prepared.integrity_matches().unwrap());

    prepared.command_digest = digest('f');
    assert!(!prepared.integrity_matches().unwrap());
}

#[test]
fn refresh_presence_must_be_exact() {
    let command = sfdisk();
    let tools = PrivilegedToolResolution {
        command_digest: command.digest().unwrap(),
        primary: tool(PrivilegedProgram::Sfdisk, 1),
        kernel_refresh: None,
    };
    assert!(matches!(
        (&command.kernel_refresh, &tools.kernel_refresh),
        (Some(_), None)
    ));

    let validated = one_step(grow_partition());
    let request = request_for(&validated, &one_step_execution(&validated), 3).unwrap();
    let command = compile_privileged_helper_command(&request, &host_identity()).unwrap();
    let tools = PrivilegedToolResolution {
        command_digest: command.digest().unwrap(),
        primary: tool(PrivilegedProgram::Sfdisk, 1),
        kernel_refresh: None,
    };
    assert!(matches!(
        prepare_privileged_invocation(&request, &host_identity(), &command, &tools),
        Err(PreparedInvocationError::KernelRefreshPresenceMismatch)
    ));
    let tools = PrivilegedToolResolution {
        kernel_refresh: Some(tool(PrivilegedProgram::Lvextend, 2)),
        ..tools
    };
    assert!(matches!(
        prepare_privileged_invocation(&request, &host_identity(), &command, &tools),
        Err(PreparedInvocationError::KernelRefreshProgramMismatch)
    ));
    let tools = PrivilegedToolResolution {
        primary: tool(PrivilegedProgram::Partx, 1),
        ..tools
    };
    assert!(matches!(
        prepare_privileged_invocation(&request, &host_identity(), &command, &tools),
        Err(PreparedInvocationError::PrimaryProgramMismatch)
    ));
}

#[test]
fn an_exact_invocation_is_prepared() {
    let validated = one_step(grow_partition());
    let request = request_for(&validated, &one_step_execution(&validated), 3).unwrap();
    let mut command = compile_privileged_helper_command(&request, &host_identity()).unwrap();
    let tools = PrivilegedToolResolution {
        command_digest: command.digest().unwrap(),
        primary: tool(PrivilegedProgram::Sfdisk, 1),
        kernel_refresh: Some(tool(PrivilegedProgram::Partx, 2)),
    };
    let prepared =
        prepare_privileged_invocation(&request, &host_identity(), &command, &tools).unwrap();
    assert!(prepared.integrity_matches().unwrap());
    assert_eq!(prepared.request_id, request.request_id);
    assert_eq!(prepared.live_identity_digest, digest('b'));
    assert_eq!(prepared.tool_resolution_digest, tools.digest().unwrap());

    command.plan_step_id = 4;
    assert!(matches!(
        prepare_privileged_invocation(&request, &host_identity(), &command, &tools),
        Err(PreparedInvocationError::CommandStepMismatch)
    ));
}

fn prepared_command(
    command: &PrivilegedCommandSpec,
    tools: &PrivilegedToolResolution,
) -> PreparedPrivilegedInvocation {
    let mut prepared = PreparedPrivilegedInvocation {
        schema_version: 1,
        prepared_id: String::new(),
        request_id: digest('a'),
        execution_id: digest('b'),
        plan_step_id: command.plan_step_id,
        live_identity_digest: digest('c'),
        command_digest: command.digest().unwrap(),
        tool_resolution_digest: tools.digest().unwrap(),
    };
    prepared.prepared_id = serialized_digest(&(
        prepared.schema_version,
        &prepared.request_id,
        &prepared.execution_id,
        prepared.plan_step_id,
        &prepared.live_identity_digest,
        &prepared.command_digest,
        &prepared.tool_resolution_digest,
    ));
    prepared
}

fn start_of(prepared: &PreparedPrivilegedInvocation) -> PrivilegedExecutionStartReceipt {
    let mut start = PrivilegedExecutionStartReceipt {
        schema_version: 1,
        receipt_id: String::new(),
        execution_id: prepared.execution_id.clone(),
        prepared_id: prepared.prepared_id.clone(),
        journal_id: digest('d'),
        first_plan_step_id: prepared.plan_step_id,
        executing_journal_digest: digest('e'),
    };
    start.receipt_id = start.expected_receipt_id().unwrap();
    start
}

fn resolution(command: &PrivilegedCommandSpec, seed: u64) -> PrivilegedToolResolution {
    PrivilegedToolResolution {
        command_digest: command.digest().unwrap(),
        primary: tool(command.program, seed),
        kernel_refresh: None,
    }
}

#[test]
fn exact_prepared_tools_authorize_without_spawning() {
    let command = lvextend();
    let tools = resolution(&command, 1);
    let prepared = prepared_command(&command, &tools);
    let start = start_of(&prepared);

    let authorization = authorize_with_resolution(&start, &prepared, &command, &tools).unwrap();
    assert!(authorization.integrity_matches().unwrap());
    assert_eq!(authorization.plan_step_id, 7);
    assert_eq!(authorization.command_digest, prepared.command_digest);
}

#[test]
fn executable_provenance_drift_fails_closed() {
    let command = lvextend();
    let prepared = prepared_command(&command, &resolution(&command, 1));
    let start = start_of(&prepared);

    assert!(matches!(
        authorize_with_resolution(&start, &prepared, &command, &resolution(&command, 2)),
        Err(PrivilegedSpawnAuthorizationError::ToolProvenanceDrift)
    ));
}

#[test]
fn command_drift_fails_closed() {
    let command = lvextend();
    let tools = resolution(&command, 1);
    let prepared = prepared_command(&command, &tools);
    let start = start_of(&prepared);
    let mut changed = command.clone();
    changed.args[1] = "+9".into();

    assert!(matches!(
        authorize_with_resolution(&start, &prepared, &changed, &tools),
        Err(PrivilegedSpawnAuthorizationError::CommandMismatch)
    ));
}

#[test]
fn execution_start_receipt_is_tamper_evident() {
    let mut receipt = PrivilegedExecutionStartReceipt {
        schema_version: 1,
        receipt_id: String::new(),
        execution_id: digest('a'),
        prepared_id: digest('b'),
        journal_id: digest('c'),
        first_plan_step_id: 7,
        executing_journal_digest: digest('d'),
    };
    receipt.receipt_id = receipt.expected_receipt_id().unwrap();
    assert!(receipt.integrity_matches().unwrap());

    receipt.first_plan_step_id = 8;
    assert!(!receipt.integrity_matches().unwrap());
}

#[test]
fn request_must_start_with_first_execution_step() {
    let execution = execution(&two_steps());
    let mut request = durable_request(&journal(&execution), &identity(digest('b'), 256), 3).unwrap();
    request.plan_step_id = 4;
    assert_ne!(
        request.plan_step_id,
        execution.mutation_step_ids.first().copied().unwrap()
    );
}

fn secure() -> Option<DirectoryStatus> {
    Some(DirectoryStatus {
        symlink: false,
        directory: true,
        owner: 0,
        mode: 0o755,
    })
}

fn candidate(path: &str, owner: u32) -> CandidateProbe {
    CandidateProbe {
        link: Ok(LinkStatus {
            symlink: false,
            owner,
        }),
        canonical_path: Ok(Some(path.into())),
        canonical: Ok(FileStatus {
            symlink: false,
            regular: true,
            device: 1,
            inode: 42,
            owner,
            mode: 0o100755,
            size: 3,
        }),
        directories: vec![secure(), secure()],
        canonical_directories: Some(vec![secure(), secure()]),
        content: Ok(b"abc".to_vec()),
    }
}

fn only(index: usize, state: CandidateState) -> CandidateStates {
    let mut states = [
        CandidateState::Absent,
        CandidateState::Absent,
        CandidateState::Absent,
        CandidateState::Absent,
    ];
    states[index] = state;
    states
}

#[test]
fn rejects_user_controlled_executable_even_with_expected_name() {
    assert!(inspect_candidate(
        PrivilegedProgram::Lvextend,
        "/tmp/root/lvextend",
        &candidate("/tmp/root/lvextend", 1000)
    )
    .unwrap()
    .is_none());
}

#[test]
fn privileged_program_names_are_fixed_and_shell_free() {
    assert_eq!(PrivilegedProgram::Sfdisk.as_str(), "sfdisk");
    assert_eq!(PrivilegedProgram::Partx.as_str(), "partx");
    assert_eq!(PrivilegedProgram::Pvresize.as_str(), "pvresize");
    assert_eq!(PrivilegedProgram::Lvextend.as_str(), "lvextend");
    assert_eq!(PrivilegedProgram::Resize2fs.as_str(), "resize2fs");
    assert_eq!(PrivilegedProgram::XfsGrowfs.as_str(), "xfs_growfs");
}

#[test]
fn a_trusted_tool_is_resolved_once() {
    let path = trusted_tool_candidate(PrivilegedProgram::Lvextend, 0);
    assert_eq!(path, "/usr/sbin/lvextend");
    assert_eq!(TRUSTED_TOOL_DIRECTORY_COUNT, 4);
    let found = resolve_trusted_privileged_tool(
        PrivilegedProgram::Lvextend,
        &only(0, CandidateState::Present(candidate(&path, 0))),
    )
    .unwrap();
    assert_eq!(found.canonical_path, path);
    assert_eq!(found.inode, 42);
    assert_eq!(
        found.sha256,
        "ba7816bf8f01cfea414140de5dae2223b00361a396177a9cb410ff61f20015ad"
    );

    assert!(matches!(
        resolve_trusted_privileged_tool(
            PrivilegedProgram::Lvextend,
            &only(0, CandidateState::Absent)
        ),
        Err(TrustedToolError::NotFound(PrivilegedProgram::Lvextend))
    ));
    assert!(matches!(
        resolve_trusted_privileged_tool(
            PrivilegedProgram::Lvextend,
            &only(0, CandidateState::Present(candidate(&path, 1000)))
        ),
        Err(TrustedToolError::UnsafeCandidate(unsafe_path)) if unsafe_path == path
    ));
    assert!(matches!(
        resolve_trusted_privileged_tool(
            PrivilegedProgram::Lvextend,
            &only(1, CandidateState::Unreadable("denied".into()))
        ),
        Err(TrustedToolError::Io(reason)) if reason == "denied"
    ));
    let other = trusted_tool_candidate(PrivilegedProgram::Lvextend, 1);
    let mut twice = only(0, CandidateState::Present(candidate(&path, 0)));
    let mut second = candidate(&other, 0);
    second.canonical = Ok(FileStatus {
        symlink: false,
        regular: true,
        device: 1,
        inode: 43,
        owner: 0,
        mode: 0o100755,
        size: 3,
    });
    twice[1] = CandidateState::Present(second);
    assert!(matches!(
        resolve_trusted_privileged_tool(PrivilegedProgram::Lvextend, &twice),
        Err(TrustedToolError::Ambiguous(PrivilegedProgram::Lvextend))
    ));
    let mut unnamed = candidate(&path, 0);
    unnamed.canonical_path = Ok(None);
    assert!(matches!(
        resolve_trusted_privileged_tool(
            PrivilegedProgram::Lvextend,
            &only(0, CandidateState::Present(unnamed))
        ),
        Err(TrustedToolError::NonUtf8Path)
    ));
}

#[test]
fn an_unchanged_host_is_authorized_pinned_and_launched_up_to_the_last_step() {
    let command = lvextend();
    let primary = only(
        0,
        CandidateState::Present(candidate("/usr/sbin/lvextend", 0)),
    );
    let none = only(0, CandidateState::Absent);
    let tools = resolve_privileged_command_tools(&command, &primary, &none).unwrap();
    let prepared = prepared_command(&command, &tools);
    let start = start_of(&prepared);
    let authorization =
        authorize_privileged_spawn(&start, &prepared, &command, &primary, &none).unwrap();

    let opened = || OpenedTool {
        regular: true,
        device: 1,
        inode: 42,
        owner: 0,
        mode: 0o100755,
        size: 3,
        content: b"abc".to_vec(),
    };
    let absent = Err("no refresh".to_owned());
    let pinned =
        pin_privileged_tools_for_spawn(&authorization, &command, &tools, &Ok(opened()), &absent)
            .unwrap();
    assert!(pinned.integrity_matches().unwrap());

    let mut header = b"\x7fELF\x02\x01\x01".to_vec();
    header.resize(16, 0);
    let probe = DescriptorProbe {
        open: true,
        header: Ok(header),
    };
    let launch =
        build_privileged_descriptor_launch_spec(&pinned, &command, &probe, &None).unwrap();
    assert!(launch.integrity_matches().unwrap());
    assert_eq!(
        launch.primary.argv,
        ["lvextend", "--extents", "+8", "--", "/dev/vg/data"]
    );
    assert_eq!(
        launch_environment(&launch),
        ["PATH=/usr/sbin:/usr/bin:/sbin:/bin", "LC_ALL=C"]
    );
    assert!(stdin_matches_launch(&command, &launch));

    let permit = seal_privileged_launch_permit(&start, &authorization, &launch).unwrap();
    assert_eq!(
        execute_privileged_descriptor_launch(&permit, &launch, &pinned, &command),
        Err(PrivilegedDescriptorExecError::ProductionMutationDisabled)
    );

    let mut changed = command.clone();
    changed.stdin_payload = Some("surplus".into());
    assert_eq!(
        execute_privileged_descriptor_launch(&permit, &launch, &pinned, &changed),
        Err(PrivilegedDescriptorExecError::BindingMismatch)
    );
    let mut forged = launch_permit(&launch);
    forged.process_spawned = true;
    assert_eq!(
        execute_privileged_descriptor_launch(&forged, &launch, &pinned, &command),
        Err(PrivilegedDescriptorExecError::PermitIntegrityMismatch)
    );
    let mut broken = PinnedPrivilegedTools {
        schema_version: pinned.schema_version,
        pin_id: pinned.pin_id.clone(),
        authorization_id: pinned.authorization_id.clone(),
        plan_step_id: pinned.plan_step_id,
        command_digest: pinned.command_digest.clone(),
        tool_resolution_digest: pinned.tool_resolution_digest.clone(),
        primary: pinned.primary.clone(),
        kernel_refresh: None,
    };
    broken.plan_step_id = 8;
    assert_eq!(
        execute_privileged_descriptor_launch(&permit, &launch, &broken, &command),
        Err(PrivilegedDescriptorExecError::PinIntegrityMismatch)
    );

    let closed = DescriptorProbe {
        open: false,
        header: Ok(vec![]),
    };
    assert!(matches!(
        build_privileged_descriptor_launch_spec(&pinned, &command, &closed, &None),
        Err(PrivilegedLaunchSpecError::PinnedDescriptorClosed)
    ));
}

fn opened(content: &[u8], inode: u64) -> OpenedTool {
    OpenedTool {
        regular: true,
        device: 1,
        inode,
        owner: 0,
        mode: 0o100755,
        size: content.len() as u64,
        content: content.to_vec(),
    }
}

fn identity_for(content: &[u8], inode: u64) -> TrustedToolIdentity {
    TrustedToolIdentity {
        program: PrivilegedProgram::Lvextend,
        requested_path: "/tmp/lvextend".into(),
        canonical_path: "/tmp/lvextend".into(),
        device_id: 1,
        inode,
        uid: 0,
        mode: 0o100755,
        size_bytes: content.len() as u64,
        sha256: format!("{:x}", Sha256::digest(content)),
    }
}

#[test]
fn opened_file_remains_bound_after_path_replacement() {
    let expected = identity_for(b"verified-executable-v1", 5);

    let receipt = receipt_from_open_file(&opened(b"verified-executable-v1", 5), &expected).unwrap();
    assert_eq!(receipt.inode, expected.inode);
    assert_eq!(receipt.sha256, expected.sha256);

    assert!(matches!(
        receipt_from_open_file(&opened(b"untrusted-executable-v2", 6), &expected),
        Err(PrivilegedToolPinError::PinnedExecutableMismatch)
    ));
}

#[test]
fn opened_file_digest_mismatch_fails_closed() {
    let mut expected = identity_for(b"verified-executable", 5);
    expected.sha256 = digest('0');

    assert!(matches!(
        receipt_from_open_file(&opened(b"verified-executable", 5), &expected),
        Err(PrivilegedToolPinError::PinnedExecutableMismatch)
    ));
}

#[test]
fn current_test_binary_is_recognized_as_native_elf() {
    let elf = inspect_elf(b"\x7fELF\x02\x01\x01\x00\x00\x00\x00\x00\x00\x00\x00\x00")
        .unwrap();
    assert_eq!(elf.version, 1);
    assert!(matches!(elf.class, ElfClass::Elf32 | ElfClass::Elf64));
}

#[test]
fn script_is_rejected_from_descriptor_launch_contract() {
    assert!(matches!(
        inspect_elf(b"#!/bin/sh\nexit 0\n"),
        Err(PrivilegedLaunchSpecError::UnsupportedExecutableFormat)
    ));
}

#[test]
fn embedded_nul_is_rejected_before_future_exec() {
    assert!(matches!(
        validate_text("safe\0unsafe"),
        Err(PrivilegedLaunchSpecError::EmbeddedNul)
    ));
}

#[test]
fn descriptor_exec_rejects_argv_program_mismatch_before_fork() {
    let environment = vec![
        "PATH=/usr/sbin:/usr/bin:/sbin:/bin".to_owned(),
        "LC_ALL=C".to_owned(),
    ];
    assert!(matches!(
        check_descriptor_stage(
            PrivilegedProgram::Lvextend,
            &vec!["resize2fs".into()],
            &environment
        ),
        Err(PrivilegedDescriptorExecError::BindingMismatch)
    ));
    assert!(matches!(
        check_descriptor_stage(
            PrivilegedProgram::Lvextend,
            &vec!["lvextend".into(), "a\0b".into()],
            &environment
        ),
        Err(PrivilegedDescriptorExecError::EmbeddedNul)
    ));
    assert!(check_descriptor_stage(
        PrivilegedProgram::Lvextend,
        &vec!["lvextend".into()],
        &environment
    )
    .is_ok());
}

fn captured(bytes: &[u8]) -> CapturedOutput {
    let mut output = CapturedOutput::new();
    output.append(bytes);
    output
}

#[test]
fn descriptor_exec_observes_child_exit_status() {
    let outcome = conclude_descriptor_stage(1 << 8, captured(b""), captured(b"")).unwrap();
    assert_eq!(outcome.exit_code, 1);
    let outcome = conclude_descriptor_stage(0, captured(b"out"), captured(b"err")).unwrap();
    assert_eq!(outcome.exit_code, 0);
    assert_eq!(outcome.stdout, b"out");
    assert_eq!(outcome.stderr, b"err");
    assert_eq!(
        conclude_descriptor_stage(9, captured(b""), captured(b"")),
        Err(PrivilegedDescriptorExecError::ChildSignaled)
    );
}

#[test]
fn output_is_cut_off_at_the_limit() {
    let mut output = CapturedOutput::new();
    output.append(&vec![b'x'; OUTPUT_CAPTURE_LIMIT - 1]);
    output.append(b"y");
    assert_eq!(output.bytes.len(), OUTPUT_CAPTURE_LIMIT);
    assert!(!output.truncated);
    output.append(b"z");
    assert_eq!(output.bytes.len(), OUTPUT_CAPTURE_LIMIT);
    assert!(output.truncated);
    assert_eq!(output.bytes.last(), Some(&b'y'));
    let whole = captured(&[vec![b'x'; OUTPUT_CAPTURE_LIMIT - 1], b"yz".to_vec()].concat());
    assert_eq!(whole, output);
}

#[test]
fn a_refresh_follows_only_a_successful_primary() {
    let with = result_launch(true);
    let without = result_launch(false);
    assert_eq!(refresh_follows(0, true, &with), Ok(true));
    assert_eq!(refresh_follows(1, true, &with), Ok(false));
    assert_eq!(refresh_follows(0, false, &without), Ok(false));
    assert_eq!(
        refresh_follows(0, true, &without),
        Err(PrivilegedDescriptorExecError::KernelRefreshBindingMismatch)
    );
}

#[test]
fn exact_lv_size_transition_is_required() {
    let before = identity(digest('a'), 256);
    let fresh = identity(digest('b'), 512);

    assert!(verify_lvm_size(
        LvmIdentityKind::LogicalVolume,
        "lv-uuid",
        512,
        &before,
        &fresh
    ));
    assert!(!verify_lvm_size(
        LvmIdentityKind::LogicalVolume,
        "lv-uuid",
        513,
        &before,
        &fresh
    ));
}

#[test]
fn partition_start_and_identity_must_remain_stable() {
    let mut before = identity(digest('a'), 256);
    before.partitions = vec![PartitionGeometryIdentity {
        partition: "/dev/sda1".into(),
        disk: Some("/dev/sda".into()),
        table_label: Some("gpt".into()),
        table_id: Some("table".into()),
        sector_size_bytes: Some(512),
        start_sector: Some(2048),
        size_sectors: Some(1024),
        record_uuid: Some("part-uuid".into()),
    }];
    let mut fresh = before.clone();
    fresh.partitions[0].size_sectors = Some(2048);

    assert!(verify_partition("/dev/sda1", 2048, 2048, &before, &fresh));
    fresh.partitions[0].start_sector = Some(4096);
    assert!(!verify_partition("/dev/sda1", 2048, 2048, &before, &fresh));
}

#[test]
fn a_verified_layer_is_recorded() {
    let journal = journal(&execution(&two_steps()));
    let before = identity(digest('b'), 256);
    let request = durable_request(&journal, &before, 3).unwrap();
    let done = process(&request, PrivilegedRuntimeDisposition::RediscoveryRequired);
    let fresh = identity(digest('f'), 512);

    let receipt = verify_privileged_layer_post_state(&request, &done, &before, &fresh).unwrap();
    assert!(receipt.integrity_matches().unwrap());
    assert_eq!(receipt.verified_operation, "extend_logical_volume");
    assert_eq!(
        classify_privileged_durable_transition(&journal, &request, &done, &Some(receipt)).unwrap(),
        PrivilegedDurableDisposition::Continue { next_step_id: 4 }
    );

    assert!(matches!(
        verify_privileged_layer_post_state(&request, &done, &before, &identity(digest('f'), 511)),
        Err(PrivilegedLayerVerificationError::LogicalVolumeStateMismatch)
    ));
    let failed = process(&request, PrivilegedRuntimeDisposition::RecoveryRequired);
    assert!(matches!(
        verify_privileged_layer_post_state(&request, &failed, &before, &fresh),
        Err(PrivilegedLayerVerificationError::RecoveryRequired)
    ));
    assert!(matches!(
        verify_privileged_layer_post_state(&request, &done, &identity(digest('c'), 256), &fresh),
        Err(PrivilegedLayerVerificationError::BeforeIdentityMismatch)
    ));
    let mut elsewhere = identity(digest('f'), 512);
    elsewhere.target = "/other".into();
    assert!(matches!(
        verify_privileged_layer_post_state(&request, &done, &before, &elsewhere),
        Err(PrivilegedLayerVerificationError::TargetIdentityMismatch)
    ));
}

fn arm_permit(request: &PrivilegedHelperRequest) -> PrivilegedLaunchPermit {
    let mut permit = PrivilegedLaunchPermit {
        schema_version: 1,
        permit_id: String::new(),
        execution_id: request.execution_id.clone(),
        execution_start_receipt_id: digest('5'),
        authorization_id: digest('6'),
        launch_id: digest('7'),
        plan_step_id: request.plan_step_id,
        command_digest: digest('8'),
        mutation_enabled: false,
        process_spawned: false,
    };
    permit.permit_id = serialized_digest(&(
        permit.schema_version,
        &permit.execution_id,
        &permit.execution_start_receipt_id,
        &permit.authorization_id,
        &permit.launch_id,
        permit.plan_step_id,
        &permit.command_digest,
        permit.mutation_enabled,
        permit.process_spawned,
    ));
    permit
}

#[test]
fn feature_gate_is_checked_before_any_destructive_arm() {
    let journal = journal(&execution(&two_steps()));
    let request = durable_request(&journal, &identity(digest('b'), 256), 3).unwrap();

    assert!(matches!(
        build_production_mutation_arm(
            &journal,
            &request,
            &arm_permit(&request),
            PRODUCTION_MUTATION_ARM_CONFIRMATION,
            0,
            PRODUCTION_MUTATION_COMPILED,
            b"{}",
        ),
        Err(ProductionMutationArmError::FeatureDisabled)
    ));
}

#[test]
fn arm_requires_root_and_exact_confirmation() {
    let journal = journal(&execution(&two_steps()));
    let request = durable_request(&journal, &identity(digest('b'), 256), 3).unwrap();
    let permit = arm_permit(&request);

    assert!(matches!(
        build_production_mutation_arm(
            &journal,
            &request,
            &permit,
            PRODUCTION_MUTATION_ARM_CONFIRMATION,
            1000,
            true,
            b"{}",
        ),
        Err(ProductionMutationArmError::RootRequired)
    ));
    assert!(matches!(
        build_production_mutation_arm(&journal, &request, &permit, "yes", 0, true, b"{}"),
        Err(ProductionMutationArmError::ConfirmationMismatch)
    ));
}

#[test]
fn exact_first_step_can_be_armed_once_all_gates_match() {
    let journal = journal(&execution(&two_steps()));
    let request = durable_request(&journal, &identity(digest('b'), 256), 3).unwrap();
    let permit = arm_permit(&request);

    let arm = build_production_mutation_arm(
        &journal,
        &request,
        &permit,
        PRODUCTION_MUTATION_ARM_CONFIRMATION,
        0,
        true,
        b"{}",
    )
    .unwrap();
    assert!(arm.integrity_matches().unwrap());
    assert_eq!(arm.request_id, request.request_id);
    assert_eq!(arm.permit_id, permit.permit_id);
    assert_eq!(arm.target_identity_digest, digest('b'));
}

#[test]
fn continuation_arm_consumes_only_the_latest_verified_identity() {
    let journal = continuation_journal(&execution(&two_steps()));
    let request = durable_request(&journal, &identity(digest('f'), 512), 4).unwrap();

    let arm = build_production_mutation_arm(
        &journal,
        &request,
        &arm_permit(&request),
        PRODUCTION_MUTATION_ARM_CONFIRMATION,
        0,
        true,
        b"{}",
    )
    .unwrap();
    assert_eq!(arm.plan_step_id, 4);
    assert_eq!(arm.target_identity_digest, digest('f'));
}

#[test]
fn arm_is_tamper_evident() {
    let journal = journal(&execution(&two_steps()));
    let request = durable_request(&journal, &identity(digest('b'), 256), 3).unwrap();
    let permit = arm_permit(&request);
    let mut arm = build_production_mutation_arm(
        &journal,
        &request,
        &permit,
        PRODUCTION_MUTATION_ARM_CONFIRMATION,
        0,
        true,
        b"{}",
    )
    .unwrap();

    arm.plan_step_id = 4;
    assert!(!arm.integrity_matches().unwrap());
}

#[test]
fn arm_refusals_name_what_is_wrong() {
    let good = journal(&execution(&two_steps()));
    let request = durable_request(&good, &identity(digest('b'), 256), 3).unwrap();
    let refusal = |journal: &OperationJournal, permit: &PrivilegedLaunchPermit| {
        build_production_mutation_arm(
            journal,
            &request,
            permit,
            PRODUCTION_MUTATION_ARM_CONFIRMATION,
            0,
            true,
            b"{}",
        )
        .unwrap_err()
    };
    let mut idle = journal(&execution(&two_steps()));
    idle.phase = JournalPhase::Approved;
    assert!(matches!(
        refusal(&idle, &arm_permit(&request)),
        ProductionMutationArmError::JournalNotExecuting
    ));
    let mut forged = arm_permit(&request);
    forged.plan_step_id = 4;
    assert!(matches!(
        refusal(&good, &forged),
        ProductionMutationArmError::PermitIntegrityMismatch
    ));
    let mut foreign = arm_permit(&request);
    foreign.execution_id = digest('0');
    foreign.permit_id = foreign.expected_permit_id().unwrap();
    assert!(matches!(
        refusal(&good, &foreign),
        ProductionMutationArmError::BindingMismatch
    ));
}
