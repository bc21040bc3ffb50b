use storage_executor::backup_capture::{
    admit_artifact, admit_backup_directory, admit_new_artifact, capture_action,
    check_artifact_root, judge_capture, seal_backup_receipt, validate_binding,
    validate_requirement, verify_artifact, ArtifactStatus, BackupReceiptRevalidation,
    CaptureAction, MAX_BACKUP_ARTIFACT_BYTES,
};
use storage_executor::backup_manifest::{
    artifact_path, requirement_for_operation, BACKUP_DIRECTORY,
};
use storage_executor::digest::{fingerprint, fingerprint_text};
use storage_executor::disposable_exec::{LinkStatus, ToolFileProbe, ToolStatus};
use storage_executor::filesystem_health::{
    admit_health_check, receipt_matches_exact_check, seal_health_receipt, MountProbe,
};
use storage_executor::disposable_harness::HealthTool;
use storage_executor::harness_preparation::{
    check_backup_revalidation, check_revalidation, next_evidence_step, EvidenceStep,
};
use storage_executor::host_lock::{
    check_lock_parent, judge_lock_attempt, LockAttempt, ParentStatus, HOST_STORAGE_LOCK_PATH,
};
use storage_executor::locked_session::build_session_id;
use storage_executor::model::{
    BindingIntegrity, DeviceIdentity, ExecutionHandoffStatus, ExecutionStartBinding,
    FilesystemCheckKind, FilesystemDecisionState, FilesystemGrowthDecision, FilesystemIdentity,
    FrozenExecutionHandoff, FrozenPlan, IdentityChange, IdentityRevalidation, JournalEvent,
    JournalPhase, LayerRouteStatus, LvmIdentity, LvmIdentityKind, MountIdentity, NodeKind,
    Operation, OperationJournal, PartitionGeometryIdentity, PlanStep, ReadOnlyFilesystemCheck,
    Reversibility, TargetIdentityManifest, VerifiedMutationBoundaryBinding,
};
use storage_executor::native_operation::{
    validate_and_bind_native_manifest, ValidatedNativeManifest,
};
use storage_executor::privileged_start::{seal_execution_start, validate_start_binding};
use storage_executor::secure_directory::{directories_to_secure, PathStatus};
use storage_executor::{
    approve_exact_plan, build_metadata_backup_manifest, build_pre_mutation_evidence,
    build_pre_mutation_evidence_with_filesystem_health, build_privileged_helper_request,
    compile_native_manifest, freeze_execution_intent, revalidate_metadata_backup_receipt,
    verify_and_complete_disposable_execution, verify_and_continue_disposable_boundary,
    verify_preconditions, AcceptedApproval, BackupCaptureError, BackupExpectedIdentity,
    BackupManifestError, DisposableBoundaryVerificationError, DisposableVerifiedBoundary,
    DisposableVerifiedCompletion, ExactPlanApproval, ExactPlanApprovalError, ExecutionIntentError,
    ExecutionIntentManifestStatus, ExplicitFilesystemHealthError, ExplicitFilesystemHealthReceipt,
    FrozenIntentRole, HostLockError, LockedExecutionSession, LockedRevalidationStatus,
    LockedSessionError, MetadataBackupKind, PreMutationEvidenceBundle, PreMutationEvidenceError,
    PreMutationEvidenceStatus, PreconditionsVerification, PreconditionsVerificationError,
    PreparedPrivilegedInvocation, PrivilegedExecutionStartError,
};

const GIB: u64 = 1 << 30;
const EXTENT: u64 = 4 * 1024 * 1024;

fn digest(byte: char) -> String {
    std::iter::repeat_n(byte, 64).collect()
}

fn device(path: &str, kind: NodeKind, size_bytes: u64) -> DeviceIdentity {
    DeviceIdentity {
        kind,
        path: path.into(),
        kernel_name: Some(path.trim_start_matches("/dev/").into()),
        parent_kernel_name: None,
        size_bytes,
        start_512_sector: None,
        logical_sector_bytes: Some(512),
        uuid: None,
        partition_uuid: None,
        model: None,
        serial: None,
        filesystem_type: None,
    }
}

fn empty_identity() -> TargetIdentityManifest {
    TargetIdentityManifest {
        schema_version: 1,
        target: "/".into(),
        manifest_digest: digest('a'),
        resolved_device: "/dev/test".into(),
        route_status: LayerRouteStatus::SupportedProfile,
        route_issue_codes: vec![],
        devices: vec![device("/dev/test", NodeKind::Disk, GIB)],
        partitions: vec![],
        lvm: vec![],
        filesystem: None,
        mounts: vec![],
    }
}

fn lvm(kind: LvmIdentityKind, name: &str, uuid: &str, size_bytes: u64) -> LvmIdentity {
    LvmIdentity {
        kind,
        name: name.into(),
        uuid: Some(uuid.into()),
        size_bytes,
        free_bytes: None,
        pe_start_bytes: None,
        extent_size_bytes: None,
        free_extent_count: None,
        pv_count: None,
        lv_count: None,
        attributes: None,
        layout: None,
        role: None,
    }
}

fn step(id: u32, depends_on: Vec<u32>, operation: Operation) -> PlanStep {
    let reversibility = match operation {
        Operation::RevalidateSnapshot | Operation::RediscoverAndVerify => {
            Reversibility::NotApplicable
        }
        Operation::BackupLvmMetadata { .. } | Operation::BackupPartitionTableMetadata { .. } => {
            Reversibility::Reversible
        }
        _ => Reversibility::Irreversible,
    };
    PlanStep {
        id,
        depends_on,
        operation,
        reversibility,
    }
}

/// A root filesystem on a logical volume that grows by one gibibyte.
fn lvm_handoff() -> FrozenExecutionHandoff {
    let mut identity = empty_identity();
    identity.manifest_digest = digest('c');
    identity.resolved_device = "/dev/mapper/vg0-root".into();
    let mut group = lvm(LvmIdentityKind::VolumeGroup, "vg0", "vg-uuid-1", 16 * GIB);
    group.extent_size_bytes = Some(EXTENT);
    identity.lvm = vec![
        lvm(LvmIdentityKind::PhysicalVolume, "/dev/vda1", "pv-1", 16 * GIB),
        group,
        lvm(LvmIdentityKind::LogicalVolume, "root", "lv-1", 8 * GIB),
    ];
    identity.filesystem = Some(FilesystemIdentity {
        device: "/dev/mapper/vg0-root".into(),
        fs_type: "ext4".into(),
        fs_version: Some("1.0".into()),
        uuid: Some("fs-1".into()),
        backing_device_size_bytes: 8 * GIB,
        observed_filesystem_size_bytes: Some(8 * GIB),
    });
    identity.mounts = vec![MountIdentity {
        target: "/".into(),
        source: Some("/dev/vg0/root".into()),
        fs_type: Some("ext4".into()),
        options: vec!["rw".into(), "relatime".into()],
    }];
    FrozenExecutionHandoff {
        handoff_id: digest('9'),
        status: ExecutionHandoffStatus::Ready,
        mutation_enabled: false,
        owner_acceptance_required: true,
        plan: FrozenPlan {
            plan_id: digest('b'),
            target: "/".into(),
            steps: vec![
                step(1, vec![], Operation::RevalidateSnapshot),
                step(
                    2,
                    vec![1],
                    Operation::BackupLvmMetadata {
                        vg_uuid: "vg-uuid-1".into(),
                    },
                ),
                step(
                    3,
                    vec![2],
                    Operation::ExtendLogicalVolume {
                        lv_uuid: "lv-1".into(),
                        additional_extents: 256,
                        expected_lv_size_bytes: 9 * GIB,
                    },
                ),
                step(
                    4,
                    vec![3],
                    Operation::GrowFilesystem {
                        fs_type: "ext4".into(),
                        mountpoint: "/".into(),
                    },
                ),
                step(5, vec![4], Operation::RediscoverAndVerify),
            ],
        },
        target_identity: identity,
        filesystem_decision: clean_decision("/", "/dev/mapper/vg0-root"),
    }
}

/// A data filesystem on a partition that grows by one gibibyte.
fn partition_handoff() -> FrozenExecutionHandoff {
    let mut identity = empty_identity();
    identity.target = "/data".into();
    identity.manifest_digest = digest('d');
    identity.resolved_device = "/dev/sda1".into();
    identity.partitions = vec![PartitionGeometryIdentity {
        partition: "/dev/sda1".into(),
        disk: Some("/dev/sda".into()),
        table_label: Some("gpt".into()),
        table_id: Some("gpt-backup-capture".into()),
        sector_size_bytes: Some(512),
        start_sector: Some(2048),
        size_sectors: Some(10 * GIB / 512),
        record_uuid: Some("part-data".into()),
    }];
    identity.filesystem = Some(FilesystemIdentity {
        device: "/dev/sda1".into(),
        fs_type: "ext4".into(),
        fs_version: Some("1.0".into()),
        uuid: Some("fs-data".into()),
        backing_device_size_bytes: 10 * GIB,
        observed_filesystem_size_bytes: Some(10 * GIB),
    });
    identity.mounts = vec![MountIdentity {
        target: "/data".into(),
        source: Some("/dev/sda1".into()),
        fs_type: Some("ext4".into()),
        options: vec!["rw".into(), "relatime".into()],
    }];
    FrozenExecutionHandoff {
        handoff_id: digest('8'),
        plan: FrozenPlan {
            plan_id: digest('7'),
            target: "/data".into(),
            steps: vec![
                step(1, vec![], Operation::RevalidateSnapshot),
                step(
                    2,
                    vec![1],
                    Operation::BackupPartitionTableMetadata {
                        disk: "/dev/sda".into(),
                        table_label: "gpt".into(),
                        table_id: Some("gpt-backup-capture".into()),
                    },
                ),
                step(
                    3,
                    vec![2],
                    Operation::ExtendPartition {
                        partition: "/dev/sda1".into(),
                        start_sector: 2048,
                        old_size_sectors: 10 * GIB / 512,
                        new_size_sectors: 11 * GIB / 512,
                        sector_size_bytes: 512,
                    },
                ),
                step(
                    4,
                    vec![3],
                    Operation::GrowFilesystem {
                        fs_type: "ext4".into(),
                        mountpoint: "/data".into(),
                    },
                ),
            ],
        },
        target_identity: identity,
        filesystem_decision: clean_decision("/data", "/dev/sda1"),
        ..lvm_handoff()
    }
}

fn clean_decision(target: &str, device: &str) -> FilesystemGrowthDecision {
    FilesystemGrowthDecision {
        target: target.into(),
        device: Some(device.into()),
        mountpoint: Some(target.into()),
        fs_type: Some("ext4".into()),
        state: FilesystemDecisionState::ReadyOnlineGrow,
        metadata_state: Some("clean".into()),
        read_only_check: None,
        reasons: vec![],
        required_actions: vec![],
    }
}

fn dirty_decision(target: &str, device: &str) -> FilesystemGrowthDecision {
    FilesystemGrowthDecision {
        state: FilesystemDecisionState::OfflineHealthCheckRequired,
        mountpoint: None,
        metadata_state: Some("not clean".into()),
        read_only_check: Some(ReadOnlyFilesystemCheck {
            kind: FilesystemCheckKind::Ext4OfflineE2fsckNoModify,
            tool: "e2fsck".into(),
            args: vec!["-n".into(), "-f".into(), device.into()],
            requires_mounted: false,
            requires_unmounted: true,
            run_automatically_on_refresh: false,
        }),
        ..clean_decision(target, device)
    }
}

fn planned(handoff: &FrozenExecutionHandoff) -> OperationJournal {
    OperationJournal {
        schema_version: 1,
        journal_id: digest('1'),
        plan_id: handoff.plan.plan_id.clone(),
        target: handoff.plan.target.clone(),
        baseline_manifest_digest: handoff.target_identity.manifest_digest.clone(),
        phase: JournalPhase::Planned,
        mutation_may_have_started: false,
        approval: None,
        execution: None,
        verified_boundary: None,
        events: vec![],
    }
}

fn advanced(journal: &OperationJournal, to: JournalPhase, code: &str) -> OperationJournal {
    let mut next = journal.clone();
    next.events.push(JournalEvent {
        sequence: next.events.len() as u64 + 1,
        from: next.phase,
        to,
        code: code.into(),
    });
    next.phase = to;
    next
}

fn bytes_of(journal: &OperationJournal) -> Vec<u8> {
    format!("{journal:?}").into_bytes()
}

fn locked(handoff: &FrozenExecutionHandoff) -> OperationJournal {
    advanced(
        &planned(handoff),
        JournalPhase::HostLockHeld,
        "host-lock-acquired",
    )
}

fn begin(handoff: FrozenExecutionHandoff) -> LockedExecutionSession {
    let journal = locked(&handoff);
    LockedExecutionSession::begin(handoff, journal, 77, 1, HOST_STORAGE_LOCK_PATH).unwrap()
}

fn begin_durable(handoff: FrozenExecutionHandoff) -> LockedExecutionSession {
    let journal = locked(&handoff);
    let record = journal.clone();
    LockedExecutionSession::begin_durable(handoff, journal, record, 77, 1, HOST_STORAGE_LOCK_PATH)
        .unwrap()
}

fn unchanged(handoff: &FrozenExecutionHandoff) -> IdentityRevalidation {
    IdentityRevalidation {
        matches: true,
        fresh_digest: Some(handoff.target_identity.manifest_digest.clone()),
        changes: vec![],
    }
}

fn changed() -> IdentityRevalidation {
    IdentityRevalidation {
        matches: false,
        fresh_digest: Some(digest('0')),
        changes: vec![IdentityChange {
            code: "device-chain-changed".into(),
            message: "device chain differs".into(),
        }],
    }
}

/// Revalidates and, where that succeeded, records the next journal state.
fn revalidate(
    session: &mut LockedExecutionSession,
    identity: IdentityRevalidation,
    capabilities_match: bool,
) -> LockedRevalidationStatus {
    let result = session.revalidate(identity, capabilities_match).unwrap();
    if result.status == LockedRevalidationStatus::Revalidated {
        let next = advanced(
            session.journal(),
            JournalPhase::IdentityRevalidated,
            "identity-revalidated",
        );
        let persisted = if session.durable_journal_enabled() {
            Some(next.clone())
        } else {
            None
        };
        session.record_revalidation(next, persisted).unwrap();
    }
    result.status
}

fn revalidated(handoff: FrozenExecutionHandoff) -> LockedExecutionSession {
    let mut session = begin(handoff);
    let identity = unchanged(session.handoff());
    assert_eq!(
        revalidate(&mut session, identity, true),
        LockedRevalidationStatus::Revalidated
    );
    session
}

fn revalidated_durable(handoff: FrozenExecutionHandoff) -> LockedExecutionSession {
    let mut session = begin_durable(handoff);
    let identity = unchanged(session.handoff());
    assert_eq!(
        revalidate(&mut session, identity, true),
        LockedRevalidationStatus::Revalidated
    );
    session
}

#[test]
fn unchanged_fresh_state_revalidates_while_lock_is_held() {
    let mut session = begin(lvm_handoff());
    assert_eq!(session.journal().phase, JournalPhase::HostLockHeld);

    let identity = unchanged(session.handoff());
    let result = session.revalidate(identity, true).unwrap();

    assert_eq!(result.status, LockedRevalidationStatus::Revalidated);
    assert!(result.identity.matches);
    assert!(result.capabilities_match);
    assert!(result.blockers.is_empty());
    assert_eq!(
        session.revalidated_digest(&result.identity),
        session.handoff().target_identity.manifest_digest
    );
    let next = advanced(
        session.journal(),
        JournalPhase::IdentityRevalidated,
        "identity-revalidated",
    );
    session.record_revalidation(next, None).unwrap();
    assert_eq!(session.journal().phase, JournalPhase::IdentityRevalidated);
    assert!(!session.mutation_enabled());
}

#[test]
fn target_change_fails_closed_without_advancing_journal() {
    let mut session = begin(lvm_handoff());
    let result = session.revalidate(changed(), true).unwrap();

    assert_eq!(result.status, LockedRevalidationStatus::Blocked);
    assert!(!result.identity.matches);
    assert_eq!(session.journal().phase, JournalPhase::HostLockHeld);
    assert!(result
        .blockers
        .iter()
        .any(|blocker| blocker.contains("device-chain-changed")));
    assert_eq!(
        result.blockers,
        ["device-chain-changed: device chain differs"]
    );
}

#[test]
fn capability_change_fails_closed_without_advancing_journal() {
    let mut session = begin(lvm_handoff());
    let identity = unchanged(session.handoff());
    let result = session.revalidate(identity, false).unwrap();

    assert_eq!(result.status, LockedRevalidationStatus::Blocked);
    assert!(result.identity.matches);
    assert!(!result.capabilities_match);
    assert_eq!(session.journal().phase, JournalPhase::HostLockHeld);
    assert!(result
        .blockers
        .iter()
        .any(|blocker| blocker.starts_with("capability-inventory-changed")));
}

#[test]
fn second_locked_session_is_busy_until_first_is_dropped() {
    assert_eq!(
        judge_lock_attempt("/run/lock/storage.lock", &Ok(true), &LockAttempt::WouldBlock),
        Err(HostLockError::Busy)
    );
    assert_eq!(
        judge_lock_attempt("/run/lock/storage.lock", &Ok(true), &LockAttempt::Acquired),
        Ok(())
    );
}

#[test]
fn final_symlink_is_rejected() {
    let path = "/run/lock/test/storage.lock";
    let refused = std::io::Error::from_raw_os_error(libc::ELOOP).to_string();
    let result = judge_lock_attempt(path, &Err(refused.clone()), &LockAttempt::WouldBlock);
    assert!(matches!(
        result,
        Err(HostLockError::Io { source, .. }) if source == refused
    ));
}

#[test]
fn symlink_parent_is_rejected() {
    let symlink_parent = "/run/lock/test/link";
    let result = check_lock_parent(
        "/run/lock/test/link/storage.lock",
        &Some(symlink_parent.to_owned()),
        &Ok(ParentStatus {
            symlink: true,
            directory: false,
        }),
    );
    assert!(matches!(result, Err(HostLockError::UnsafeParent(p)) if p == symlink_parent));
}

#[test]
fn lock_files_and_their_directories_have_to_be_plain() {
    let path = "/run/lock/storage.lock";
    assert_eq!(
        judge_lock_attempt(path, &Ok(false), &LockAttempt::Acquired),
        Err(HostLockError::NotRegularFile(path.into()))
    );
    assert_eq!(
        judge_lock_attempt(path, &Err("is a link".into()), &LockAttempt::Acquired),
        Err(HostLockError::Io {
            path: path.into(),
            source: "is a link".into()
        })
    );
    let parent = Some("/run/lock".to_owned());
    assert_eq!(
        check_lock_parent(
            path,
            &parent,
            &Ok(ParentStatus {
                symlink: true,
                directory: false
            })
        ),
        Err(HostLockError::UnsafeParent("/run/lock".into()))
    );
    assert_eq!(
        check_lock_parent(
            path,
            &parent,
            &Ok(ParentStatus {
                symlink: false,
                directory: true
            })
        ),
        Ok(())
    );
    assert_eq!(
        check_lock_parent("/", &None, &Err("none".into())),
        Err(HostLockError::UnsafeParent("/".into()))
    );
}

#[test]
fn one_session_cannot_retry_after_failed_revalidation() {
    let mut session = begin(lvm_handoff());
    let first = session.revalidate(changed(), true).unwrap();
    assert_eq!(first.status, LockedRevalidationStatus::Blocked);

    let identity = unchanged(session.handoff());
    let second = session.revalidate(identity, true);
    assert!(matches!(
        second,
        Err(LockedSessionError::RevalidationAlreadyAttempted)
    ));
}

#[test]
fn an_attempt_is_spent_where_the_host_could_not_be_compared() {
    let mut session = begin(lvm_handoff());
    assert_eq!(session.fail_revalidation(), Ok(()));
    assert_eq!(session.journal().phase, JournalPhase::HostLockHeld);
    let identity = unchanged(session.handoff());
    assert!(matches!(
        session.revalidate(identity, true),
        Err(LockedSessionError::RevalidationAlreadyAttempted)
    ));
    assert_eq!(
        session.fail_revalidation(),
        Err(LockedSessionError::RevalidationAlreadyAttempted)
    );
}

#[test]
fn a_revalidation_is_recorded_as_it_stands_in_the_store() {
    let mut session = begin_durable(lvm_handoff());
    let before = session.journal().clone();
    let next = advanced(
        &before,
        JournalPhase::IdentityRevalidated,
        "identity-revalidated",
    );
    let refused = Err(LockedSessionError::DurableJournalMismatch);
    assert_eq!(session.record_revalidation(next.clone(), None), refused);
    assert_eq!(
        session.record_revalidation(next.clone(), Some(before.clone())),
        refused
    );
    assert_eq!(
        session.record_revalidation(before.clone(), Some(before.clone())),
        refused
    );
    let mut foreign = next.clone();
    foreign.plan_id = digest('0');
    assert_eq!(
        session.record_revalidation(foreign.clone(), Some(foreign)),
        refused
    );
    assert_eq!(session.journal(), &before);

    assert_eq!(
        session.record_revalidation(next.clone(), Some(next.clone())),
        Ok(())
    );
    assert_eq!(session.journal(), &next);
    assert!(session.require_current_durable_journal().is_ok());
}

#[test]
fn durable_session_persists_lock_and_identity_revalidation() {
    let mut session = begin_durable(lvm_handoff());
    assert!(session.durable_journal_enabled());
    assert!(session.require_current_durable_journal().is_ok());
    assert_eq!(session.journal().phase, JournalPhase::HostLockHeld);
    assert_eq!(session.journal().events.len(), 1);

    let identity = unchanged(session.handoff());
    assert_eq!(
        revalidate(&mut session, identity, true),
        LockedRevalidationStatus::Revalidated
    );
    assert_eq!(session.journal().phase, JournalPhase::IdentityRevalidated);
    assert_eq!(session.journal().events.len(), 2);
    assert!(session.require_current_durable_journal().is_ok());
}

#[test]
fn blocked_revalidation_does_not_advance_durable_journal() {
    let mut session = begin_durable(lvm_handoff());
    assert_eq!(
        revalidate(&mut session, changed(), true),
        LockedRevalidationStatus::Blocked
    );
    assert_eq!(session.journal().phase, JournalPhase::HostLockHeld);
    assert_eq!(session.journal().events.len(), 1);
    assert!(session.require_current_durable_journal().is_ok());
}

#[test]
fn a_session_advances_only_from_a_current_record() {
    let mut session = begin(lvm_handoff());
    let next = advanced(session.journal(), JournalPhase::Aborted, "aborted");
    assert_eq!(
        session.advance_durable(next.clone(), next.clone()),
        Err(LockedSessionError::DurableJournalRequired)
    );
    let mut session = begin_durable(lvm_handoff());
    let refused = Err(LockedSessionError::DurableJournalMismatch);
    let before = session.journal().clone();
    // The store holds another journal, another plan, or a phase that does not follow.
    assert_eq!(session.advance_durable(next.clone(), before.clone()), refused);
    let mut foreign = next.clone();
    foreign.plan_id = digest('0');
    assert_eq!(session.advance_durable(foreign.clone(), foreign), refused);
    let early = advanced(&before, JournalPhase::Executing, "execution-started");
    assert_eq!(session.advance_durable(early.clone(), early), refused);
    assert_eq!(
        session.advance_durable_to(JournalPhase::Approved, next.clone(), next.clone()),
        refused
    );
    assert_eq!(session.journal(), &before);

    session.advance_durable(next.clone(), next.clone()).unwrap();
    assert_eq!(session.journal().phase, JournalPhase::Aborted);
    assert!(session.require_current_durable_journal().is_ok());
    session.reread_record(planned(&lvm_handoff()));
    assert_eq!(session.advance_durable(next.clone(), next), refused);
}

#[test]
fn sessions_begin_on_a_fresh_journal_of_their_handoff() {
    let handoff = lvm_handoff();
    let journal = locked(&handoff);
    for journal in [
        planned(&handoff),
        advanced(&journal, JournalPhase::IdentityRevalidated, "revalidated"),
        locked(&partition_handoff()),
    ] {
        assert!(matches!(
            LockedExecutionSession::begin(lvm_handoff(), journal, 1, 1, "/lock"),
            Err(LockedSessionError::DurableJournalMismatch)
        ));
    }
    assert!(matches!(
        LockedExecutionSession::begin_durable(
            lvm_handoff(),
            journal,
            planned(&handoff),
            1,
            1,
            "/lock"
        ),
        Err(LockedSessionError::DurableJournalMismatch)
    ));
}

#[test]
fn sessions_are_refused_for_unusable_handoffs() {
    let mut handoff = lvm_handoff();
    handoff.status = ExecutionHandoffStatus::Blocked;
    let journal = locked(&handoff);
    assert!(matches!(
        LockedExecutionSession::begin(handoff, journal, 1, 1, "/lock"),
        Err(LockedSessionError::HandoffBlocked)
    ));
    let mut handoff = lvm_handoff();
    handoff.mutation_enabled = true;
    let journal = locked(&handoff);
    assert!(matches!(
        LockedExecutionSession::begin(handoff, journal, 1, 1, "/lock"),
        Err(LockedSessionError::MutationEnabled)
    ));
}

#[test]
fn session_ids_tell_sessions_apart() {
    let session = begin(lvm_handoff());
    assert_eq!(
        session.session_id(),
        build_session_id(&digest('9'), 77, 1, HOST_STORAGE_LOCK_PATH)
    );
    assert_eq!(session.lock_path(), HOST_STORAGE_LOCK_PATH);
    assert_ne!(
        build_session_id(&digest('9'), 77, 1, "/lock"),
        build_session_id(&digest('9'), 77, 2, "/lock")
    );
    assert_ne!(
        build_session_id(&digest('9'), 77, 1, "/lock"),
        build_session_id(&digest('9'), 78, 1, "/lock")
    );
}

#[test]
fn partition_requirement_uses_exact_argv_and_identity() {
    let mut identity = empty_identity();
    identity.partitions.push(PartitionGeometryIdentity {
        partition: "/dev/vda1".to_owned(),
        disk: Some("/dev/vda".to_owned()),
        table_label: Some("gpt".to_owned()),
        table_id: Some("disk-guid".to_owned()),
        sector_size_bytes: Some(512),
        start_sector: Some(2048),
        size_sectors: Some(4096),
        record_uuid: Some("part-guid".to_owned()),
    });
    let operation = Operation::BackupPartitionTableMetadata {
        disk: "/dev/vda".to_owned(),
        table_label: "gpt".to_owned(),
        table_id: Some("disk-guid".to_owned()),
    };

    let requirement = requirement_for_operation(&identity, &operation, "/safe", 1)
        .unwrap()
        .unwrap();

    assert_eq!(requirement.kind, MetadataBackupKind::PartitionTable);
    assert_eq!(requirement.capture.program, "sfdisk");
    assert_eq!(
        requirement.capture.args,
        vec!["--dump".to_owned(), "/dev/vda".to_owned()]
    );
    assert_eq!(
        requirement.capture.stdout_path.as_deref(),
        Some("/safe/01-partition-table.sfdisk")
    );
    assert!(!requirement.capture.mutates_storage_metadata);
    assert_eq!(requirement.recovery.program, "sfdisk");
    assert_eq!(requirement.recovery.args, vec!["/dev/vda".to_owned()]);
    assert_eq!(
        requirement.recovery.stdin_path.as_deref(),
        Some("/safe/01-partition-table.sfdisk")
    );
    assert!(requirement.recovery.mutates_storage_metadata);
}

#[test]
fn lvm_requirement_resolves_vg_uuid_to_frozen_name() {
    let mut identity = empty_identity();
    let mut group = lvm(LvmIdentityKind::VolumeGroup, "vg0", "vg-uuid-1", 16 * GIB);
    group.free_bytes = Some(8 * GIB);
    group.extent_size_bytes = Some(EXTENT);
    group.free_extent_count = Some(2048);
    group.pv_count = Some(1);
    group.lv_count = Some(1);
    group.attributes = Some("wz--n-".to_owned());
    identity.lvm.push(group);
    let operation = Operation::BackupLvmMetadata {
        vg_uuid: "vg-uuid-1".to_owned(),
    };

    let requirement = requirement_for_operation(&identity, &operation, "/safe", 1)
        .unwrap()
        .unwrap();

    assert_eq!(requirement.kind, MetadataBackupKind::LvmVolumeGroup);
    assert_eq!(requirement.capture.program, "vgcfgbackup");
    assert_eq!(
        requirement.capture.args,
        vec![
            "--file".to_owned(),
            "/safe/01-lvm-vg.conf".to_owned(),
            "vg0".to_owned()
        ]
    );
    assert!(!requirement.capture.mutates_storage_metadata);
    assert_eq!(requirement.recovery.program, "vgcfgrestore");
    assert!(requirement.recovery.mutates_storage_metadata);
}

#[test]
fn manifest_is_repeatable_and_contains_only_required_lvm_backup() {
    let handoff = lvm_handoff();

    let first = build_metadata_backup_manifest(&handoff).unwrap();
    let second = build_metadata_backup_manifest(&handoff).unwrap();

    assert_eq!(first, second);
    assert_eq!(first.requirements().len(), 1);
    assert_eq!(
        first.requirements()[0].kind,
        MetadataBackupKind::LvmVolumeGroup
    );
    assert!(!first.mutation_enabled());
    assert!(first.owner_acceptance_required());
    assert_eq!(first.handoff_id(), handoff.handoff_id);
    assert_eq!(first.plan_id(), handoff.plan.plan_id);
    assert_eq!(
        first.target_manifest_digest(),
        handoff.target_identity.manifest_digest
    );
    assert_eq!(
        first.artifact_directory(),
        format!("{BACKUP_DIRECTORY}/{}", handoff.handoff_id)
    );
}

#[test]
fn artifacts_stand_directly_in_their_directory() {
    assert_eq!(artifact_path("/safe", 1, "x"), "/safe/01-x");
    assert_eq!(artifact_path("/safe/", 1, "x"), "/safe/01-x");
    assert_eq!(artifact_path("", 1, "x"), "01-x");
    assert_eq!(artifact_path("/safe", 10, "x"), "/safe/10-x");
    assert_eq!(artifact_path("/safe", 123, "x"), "/safe/123-x");

    let mut handoff = lvm_handoff();
    let other = Operation::BackupLvmMetadata {
        vg_uuid: "second-vg".into(),
    };
    handoff.target_identity.lvm.push(lvm(
        LvmIdentityKind::VolumeGroup,
        "vg1",
        "second-vg",
        GIB,
    ));
    handoff.plan.steps.insert(1, step(90, vec![], other.clone()));
    handoff.plan.steps.push(step(91, vec![], other));
    let manifest = build_metadata_backup_manifest(&handoff).unwrap();
    let requirements = manifest.requirements();
    assert_eq!(requirements.len(), 2);
    assert_eq!(
        requirements[0].expected_identity,
        BackupExpectedIdentity::LvmVolumeGroup {
            vg_name: "vg1".into(),
            vg_uuid: "second-vg".into()
        }
    );
    for (index, requirement) in requirements.iter().enumerate() {
        assert_eq!(requirement.ordinal as usize, index + 1);
        assert_eq!(
            requirement.artifact_path,
            format!("{}/0{}-lvm-vg.conf", manifest.artifact_directory(), index + 1)
        );
        assert!(!requirement.capture.mutates_storage_metadata);
        assert!(requirement.recovery.mutates_storage_metadata);
    }
    assert!(!manifest.mutation_enabled());
    let again = build_metadata_backup_manifest(&handoff).unwrap();
    assert_eq!(again.manifest_id(), manifest.manifest_id());
    assert_eq!(again.requirements(), requirements);
}

#[test]
fn blocked_handoff_cannot_produce_backup_manifest() {
    let mut handoff = lvm_handoff();
    handoff.status = ExecutionHandoffStatus::Blocked;

    let result = build_metadata_backup_manifest(&handoff);
    assert!(matches!(result, Err(BackupManifestError::HandoffBlocked)));
}

#[test]
fn backup_manifest_refusals_name_what_is_wrong() {
    let refusal = |change: &dyn Fn(&mut FrozenExecutionHandoff)| {
        let mut handoff = lvm_handoff();
        change(&mut handoff);
        build_metadata_backup_manifest(&handoff).unwrap_err()
    };
    assert!(matches!(
        refusal(&|h| h.mutation_enabled = true),
        BackupManifestError::MutationEnabled
    ));
    assert!(matches!(
        refusal(&|h| h.owner_acceptance_required = false),
        BackupManifestError::OwnerAcceptanceBypassed
    ));
    assert!(matches!(
        refusal(&|h| h.handoff_id = "short".into()),
        BackupManifestError::InvalidIdentity(_)
    ));
    assert!(matches!(
        refusal(&|h| h.target_identity.lvm.clear()),
        BackupManifestError::VolumeGroupIdentityMissing(uuid) if uuid == "vg-uuid-1"
    ));
    assert!(matches!(
        refusal(&|h| {
            let group = h.target_identity.lvm[1].clone();
            h.target_identity.lvm.push(group);
        }),
        BackupManifestError::VolumeGroupIdentityAmbiguous(uuid) if uuid == "vg-uuid-1"
    ));
    let mut handoff = partition_handoff();
    handoff.target_identity.partitions.clear();
    assert!(matches!(
        build_metadata_backup_manifest(&handoff),
        Err(BackupManifestError::PartitionIdentityMissing(disk)) if disk == "/dev/sda"
    ));
    let mut handoff = partition_handoff();
    let twin = handoff.target_identity.partitions[0].clone();
    handoff.target_identity.partitions.push(twin);
    assert!(matches!(
        build_metadata_backup_manifest(&handoff),
        Err(BackupManifestError::PartitionIdentityAmbiguous(disk)) if disk == "/dev/sda"
    ));
}

#[test]
fn repeated_backups_are_required_once() {
    let mut handoff = lvm_handoff();
    let again = step(
        6,
        vec![1],
        Operation::BackupLvmMetadata {
            vg_uuid: "vg-uuid-1".into(),
        },
    );
    handoff.plan.steps.push(again);
    let manifest = build_metadata_backup_manifest(&handoff).unwrap();
    assert_eq!(manifest.requirements().len(), 1);
}

#[test]
fn artifact_verifier_hashes_nonempty_regular_files() {
    let (size, digest) = verify_artifact(&b"verified-backup".to_vec()).unwrap();

    assert_eq!(size, 15);
    assert_eq!(digest.len(), 64);
    assert_eq!(digest, fingerprint(b"verified-backup"));
}

#[test]
fn artifact_verifier_rejects_empty_files() {
    assert!(matches!(
        verify_artifact(&vec![]),
        Err(BackupCaptureError::EmptyArtifact)
    ));
}

#[test]
fn artifacts_are_admitted_by_their_status() {
    let status = |regular: bool, size: u64| Ok(ArtifactStatus { regular, size });
    assert!(admit_artifact("/a", &status(true, 1)).is_ok());
    assert_eq!(
        admit_artifact("/a", &status(false, 1)),
        Err(BackupCaptureError::UnsafeArtifact("/a".into()))
    );
    assert_eq!(
        admit_artifact("/a", &status(true, 0)),
        Err(BackupCaptureError::EmptyArtifact)
    );
    assert_eq!(
        admit_artifact("/a", &status(true, MAX_BACKUP_ARTIFACT_BYTES + 1)),
        Err(BackupCaptureError::ArtifactTooLarge)
    );
    assert_eq!(
        admit_artifact("/a", &Err("gone".into())),
        Err(BackupCaptureError::Io {
            path: "/a".into(),
            source: "gone".into()
        })
    );
    assert!(admit_new_artifact("/a", &PathStatus::Absent("none".into())).is_ok());
    assert_eq!(
        admit_new_artifact("/a", &PathStatus::Other),
        Err(BackupCaptureError::ArtifactExists("/a".into()))
    );
    assert_eq!(
        judge_capture("sfdisk", false, "exit status: 1"),
        Err(BackupCaptureError::CommandFailed {
            program: "sfdisk".into(),
            status: "exit status: 1".into()
        })
    );
    assert!(judge_capture("sfdisk", true, "exit status: 0").is_ok());
}

#[test]
fn directories_are_secured_from_the_root_down() {
    let descent = directories_to_secure("/var/lib//backups/");
    assert!(descent.complete);
    assert_eq!(
        descent.directories,
        ["/var", "/var/lib", "/var/lib/backups"]
    );
    let stepping_back = directories_to_secure("/var/../etc");
    assert!(!stepping_back.complete);
    assert_eq!(stepping_back.directories, ["/var"]);
    assert_eq!(
        check_artifact_root("/var/../etc", &stepping_back),
        Err(BackupCaptureError::UnsafeDirectory("/var/../etc".into()))
    );
    let relative = directories_to_secure("backups");
    assert!(!relative.complete && relative.directories.is_empty());

    let absent = PathStatus::Absent("no such file".into());
    assert_eq!(admit_backup_directory("/var", &absent, true), Ok(true));
    assert_eq!(
        admit_backup_directory("/var", &PathStatus::Directory, false),
        Ok(false)
    );
    assert_eq!(
        admit_backup_directory("/var", &PathStatus::Other, true),
        Err(BackupCaptureError::UnsafeDirectory("/var".into()))
    );
    assert_eq!(
        admit_backup_directory("/var", &absent, false),
        Err(BackupCaptureError::Io {
            path: "/var".into(),
            source: "no such file".into()
        })
    );
}

#[test]
fn exact_revalidated_session_can_capture_manifest_with_fake_runner() {
    let session = revalidated(partition_handoff());
    let manifest = build_metadata_backup_manifest(session.handoff()).unwrap();
    assert_eq!(manifest.requirements().len(), 1);

    validate_binding(&session, &manifest).unwrap();
    let action = capture_action(&manifest.requirements()[0], "/artifacts").unwrap();
    assert_eq!(
        action,
        CaptureAction::PartitionTable {
            disk: "/dev/sda".into(),
            output: "/artifacts/01-partition-table.sfdisk".into()
        }
    );
    let payload = b"label: gpt\ndevice: /dev/sda\n".to_vec();
    let receipt = seal_backup_receipt(&session, &manifest, &vec![payload.clone()]).unwrap();

    assert!(!receipt.mutation_enabled());
    assert_eq!(receipt.manifest_id(), manifest.manifest_id());
    assert_eq!(receipt.handoff_id(), session.handoff().handoff_id);
    assert_eq!(receipt.artifacts().len(), 1);
    assert_eq!(
        receipt.artifacts()[0].kind,
        MetadataBackupKind::PartitionTable
    );
    assert!(receipt.artifacts()[0].size_bytes > 0);
    assert_eq!(receipt.artifacts()[0].sha256.len(), 64);
    let json = format!(
        "[1,\"{}\",\"{}\",\"{}\",\"{}\",false,[{{\"ordinal\":1,\"kind\":\"partition_table\",\
         \"artifact_path\":\"{}\",\"expected_identity\":{{\"kind\":\"partition_table\",\
         \"disk\":\"/dev/sda\",\"table_label\":\"gpt\",\"table_id\":\"gpt-backup-capture\"}},\
         \"size_bytes\":28,\"sha256\":\"{}\"}}]]",
        manifest.manifest_id(),
        manifest.handoff_id(),
        manifest.plan_id(),
        manifest.target_manifest_digest(),
        manifest.requirements()[0].artifact_path,
        fingerprint(&payload)
    );
    assert_eq!(receipt.receipt_id(), fingerprint_text(&json));
}

#[test]
fn captured_backups_are_recognised_again() {
    let session = revalidated(partition_handoff());
    let manifest = build_metadata_backup_manifest(session.handoff()).unwrap();
    let payload = b"label: gpt\n".to_vec();
    let receipt = seal_backup_receipt(&session, &manifest, &vec![payload.clone()]).unwrap();
    let path = receipt.artifacts()[0].artifact_path.clone();

    let again = revalidate_metadata_backup_receipt(&receipt, &vec![Ok(payload)]);
    assert!(again.matches);
    assert!(again.blockers.is_empty());
    assert_eq!(again.receipt_id, receipt.receipt_id());
    assert_eq!(again.manifest_id, manifest.manifest_id());
    assert_eq!(again.handoff_id, manifest.handoff_id());
    assert_eq!(again.plan_id, manifest.plan_id());
    assert_eq!(
        again.target_manifest_digest,
        manifest.target_manifest_digest()
    );

    for (content, blocker) in [
        (
            Ok(b"label: dos\n".to_vec()),
            format!("artifact SHA-256 changed: {path}"),
        ),
        (
            Ok(b"label: gpt".to_vec()),
            format!("artifact size changed: {path}"),
        ),
        (
            Err("gone".to_string()),
            format!("artifact could not be read: {path}: gone"),
        ),
    ] {
        let again = revalidate_metadata_backup_receipt(&receipt, &vec![content]);
        assert!(!again.matches);
        assert_eq!(again.blockers, [blocker]);
    }
}

#[test]
fn backup_capture_is_rejected_before_locked_identity_revalidation() {
    let session = begin(partition_handoff());
    let manifest = build_metadata_backup_manifest(session.handoff()).unwrap();

    assert!(matches!(
        validate_binding(&session, &manifest),
        Err(BackupCaptureError::SessionNotRevalidated)
    ));
    assert!(matches!(
        seal_backup_receipt(&session, &manifest, &vec![b"unused".to_vec()]),
        Err(BackupCaptureError::SessionNotRevalidated)
    ));
}

#[test]
fn foreign_manifests_and_other_commands_are_not_captured() {
    let session = revalidated(partition_handoff());
    let foreign = build_metadata_backup_manifest(&lvm_handoff()).unwrap();
    assert!(matches!(
        validate_binding(&session, &foreign),
        Err(BackupCaptureError::ManifestBindingMismatch)
    ));
    let manifest = build_metadata_backup_manifest(session.handoff()).unwrap();
    let mut requirement = manifest.requirements()[0].clone();
    requirement.capture.args[0] = "--wipe".into();
    assert!(matches!(
        validate_requirement(&requirement),
        Err(BackupCaptureError::UnsupportedCaptureCommand)
    ));
    let mut requirement = manifest.requirements()[0].clone();
    requirement.expected_identity = BackupExpectedIdentity::LvmVolumeGroup {
        vg_name: "vg0".into(),
        vg_uuid: "vg".into(),
    };
    assert!(matches!(
        capture_action(&requirement, "/artifacts"),
        Err(BackupCaptureError::UnsupportedCaptureCommand)
    ));
}

fn backup(handoff: &FrozenExecutionHandoff, blockers: Vec<String>) -> BackupReceiptRevalidation {
    BackupReceiptRevalidation {
        manifest_id: digest('5'),
        receipt_id: digest('6'),
        handoff_id: handoff.handoff_id.clone(),
        plan_id: handoff.plan.plan_id.clone(),
        target_manifest_digest: handoff.target_identity.manifest_digest.clone(),
        matches: blockers.is_empty(),
        blockers,
    }
}

fn evidence(
    session: &LockedExecutionSession,
    identity: &IdentityRevalidation,
    decision: &FilesystemGrowthDecision,
    blockers: Vec<String>,
) -> PreMutationEvidenceBundle {
    build_pre_mutation_evidence(
        session,
        identity,
        true,
        decision,
        &backup(session.handoff(), blockers),
    )
    .unwrap()
}

#[test]
fn clean_ext4_and_matching_backup_evidence_is_complete_but_non_mutating() {
    let session = revalidated(partition_handoff());
    let bundle = evidence(
        &session,
        &unchanged(session.handoff()),
        &clean_decision("/data", "/dev/sda1"),
        vec![],
    );

    assert_eq!(bundle.status(), PreMutationEvidenceStatus::EvidenceComplete);
    assert!(bundle.blockers().is_empty());
    assert!(bundle.owner_acceptance_required());
    assert!(!bundle.mutation_enabled());
    assert_eq!(session.journal().phase, JournalPhase::IdentityRevalidated);
}

#[test]
fn failed_backup_evidence_blocks_bundle() {
    let session = revalidated(partition_handoff());
    let bundle = evidence(
        &session,
        &unchanged(session.handoff()),
        &clean_decision("/data", "/dev/sda1"),
        vec!["artifact SHA-256 changed".into()],
    );

    assert_eq!(bundle.status(), PreMutationEvidenceStatus::Blocked);
    assert!(bundle
        .blockers()
        .iter()
        .any(|blocker| blocker.contains("SHA-256")));
    assert_eq!(session.journal().phase, JournalPhase::IdentityRevalidated);
}

#[test]
fn dirty_ext4_remains_future_check_required() {
    let session = revalidated(partition_handoff());
    let bundle = evidence(
        &session,
        &unchanged(session.handoff()),
        &dirty_decision("/data", "/dev/sda1"),
        vec![],
    );

    assert_eq!(
        bundle.status(),
        PreMutationEvidenceStatus::FutureChecksRequired
    );
    assert!(bundle
        .future_gates()
        .iter()
        .any(|gate| gate.contains("e2fsck")));
    assert_eq!(session.journal().phase, JournalPhase::IdentityRevalidated);
}

#[test]
fn the_harness_goes_on_with_complete_evidence_only() {
    let session = revalidated(partition_handoff());
    let identity = unchanged(session.handoff());
    let clean = clean_decision("/data", "/dev/sda1");
    let dirty = dirty_decision("/data", "/dev/sda1");

    let complete = evidence(&session, &identity, &clean, vec![]);
    assert_eq!(
        next_evidence_step(&complete, false, false),
        Ok(EvidenceStep::Proceed)
    );

    let open = evidence(&session, &identity, &dirty, vec![]);
    assert_eq!(
        next_evidence_step(&open, true, false),
        Ok(EvidenceStep::CheckHealth(HealthTool::E2fsck))
    );
    let line = format!(
        "pre-mutation evidence incomplete: {}",
        open.future_gates().join("; ")
    );
    assert_eq!(next_evidence_step(&open, false, false), Err(line.clone()));
    assert_eq!(next_evidence_step(&open, true, true), Err(line));

    let scrub = FilesystemGrowthDecision {
        state: FilesystemDecisionState::ReadOnlyHealthCheckRequired,
        ..clean_decision("/data", "/dev/sda1")
    };
    let mounted = evidence(&session, &identity, &scrub, vec![]);
    assert_eq!(
        next_evidence_step(&mounted, false, false),
        Ok(EvidenceStep::CheckHealth(HealthTool::XfsScrub))
    );

    let blocked = evidence(
        &session,
        &identity,
        &clean,
        vec!["one".into(), "two".into()],
    );
    assert_eq!(
        next_evidence_step(&blocked, true, false),
        Err(format!(
            "pre-mutation evidence incomplete: {}",
            [blocked.blockers(), blocked.future_gates()].concat().join("; ")
        ))
    );
}

#[test]
fn the_harness_stops_with_all_blockers() {
    let mut session = begin(lvm_handoff());
    let result = session.revalidate(changed(), false).unwrap();
    assert_eq!(result.blockers.len(), 2);
    assert_eq!(
        check_revalidation(&result),
        Err(format!(
            "locked revalidation blocked: {}; {}",
            result.blockers[0], result.blockers[1]
        ))
    );
    let mut session = begin(lvm_handoff());
    let identity = unchanged(session.handoff());
    let result = session.revalidate(identity, true).unwrap();
    assert_eq!(check_revalidation(&result), Ok(()));

    let handoff = lvm_handoff();
    assert_eq!(check_backup_revalidation(&backup(&handoff, vec![])), Ok(()));
    assert_eq!(
        check_backup_revalidation(&backup(&handoff, vec!["lost".into()])),
        Err("backup revalidation blocked: lost".to_string())
    );
}

#[test]
fn target_change_after_locked_revalidation_blocks_evidence() {
    let session = revalidated(partition_handoff());
    let bundle = evidence(
        &session,
        &changed(),
        &clean_decision("/data", "/dev/sda1"),
        vec![],
    );

    assert_eq!(bundle.status(), PreMutationEvidenceStatus::Blocked);
    assert!(bundle
        .blockers()
        .iter()
        .any(|blocker| blocker.contains("device-chain-changed")));
    assert_eq!(session.journal().phase, JournalPhase::IdentityRevalidated);
}

#[test]
fn evidence_needs_a_revalidated_session_and_its_own_backup() {
    let session = begin(partition_handoff());
    let identity = unchanged(session.handoff());
    let decision = clean_decision("/data", "/dev/sda1");
    assert!(matches!(
        build_pre_mutation_evidence(
            &session,
            &identity,
            true,
            &decision,
            &backup(session.handoff(), vec![])
        ),
        Err(PreMutationEvidenceError::SessionNotRevalidated)
    ));
    let session = revalidated(partition_handoff());
    assert!(matches!(
        build_pre_mutation_evidence(
            &session,
            &identity,
            true,
            &decision,
            &backup(&lvm_handoff(), vec![])
        ),
        Err(PreMutationEvidenceError::BackupBindingMismatch)
    ));
}

#[test]
fn a_health_receipt_closes_the_check_that_it_was_made_for() {
    let session = revalidated(partition_handoff());
    let decision = dirty_decision("/data", "/dev/sda1");
    let check = decision.read_only_check.clone().unwrap();
    let tool = |mode: u32| ToolFileProbe {
        link: Ok(LinkStatus {
            symlink: false,
            owner: 0,
        }),
        status: Ok(ToolStatus {
            regular: true,
            mode,
        }),
        linked: Err("no link".into()),
    };
    let device = Some("/dev/sda1".to_owned());
    let examine = |identity: bool,
                 capabilities: bool,
                 decision: &FilesystemGrowthDecision,
                 tool: &ToolFileProbe,
                 mounts: Vec<MountProbe>| {
        admit_health_check(
            &session,
            identity,
            capabilities,
            decision,
            "/usr/sbin/e2fsck",
            tool,
            &device,
            &mounts,
        )
    };
    let good = tool(0o100755);
    assert_eq!(examine(true, true, &decision, &good, vec![]), Ok(()));
    assert_eq!(
        examine(false, true, &decision, &good, vec![]),
        Err(ExplicitFilesystemHealthError::TargetIdentityMismatch)
    );
    assert_eq!(
        examine(true, false, &decision, &good, vec![]),
        Err(ExplicitFilesystemHealthError::CapabilityInventoryMismatch)
    );
    assert_eq!(
        examine(true, true, &decision, &tool(0o100777), vec![]),
        Err(ExplicitFilesystemHealthError::UnsafeToolPath)
    );
    let unreadable = ToolFileProbe {
        link: Err("denied".into()),
        ..tool(0o100755)
    };
    assert_eq!(
        examine(true, true, &decision, &unreadable, vec![]),
        Err(ExplicitFilesystemHealthError::Io("denied".into()))
    );
    assert_eq!(
        examine(
            true,
            true,
            &clean_decision("/data", "/dev/sda1"),
            &good,
            vec![]
        ),
        Err(ExplicitFilesystemHealthError::UnsupportedCheck)
    );
    let mounted = MountProbe {
        source: Some("/dev/disk/by-id/data".into()),
        canonical_source: Some("/dev/sda1".into()),
    };
    assert_eq!(
        examine(true, true, &decision, &good, vec![mounted]),
        Err(ExplicitFilesystemHealthError::UnsupportedCheck)
    );

    let receipt = seal_health_receipt(&session, &check, true, Some(0), b"clean", b"").unwrap();
    assert!(receipt.integrity_matches().unwrap());
    assert!(receipt_matches_exact_check(&receipt, &session, &check));
    let mut other = check.clone();
    other.args[0] = "-y".into();
    assert!(!receipt_matches_exact_check(&receipt, &session, &other));
    match seal_health_receipt(&session, &check, false, Some(4), b"", b"errors left") {
        Err(ExplicitFilesystemHealthError::CommandFailed { status, stderr }) => {
            assert_eq!(status, Some(4));
            assert_eq!(stderr, "errors left");
        }
        _ => panic!("a failed check gives no receipt"),
    }

    let with_receipt = |decision: &FilesystemGrowthDecision,
                        receipt: &ExplicitFilesystemHealthReceipt| {
        build_pre_mutation_evidence_with_filesystem_health(
            &session,
            &unchanged(session.handoff()),
            true,
            decision,
            &backup(session.handoff(), vec![]),
            receipt,
        )
    };
    assert!(matches!(
        with_receipt(&decision, &receipt),
        Err(PreMutationEvidenceError::FilesystemHealthReceiptMismatch)
    ));

    let scrub = ReadOnlyFilesystemCheck {
        kind: FilesystemCheckKind::XfsMountedScrubNoModify,
        tool: "xfs_scrub".into(),
        args: vec!["-n".into(), "/data".into()],
        requires_mounted: true,
        requires_unmounted: false,
        run_automatically_on_refresh: false,
    };
    let xfs = FilesystemGrowthDecision {
        state: FilesystemDecisionState::ReadOnlyHealthCheckRequired,
        fs_type: Some("xfs".into()),
        read_only_check: Some(scrub.clone()),
        required_actions: vec!["run the scrub".into()],
        ..clean_decision("/data", "/dev/sda1")
    };
    let receipt = seal_health_receipt(&session, &scrub, true, Some(0), b"clean", b"").unwrap();
    let bundle = with_receipt(&xfs, &receipt).unwrap();
    assert_eq!(bundle.status(), PreMutationEvidenceStatus::EvidenceComplete);
    assert_eq!(
        bundle.filesystem_health_receipt_id(),
        Some(receipt.receipt_id())
    );
    assert_eq!(
        bundle.filesystem_decision().state,
        FilesystemDecisionState::ReadyOnlineGrow
    );
    assert!(bundle.filesystem_decision().read_only_check.is_none());
    let mut foreign = xfs.clone();
    foreign.read_only_check = Some(ReadOnlyFilesystemCheck {
        args: vec!["-n".into(), "/other".into()],
        ..scrub
    });
    assert!(matches!(
        with_receipt(&foreign, &receipt),
        Err(PreMutationEvidenceError::FilesystemHealthReceiptMismatch)
    ));
}

/// Takes a durable session to verified preconditions.
fn verified(
    session: &mut LockedExecutionSession,
    decision: &FilesystemGrowthDecision,
) -> PreconditionsVerification {
    let bundle = evidence(session, &unchanged(session.handoff()), decision, vec![]);
    let accepted = verify_preconditions(session, &bundle).unwrap();
    let next = advanced(
        session.journal(),
        JournalPhase::PreconditionsVerified,
        "preconditions-verified",
    );
    let bytes = bytes_of(&next);
    PreconditionsVerification::recorded(session, accepted, next.clone(), next, &bytes).unwrap()
}

#[test]
fn accepted_evidence_counts_once_it_is_recorded() {
    let decision = clean_decision("/", "/dev/mapper/vg0-root");
    let mut session = revalidated_durable(lvm_handoff());
    let bundle = evidence(&session, &unchanged(session.handoff()), &decision, vec![]);
    let before = session.journal().clone();
    let next = advanced(
        &before,
        JournalPhase::PreconditionsVerified,
        "preconditions-verified",
    );

    let accepted = verify_preconditions(&session, &bundle).unwrap();
    assert_eq!(
        PreconditionsVerification::recorded(
            &mut session,
            accepted,
            next.clone(),
            before.clone(),
            b"{}"
        ),
        Err(PreconditionsVerificationError::Session(
            LockedSessionError::DurableJournalMismatch
        ))
    );
    let aborted = advanced(&before, JournalPhase::Aborted, "aborted");
    let accepted = verify_preconditions(&session, &bundle).unwrap();
    assert!(PreconditionsVerification::recorded(
        &mut session,
        accepted,
        aborted.clone(),
        aborted,
        b"{}"
    )
    .is_err());
    let accepted = verify_preconditions(&session, &bundle).unwrap();
    let mut other = revalidated_durable(partition_handoff());
    assert_eq!(
        PreconditionsVerification::recorded(
            &mut other,
            accepted,
            next.clone(),
            next.clone(),
            b"{}"
        ),
        Err(PreconditionsVerificationError::SessionBindingMismatch)
    );
    assert_eq!(session.journal(), &before);

    let accepted = verify_preconditions(&session, &bundle).unwrap();
    let verification = PreconditionsVerification::recorded(
        &mut session,
        accepted,
        next.clone(),
        next.clone(),
        b"{}",
    )
    .unwrap();
    assert_eq!(session.journal(), &next);
    assert!(session.require_current_durable_journal().is_ok());
    assert_eq!(verification.bundle_id(), bundle.bundle_id());
    assert_eq!(verification.locked_session_id(), session.session_id());
    assert_eq!(verification.journal_id(), session.journal().journal_id);
    assert_eq!(verification.journal_digest(), fingerprint(b"{}"));
}

#[test]
fn exact_precondition_evidence_advances_durable_journal() {
    let mut session = revalidated_durable(lvm_handoff());
    let decision = clean_decision("/", "/dev/mapper/vg0-root");
    let bundle = evidence(&session, &unchanged(session.handoff()), &decision, vec![]);
    assert_eq!(bundle.status(), PreMutationEvidenceStatus::EvidenceComplete);

    let verification = verified(&mut session, &decision);

    assert_eq!(session.journal().phase, JournalPhase::PreconditionsVerified);
    assert!(session.require_current_durable_journal().is_ok());
    assert_eq!(verification.plan_id(), session.handoff().plan.plan_id);
    assert_eq!(
        verification.journal_digest(),
        fingerprint(&bytes_of(session.journal()))
    );
}

#[test]
fn incomplete_evidence_does_not_verify_preconditions() {
    let decision = clean_decision("/", "/dev/mapper/vg0-root");
    let session = revalidated(lvm_handoff());
    let bundle = evidence(&session, &unchanged(session.handoff()), &decision, vec![]);
    assert_eq!(
        verify_preconditions(&session, &bundle),
        Err(PreconditionsVerificationError::DurableJournalRequired)
    );
    let durable = revalidated_durable(lvm_handoff());
    let blocked = evidence(
        &durable,
        &unchanged(durable.handoff()),
        &decision,
        vec!["artifact missing".into()],
    );
    assert_eq!(
        verify_preconditions(&durable, &blocked),
        Err(PreconditionsVerificationError::BackupReceiptNotRevalidated)
    );
    let dirty = evidence(
        &durable,
        &unchanged(durable.handoff()),
        &dirty_decision("/", "/dev/mapper/vg0-root"),
        vec![],
    );
    assert_eq!(
        verify_preconditions(&durable, &dirty),
        Err(PreconditionsVerificationError::EvidenceIncomplete)
    );
    let foreign = revalidated_durable(partition_handoff());
    assert_eq!(
        verify_preconditions(
            &foreign,
            &evidence(&durable, &unchanged(durable.handoff()), &decision, vec![])
        ),
        Err(PreconditionsVerificationError::SessionBindingMismatch)
    );
    let early = begin_durable(lvm_handoff());
    assert_eq!(
        verify_preconditions(&early, &bundle),
        Err(PreconditionsVerificationError::SessionNotIdentityRevalidated)
    );
}

fn approve(
    session: &LockedExecutionSession,
    verification: &PreconditionsVerification,
    plan: &str,
    bundle: &str,
    target: &str,
) -> Result<AcceptedApproval, ExactPlanApprovalError> {
    approve_exact_plan(
        session,
        &bytes_of(session.journal()),
        verification,
        plan,
        bundle,
        target,
    )
}

fn approved(session: &mut LockedExecutionSession) -> ExactPlanApproval {
    let decision = session.handoff().filesystem_decision.clone();
    let verification = verified(session, &decision);
    let accepted = approve(
        session,
        &verification,
        verification.plan_id(),
        verification.bundle_id(),
        verification.target_manifest_digest(),
    )
    .unwrap();
    let mut binding = accepted.basis();
    binding.approval_id = digest('4');
    binding.integrity = BindingIntegrity::Matches;
    let mut next = advanced(
        session.journal(),
        JournalPhase::Approved,
        "exact-plan-approved",
    );
    next.approval = Some(binding.clone());
    ExactPlanApproval::recorded(session, accepted, &binding, next.clone(), next).unwrap()
}

#[test]
fn an_accepted_approval_counts_once_it_is_recorded() {
    let mut session = revalidated_durable(lvm_handoff());
    let decision = session.handoff().filesystem_decision.clone();
    let verification = verified(&mut session, &decision);
    let accept = |session: &LockedExecutionSession| {
        approve(
            session,
            &verification,
            verification.plan_id(),
            verification.bundle_id(),
            verification.target_manifest_digest(),
        )
        .unwrap()
    };
    let mut binding = accept(&session).basis();
    binding.approval_id = digest('4');
    let mut next = advanced(
        session.journal(),
        JournalPhase::Approved,
        "exact-plan-approved",
    );
    next.approval = Some(binding.clone());
    let refused = Err(ExactPlanApprovalError::Session(
        LockedSessionError::DurableJournalMismatch,
    ));

    // The fingerprint does not fit.
    let accepted = accept(&session);
    assert_eq!(
        ExactPlanApproval::recorded(&mut session, accepted, &binding, next.clone(), next.clone()),
        refused
    );
    binding.integrity = BindingIntegrity::Matches;
    next.approval = Some(binding.clone());
    // The journal records no approval.
    let mut silent = next.clone();
    silent.approval = None;
    let accepted = accept(&session);
    assert_eq!(
        ExactPlanApproval::recorded(&mut session, accepted, &binding, silent.clone(), silent),
        refused
    );
    // Another plan was bound.
    let mut foreign = binding.clone();
    foreign.plan_id = digest('0');
    let accepted = accept(&session);
    assert_eq!(
        ExactPlanApproval::recorded(&mut session, accepted, &foreign, next.clone(), next.clone()),
        refused
    );
    let accepted = accept(&session);
    let mut other = revalidated_durable(partition_handoff());
    assert_eq!(
        ExactPlanApproval::recorded(&mut other, accepted, &binding, next.clone(), next.clone()),
        Err(ExactPlanApprovalError::VerificationSessionMismatch)
    );

    let accepted = accept(&session);
    let approval =
        ExactPlanApproval::recorded(&mut session, accepted, &binding, next.clone(), next.clone())
            .unwrap();
    assert_eq!(session.journal(), &next);
    assert_eq!(approval.approval_id(), digest('4'));
    assert_eq!(approval.journal_id(), next.journal_id);
    assert!(approval.owner_acceptance_required());
    assert!(!approval.mutation_enabled());
}

/// The execution of an approved session, and its validated manifest.
fn started(session: &mut LockedExecutionSession) -> (ValidatedNativeManifest, ExecutionStartBinding) {
    let approval = approved(session);
    let intent = freeze_execution_intent(session, &bytes_of(session.journal()), &approval).unwrap();
    let validated = validate_and_bind_native_manifest(compile_native_manifest(&intent)).unwrap();
    let execution = ExecutionStartBinding {
        schema_version: 1,
        execution_id: digest('e'),
        journal_id: session.journal().journal_id.clone(),
        plan_id: session.journal().plan_id.clone(),
        approval_id: approval.approval_id().to_owned(),
        source_manifest_id: intent.manifest_id().to_owned(),
        native_manifest_digest: validated.digest().to_owned(),
        fresh_identity_digest: session.journal().baseline_manifest_digest.clone(),
        mutation_step_ids: vec![3, 4],
        approved_journal_digest: fingerprint(&bytes_of(session.journal())),
        integrity: BindingIntegrity::Matches,
    };
    (validated, execution)
}

fn executing(journal: &OperationJournal, execution: &ExecutionStartBinding) -> OperationJournal {
    let mut next = advanced(journal, JournalPhase::Executing, "execution-started");
    next.execution = Some(execution.clone());
    next.mutation_may_have_started = true;
    next
}

fn advance(session: &mut LockedExecutionSession, to: JournalPhase, code: &str) {
    let next = advanced(session.journal(), to, code);
    session.advance_durable(next.clone(), next).unwrap();
}

#[test]
fn an_accepted_start_counts_once_it_is_recorded() {
    let mut session = revalidated_durable(lvm_handoff());
    let (validated, execution) = started(&mut session);
    let request = build_privileged_helper_request(
        &validated,
        &execution,
        "/",
        "/dev/mapper/vg0-root",
        3,
    )
    .unwrap();
    let mut prepared = PreparedPrivilegedInvocation {
        schema_version: 1,
        prepared_id: String::new(),
        request_id: request.request_id.clone(),
        execution_id: execution.execution_id.clone(),
        plan_step_id: 3,
        live_identity_digest: request.fresh_identity_digest.clone(),
        command_digest: digest('d'),
        tool_resolution_digest: digest('f'),
    };
    prepared.prepared_id = prepared.expected_prepared_id().unwrap();
    let before = session.journal().clone();
    let next = executing(&before, &execution);

    let accepted = validate_start_binding(&session, &execution, &request, &prepared).unwrap();
    let mut foreign = execution.clone();
    foreign.execution_id = digest('0');
    assert_eq!(
        seal_execution_start(
            &mut session,
            accepted,
            &foreign,
            next.clone(),
            next.clone(),
            b"{}"
        ),
        Err(PrivilegedExecutionStartError::SessionExecutionMismatch)
    );
    let accepted = validate_start_binding(&session, &execution, &request, &prepared).unwrap();
    assert_eq!(
        seal_execution_start(
            &mut session,
            accepted,
            &execution,
            next.clone(),
            before.clone(),
            b"{}"
        ),
        Err(PrivilegedExecutionStartError::Session(
            LockedSessionError::DurableJournalMismatch
        ))
    );
    assert_eq!(session.journal(), &before);

    let accepted = validate_start_binding(&session, &execution, &request, &prepared).unwrap();
    let receipt = seal_execution_start(
        &mut session,
        accepted,
        &execution,
        next.clone(),
        next.clone(),
        b"{}",
    )
    .unwrap();
    assert_eq!(session.journal(), &next);
    assert!(session.require_current_durable_journal().is_ok());
    assert!(receipt.integrity_matches().unwrap());
    assert_eq!(receipt.execution_id, execution.execution_id);
    assert_eq!(receipt.prepared_id, prepared.prepared_id);
    assert_eq!(receipt.journal_id, execution.journal_id);
    assert_eq!(receipt.first_plan_step_id, 3);
    assert_eq!(receipt.executing_journal_digest, fingerprint(b"{}"));
    assert_eq!(
        validate_start_binding(&session, &execution, &request, &prepared),
        Err(PrivilegedExecutionStartError::JournalNotApproved)
    );
}

#[test]
fn boundaries_and_completions_count_once_they_are_recorded() {
    let mut session = revalidated_durable(lvm_handoff());
    let (validated, execution) = started(&mut session);
    let next = executing(session.journal(), &execution);
    session.advance_durable(next.clone(), next).unwrap();
    advance(&mut session, JournalPhase::Verifying, "verification-started");

    let mut grown = session.handoff().target_identity.clone();
    grown.manifest_digest = digest('7');
    grown.lvm[2].size_bytes = 9 * GIB;
    grown.filesystem.as_mut().unwrap().backing_device_size_bytes = 9 * GIB;
    let accepted =
        verify_and_continue_disposable_boundary(&session, &validated, &grown, true, 3).unwrap();
    assert_eq!(accepted.completed_step_id(), 3);
    assert_eq!(accepted.next_step_id(), 4);
    assert_eq!(accepted.fresh_identity_digest(), digest('7'));

    let mut next = advanced(
        session.journal(),
        JournalPhase::Executing,
        "verification-passed-continue",
    );
    let silent = next.clone();
    assert_eq!(
        DisposableVerifiedBoundary::recorded(&mut session, accepted, silent.clone(), silent),
        Err(DisposableBoundaryVerificationError::PersistenceFailed)
    );
    assert_eq!(session.journal().phase, JournalPhase::Verifying);
    next.verified_boundary = Some(VerifiedMutationBoundaryBinding {
        schema_version: 1,
        boundary_id: digest('8'),
        execution_id: execution.execution_id.clone(),
        completed_step_id: 3,
        next_step_id: 4,
        fresh_identity_digest: digest('7'),
        final_step_id: None,
        final_identity_digest: None,
        integrity: BindingIntegrity::Matches,
    });
    let accepted =
        verify_and_continue_disposable_boundary(&session, &validated, &grown, true, 3).unwrap();
    let boundary =
        DisposableVerifiedBoundary::recorded(&mut session, accepted, next.clone(), next.clone())
            .unwrap();
    assert_eq!(session.journal(), &next);
    assert!(session.require_current_durable_journal().is_ok());
    assert_eq!(boundary.execution_id(), execution.execution_id);
    assert_eq!(boundary.next_step_id(), 4);

    advance(&mut session, JournalPhase::Verifying, "verification-started");
    let mut finished = grown.clone();
    finished.manifest_digest = digest('6');
    finished
        .filesystem
        .as_mut()
        .unwrap()
        .observed_filesystem_size_bytes = Some(9 * GIB);
    let accepted = verify_and_complete_disposable_execution(
        &session, &validated, &grown, &finished, true, 4,
    )
    .unwrap();
    let mut next = advanced(
        session.journal(),
        JournalPhase::Completed,
        "verification-passed-complete",
    );
    let silent = next.clone();
    assert_eq!(
        DisposableVerifiedCompletion::recorded(&mut session, accepted, silent.clone(), silent),
        Err(DisposableBoundaryVerificationError::PersistenceFailed)
    );
    let terminal = next.verified_boundary.as_mut().unwrap();
    terminal.schema_version = 2;
    terminal.final_step_id = Some(4);
    terminal.final_identity_digest = Some(digest('6'));
    let accepted = verify_and_complete_disposable_execution(
        &session, &validated, &grown, &finished, true, 4,
    )
    .unwrap();
    let completion =
        DisposableVerifiedCompletion::recorded(&mut session, accepted, next.clone(), next.clone())
            .unwrap();
    assert_eq!(session.journal(), &next);
    assert_eq!(session.journal().phase, JournalPhase::Completed);
    assert_eq!(completion.completed_step_id(), 4);
    assert_eq!(completion.fresh_identity_digest(), digest('6'));
}

#[test]
fn an_exact_plan_is_approved_and_nothing_else() {
    let mut session = revalidated_durable(lvm_handoff());
    let decision = clean_decision("/", "/dev/mapper/vg0-root");
    let verification = verified(&mut session, &decision);
    let plan = verification.plan_id().to_owned();
    let bundle = verification.bundle_id().to_owned();
    let target = verification.target_manifest_digest().to_owned();
    let binding = approve(&session, &verification, &plan, &bundle, &target)
        .unwrap()
        .basis();
    assert_eq!(binding.schema_version, 1);
    assert_eq!(binding.plan_id, plan);
    assert_eq!(binding.evidence_bundle_id, bundle);
    assert_eq!(binding.target_manifest_digest, target);
    assert_eq!(binding.locked_session_id, session.session_id());
    assert_eq!(
        binding.preconditions_journal_digest,
        fingerprint(&bytes_of(session.journal()))
    );

    assert_eq!(
        approve(&session, &verification, &digest('0'), &bundle, &target),
        Err(ExactPlanApprovalError::ApprovedPlanMismatch)
    );
    assert_eq!(
        approve(&session, &verification, &plan, &digest('0'), &target),
        Err(ExactPlanApprovalError::ApprovedEvidenceMismatch)
    );
    assert_eq!(
        approve(&session, &verification, &plan, &bundle, &digest('0')),
        Err(ExactPlanApprovalError::ApprovedTargetMismatch)
    );
    assert_eq!(
        approve_exact_plan(&session, b"{}", &verification, &plan, &bundle, &target),
        Err(ExactPlanApprovalError::VerificationJournalStale)
    );
    let early = revalidated_durable(lvm_handoff());
    assert_eq!(
        approve(&early, &verification, &plan, &bundle, &target),
        Err(ExactPlanApprovalError::SessionNotPreconditionsVerified)
    );
}

#[test]
fn native_manifest_compiler_binds_exact_frozen_manifest() {
    let mut session = revalidated_durable(lvm_handoff());
    let approval = approved(&mut session);
    let source =
        freeze_execution_intent(&session, &bytes_of(session.journal()), &approval).unwrap();

    let compiled = compile_native_manifest(&source);

    assert_eq!(compiled.source_manifest_id, source.manifest_id());
    assert_eq!(compiled.steps.len(), source.steps().len());
    assert_eq!(
        compiled.verification_barriers.len(),
        source.verification_barriers().len()
    );
    assert_eq!(compiled.steps[0].plan_step_id, 1);
    assert_eq!(compiled.verification_barriers[0].after_plan_step_id, 3);
}

#[test]
fn an_approved_plan_freezes_and_its_compilation_is_valid() {
    for handoff in [lvm_handoff(), partition_handoff()] {
        let mut session = revalidated_durable(handoff);
        let approval = approved(&mut session);
        let intent =
            freeze_execution_intent(&session, &bytes_of(session.journal()), &approval).unwrap();

        assert_eq!(
            intent.status(),
            ExecutionIntentManifestStatus::FrozenNonExecutable
        );
        assert!(!intent.mutation_enabled());
        assert!(intent.owner_acceptance_required());
        assert!(intent.blockers().is_empty());
        assert_eq!(intent.future_gates().len(), 7);
        assert_eq!(intent.approval_id(), approval.approval_id());
        assert_eq!(intent.manifest_id().len(), 64);
        assert_eq!(
            intent.approved_journal_digest(),
            fingerprint(&bytes_of(session.journal()))
        );
        let mutations = intent
            .steps()
            .iter()
            .filter(|step| step.role == FrozenIntentRole::MutationCandidate)
            .map(|step| step.plan_step_id)
            .collect::<Vec<_>>();
        assert_eq!(mutations, [3, 4]);
        assert_eq!(
            intent
                .verification_barriers()
                .iter()
                .map(|barrier| barrier.after_plan_step_id)
                .collect::<Vec<_>>(),
            mutations
        );

        let validated =
            validate_and_bind_native_manifest(compile_native_manifest(&intent)).unwrap();
        assert_eq!(
            validated.manifest().source_manifest_id,
            intent.manifest_id()
        );
        assert_eq!(validated.digest().len(), 64);
    }
}

#[test]
fn intents_are_refused_for_what_was_not_approved() {
    let early = revalidated_durable(lvm_handoff());
    let mut session = revalidated_durable(lvm_handoff());
    let approval = approved(&mut session);
    assert!(matches!(
        freeze_execution_intent(&early, b"{}", &approval),
        Err(ExecutionIntentError::SessionNotApproved)
    ));

    let mut other = revalidated_durable(partition_handoff());
    let foreign = approved(&mut other);
    assert!(matches!(
        freeze_execution_intent(&session, b"{}", &foreign),
        Err(ExecutionIntentError::ApprovalBindingMismatch)
    ));

    let mut stale = revalidated_durable(lvm_handoff());
    let approval = approved(&mut stale);
    stale.reread_record(planned(&lvm_handoff()));
    assert!(matches!(
        freeze_execution_intent(&stale, b"{}", &approval),
        Err(ExecutionIntentError::Session(
            LockedSessionError::DurableJournalMismatch
        ))
    ));

    let mut cyclic = lvm_handoff();
    cyclic.plan.steps[0].depends_on = vec![5];
    let mut session = revalidated_durable(cyclic);
    let approval = approved(&mut session);
    assert!(matches!(
        freeze_execution_intent(&session, b"{}", &approval),
        Err(ExecutionIntentError::DependencyCycle)
    ));

    let mut drifted = lvm_handoff();
    drifted.target_identity.lvm[2].size_bytes = 9 * GIB;
    let mut session = revalidated_durable(drifted);
    let approval = approved(&mut session);
    assert!(matches!(
        freeze_execution_intent(&session, b"{}", &approval),
        Err(ExecutionIntentError::FrozenIdentityMismatch(_))
    ));
}
