use storage_executor::execution_intent::{
    translate_step, validate_dependency_graph, validate_step_semantics,
};
use storage_executor::model::{
    FilesystemDecisionState, FilesystemGrowthDecision, FilesystemIdentity, LayerRouteStatus,
    LvmIdentity, LvmIdentityKind, MountIdentity, Operation, PartitionGeometryIdentity, PlanStep,
    Reversibility, TargetIdentityManifest,
};
use storage_executor::{ExecutionIntentError, FrozenIntentAction, FrozenIntentRole};

fn plan_step(id: u32, depends_on: Vec<u32>) -> PlanStep {
    PlanStep {
        id,
        depends_on,
        operation: Operation::RevalidateSnapshot,
        reversibility: Reversibility::NotApplicable,
    }
}

#[test]
fn duplicate_step_id_is_rejected() {
    let steps = vec![plan_step(1, vec![]), plan_step(1, vec![])];
    assert!(matches!(
        validate_dependency_graph(&steps),
        Err(ExecutionIntentError::DuplicateStepId(1))
    ));
}

#[test]
fn zero_step_id_is_rejected() {
    let steps = vec![plan_step(0, vec![])];
    assert!(matches!(
        validate_dependency_graph(&steps),
        Err(ExecutionIntentError::ZeroStepId)
    ));
}

#[test]
fn unknown_dependency_is_rejected() {
    let steps = vec![plan_step(1, vec![]), plan_step(2, vec![99])];
    assert!(matches!(
        validate_dependency_graph(&steps),
        Err(ExecutionIntentError::UnknownDependency {
            step_id: 2,
            dependency: 99
        })
    ));
}

#[test]
fn self_dependency_is_rejected() {
    let steps = vec![plan_step(1, vec![1])];
    assert!(matches!(
        validate_dependency_graph(&steps),
        Err(ExecutionIntentError::SelfDependency(1))
    ));
}

#[test]
fn dependency_cycle_is_rejected() {
    let steps = vec![plan_step(1, vec![2]), plan_step(2, vec![1])];
    assert!(matches!(
        validate_dependency_graph(&steps),
        Err(ExecutionIntentError::DependencyCycle)
    ));
}

fn semantic_identity() -> TargetIdentityManifest {
    TargetIdentityManifest {
        schema_version: 1,
        target: "/".into(),
        manifest_digest: "a".repeat(64),
        resolved_device: "/dev/mapper/vg0-root".into(),
        route_status: LayerRouteStatus::SupportedProfile,
        route_issue_codes: vec![],
        devices: vec![],
        partitions: vec![PartitionGeometryIdentity {
            partition: "/dev/vda1".into(),
            disk: Some("/dev/vda".into()),
            table_label: Some("gpt".into()),
            table_id: Some("gpt-1".into()),
            sector_size_bytes: Some(4096),
            start_sector: Some(256),
            size_sectors: Some(4096),
            record_uuid: Some("part-1".into()),
        }],
        lvm: vec![
            LvmIdentity {
                kind: LvmIdentityKind::VolumeGroup,
                name: "vg0".into(),
                uuid: Some("vg-1".into()),
                size_bytes: 16 * 1024 * 1024 * 1024,
                free_bytes: Some(8 * 1024 * 1024 * 1024),
                pe_start_bytes: None,
                extent_size_bytes: Some(4 * 1024 * 1024),
                free_extent_count: Some(2048),
                pv_count: Some(1),
                lv_count: Some(1),
                attributes: Some("wz--n-".into()),
                layout: None,
                role: None,
            },
            LvmIdentity {
                kind: LvmIdentityKind::LogicalVolume,
                name: "root".into(),
                uuid: Some("lv-1".into()),
                size_bytes: 8 * 1024 * 1024 * 1024,
                free_bytes: None,
                pe_start_bytes: None,
                extent_size_bytes: None,
                free_extent_count: None,
                pv_count: None,
                lv_count: None,
                attributes: Some("-wi-ao----".into()),
                layout: Some("linear".into()),
                role: Some("public".into()),
            },
        ],
        filesystem: Some(FilesystemIdentity {
            device: "/dev/mapper/vg0-root".into(),
            fs_type: "ext4".into(),
            fs_version: Some("1.0".into()),
            uuid: Some("fs-1".into()),
            backing_device_size_bytes: 8 * 1024 * 1024 * 1024,
            observed_filesystem_size_bytes: Some(8 * 1024 * 1024 * 1024),
        }),
        mounts: vec![MountIdentity {
            target: "/".into(),
            source: Some("/dev/vg0/root".into()),
            fs_type: Some("ext4".into()),
            options: vec!["rw".into()],
        }],
    }
}

fn semantic_decision() -> FilesystemGrowthDecision {
    FilesystemGrowthDecision {
        target: "/".into(),
        device: Some("/dev/mapper/vg0-root".into()),
        mountpoint: Some("/".into()),
        fs_type: Some("ext4".into()),
        state: FilesystemDecisionState::ReadyOnlineGrow,
        metadata_state: None,
        read_only_check: None,
        reasons: vec![],
        required_actions: vec![],
    }
}

#[test]
fn four_kn_partition_geometry_is_preserved_exactly() {
    let step = PlanStep {
        id: 4,
        depends_on: vec![3],
        operation: Operation::ExtendPartition {
            partition: "/dev/vda1".into(),
            start_sector: 256,
            old_size_sectors: 4096,
            new_size_sectors: 8192,
            sector_size_bytes: 4096,
        },
        reversibility: Reversibility::Irreversible,
    };
    let identity = semantic_identity();
    validate_step_semantics(&step, &identity, &semantic_decision()).unwrap();
    let translated = translate_step(&step);
    assert!(matches!(
        translated.action,
        FrozenIntentAction::ExtendPartition {
            start_sector: 256,
            old_size_sectors: 4096,
            new_size_sectors: 8192,
            sector_size_bytes: 4096,
            ..
        }
    ));
}

#[test]
fn partition_start_or_old_size_mismatch_is_rejected() {
    let step = PlanStep {
        id: 4,
        depends_on: vec![],
        operation: Operation::ExtendPartition {
            partition: "/dev/vda1".into(),
            start_sector: 257,
            old_size_sectors: 4096,
            new_size_sectors: 8192,
            sector_size_bytes: 4096,
        },
        reversibility: Reversibility::Irreversible,
    };
    assert!(matches!(
        validate_step_semantics(&step, &semantic_identity(), &semantic_decision()),
        Err(ExecutionIntentError::FrozenIdentityMismatch(_))
    ));
}

#[test]
fn duplicate_matching_lv_uuid_is_rejected() {
    let mut identity = semantic_identity();
    identity.lvm.push(identity.lvm[1].clone());
    let step = PlanStep {
        id: 5,
        depends_on: vec![],
        operation: Operation::ExtendLogicalVolume {
            lv_uuid: "lv-1".into(),
            additional_extents: 256,
            expected_lv_size_bytes: 9 * 1024 * 1024 * 1024,
        },
        reversibility: Reversibility::Irreversible,
    };
    assert!(matches!(
        validate_step_semantics(&step, &identity, &semantic_decision()),
        Err(ExecutionIntentError::FrozenIdentityMismatch(_))
    ));
}

#[test]
fn filesystem_mountpoint_mismatch_is_rejected() {
    let mut identity = semantic_identity();
    identity.mounts[0].target = "/other".into();
    let step = PlanStep {
        id: 6,
        depends_on: vec![],
        operation: Operation::GrowFilesystem {
            fs_type: "ext4".into(),
            mountpoint: "/".into(),
        },
        reversibility: Reversibility::Irreversible,
    };
    assert!(matches!(
        validate_step_semantics(&step, &identity, &semantic_decision()),
        Err(ExecutionIntentError::FrozenIdentityMismatch(_))
    ));
}

#[test]
fn filesystem_decision_target_mismatch_is_rejected() {
    let mut decision = semantic_decision();
    decision.target = "/other".into();
    let step = PlanStep {
        id: 6,
        depends_on: vec![],
        operation: Operation::GrowFilesystem {
            fs_type: "ext4".into(),
            mountpoint: "/".into(),
        },
        reversibility: Reversibility::Irreversible,
    };

    assert!(matches!(
        validate_step_semantics(&step, &semantic_identity(), &decision),
        Err(ExecutionIntentError::FrozenIdentityMismatch(_))
    ));
}

#[test]
fn filesystem_decision_device_mismatch_is_rejected() {
    let mut decision = semantic_decision();
    decision.device = Some("/dev/mapper/other".into());
    let step = PlanStep {
        id: 6,
        depends_on: vec![],
        operation: Operation::GrowFilesystem {
            fs_type: "ext4".into(),
            mountpoint: "/".into(),
        },
        reversibility: Reversibility::Irreversible,
    };

    assert!(matches!(
        validate_step_semantics(&step, &semantic_identity(), &decision),
        Err(ExecutionIntentError::FrozenIdentityMismatch(_))
    ));
}

#[test]
fn partition_path_with_control_character_is_rejected() {
    let mut identity = semantic_identity();
    identity.partitions[0].partition = "/dev/vda\n1".into();
    let step = PlanStep {
        id: 4,
        depends_on: vec![],
        operation: Operation::ExtendPartition {
            partition: "/dev/vda\n1".into(),
            start_sector: 256,
            old_size_sectors: 4096,
            new_size_sectors: 8192,
            sector_size_bytes: 4096,
        },
        reversibility: Reversibility::Irreversible,
    };
    assert!(matches!(
        validate_step_semantics(&step, &identity, &semantic_decision()),
        Err(ExecutionIntentError::FrozenIdentityMismatch(_))
    ));
}

#[test]
fn invalid_partition_sector_size_is_rejected() {
    let step = PlanStep {
        id: 4,
        depends_on: vec![],
        operation: Operation::ExtendPartition {
            partition: "/dev/vda1".into(),
            start_sector: 256,
            old_size_sectors: 4096,
            new_size_sectors: 8192,
            sector_size_bytes: 1024,
        },
        reversibility: Reversibility::Irreversible,
    };
    assert!(matches!(
        validate_step_semantics(&step, &semantic_identity(), &semantic_decision()),
        Err(ExecutionIntentError::FrozenIdentityMismatch(_))
    ));
}

#[test]
fn mapping_preserves_every_source_step_exactly_once() {
    let source = vec![
        PlanStep {
            id: 1,
            depends_on: vec![],
            operation: Operation::RevalidateSnapshot,
            reversibility: Reversibility::NotApplicable,
        },
        PlanStep {
            id: 2,
            depends_on: vec![1],
            operation: Operation::BackupLvmMetadata {
                vg_uuid: "vg-1".into(),
            },
            reversibility: Reversibility::Reversible,
        },
        PlanStep {
            id: 3,
            depends_on: vec![1],
            operation: Operation::BackupPartitionTableMetadata {
                disk: "/dev/vda".into(),
                table_label: "gpt".into(),
                table_id: Some("gpt-1".into()),
            },
            reversibility: Reversibility::Reversible,
        },
        PlanStep {
            id: 4,
            depends_on: vec![3],
            operation: Operation::ExtendPartition {
                partition: "/dev/vda1".into(),
                start_sector: 2048,
                old_size_sectors: 4096,
                new_size_sectors: 8192,
                sector_size_bytes: 512,
            },
            reversibility: Reversibility::Irreversible,
        },
        PlanStep {
            id: 5,
            depends_on: vec![2],
            operation: Operation::ExtendLogicalVolume {
                lv_uuid: "lv-1".into(),
                additional_extents: 256,
                expected_lv_size_bytes: 9 * 1024 * 1024 * 1024,
            },
            reversibility: Reversibility::Irreversible,
        },
        PlanStep {
            id: 6,
            depends_on: vec![4, 5],
            operation: Operation::GrowFilesystem {
                fs_type: "ext4".into(),
                mountpoint: "/".into(),
            },
            reversibility: Reversibility::Irreversible,
        },
        PlanStep {
            id: 7,
            depends_on: vec![6],
            operation: Operation::RediscoverAndVerify,
            reversibility: Reversibility::NotApplicable,
        },
    ];

    let frozen = source.iter().map(translate_step).collect::<Vec<_>>();

    assert_eq!(frozen.len(), source.len());
    assert_eq!(
        frozen
            .iter()
            .map(|step| step.plan_step_id)
            .collect::<Vec<_>>(),
        source.iter().map(|step| step.id).collect::<Vec<_>>()
    );
    assert_eq!(
        frozen
            .iter()
            .map(|step| step.depends_on.clone())
            .collect::<Vec<_>>(),
        source
            .iter()
            .map(|step| step.depends_on.clone())
            .collect::<Vec<_>>()
    );
    assert_eq!(
        frozen
            .iter()
            .filter(|step| step.role == FrozenIntentRole::MutationCandidate)
            .count(),
        3
    );
    assert!(matches!(
        frozen[2].action,
        FrozenIntentAction::BackupPartitionTableMetadata { .. }
    ));
    assert!(matches!(
        frozen[3].action,
        FrozenIntentAction::ExtendPartition { .. }
    ));
}
