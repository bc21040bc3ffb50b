use storage_executor::model::Reversibility;
use storage_executor::native_operation::{kind_of_operation, NATIVE_OPERATION_ALLOWLIST};
use storage_executor::{
    build_native_operation_spec, classify_frozen_intent_action, compile_native_manifest_parts,
    compile_native_step, compile_native_steps, compile_native_verification_barrier,
    compile_native_verification_barriers, validate_native_manifest, FrozenIntentAction,
    FrozenIntentRole, FrozenIntentStep, NativeCompiledManifest, NativeCompiledStep,
    NativeManifestValidationError, NativeOperationKind, NativeOperationSpec,
    NativeVerificationBarrier, VerificationBarrierSpec,
};

fn graph_step(plan_step_id: u32, depends_on: Vec<u32>) -> NativeCompiledStep {
    NativeCompiledStep {
        plan_step_id,
        depends_on,
        reversibility: Reversibility::NotApplicable,
        role: FrozenIntentRole::PreExecutionEvidence,
        operation: NativeOperationSpec::RevalidateSnapshot,
    }
}

#[test]
fn native_manifest_dependency_graph_fails_closed() {
    let manifest = |steps| NativeCompiledManifest {
        source_manifest_id: "dependency-graph-test".into(),
        steps,
        verification_barriers: vec![],
    };

    assert_eq!(
        validate_native_manifest(&manifest(vec![
            graph_step(1, vec![]),
            graph_step(2, vec![1]),
        ])),
        Ok(())
    );
    assert_eq!(
        validate_native_manifest(&manifest(vec![graph_step(0, vec![])])),
        Err(NativeManifestValidationError::ZeroStepId)
    );
    assert_eq!(
        validate_native_manifest(&manifest(vec![
            graph_step(1, vec![]),
            graph_step(1, vec![]),
        ])),
        Err(NativeManifestValidationError::DuplicateStepId(1))
    );
    assert_eq!(
        validate_native_manifest(&manifest(vec![graph_step(2, vec![99])])),
        Err(NativeManifestValidationError::UnknownDependency {
            step_id: 2,
            dependency: 99,
        })
    );
    assert_eq!(
        validate_native_manifest(&manifest(vec![graph_step(3, vec![3])])),
        Err(NativeManifestValidationError::SelfDependency(3))
    );
    assert_eq!(
        validate_native_manifest(&manifest(vec![
            graph_step(4, vec![5]),
            graph_step(5, vec![4]),
        ])),
        Err(NativeManifestValidationError::DependencyCycle)
    );
}

#[test]
fn native_manifest_validation_fails_closed_on_barrier_mismatch() {
    let step = NativeCompiledStep {
        plan_step_id: 31,
        depends_on: vec![],
        reversibility: Reversibility::Irreversible,
        role: FrozenIntentRole::MutationCandidate,
        operation: NativeOperationSpec::ExtendLogicalVolume {
            lv_uuid: "lv-validation-test".into(),
            additional_extents: 3,
            expected_lv_size_bytes: 32 * 1024 * 1024,
        },
    };
    let barrier = NativeVerificationBarrier {
        after_plan_step_id: 31,
        before_next_mutation: true,
        require_fresh_target_identity: true,
        require_fresh_capabilities: true,
        require_expected_state_check: true,
        stop_on_mismatch: true,
    };
    let valid = NativeCompiledManifest {
        source_manifest_id: "manifest-validation-test".into(),
        steps: vec![step],
        verification_barriers: vec![barrier],
    };

    assert_eq!(validate_native_manifest(&valid), Ok(()));

    let mut missing = valid.clone();
    missing.verification_barriers.clear();
    assert_eq!(
        validate_native_manifest(&missing),
        Err(NativeManifestValidationError::MissingVerificationBarrier(
            31
        ))
    );

    let mut duplicate = valid.clone();
    duplicate
        .verification_barriers
        .push(duplicate.verification_barriers[0]);
    assert_eq!(
        validate_native_manifest(&duplicate),
        Err(NativeManifestValidationError::DuplicateVerificationBarrier(
            31
        ))
    );

    let mut unexpected = valid.clone();
    unexpected.steps[0].operation = NativeOperationSpec::RevalidateSnapshot;
    assert_eq!(
        validate_native_manifest(&unexpected),
        Err(NativeManifestValidationError::UnexpectedVerificationBarrier(31))
    );

    let mut unsafe_barrier = valid.clone();
    unsafe_barrier.verification_barriers[0].stop_on_mismatch = false;
    assert_eq!(
        validate_native_manifest(&unsafe_barrier),
        Err(NativeManifestValidationError::UnsafeVerificationBarrier(31))
    );
}

#[test]
fn native_manifest_parts_combine_steps_and_barriers_without_reordering() {
    let steps = vec![FrozenIntentStep {
        plan_step_id: 5,
        depends_on: vec![],
        reversibility: Reversibility::NotApplicable,
        role: FrozenIntentRole::PreExecutionEvidence,
        action: FrozenIntentAction::RevalidateSnapshot,
    }];
    let barriers = vec![VerificationBarrierSpec {
        after_plan_step_id: 5,
        before_next_mutation: true,
        require_fresh_target_identity: true,
        require_fresh_capabilities: true,
        require_expected_state_check: true,
        stop_on_mismatch: true,
    }];

    let compiled = compile_native_manifest_parts("intent-test", &steps, &barriers);

    assert_eq!(compiled.source_manifest_id, "intent-test");
    assert_eq!(compiled.steps.len(), 1);
    assert_eq!(compiled.steps[0].plan_step_id, 5);
    assert_eq!(compiled.verification_barriers.len(), 1);
    assert_eq!(compiled.verification_barriers[0].after_plan_step_id, 5);
}

#[test]
fn native_verification_barrier_list_preserves_source_order() {
    let barriers = vec![
        VerificationBarrierSpec {
            after_plan_step_id: 7,
            before_next_mutation: true,
            require_fresh_target_identity: true,
            require_fresh_capabilities: true,
            require_expected_state_check: true,
            stop_on_mismatch: true,
        },
        VerificationBarrierSpec {
            after_plan_step_id: 19,
            before_next_mutation: true,
            require_fresh_target_identity: true,
            require_fresh_capabilities: true,
            require_expected_state_check: true,
            stop_on_mismatch: true,
        },
    ];

    let compiled = compile_native_verification_barriers(&barriers);

    assert_eq!(
        compiled
            .iter()
            .map(|barrier| barrier.after_plan_step_id)
            .collect::<Vec<_>>(),
        vec![7, 19]
    );
    assert!(compiled.iter().all(|barrier| barrier.stop_on_mismatch));
}

#[test]
fn native_verification_barrier_preserves_all_fail_closed_requirements() {
    let barrier = VerificationBarrierSpec {
        after_plan_step_id: 77,
        before_next_mutation: true,
        require_fresh_target_identity: true,
        require_fresh_capabilities: true,
        require_expected_state_check: true,
        stop_on_mismatch: true,
    };

    assert_eq!(
        compile_native_verification_barrier(&barrier),
        NativeVerificationBarrier {
            after_plan_step_id: 77,
            before_next_mutation: true,
            require_fresh_target_identity: true,
            require_fresh_capabilities: true,
            require_expected_state_check: true,
            stop_on_mismatch: true,
        }
    );
}

#[test]
fn native_step_list_compiler_preserves_source_order() {
    let steps = vec![
        FrozenIntentStep {
            plan_step_id: 10,
            depends_on: vec![],
            reversibility: Reversibility::NotApplicable,
            role: FrozenIntentRole::PreExecutionEvidence,
            action: FrozenIntentAction::RevalidateSnapshot,
        },
        FrozenIntentStep {
            plan_step_id: 11,
            depends_on: vec![10],
            reversibility: Reversibility::NotApplicable,
            role: FrozenIntentRole::Verification,
            action: FrozenIntentAction::RediscoverAndVerify,
        },
    ];

    let compiled = compile_native_steps(&steps);

    assert_eq!(
        compiled
            .iter()
            .map(|step| step.plan_step_id)
            .collect::<Vec<_>>(),
        vec![10, 11]
    );
    assert_eq!(compiled[1].depends_on, vec![10]);
    assert_eq!(
        compiled[0].operation,
        NativeOperationSpec::RevalidateSnapshot
    );
    assert_eq!(
        compiled[1].operation,
        NativeOperationSpec::RediscoverAndVerify
    );
}

#[test]
fn native_step_compiler_preserves_frozen_step_semantics() {
    let step = FrozenIntentStep {
        plan_step_id: 42,
        depends_on: vec![3, 9],
        reversibility: Reversibility::Irreversible,
        role: FrozenIntentRole::MutationCandidate,
        action: FrozenIntentAction::ExtendLogicalVolume {
            lv_uuid: "lv-step-test".into(),
            additional_extents: 11,
            expected_lv_size_bytes: 128 * 1024 * 1024,
        },
    };

    assert_eq!(
        compile_native_step(&step),
        NativeCompiledStep {
            plan_step_id: 42,
            depends_on: vec![3, 9],
            reversibility: Reversibility::Irreversible,
            role: FrozenIntentRole::MutationCandidate,
            operation: NativeOperationSpec::ExtendLogicalVolume {
                lv_uuid: "lv-step-test".into(),
                additional_extents: 11,
                expected_lv_size_bytes: 128 * 1024 * 1024,
            },
        }
    );
}

#[test]
fn native_operation_allowlist_is_exact() {
    assert_eq!(
        NATIVE_OPERATION_ALLOWLIST,
        [
            NativeOperationKind::RevalidateSnapshot,
            NativeOperationKind::BackupLvmMetadata,
            NativeOperationKind::BackupPartitionTableMetadata,
            NativeOperationKind::ExtendPartition,
            NativeOperationKind::ExtendLogicalVolume,
            NativeOperationKind::GrowFilesystem,
            NativeOperationKind::RediscoverAndVerify,
        ]
    );
}

#[test]
fn only_growth_operations_are_mutation_candidates() {
    for operation in NATIVE_OPERATION_ALLOWLIST {
        let expected = matches!(
            operation,
            NativeOperationKind::ExtendPartition
                | NativeOperationKind::ExtendLogicalVolume
                | NativeOperationKind::GrowFilesystem
        );
        assert_eq!(operation.is_mutation_candidate(), expected);
    }
}

#[test]
fn native_partition_backup_spec_preserves_exact_table_identity() {
    let action = FrozenIntentAction::BackupPartitionTableMetadata {
        disk: "/dev/test".into(),
        table_label: "gpt".into(),
        table_id: Some("A1B2-C3D4".into()),
    };

    assert_eq!(
        build_native_operation_spec(&action),
        NativeOperationSpec::BackupPartitionTableMetadata {
            disk: "/dev/test".into(),
            table_label: "gpt".into(),
            table_id: Some("A1B2-C3D4".into()),
        }
    );
}

#[test]
fn native_lvm_backup_spec_preserves_exact_vg_identity() {
    let action = FrozenIntentAction::BackupLvmMetadata {
        vg_uuid: "vg-uuid-test".into(),
    };

    assert_eq!(
        build_native_operation_spec(&action),
        NativeOperationSpec::BackupLvmMetadata {
            vg_uuid: "vg-uuid-test".into(),
        }
    );
}

#[test]
fn native_partition_spec_preserves_exact_geometry() {
    let action = FrozenIntentAction::ExtendPartition {
        partition: "/dev/test1".into(),
        start_sector: 2048,
        old_size_sectors: 4096,
        new_size_sectors: 8192,
        sector_size_bytes: 4096,
    };

    assert_eq!(
        build_native_operation_spec(&action),
        NativeOperationSpec::ExtendPartition {
            partition: "/dev/test1".into(),
            start_sector: 2048,
            old_size_sectors: 4096,
            new_size_sectors: 8192,
            sector_size_bytes: 4096,
        }
    );
}

#[test]
fn native_lv_spec_preserves_exact_identity_and_growth() {
    let action = FrozenIntentAction::ExtendLogicalVolume {
        lv_uuid: "lv-test".into(),
        additional_extents: 17,
        expected_lv_size_bytes: 64 * 1024 * 1024,
    };

    assert_eq!(
        build_native_operation_spec(&action),
        NativeOperationSpec::ExtendLogicalVolume {
            lv_uuid: "lv-test".into(),
            additional_extents: 17,
            expected_lv_size_bytes: 64 * 1024 * 1024,
        }
    );
}

#[test]
fn native_filesystem_spec_preserves_exact_type_and_mountpoint() {
    let action = FrozenIntentAction::GrowFilesystem {
        fs_type: "xfs".into(),
        mountpoint: "/srv/data".into(),
    };

    assert_eq!(
        build_native_operation_spec(&action),
        NativeOperationSpec::GrowFilesystem {
            fs_type: "xfs".into(),
            mountpoint: Some("/srv/data".into()),
        }
    );
}

#[test]
fn native_rediscover_spec_is_exact_verification_marker() {
    assert_eq!(
        build_native_operation_spec(&FrozenIntentAction::RediscoverAndVerify),
        NativeOperationSpec::RediscoverAndVerify
    );
}

#[test]
fn frozen_intent_actions_map_to_exact_native_kinds() {
    let cases = [
        (
            FrozenIntentAction::RevalidateSnapshot,
            NativeOperationKind::RevalidateSnapshot,
        ),
        (
            FrozenIntentAction::BackupLvmMetadata {
                vg_uuid: "vg-test".into(),
            },
            NativeOperationKind::BackupLvmMetadata,
        ),
        (
            FrozenIntentAction::BackupPartitionTableMetadata {
                disk: "/dev/test".into(),
                table_label: "gpt".into(),
                table_id: None,
            },
            NativeOperationKind::BackupPartitionTableMetadata,
        ),
        (
            FrozenIntentAction::ExtendPartition {
                partition: "/dev/test1".into(),
                start_sector: 2048,
                old_size_sectors: 4096,
                new_size_sectors: 8192,
                sector_size_bytes: 512,
            },
            NativeOperationKind::ExtendPartition,
        ),
        (
            FrozenIntentAction::ExtendLogicalVolume {
                lv_uuid: "lv-test".into(),
                additional_extents: 4,
                expected_lv_size_bytes: 16 * 1024 * 1024,
            },
            NativeOperationKind::ExtendLogicalVolume,
        ),
        (
            FrozenIntentAction::GrowFilesystem {
                fs_type: "ext4".into(),
                mountpoint: "/mnt/test".into(),
            },
            NativeOperationKind::GrowFilesystem,
        ),
        (
            FrozenIntentAction::RediscoverAndVerify,
            NativeOperationKind::RediscoverAndVerify,
        ),
    ];

    for (action, expected) in cases {
        assert_eq!(classify_frozen_intent_action(&action), expected);
    }
}

#[test]
fn kinds_of_operations_agree_with_kinds_of_actions() {
    let action = FrozenIntentAction::GrowFilesystem {
        fs_type: "ext4".into(),
        mountpoint: "/mnt/test".into(),
    };
    let operation = build_native_operation_spec(&action);
    assert_eq!(
        kind_of_operation(&operation),
        classify_frozen_intent_action(&action)
    );
    assert_eq!(
        kind_of_operation(&NativeOperationSpec::ResizePhysicalVolume {
            pv_uuid: "pv".into(),
            expected_pv_size_bytes: 1,
        }),
        NativeOperationKind::ResizePhysicalVolume
    );
    assert!(NativeOperationKind::ResizePhysicalVolume.is_mutation_candidate());
}

#[test]
fn graph_faults_are_reported_before_barrier_faults() {
    let manifest = NativeCompiledManifest {
        source_manifest_id: "order".into(),
        steps: vec![graph_step(1, vec![1])],
        verification_barriers: vec![NativeVerificationBarrier {
            after_plan_step_id: 9,
            before_next_mutation: false,
            require_fresh_target_identity: false,
            require_fresh_capabilities: false,
            require_expected_state_check: false,
            stop_on_mismatch: false,
        }],
    };
    assert_eq!(
        validate_native_manifest(&manifest),
        Err(NativeManifestValidationError::SelfDependency(1))
    );
}

#[test]
fn longer_dependency_cycles_are_found_and_diamonds_are_not() {
    let manifest = |steps| NativeCompiledManifest {
        source_manifest_id: "cycles".into(),
        steps,
        verification_barriers: vec![],
    };
    assert_eq!(
        validate_native_manifest(&manifest(vec![
            graph_step(1, vec![3]),
            graph_step(2, vec![1]),
            graph_step(3, vec![2]),
            graph_step(4, vec![]),
        ])),
        Err(NativeManifestValidationError::DependencyCycle)
    );
    assert_eq!(
        validate_native_manifest(&manifest(vec![
            graph_step(4, vec![2, 3]),
            graph_step(3, vec![1]),
            graph_step(2, vec![1]),
            graph_step(1, vec![]),
        ])),
        Ok(())
    );
}
