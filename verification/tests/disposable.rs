use storage_executor::disposable_argv::compile_verified_disposable_next_command;
use storage_executor::disposable_exec::{
    conclude_disposable_command, exact_safe_system_tool_path, loop_device_name, loop_number,
    root_owned_non_writable_directory_chain, stderr_summary, validate_live_loop,
    validate_tool_path, DirectoryStatus, LinkStatus, LinkedTool, LiveLoopProbe, ProcessReport,
    ToolFileProbe, ToolStatus,
};
use storage_executor::disposable_ownership::{BackingFileProbe, BackingFileStatus};
use storage_executor::disposable_permit::verify_target_owned_by_loop;
use storage_executor::disposable_start::build_binding;
use storage_executor::disposable_verify::{
    verify_boundary_state, verify_terminal_filesystem_state,
};
use storage_executor::model::{
    BindingIntegrity, DeviceIdentity, ExecutionStartBinding, FilesystemIdentity, LayerRouteStatus,
    LvmIdentity, LvmIdentityKind, MountIdentity, NodeKind, Reversibility, TargetIdentityManifest,
};
use storage_executor::native_operation::{
    validate_and_bind_native_manifest, ValidatedNativeManifest,
};
use storage_executor::{
    bind_disposable_execution_permit, bind_verified_disposable_execution_permit,
    capture_disposable_loop_ownership, compile_disposable_lvm_growth_commands,
    revalidate_disposable_loop_ownership, verify_disposable_loop_association_row,
    DisposableArgvError, DisposableBoundaryVerificationError, DisposableCommandPlan,
    DisposableExecutionError, DisposableExecutionPermit,
    DisposableLoopAssociation, DisposableLoopAssociationError, DisposableLoopOwnershipProof,
    DisposableOwnershipError, DisposablePermitError, DisposableProgram, DisposableToolPaths,
    DisposableVerifiedBoundary, FrozenIntentRole, NativeCompiledManifest, NativeCompiledStep,
    NativeOperationKind, NativeOperationSpec, NativeVerificationBarrier,
};

const GIB: u64 = 1024 * 1024 * 1024;

fn digest(byte: char) -> String {
    std::iter::repeat_n(byte, 64).collect()
}

fn logical_volume(size_bytes: u64) -> LvmIdentity {
    LvmIdentity {
        kind: LvmIdentityKind::LogicalVolume,
        name: "/dev/vg0/root".into(),
        uuid: Some("lv-1".into()),
        size_bytes,
        free_bytes: None,
        pe_start_bytes: None,
        extent_size_bytes: None,
        free_extent_count: None,
        pv_count: None,
        lv_count: None,
        attributes: Some("-wi-ao----".into()),
        layout: Some("linear".into()),
        role: Some("public".into()),
    }
}

fn physical_volume(size_bytes: u64, free_bytes: u64) -> LvmIdentity {
    LvmIdentity {
        kind: LvmIdentityKind::PhysicalVolume,
        name: "/dev/loop7p1".into(),
        uuid: Some("pv-1".into()),
        size_bytes,
        free_bytes: Some(free_bytes),
        pe_start_bytes: None,
        extent_size_bytes: None,
        free_extent_count: None,
        pv_count: None,
        lv_count: None,
        attributes: Some("a--".into()),
        layout: None,
        role: None,
    }
}

fn identity(fs_type: &str, mountpoint: &str) -> TargetIdentityManifest {
    TargetIdentityManifest {
        schema_version: 1,
        target: mountpoint.to_owned(),
        manifest_digest: "identity-test".into(),
        resolved_device: "/dev/mapper/vg0-root".into(),
        route_status: LayerRouteStatus::SupportedProfile,
        route_issue_codes: vec![],
        devices: vec![],
        partitions: vec![],
        lvm: vec![logical_volume(8 * GIB)],
        filesystem: Some(FilesystemIdentity {
            device: "/dev/mapper/vg0-root".into(),
            fs_type: fs_type.to_owned(),
            fs_version: Some("test".into()),
            uuid: Some("fs-1".into()),
            backing_device_size_bytes: 8 * GIB,
            observed_filesystem_size_bytes: Some(8 * GIB),
        }),
        mounts: vec![MountIdentity {
            target: mountpoint.to_owned(),
            source: Some("/dev/mapper/vg0-root".into()),
            fs_type: Some(fs_type.to_owned()),
            options: vec!["rw".into()],
        }],
    }
}

fn pv_identity(fs_type: &str, mountpoint: &str) -> TargetIdentityManifest {
    let mut identity = identity(fs_type, mountpoint);
    identity.devices.push(DeviceIdentity {
        kind: NodeKind::Partition,
        path: "/dev/loop7p1".into(),
        kernel_name: Some("loop7p1".into()),
        parent_kernel_name: Some("loop7".into()),
        size_bytes: 12 * GIB,
        start_512_sector: Some(2048),
        logical_sector_bytes: Some(512),
        uuid: None,
        partition_uuid: Some("part-1".into()),
        model: None,
        serial: None,
        filesystem_type: Some("LVM2_member".into()),
    });
    identity.lvm.insert(0, physical_volume(10 * GIB, 2 * GIB));
    identity
}

fn barrier(after_plan_step_id: u32) -> NativeVerificationBarrier {
    NativeVerificationBarrier {
        after_plan_step_id,
        before_next_mutation: true,
        require_fresh_target_identity: true,
        require_fresh_capabilities: true,
        require_expected_state_check: true,
        stop_on_mismatch: true,
    }
}

fn mutation(
    plan_step_id: u32,
    depends_on: Vec<u32>,
    operation: NativeOperationSpec,
) -> NativeCompiledStep {
    NativeCompiledStep {
        plan_step_id,
        depends_on,
        reversibility: Reversibility::Irreversible,
        role: FrozenIntentRole::MutationCandidate,
        operation,
    }
}

fn grow_lv() -> NativeOperationSpec {
    NativeOperationSpec::ExtendLogicalVolume {
        lv_uuid: "lv-1".into(),
        additional_extents: 4,
        expected_lv_size_bytes: 9 * GIB,
    }
}

fn grow_fs(fs_type: &str, mountpoint: &str) -> NativeOperationSpec {
    NativeOperationSpec::GrowFilesystem {
        fs_type: fs_type.to_owned(),
        mountpoint: Some(mountpoint.to_owned()),
    }
}

fn validated_manifest(fs_type: &str, mountpoint: &str) -> ValidatedNativeManifest {
    validate_and_bind_native_manifest(NativeCompiledManifest {
        source_manifest_id: "source-intent".into(),
        steps: vec![
            mutation(3, vec![], grow_lv()),
            mutation(4, vec![3], grow_fs(fs_type, mountpoint)),
        ],
        verification_barriers: vec![barrier(3), barrier(4)],
    })
    .unwrap()
}

fn validated_pv_manifest() -> ValidatedNativeManifest {
    validate_and_bind_native_manifest(NativeCompiledManifest {
        source_manifest_id: "source-pv-intent".into(),
        steps: vec![
            mutation(
                3,
                vec![],
                NativeOperationSpec::ResizePhysicalVolume {
                    pv_uuid: "pv-1".into(),
                    expected_pv_size_bytes: 11 * GIB,
                },
            ),
            mutation(4, vec![3], grow_lv()),
            mutation(5, vec![4], grow_fs("ext4", "/")),
        ],
        verification_barriers: vec![barrier(3), barrier(4), barrier(5)],
    })
    .unwrap()
}

#[test]
fn ext4_profile_compiles_exact_non_shell_argv() {
    let validated = validated_manifest("ext4", "/");
    let plan = compile_disposable_lvm_growth_commands(&validated, &identity("ext4", "/")).unwrap();

    assert_eq!(plan.native_manifest_digest(), validated.digest());
    assert_eq!(plan.fresh_identity_digest(), "identity-test");
    assert_eq!(plan.commands().len(), 2);
    assert_eq!(plan.commands()[0].plan_step_id(), 3);
    assert_eq!(plan.commands()[0].program(), DisposableProgram::Lvextend);
    assert_eq!(
        *plan.commands()[0].args(),
        ["--extents", "+4", "--", "/dev/vg0/root"]
    );
    assert_eq!(plan.commands()[1].plan_step_id(), 4);
    assert_eq!(plan.commands()[1].program(), DisposableProgram::Resize2fs);
    assert_eq!(*plan.commands()[1].args(), ["/dev/mapper/vg0-root"]);
}

#[test]
fn pv_lv_filesystem_profile_compiles_exact_pvresize_argv() {
    let validated = validated_pv_manifest();
    let plan =
        compile_disposable_lvm_growth_commands(&validated, &pv_identity("ext4", "/")).unwrap();

    assert_eq!(plan.commands().len(), 3);
    assert_eq!(plan.commands()[0].program(), DisposableProgram::Pvresize);
    assert_eq!(
        *plan.commands()[0].args(),
        [
            "--setphysicalvolumesize",
            "11811160064B",
            "--yes",
            "--",
            "/dev/loop7p1"
        ]
    );
    assert_eq!(plan.commands()[1].program(), DisposableProgram::Lvextend);
    assert_eq!(plan.commands()[2].program(), DisposableProgram::Resize2fs);
}

#[test]
fn verified_post_pv_identity_compiles_only_lv_command() {
    let validated = validated_pv_manifest();
    let mut fresh = pv_identity("ext4", "/");
    fresh.manifest_digest = "post-pv-identity".into();
    fresh.lvm[0].size_bytes = 11 * GIB;

    let plan = compile_verified_disposable_next_command(&validated, &fresh, 4).unwrap();

    assert_eq!(plan.commands().len(), 1);
    assert_eq!(plan.commands()[0].plan_step_id(), 4);
    assert_eq!(plan.commands()[0].program(), DisposableProgram::Lvextend);
    assert_eq!(
        *plan.commands()[0].args(),
        ["--extents", "+4", "--", "/dev/vg0/root"]
    );
}

#[test]
fn pv_growth_requires_exact_uuid_and_proven_backing_capacity() {
    let validated = validated_pv_manifest();
    let mut fresh = pv_identity("ext4", "/");
    fresh.lvm[0].uuid = Some("other-pv".into());
    assert_eq!(
        compile_disposable_lvm_growth_commands(&validated, &fresh),
        Err(DisposableArgvError::PhysicalVolumeIdentityNotUnique(
            "pv-1".into()
        ))
    );

    let mut fresh = pv_identity("ext4", "/");
    fresh.devices.last_mut().unwrap().size_bytes = 10 * GIB;
    assert_eq!(
        compile_disposable_lvm_growth_commands(&validated, &fresh),
        Err(DisposableArgvError::PhysicalVolumeBackingNotProven)
    );
}

#[test]
fn xfs_profile_compiles_exact_mountpoint_argv() {
    let validated = validated_manifest("xfs", "/srv/data");
    let plan =
        compile_disposable_lvm_growth_commands(&validated, &identity("xfs", "/srv/data")).unwrap();

    assert_eq!(plan.commands()[1].program(), DisposableProgram::XfsGrowfs);
    assert_eq!(*plan.commands()[1].args(), ["-d", "/srv/data"]);
}

#[test]
fn verified_post_lv_identity_compiles_only_filesystem_command() {
    let validated = validated_manifest("ext4", "/");
    let mut fresh = identity("ext4", "/");
    fresh.manifest_digest = "post-lv-identity".into();
    fresh.lvm[0].size_bytes = 9 * GIB;
    let filesystem = fresh.filesystem.as_mut().unwrap();
    filesystem.backing_device_size_bytes = 9 * GIB;
    filesystem.observed_filesystem_size_bytes = Some(8 * GIB);

    let plan = compile_verified_disposable_next_command(&validated, &fresh, 4).unwrap();

    assert_eq!(plan.fresh_identity_digest(), "post-lv-identity");
    assert_eq!(plan.commands().len(), 1);
    assert_eq!(plan.commands()[0].plan_step_id(), 4);
    assert_eq!(plan.commands()[0].program(), DisposableProgram::Resize2fs);
    assert_eq!(*plan.commands()[0].args(), ["/dev/mapper/vg0-root"]);
}

#[test]
fn verified_continuation_rejects_wrong_step_or_missing_growth_room() {
    let validated = validated_manifest("xfs", "/srv/data");
    let mut fresh = identity("xfs", "/srv/data");
    fresh.manifest_digest = "post-lv-identity".into();
    fresh.lvm[0].size_bytes = 9 * GIB;
    let filesystem = fresh.filesystem.as_mut().unwrap();
    filesystem.backing_device_size_bytes = 9 * GIB;
    filesystem.observed_filesystem_size_bytes = Some(8 * GIB);

    assert_eq!(
        compile_verified_disposable_next_command(&validated, &fresh, 3),
        Err(DisposableArgvError::UnsupportedMutationProfile)
    );

    fresh
        .filesystem
        .as_mut()
        .unwrap()
        .observed_filesystem_size_bytes = Some(9 * GIB);
    assert_eq!(
        compile_verified_disposable_next_command(&validated, &fresh, 4),
        Err(DisposableArgvError::FilesystemGrowthNotProven)
    );
}

#[test]
fn partition_mutation_remains_rejected() {
    let validated = validate_and_bind_native_manifest(NativeCompiledManifest {
        source_manifest_id: "unsupported-mutation".into(),
        steps: vec![mutation(
            1,
            vec![],
            NativeOperationSpec::ExtendPartition {
                partition: "/dev/loop0p1".into(),
                start_sector: 2048,
                old_size_sectors: 4096,
                new_size_sectors: 8192,
                sector_size_bytes: 512,
            },
        )],
        verification_barriers: vec![barrier(1)],
    })
    .unwrap();

    assert_eq!(
        compile_disposable_lvm_growth_commands(&validated, &identity("ext4", "/")),
        Err(DisposableArgvError::UnsupportedMutation(
            NativeOperationKind::ExtendPartition
        ))
    );
}

#[test]
fn stale_or_ambiguous_lv_identity_fails_closed() {
    let validated = validated_manifest("ext4", "/");
    let mut fresh = identity("ext4", "/");
    fresh.lvm[0].uuid = Some("different-lv".into());

    assert_eq!(
        compile_disposable_lvm_growth_commands(&validated, &fresh),
        Err(DisposableArgvError::LogicalVolumeIdentityNotUnique(
            "lv-1".into()
        ))
    );
}

#[test]
fn filesystem_identity_mismatch_fails_closed() {
    let validated = validated_manifest("ext4", "/");
    let mut fresh = identity("ext4", "/");
    fresh.filesystem.as_mut().unwrap().device = "/dev/mapper/other".into();

    assert_eq!(
        compile_disposable_lvm_growth_commands(&validated, &fresh),
        Err(DisposableArgvError::FilesystemIdentityMismatch)
    );
}

#[test]
fn every_other_growth_refusal_has_an_input() {
    let validated = validated_manifest("ext4", "/");
    let refusal = |fresh: &TargetIdentityManifest| {
        compile_disposable_lvm_growth_commands(&validated, fresh).unwrap_err()
    };

    let mut fresh = identity("ext4", "/");
    fresh.lvm[0].name = "vg0/root".into();
    assert_eq!(refusal(&fresh), DisposableArgvError::UnsafeLogicalVolumePath);

    let mut fresh = identity("ext4", "/");
    fresh.lvm[0].size_bytes = 9 * GIB;
    assert_eq!(
        refusal(&fresh),
        DisposableArgvError::LogicalVolumeGrowthMismatch
    );

    let mut fresh = identity("ext4", "/");
    fresh.filesystem = None;
    assert_eq!(
        refusal(&fresh),
        DisposableArgvError::FilesystemIdentityMissing
    );

    let mut fresh = identity("ext4", "/");
    fresh.mounts.clear();
    assert_eq!(
        refusal(&fresh),
        DisposableArgvError::FilesystemMountNotUnique
    );

    let other = validated_manifest("btrfs", "/");
    assert_eq!(
        compile_disposable_lvm_growth_commands(&other, &identity("btrfs", "/")),
        Err(DisposableArgvError::UnsupportedFilesystem("btrfs".into()))
    );

    let mut fresh = pv_identity("ext4", "/");
    fresh.lvm[0].size_bytes = 11 * GIB;
    assert_eq!(
        compile_disposable_lvm_growth_commands(&validated_pv_manifest(), &fresh),
        Err(DisposableArgvError::PhysicalVolumeGrowthMismatch)
    );
    let mut fresh = pv_identity("ext4", "/");
    fresh.lvm[0].name = "loop7p1".into();
    assert_eq!(
        compile_disposable_lvm_growth_commands(&validated_pv_manifest(), &fresh),
        Err(DisposableArgvError::UnsafePhysicalVolumePath)
    );

    let empty = validate_and_bind_native_manifest(NativeCompiledManifest {
        source_manifest_id: "empty".into(),
        steps: vec![],
        verification_barriers: vec![],
    })
    .unwrap();
    assert_eq!(
        compile_disposable_lvm_growth_commands(&empty, &identity("ext4", "/")),
        Err(DisposableArgvError::UnsupportedMutationProfile)
    );
}

#[test]
fn unsafe_device_and_mountpoint_are_refused() {
    let mut fresh = identity("ext4", "/");
    fresh.resolved_device = "/sys/dm-0".into();
    fresh.filesystem.as_mut().unwrap().device = "/sys/dm-0".into();
    assert_eq!(
        compile_disposable_lvm_growth_commands(&validated_manifest("ext4", "/"), &fresh),
        Err(DisposableArgvError::UnsafeFilesystemDevicePath)
    );
    let fresh = identity("xfs", "srv");
    assert_eq!(
        compile_disposable_lvm_growth_commands(&validated_manifest("xfs", "srv"), &fresh),
        Err(DisposableArgvError::UnsafeFilesystemMountpoint)
    );
}

#[test]
fn stderr_summary_is_bounded() {
    let stderr = vec![b'x'; 5000];
    assert_eq!(stderr_summary(&stderr).len(), 4096);
}

#[test]
fn stderr_summary_replaces_what_is_no_text() {
    assert_eq!(stderr_summary(b"no \xff text"), "no \u{fffd} text");
    assert_eq!(stderr_summary("caf\u{e9}".as_bytes()), "caf\u{e9}");
}

#[test]
fn loop_device_parser_rejects_partitions_and_non_loop_paths() {
    assert_eq!(loop_device_name("/dev/loop0").as_deref(), Some("loop0"));
    assert_eq!(loop_device_name("/dev/loop42").as_deref(), Some("loop42"));
    assert_eq!(loop_device_name("/dev/loop0p1"), None);
    assert_eq!(loop_device_name("/dev/sda"), None);
    assert_eq!(loop_device_name("loop0"), None);
}

#[test]
fn loop_numbers_have_the_loop_major() {
    assert!(loop_number("7:0"));
    assert!(loop_number("7:42\n"));
    assert!(!loop_number("8:0"));
    assert!(!loop_number("7"));
}

#[test]
fn exact_loop_association_is_accepted() {
    let association = verify_disposable_loop_association_row(
        "/dev/loop7",
        "/tmp/lsm-owned/disk image.raw",
        "/dev/loop7 /tmp/lsm-owned/disk image.raw\n",
    )
    .unwrap();

    assert_eq!(association.loop_device(), "/dev/loop7");
    assert_eq!(association.backing_file(), "/tmp/lsm-owned/disk image.raw");
}

#[test]
fn device_or_backing_mismatch_fails_closed() {
    assert_eq!(
        verify_disposable_loop_association_row(
            "/dev/loop7",
            "/tmp/owned.img",
            "/dev/loop8 /tmp/owned.img",
        ),
        Err(DisposableLoopAssociationError::DeviceMismatch)
    );
    assert_eq!(
        verify_disposable_loop_association_row(
            "/dev/loop7",
            "/tmp/owned.img",
            "/dev/loop7 /tmp/other.img",
        ),
        Err(DisposableLoopAssociationError::BackingFileMismatch)
    );
}

#[test]
fn malformed_row_fails_closed() {
    assert_eq!(
        verify_disposable_loop_association_row("/dev/loop7", "/tmp/owned.img", "/dev/loop7"),
        Err(DisposableLoopAssociationError::Malformed)
    );
}

fn backing(inode: u64) -> BackingFileProbe {
    BackingFileProbe {
        canonical_parent: Some(Ok("/tmp/owned".into())),
        status: Ok(BackingFileStatus {
            regular: true,
            device: 64,
            inode,
        }),
    }
}

fn owned_root() -> Result<String, String> {
    Ok("/tmp/owned".into())
}

fn ownership() -> DisposableLoopOwnershipProof {
    capture_disposable_loop_ownership(
        "/dev/loop7",
        "/tmp/owned/owned.img",
        &owned_root(),
        &backing(11),
    )
    .unwrap()
}

#[test]
fn captures_and_revalidates_owned_regular_backing_file() {
    let proof = ownership();

    assert_eq!(proof.loop_device, "/dev/loop7");
    assert_eq!(
        revalidate_disposable_loop_ownership(&proof, &backing(11)),
        Ok(())
    );
}

#[test]
fn rejects_non_loop_and_outside_backing_file() {
    assert_eq!(
        capture_disposable_loop_ownership(
            "/dev/sda",
            "/tmp/owned/owned.img",
            &owned_root(),
            &backing(11)
        ),
        Err(DisposableOwnershipError::InvalidLoopDevice)
    );

    let outside = BackingFileProbe {
        canonical_parent: Some(Ok("/tmp/outside".into())),
        ..backing(12)
    };
    assert_eq!(
        capture_disposable_loop_ownership(
            "/dev/loop7",
            "/tmp/outside/outside.img",
            &owned_root(),
            &outside
        ),
        Err(DisposableOwnershipError::BackingFileOutsideOwnedRoot)
    );
}

#[test]
fn replacement_inode_invalidates_frozen_ownership() {
    assert_eq!(
        revalidate_disposable_loop_ownership(&ownership(), &backing(12)),
        Err(DisposableOwnershipError::BackingFileIdentityChanged)
    );
}

#[test]
fn irregular_or_unreadable_backing_file_is_refused() {
    let irregular = BackingFileProbe {
        canonical_parent: Some(Ok("/tmp/owned".into())),
        status: Ok(BackingFileStatus {
            regular: false,
            device: 64,
            inode: 11,
        }),
    };
    assert_eq!(
        revalidate_disposable_loop_ownership(&ownership(), &irregular),
        Err(DisposableOwnershipError::BackingFileNotRegular)
    );
    let unreadable = BackingFileProbe {
        canonical_parent: Some(Ok("/tmp/owned".into())),
        status: Err("gone".into()),
    };
    assert_eq!(
        revalidate_disposable_loop_ownership(&ownership(), &unreadable),
        Err(DisposableOwnershipError::Metadata("gone".into()))
    );
}

fn loop_identity(loop_device: &str) -> TargetIdentityManifest {
    let mut fresh = identity("ext4", "/mnt/test");
    fresh.manifest_digest = "fresh-id".into();
    fresh.devices = vec![DeviceIdentity {
        kind: NodeKind::Loop,
        path: loop_device.into(),
        kernel_name: Some(loop_device.trim_start_matches("/dev/").into()),
        parent_kernel_name: None,
        size_bytes: 16 * GIB,
        start_512_sector: None,
        logical_sector_bytes: Some(512),
        uuid: None,
        partition_uuid: None,
        model: None,
        serial: None,
        filesystem_type: None,
    }];
    let mut pv = physical_volume(16 * GIB, 8 * GIB);
    pv.name = format!("{loop_device}p1");
    fresh.lvm.insert(0, pv);
    fresh.filesystem.as_mut().unwrap().fs_version = Some("1.0".into());
    fresh
}

fn validated() -> ValidatedNativeManifest {
    validated_manifest("ext4", "/mnt/test")
}

fn association(loop_device: &str) -> DisposableLoopAssociation {
    verify_disposable_loop_association_row(
        loop_device,
        "/tmp/owned/owned.img",
        &format!("{loop_device} /tmp/owned/owned.img"),
    )
    .unwrap()
}

fn setup() -> (DisposableCommandPlan, TargetIdentityManifest) {
    let identity = loop_identity("/dev/loop7");
    let plan = compile_disposable_lvm_growth_commands(&validated(), &identity).unwrap();
    (plan, identity)
}

fn execution(plan: &DisposableCommandPlan) -> ExecutionStartBinding {
    ExecutionStartBinding {
        schema_version: 1,
        execution_id: digest('e'),
        journal_id: "journal".into(),
        plan_id: "plan".into(),
        approval_id: "approval".into(),
        source_manifest_id: plan.source_manifest_id().to_owned(),
        native_manifest_digest: plan.native_manifest_digest().to_owned(),
        fresh_identity_digest: plan.fresh_identity_digest().to_owned(),
        mutation_step_ids: vec![3, 4],
        approved_journal_digest: "approved-journal".into(),
        integrity: BindingIntegrity::Matches,
    }
}

fn first_permit() -> DisposableExecutionPermit {
    let (plan, identity) = setup();
    let execution = execution(&plan);
    bind_disposable_execution_permit(
        &plan,
        &identity,
        &ownership(),
        &backing(11),
        &association("/dev/loop7"),
        &execution,
        3,
    )
    .unwrap()
}

#[test]
fn binds_one_exact_command_to_owned_loop_and_fresh_identity() {
    let (plan, _) = setup();
    let permit = first_permit();

    assert_eq!(permit.execution_id(), execution(&plan).execution_id);
    assert_eq!(permit.loop_device(), "/dev/loop7");
    assert_eq!(permit.command().plan_step_id(), 3);
    assert_eq!(
        permit.native_manifest_digest(),
        plan.native_manifest_digest()
    );
}

fn grown(mut identity: TargetIdentityManifest) -> TargetIdentityManifest {
    identity.manifest_digest = "post-lv-id".into();
    identity.lvm[1].size_bytes = 9 * GIB;
    let filesystem = identity.filesystem.as_mut().unwrap();
    filesystem.backing_device_size_bytes = 9 * GIB;
    filesystem.observed_filesystem_size_bytes = Some(8 * GIB);
    identity
}

#[test]
fn verified_boundary_mints_only_fresh_filesystem_permit() {
    let (plan, identity) = setup();
    let execution = execution(&plan);
    let identity = grown(identity);

    let boundary = DisposableVerifiedBoundary::new(
        execution.execution_id.clone(),
        3,
        4,
        identity.manifest_digest.clone(),
    );
    let permit = bind_verified_disposable_execution_permit(
        &validated(),
        &identity,
        &ownership(),
        &backing(11),
        &association("/dev/loop7"),
        &execution,
        boundary,
    )
    .unwrap();

    assert_eq!(permit.execution_id(), execution.execution_id);
    assert_eq!(permit.fresh_identity_digest(), "post-lv-id");
    assert_eq!(permit.command().plan_step_id(), 4);
    assert_eq!(*permit.command().args(), ["/dev/mapper/vg0-root"]);
}

#[test]
fn stale_or_reordered_verified_boundary_fails_closed() {
    let (plan, identity) = setup();
    let execution = execution(&plan);
    let identity = grown(identity);

    let stale = DisposableVerifiedBoundary::new(
        execution.execution_id.clone(),
        3,
        4,
        "stale-post-lv-id".into(),
    );
    assert!(matches!(
        bind_verified_disposable_execution_permit(
            &validated(),
            &identity,
            &ownership(),
            &backing(11),
            &association("/dev/loop7"),
            &execution,
            stale,
        ),
        Err(DisposablePermitError::VerifiedBoundaryMismatch)
    ));

    let reordered = DisposableVerifiedBoundary::new(
        execution.execution_id.clone(),
        4,
        3,
        identity.manifest_digest.clone(),
    );
    assert!(matches!(
        bind_verified_disposable_execution_permit(
            &validated(),
            &identity,
            &ownership(),
            &backing(11),
            &association("/dev/loop7"),
            &execution,
            reordered,
        ),
        Err(DisposablePermitError::VerifiedBoundaryMismatch)
    ));
}

#[test]
fn association_or_identity_mismatch_fails_closed() {
    let (plan, mut identity) = setup();

    assert!(matches!(
        bind_disposable_execution_permit(
            &plan,
            &identity,
            &ownership(),
            &backing(11),
            &association("/dev/loop8"),
            &execution(&plan),
            3,
        ),
        Err(DisposablePermitError::AssociationOwnershipMismatch)
    ));

    identity.manifest_digest = "different".into();
    assert!(matches!(
        bind_disposable_execution_permit(
            &plan,
            &identity,
            &ownership(),
            &backing(11),
            &association("/dev/loop7"),
            &execution(&plan),
            3,
        ),
        Err(DisposablePermitError::FreshIdentityBindingMismatch)
    ));
}

#[test]
fn wrong_execution_binding_or_step_fails_closed() {
    let (plan, identity) = setup();
    let mut binding = execution(&plan);
    binding.native_manifest_digest = "different".into();
    let bind = |binding: &ExecutionStartBinding, step: u32| {
        bind_disposable_execution_permit(
            &plan,
            &identity,
            &ownership(),
            &backing(11),
            &association("/dev/loop7"),
            binding,
            step,
        )
    };

    assert!(matches!(
        bind(&binding, 3),
        Err(DisposablePermitError::ExecutionBindingMismatch)
    ));

    let binding = execution(&plan);
    assert!(matches!(
        bind(&binding, 99),
        Err(DisposablePermitError::ExecutionStepNotNext(99))
    ));
    assert!(matches!(
        bind(&binding, 4),
        Err(DisposablePermitError::ExecutionStepNotNext(4))
    ));

    let mut tampered = execution(&plan);
    tampered.integrity = BindingIntegrity::Differs;
    assert!(matches!(
        bind(&tampered, 3),
        Err(DisposablePermitError::ExecutionBindingIntegrityMismatch)
    ));
}

#[test]
fn foreign_devices_and_replaced_files_get_no_permit() {
    let (plan, identity) = setup();
    assert!(verify_target_owned_by_loop(&identity, "/dev/loop7").is_ok());
    assert!(matches!(
        verify_target_owned_by_loop(&identity, "/dev/loop70"),
        Err(DisposablePermitError::TargetNotOwnedByLoop)
    ));
    assert!(matches!(
        bind_disposable_execution_permit(
            &plan,
            &identity,
            &ownership(),
            &backing(12),
            &association("/dev/loop7"),
            &execution(&plan),
            3,
        ),
        Err(DisposablePermitError::Ownership(
            DisposableOwnershipError::BackingFileIdentityChanged
        ))
    ));
}

#[test]
fn binding_uses_exact_ordered_command_step_ids() {
    let (plan, _) = setup();
    let binding = build_binding(&plan).unwrap();

    assert_eq!(binding.source_manifest_id, plan.source_manifest_id());
    assert_eq!(
        binding.native_manifest_digest,
        plan.native_manifest_digest()
    );
    assert_eq!(binding.fresh_identity_digest, plan.fresh_identity_digest());
    assert_eq!(binding.mutation_step_ids, vec![3, 4]);
}

fn verify_manifest() -> ValidatedNativeManifest {
    validate_and_bind_native_manifest(NativeCompiledManifest {
        source_manifest_id: digest('a'),
        steps: vec![
            mutation(3, vec![], grow_lv()),
            mutation(4, vec![3], grow_fs("ext4", "/mnt/test")),
        ],
        verification_barriers: vec![barrier(3), barrier(4)],
    })
    .unwrap()
}

fn verify_execution(validated: &ValidatedNativeManifest) -> ExecutionStartBinding {
    ExecutionStartBinding {
        schema_version: 1,
        execution_id: digest('e'),
        journal_id: digest('2'),
        plan_id: digest('3'),
        approval_id: digest('4'),
        source_manifest_id: validated.manifest().source_manifest_id.clone(),
        native_manifest_digest: validated.digest().to_owned(),
        fresh_identity_digest: digest('5'),
        mutation_step_ids: vec![3, 4],
        approved_journal_digest: digest('6'),
        integrity: BindingIntegrity::Matches,
    }
}

fn fresh_identity(size_bytes: u64) -> TargetIdentityManifest {
    let mut fresh = loop_identity("/dev/loop7");
    fresh.manifest_digest = digest('b');
    fresh.lvm = vec![logical_volume(size_bytes)];
    let filesystem = fresh.filesystem.as_mut().unwrap();
    filesystem.backing_device_size_bytes = size_bytes;
    filesystem.observed_filesystem_size_bytes = Some(8 * GIB);
    fresh
}

#[test]
fn exact_post_pv_state_authorizes_only_the_next_step() {
    let validated = validate_and_bind_native_manifest(NativeCompiledManifest {
        source_manifest_id: digest('a'),
        steps: vec![
            mutation(
                2,
                vec![],
                NativeOperationSpec::ResizePhysicalVolume {
                    pv_uuid: "pv-1".into(),
                    expected_pv_size_bytes: 9 * GIB,
                },
            ),
            mutation(3, vec![2], grow_lv()),
        ],
        verification_barriers: vec![barrier(2), barrier(3)],
    })
    .unwrap();
    let mut execution = verify_execution(&validated);
    execution.mutation_step_ids = vec![2, 3];
    let mut fresh = fresh_identity(8 * GIB);
    let mut pv = physical_volume(9 * GIB, GIB);
    pv.pe_start_bytes = Some(1024 * 1024);
    pv.attributes = None;
    fresh.lvm.insert(0, pv);

    let (next, fresh_digest) = verify_boundary_state(&execution, &validated, &fresh, 2).unwrap();

    assert_eq!(next, 3);
    assert_eq!(fresh_digest, digest('b'));

    fresh.lvm[0].size_bytes = 10 * GIB;
    assert_eq!(
        verify_boundary_state(&execution, &validated, &fresh, 2),
        Err(DisposableBoundaryVerificationError::PhysicalVolumeSizeMismatch)
    );
    fresh.lvm.remove(0);
    assert_eq!(
        verify_boundary_state(&execution, &validated, &fresh, 2),
        Err(DisposableBoundaryVerificationError::PhysicalVolumeIdentityNotUnique)
    );
}

#[test]
fn exact_post_lv_state_authorizes_only_the_next_step() {
    let validated = verify_manifest();
    let execution = verify_execution(&validated);
    let expected = 9 * GIB;

    let (next, fresh_digest) =
        verify_boundary_state(&execution, &validated, &fresh_identity(expected), 3).unwrap();

    assert_eq!(next, 4);
    assert_eq!(fresh_digest, digest('b'));
}

#[test]
fn wrong_post_lv_size_fails_closed() {
    let validated = verify_manifest();
    let execution = verify_execution(&validated);

    assert_eq!(
        verify_boundary_state(&execution, &validated, &fresh_identity(8 * GIB), 3),
        Err(DisposableBoundaryVerificationError::LogicalVolumeSizeMismatch)
    );
}

#[test]
fn exact_terminal_filesystem_growth_verifies_final_step() {
    let validated = verify_manifest();
    let execution = verify_execution(&validated);
    let before = fresh_identity(9 * GIB);
    let mut fresh = before.clone();
    fresh.manifest_digest = digest('c');
    fresh
        .filesystem
        .as_mut()
        .unwrap()
        .observed_filesystem_size_bytes = Some(9 * GIB);

    let final_digest =
        verify_terminal_filesystem_state(&execution, &validated, &before, &fresh, 4).unwrap();

    assert_eq!(final_digest, digest('c'));
}

#[test]
fn terminal_verification_rejects_nonfinal_or_changed_filesystem_identity() {
    let validated = verify_manifest();
    let execution = verify_execution(&validated);
    let before = fresh_identity(9 * GIB);
    let mut fresh = before.clone();
    fresh.manifest_digest = digest('c');
    fresh
        .filesystem
        .as_mut()
        .unwrap()
        .observed_filesystem_size_bytes = Some(9 * GIB);

    assert_eq!(
        verify_terminal_filesystem_state(&execution, &validated, &before, &fresh, 3),
        Err(DisposableBoundaryVerificationError::FinalStepNotLast)
    );

    fresh.filesystem.as_mut().unwrap().uuid = Some("other-fs".into());
    assert_eq!(
        verify_terminal_filesystem_state(&execution, &validated, &before, &fresh, 4),
        Err(DisposableBoundaryVerificationError::FilesystemIdentityMismatch)
    );
}

#[test]
fn terminal_verification_requires_observed_filesystem_growth() {
    let validated = verify_manifest();
    let execution = verify_execution(&validated);
    let before = fresh_identity(9 * GIB);
    let mut fresh = before.clone();
    fresh.manifest_digest = digest('c');

    assert_eq!(
        verify_terminal_filesystem_state(&execution, &validated, &before, &fresh, 4),
        Err(DisposableBoundaryVerificationError::FilesystemSizeDidNotGrow)
    );
}

#[test]
fn boundary_refusals_name_what_is_wrong() {
    let validated = verify_manifest();
    let fresh = fresh_identity(9 * GIB);
    let mut execution = verify_execution(&validated);
    execution.integrity = BindingIntegrity::Differs;
    assert_eq!(
        verify_boundary_state(&execution, &validated, &fresh, 3),
        Err(DisposableBoundaryVerificationError::ExecutionBindingInvalid)
    );
    let mut execution = verify_execution(&validated);
    execution.native_manifest_digest = digest('0');
    assert_eq!(
        verify_boundary_state(&execution, &validated, &fresh, 3),
        Err(DisposableBoundaryVerificationError::ManifestBindingMismatch)
    );
    let execution = verify_execution(&validated);
    assert_eq!(
        verify_boundary_state(&execution, &validated, &fresh, 9),
        Err(DisposableBoundaryVerificationError::CompletedStepNotAuthorized)
    );
    assert_eq!(
        verify_boundary_state(&execution, &validated, &fresh, 4),
        Err(DisposableBoundaryVerificationError::NoNextMutationStep)
    );
    let mut unsupported = fresh_identity(9 * GIB);
    unsupported.route_status = LayerRouteStatus::Unsupported;
    assert_eq!(
        verify_boundary_state(&execution, &validated, &unsupported, 3),
        Err(DisposableBoundaryVerificationError::UnsupportedFreshRoute)
    );
    let mut shrunk = fresh_identity(9 * GIB);
    shrunk.filesystem.as_mut().unwrap().backing_device_size_bytes = 8 * GIB;
    assert_eq!(
        verify_boundary_state(&execution, &validated, &shrunk, 3),
        Err(DisposableBoundaryVerificationError::FilesystemBackingSizeMismatch)
    );
    let mut lost = fresh_identity(9 * GIB);
    lost.lvm.clear();
    assert_eq!(
        verify_boundary_state(&execution, &validated, &lost, 3),
        Err(DisposableBoundaryVerificationError::LogicalVolumeIdentityNotUnique)
    );
}

fn tool_paths() -> DisposableToolPaths {
    DisposableToolPaths::new(
        "/opt/tools/pvresize".into(),
        "/opt/tools/lvextend".into(),
        "/opt/tools/resize2fs".into(),
        "/opt/tools/xfs_growfs".into(),
    )
}

fn plain_tool(mode: u32) -> ToolFileProbe {
    ToolFileProbe {
        link: Ok(LinkStatus {
            symlink: false,
            owner: 0,
        }),
        status: Ok(ToolStatus {
            regular: true,
            mode,
        }),
        linked: Err("no link".into()),
    }
}

fn directory(owner: u32, mode: u32) -> Option<DirectoryStatus> {
    Some(DirectoryStatus {
        symlink: false,
        directory: true,
        owner,
        mode,
    })
}

#[test]
fn tool_validation_requires_exact_safe_executable_file() {
    let paths = tool_paths();
    assert_eq!(
        validate_tool_path(DisposableProgram::Lvextend, &paths, &plain_tool(0o100755)).unwrap(),
        "/opt/tools/lvextend"
    );
    assert!(matches!(
        validate_tool_path(DisposableProgram::Lvextend, &paths, &plain_tool(0o100777)),
        Err(DisposableExecutionError::UnsafeToolPath(
            DisposableProgram::Lvextend
        ))
    ));

    let linked = ToolFileProbe {
        link: Ok(LinkStatus {
            symlink: true,
            owner: 1000,
        }),
        status: Ok(ToolStatus {
            regular: true,
            mode: 0o100755,
        }),
        linked: Ok(LinkedTool {
            canonical: Ok(LinkStatus {
                symlink: false,
                owner: 1000,
            }),
            directories: vec![directory(0, 0o755), directory(1000, 0o755)],
            canonical_directories: Some(vec![directory(0, 0o755), directory(1000, 0o755)]),
        }),
    };
    assert!(matches!(
        validate_tool_path(DisposableProgram::Lvextend, &paths, &linked),
        Err(DisposableExecutionError::UnsafeToolPath(
            DisposableProgram::Lvextend
        ))
    ));
}

#[test]
fn root_owned_links_below_secure_directories_are_accepted() {
    let linked = |owner: u32, last: Option<DirectoryStatus>| ToolFileProbe {
        link: Ok(LinkStatus {
            symlink: true,
            owner,
        }),
        status: Ok(ToolStatus {
            regular: true,
            mode: 0o100755,
        }),
        linked: Ok(LinkedTool {
            canonical: Ok(LinkStatus {
                symlink: false,
                owner: 0,
            }),
            directories: vec![directory(0, 0o755), last],
            canonical_directories: Some(vec![directory(0, 0o755)]),
        }),
    };
    assert_eq!(
        exact_safe_system_tool_path(
            "/usr/sbin/lvextend",
            "lvextend",
            &linked(0, directory(0, 0o755))
        ),
        Ok(true)
    );
    assert_eq!(
        exact_safe_system_tool_path(
            "/usr/sbin/lvextend",
            "lvextend",
            &linked(0, directory(0, 0o777))
        ),
        Ok(false)
    );
    assert_eq!(
        exact_safe_system_tool_path(
            "/usr/sbin/lvextend",
            "lvextend",
            &linked(1000, directory(0, 0o755))
        ),
        Ok(false)
    );
    assert_eq!(
        exact_safe_system_tool_path("/usr/sbin/lvs", "lvextend", &plain_tool(0o100755)),
        Ok(false)
    );
    assert!(!root_owned_non_writable_directory_chain(&vec![None]));
    assert!(!root_owned_non_writable_directory_chain(&vec![directory(
        1, 0o755
    )]));
    assert!(root_owned_non_writable_directory_chain(&vec![directory(
        0, 0o755
    )]));
}

fn live() -> LiveLoopProbe {
    LiveLoopProbe {
        block_device: Ok(true),
        device_number: Ok("7:7\n".into()),
        backing_file: Ok("/tmp/owned/owned.img\n".into()),
        canonical_backing_file: Ok("/tmp/owned/owned.img".into()),
        canonical_owned_file: Ok("/tmp/owned/owned.img".into()),
    }
}

#[test]
fn live_loop_has_to_be_the_owned_one() {
    let permit = first_permit();
    assert!(validate_live_loop(&permit, &backing(11), &live()).is_ok());

    let mut other = live();
    other.block_device = Ok(false);
    assert!(matches!(
        validate_live_loop(&permit, &backing(11), &other),
        Err(DisposableExecutionError::LoopDeviceNotBlock)
    ));
    let mut other = live();
    other.device_number = Ok("8:7\n".into());
    assert!(matches!(
        validate_live_loop(&permit, &backing(11), &other),
        Err(DisposableExecutionError::LoopMajorMismatch)
    ));
    let mut other = live();
    other.canonical_backing_file = Ok("/tmp/owned/other.img".into());
    assert!(matches!(
        validate_live_loop(&permit, &backing(11), &other),
        Err(DisposableExecutionError::LoopBackingMismatch)
    ));
    assert!(matches!(
        validate_live_loop(&permit, &backing(12), &live()),
        Err(DisposableExecutionError::Ownership(
            DisposableOwnershipError::BackingFileIdentityChanged
        ))
    ));
}

#[test]
fn a_command_ends_as_its_process_ended() {
    let outcome = conclude_disposable_command(
        first_permit(),
        ProcessReport {
            success: true,
            code: Some(0),
            stdout: b"grown".to_vec(),
            stderr: vec![],
        },
    )
    .unwrap();
    assert_eq!(outcome.plan_step_id, 3);
    assert_eq!(outcome.program, DisposableProgram::Lvextend);
    assert_eq!(outcome.stdout, b"grown");

    match conclude_disposable_command(
        first_permit(),
        ProcessReport {
            success: false,
            code: Some(5),
            stdout: vec![],
            stderr: b"no space".to_vec(),
        },
    ) {
        Err(DisposableExecutionError::CommandFailed {
            step_id,
            status,
            stderr,
        }) => {
            assert_eq!(step_id, 3);
            assert_eq!(status, Some(5));
            assert_eq!(stderr, "no space");
        }
        _ => panic!("a failed process is a failed command"),
    }
}
