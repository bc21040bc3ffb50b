use storage_executor::disposable_harness::{
    advance_harness, approved_sequence, check_cleanup, check_run_end, expected_lv_size,
    harness_commands, harness_start, health_tool, require_direct_child, safe_sysname,
    sysname_match_argument, validate_udevadm, HarnessAction, HarnessCommand,
    HarnessCompletionError, HarnessEvent, HarnessFailure, HarnessStage, HarnessState, HealthTool,
    OwnedPathProbe, REDISCOVERY_ATTEMPTS,
};
use storage_executor::harness_args::parse_args;
use storage_executor::harness_preparation::{check_command_sequence, check_executable_state};
use storage_executor::model::{
    BindingIntegrity, FilesystemDecisionState, FilesystemIdentity, JournalPhase, LayerRouteStatus,
    LvmIdentity, LvmIdentityKind, MountIdentity, OperationJournal, Reversibility,
    TargetIdentityManifest, VerifiedMutationBoundaryBinding,
};
use storage_executor::native_operation::validate_and_bind_native_manifest;
use storage_executor::{
    compile_disposable_lvm_growth_commands, DisposableProgram, FrozenIntentRole,
    NativeCompiledManifest, NativeCompiledStep, NativeOperationSpec, NativeVerificationBarrier,
};

const FULL: [&str; 35] = [
    "--allow-disposable-loop-execution",
    "--target",
    "/mnt/test",
    "--loop-device",
    "/dev/loop7",
    "--backing-file",
    "/tmp/owned/owned.img",
    "--owned-root",
    "/tmp/owned",
    "--association-row",
    "/dev/loop7 /tmp/owned/owned.img",
    "--journal-root",
    "/tmp/owned/journal",
    "--backup-root",
    "/tmp/owned/backup",
    "--growth-bytes",
    "1073741824",
    "--sfdisk",
    "/usr/sbin/sfdisk",
    "--partx",
    "/usr/bin/partx",
    "--pvresize",
    "/usr/sbin/pvresize",
    "--lvextend",
    "/usr/sbin/lvextend",
    "--resize2fs",
    "/usr/sbin/resize2fs",
    "--xfs-growfs",
    "/usr/sbin/xfs_growfs",
    "--xfs-scrub",
    "/usr/sbin/xfs_scrub",
    "--udevadm",
    "/usr/bin/udevadm",
    "--e2fsck",
    "/usr/sbin/e2fsck",
];

fn full() -> Vec<String> {
    FULL.map(str::to_owned).to_vec()
}

fn without(key: &str) -> Vec<String> {
    let mut arguments = full();
    let position = arguments.iter().position(|a| a == key).unwrap();
    arguments.remove(position);
    arguments.remove(position);
    arguments
}

fn with(extra: &[&str]) -> Vec<String> {
    let mut arguments = full();
    arguments.extend(extra.iter().map(|a| (*a).to_owned()));
    arguments
}

fn refusal(arguments: Vec<String>) -> String {
    parse_args(&arguments).unwrap_err()
}

#[test]
fn a_complete_command_line_is_read() {
    let args = parse_args(&full()).unwrap();
    assert_eq!(args.target, "/mnt/test");
    assert_eq!(args.loop_device, "/dev/loop7");
    assert_eq!(args.association_row, "/dev/loop7 /tmp/owned/owned.img");
    assert_eq!(args.growth_bytes, 1 << 30);
    assert_eq!(args.udevadm, "/usr/bin/udevadm");
    assert_eq!(args.e2fsck.as_deref(), Some("/usr/sbin/e2fsck"));
    assert!(!args.inject_failure_after_resize2fs);

    let args = parse_args(&without("--e2fsck")).unwrap();
    assert_eq!(args.e2fsck, None);
    let args = parse_args(&with(&["--inject-failure-after-resize2fs"])).unwrap();
    assert!(args.inject_failure_after_resize2fs);
}

#[test]
fn command_lines_are_refused_with_their_message() {
    assert_eq!(
        refusal(with(&["--allow-disposable-loop-execution"])),
        "duplicate disposable execution acknowledgement"
    );
    assert_eq!(
        refusal(with(&[
            "--inject-failure-after-resize2fs",
            "--inject-failure-after-resize2fs"
        ])),
        "duplicate resize2fs failure injection"
    );
    assert_eq!(refusal(with(&["stray"])), "unexpected argument: stray");
    assert_eq!(refusal(with(&["--late"])), "missing value for --late");
    assert_eq!(
        refusal(with(&["--target", "/other"])),
        "duplicate argument: --target"
    );
    assert_eq!(
        refusal(full().split_off(1)),
        "explicit --allow-disposable-loop-execution is required"
    );
    for key in [
        "--target",
        "--loop-device",
        "--backing-file",
        "--owned-root",
        "--association-row",
        "--journal-root",
        "--backup-root",
        "--growth-bytes",
        "--sfdisk",
        "--partx",
        "--pvresize",
        "--lvextend",
        "--resize2fs",
        "--xfs-growfs",
        "--xfs-scrub",
        "--udevadm",
    ] {
        assert_eq!(
            refusal(without(key)),
            format!("missing required argument: {key}")
        );
    }
    let mut arguments = full();
    arguments[16] = "12x".into();
    assert_eq!(
        refusal(arguments.clone()),
        "--growth-bytes must be a positive integer"
    );
    arguments[16] = "0".into();
    assert_eq!(refusal(arguments), "--growth-bytes must be nonzero");
    assert_eq!(
        refusal(with(&["--zeta", "1", "--alpha", "2"])),
        "unknown arguments: --alpha, --zeta"
    );
}

#[test]
fn the_first_fault_of_a_command_line_is_reported() {
    let mut arguments = without("--target");
    arguments.push("--zeta".into());
    arguments.push("1".into());
    assert_eq!(
        refusal(arguments),
        "missing required argument: --target"
    );
    assert_eq!(refusal(vec![]), "explicit --allow-disposable-loop-execution is required");
}

fn command(plan_step_id: u32, program: DisposableProgram, size: Option<u64>) -> HarnessCommand {
    HarnessCommand {
        plan_step_id,
        program,
        expected_lv_size: size,
    }
}

fn commands() -> Vec<HarnessCommand> {
    vec![
        command(2, DisposableProgram::Pvresize, None),
        command(3, DisposableProgram::Lvextend, Some(90)),
        command(4, DisposableProgram::Resize2fs, None),
    ]
}

fn drive(
    commands: &Vec<HarnessCommand>,
    inject: bool,
    events: &[HarnessEvent],
) -> (HarnessState, Vec<HarnessAction>) {
    let mut state = harness_start();
    let mut actions = vec![];
    for event in events {
        let (next, action) = advance_harness(commands, inject, state, *event);
        state = next;
        actions.push(action);
    }
    (state, actions)
}

fn finished(plan_step_id: u32, program: DisposableProgram) -> HarnessEvent {
    HarnessEvent::CommandFinished {
        plan_step_id,
        program,
    }
}

fn refreshed(current_backing_size: Option<u64>) -> HarnessEvent {
    HarnessEvent::Refreshed {
        current_backing_size,
    }
}

fn discovered(backing_size: Option<u64>) -> HarnessEvent {
    HarnessEvent::Discovered { backing_size }
}

#[test]
fn a_complete_run_verifies_every_command_before_the_next() {
    let (state, actions) = drive(
        &commands(),
        false,
        &[
            HarnessEvent::Begin,
            finished(2, DisposableProgram::Pvresize),
            refreshed(Some(80)),
            discovered(Some(80)),
            HarnessEvent::VerificationRecorded,
            HarnessEvent::BoundaryVerified,
            finished(3, DisposableProgram::Lvextend),
            refreshed(Some(80)),
            discovered(Some(80)),
            HarnessEvent::Waited,
            discovered(Some(90)),
            HarnessEvent::VerificationRecorded,
            HarnessEvent::BoundaryVerified,
            finished(4, DisposableProgram::Resize2fs),
            refreshed(Some(90)),
            discovered(None),
            HarnessEvent::Waited,
            discovered(Some(90)),
            HarnessEvent::VerificationRecorded,
            HarnessEvent::CompletionVerified,
        ],
    );
    assert_eq!(state.stage, HarnessStage::Finished);
    assert_eq!(
        actions,
        [
            HarnessAction::Execute { index: 0 },
            HarnessAction::SettleDevices,
            HarnessAction::Discover,
            HarnessAction::RecordVerification,
            HarnessAction::VerifyBoundary { plan_step_id: 2 },
            HarnessAction::Execute { index: 1 },
            HarnessAction::RefreshDevice,
            HarnessAction::Discover,
            HarnessAction::WaitAndRefresh,
            HarnessAction::Discover,
            HarnessAction::RecordVerification,
            HarnessAction::VerifyBoundary { plan_step_id: 3 },
            HarnessAction::Execute { index: 2 },
            HarnessAction::SettleDevices,
            HarnessAction::Discover,
            HarnessAction::WaitAndRefresh,
            HarnessAction::Discover,
            HarnessAction::RecordVerification,
            HarnessAction::VerifyCompletion { plan_step_id: 4 },
            HarnessAction::Finish,
        ]
    );
}

fn failure(inject: bool, commands: &Vec<HarnessCommand>, events: &[HarnessEvent]) -> HarnessFailure {
    let (state, actions) = drive(commands, inject, events);
    assert_eq!(state.stage, HarnessStage::Failed);
    match actions.last() {
        Some(HarnessAction::Interrupt(failure)) => *failure,
        _ => panic!("a failed run is interrupted"),
    }
}

#[test]
fn runs_stop_with_their_message() {
    let lv = vec![command(3, DisposableProgram::Lvextend, Some(90))];
    let fs = vec![command(4, DisposableProgram::XfsGrowfs, None)];
    let begin = HarnessEvent::Begin;
    let lv_done = finished(3, DisposableProgram::Lvextend);
    let fs_done = finished(4, DisposableProgram::XfsGrowfs);

    let stopped = failure(false, &lv, &[begin, fs_done]);
    assert_eq!(stopped, HarnessFailure::OutcomeOutOfOrder);
    assert_eq!(
        stopped.message(),
        "executor returned a mutation outcome out of order"
    );
    let ext4 = vec![command(4, DisposableProgram::Resize2fs, None)];
    let stopped = failure(
        true,
        &ext4,
        &[begin, finished(4, DisposableProgram::Resize2fs)],
    );
    assert_eq!(
        stopped.message(),
        "injected failure after resize2fs before terminal verification"
    );
    let sizeless = vec![command(3, DisposableProgram::Lvextend, None)];
    let stopped = failure(false, &sizeless, &[begin, lv_done, refreshed(None)]);
    assert_eq!(
        stopped.message(),
        "executed LV step lost its exact expected size"
    );
    let stopped = failure(
        false,
        &lv,
        &[begin, lv_done, refreshed(None), discovered(None)],
    );
    assert_eq!(stopped.message(), "fresh LV target lost filesystem identity");
    let stopped = failure(
        false,
        &lv,
        &[begin, lv_done, refreshed(None), discovered(Some(91))],
    );
    assert_eq!(
        stopped.message(),
        "fresh LV backing size exceeded approved size: expected=90 actual=91"
    );
    let stopped = failure(false, &fs, &[begin, fs_done, refreshed(None)]);
    assert_eq!(
        stopped.message(),
        "pre-filesystem boundary lost filesystem identity"
    );
    let stopped = failure(
        false,
        &fs,
        &[begin, fs_done, refreshed(Some(90)), discovered(Some(99))],
    );
    assert_eq!(
        stopped.message(),
        "terminal filesystem backing size exceeded verified LV size: expected=90 actual=99"
    );
    assert_eq!(
        failure(false, &vec![], &[begin]).message(),
        "disposable mutation sequence ended without terminal verification"
    );
    assert_eq!(
        failure(false, &lv, &[begin, HarnessEvent::Failed]),
        HarnessFailure::External
    );
    assert_eq!(
        failure(false, &lv, &[begin, HarnessEvent::BoundaryVerified]),
        HarnessFailure::UnexpectedEvent
    );
}

#[test]
fn rediscovery_gives_up_after_its_attempts() {
    let run = |commands: Vec<HarnessCommand>, done: HarnessEvent, seen: Option<u64>| {
        let mut events = vec![HarnessEvent::Begin, done, refreshed(Some(90))];
        for _ in 1..REDISCOVERY_ATTEMPTS {
            events.push(discovered(seen));
            events.push(HarnessEvent::Waited);
        }
        let (state, _) = drive(&commands, false, &events);
        assert_eq!(state.stage, HarnessStage::Discovering);
        assert_eq!(state.attempt, REDISCOVERY_ATTEMPTS - 1);
        events.push(discovered(seen));
        failure(false, &commands, &events).message()
    };
    assert_eq!(
        run(
            vec![command(3, DisposableProgram::Lvextend, Some(90))],
            finished(3, DisposableProgram::Lvextend),
            Some(80)
        ),
        "fresh LV backing size did not converge to approved size 90"
    );
    let fs = vec![command(4, DisposableProgram::Resize2fs, None)];
    assert_eq!(
        run(
            fs.clone(),
            finished(4, DisposableProgram::Resize2fs),
            Some(80)
        ),
        "terminal filesystem backing size did not converge to verified LV size 90"
    );
    assert_eq!(
        run(fs, finished(4, DisposableProgram::Resize2fs), None),
        "terminal filesystem identity did not reappear after bounded rediscovery"
    );
}

#[test]
fn stopped_runs_stay_stopped() {
    let (state, actions) = drive(
        &commands(),
        false,
        &[
            HarnessEvent::Begin,
            HarnessEvent::Failed,
            HarnessEvent::Begin,
        ],
    );
    assert_eq!(state.stage, HarnessStage::Failed);
    assert_eq!(
        actions[2],
        HarnessAction::Interrupt(HarnessFailure::UnexpectedEvent)
    );
}

fn barrier(after_plan_step_id: u32) -> NativeVerificationBarrier {
    NativeVerificationBarrier {
        after_plan_step_id,
        before_next_mutation: true,
        require_fresh_target_identity: true,
        require_fresh_capabilities: true,
        require_expected_state_check: true,
        stop_on_mismatch: true,
    }
}

#[test]
fn compiled_commands_carry_their_expected_sizes() {
    let mutation = |plan_step_id, depends_on, operation| NativeCompiledStep {
        plan_step_id,
        depends_on,
        reversibility: Reversibility::Irreversible,
        role: FrozenIntentRole::MutationCandidate,
        operation,
    };
    let validated = validate_and_bind_native_manifest(NativeCompiledManifest {
        source_manifest_id: "source".into(),
        steps: vec![
            mutation(
                3,
                vec![],
                NativeOperationSpec::ExtendLogicalVolume {
                    lv_uuid: "lv-1".into(),
                    additional_extents: 4,
                    expected_lv_size_bytes: 90,
                },
            ),
            mutation(
                4,
                vec![3],
                NativeOperationSpec::GrowFilesystem {
                    fs_type: "ext4".into(),
                    mountpoint: Some("/".into()),
                },
            ),
        ],
        verification_barriers: vec![barrier(3), barrier(4)],
    })
    .unwrap();
    assert_eq!(expected_lv_size(&validated, 3), Some(90));
    assert_eq!(expected_lv_size(&validated, 4), None);
    assert_eq!(expected_lv_size(&validated, 5), None);

    let identity = TargetIdentityManifest {
        schema_version: 1,
        target: "/".into(),
        manifest_digest: "identity".into(),
        resolved_device: "/dev/mapper/vg0-root".into(),
        route_status: LayerRouteStatus::SupportedProfile,
        route_issue_codes: vec![],
        devices: vec![],
        partitions: vec![],
        lvm: vec![LvmIdentity {
            kind: LvmIdentityKind::LogicalVolume,
            name: "/dev/vg0/root".into(),
            uuid: Some("lv-1".into()),
            size_bytes: 80,
            free_bytes: None,
            pe_start_bytes: None,
            extent_size_bytes: None,
            free_extent_count: None,
            pv_count: None,
            lv_count: None,
            attributes: None,
            layout: None,
            role: None,
        }],
        filesystem: Some(FilesystemIdentity {
            device: "/dev/mapper/vg0-root".into(),
            fs_type: "ext4".into(),
            fs_version: None,
            uuid: Some("fs-1".into()),
            backing_device_size_bytes: 80,
            observed_filesystem_size_bytes: Some(80),
        }),
        mounts: vec![MountIdentity {
            target: "/".into(),
            source: Some("/dev/mapper/vg0-root".into()),
            fs_type: Some("ext4".into()),
            options: vec![],
        }],
    };
    let plan = compile_disposable_lvm_growth_commands(&validated, &identity).unwrap();
    assert!(approved_sequence(plan.commands()));
    assert_eq!(
        harness_commands(&validated, plan.commands()),
        [
            command(3, DisposableProgram::Lvextend, Some(90)),
            command(4, DisposableProgram::Resize2fs, None),
        ]
    );
    assert!(!approved_sequence(&vec![]));
    assert_eq!(check_command_sequence(plan.commands()), Ok((3, 4)));
    assert_eq!(
        check_command_sequence(&vec![]),
        Err(
            "compiled mutation sequence is not an approved disposable LVM growth profile"
                .to_string()
        )
    );
}

#[test]
fn the_host_has_not_changed_before_the_first_command() {
    let digest = Ok("a".to_string());
    assert_eq!(check_executable_state(true, &digest, "a"), Ok(()));
    assert_eq!(
        check_executable_state(false, &digest, "a"),
        Err("capability inventory changed immediately before disposable execution".to_string())
    );
    assert_eq!(
        check_executable_state(true, &digest, "b"),
        Err("fresh executable identity diverged from the locked handoff".to_string())
    );
    assert_eq!(
        check_executable_state(true, &Err("no such target".to_string()), "a"),
        Err("no such target".to_string())
    );
}

fn completed() -> OperationJournal {
    OperationJournal {
        schema_version: 1,
        journal_id: "journal".into(),
        plan_id: "plan".into(),
        target: "/".into(),
        baseline_manifest_digest: "baseline".into(),
        phase: JournalPhase::Completed,
        mutation_may_have_started: true,
        approval: None,
        execution: None,
        verified_boundary: Some(VerifiedMutationBoundaryBinding {
            schema_version: 2,
            boundary_id: "boundary".into(),
            execution_id: "execution".into(),
            completed_step_id: 3,
            next_step_id: 4,
            fresh_identity_digest: "fresh".into(),
            final_step_id: Some(4),
            final_identity_digest: Some("final".into()),
            integrity: BindingIntegrity::Matches,
        }),
        events: vec![],
    }
}

#[test]
fn a_run_ends_with_its_terminal_identity_on_record() {
    let journal = completed();
    assert_eq!(check_run_end(&journal, &completed(), 4, "final"), Ok(()));
    let mut verifying = completed();
    verifying.phase = JournalPhase::Verifying;
    assert_eq!(
        check_run_end(&verifying, &verifying, 4, "final"),
        Err(HarnessCompletionError::NotCompleted)
    );
    let mut other = completed();
    other.target = "/other".into();
    assert_eq!(
        check_run_end(&journal, &other, 4, "final"),
        Err(HarnessCompletionError::RecordMismatch)
    );
    let mut bare = completed();
    bare.verified_boundary = None;
    assert_eq!(
        check_run_end(&bare, &bare.clone(), 4, "final"),
        Err(HarnessCompletionError::BoundaryMissing)
    );
    assert_eq!(
        check_run_end(&journal, &completed(), 3, "final"),
        Err(HarnessCompletionError::TerminalIdentityMissing)
    );
    assert_eq!(
        check_run_end(&journal, &completed(), 4, "other")
            .unwrap_err()
            .message(),
        "completed journal is missing exact terminal verification identity"
    );
}

#[test]
fn health_tools_follow_the_decision() {
    assert_eq!(
        health_tool(FilesystemDecisionState::ReadOnlyHealthCheckRequired),
        Some(HealthTool::XfsScrub)
    );
    assert_eq!(
        health_tool(FilesystemDecisionState::OfflineHealthCheckRequired),
        Some(HealthTool::E2fsck)
    );
    assert_eq!(health_tool(FilesystemDecisionState::ReadyOnlineGrow), None);
}

#[test]
fn device_names_are_matched_exactly() {
    assert!(safe_sysname("dm-0"));
    assert!(safe_sysname("loop7p1"));
    assert!(!safe_sysname(""));
    assert!(!safe_sysname("a*"));
    assert!(!safe_sysname("a b"));
    assert_eq!(
        sysname_match_argument("/dev/dm-0"),
        Ok("--sysname-match=dm-0".into())
    );
    assert_eq!(
        sysname_match_argument("/dev/dm*"),
        Err("resolved device has unsafe sysname".into())
    );
    assert_eq!(
        sysname_match_argument("/"),
        Err("resolved device has no UTF-8 sysname".into())
    );
}

fn probe(parent: &str, exists: Result<bool, String>) -> OwnedPathProbe {
    OwnedPathProbe {
        canonical_parent: Some(Ok(parent.into())),
        exists,
    }
}

#[test]
fn new_directories_stand_directly_below_the_owned_root() {
    let check = |path: &str, probe: &OwnedPathProbe| {
        require_direct_child("/tmp/owned", path, "journal root", probe)
    };
    assert_eq!(
        check("/tmp/owned/journal", &probe("/tmp/owned", Ok(false))),
        Ok(())
    );
    assert_eq!(
        check("journal", &probe("/tmp/owned", Ok(false))),
        Err("journal root must be absolute".into())
    );
    assert_eq!(
        check(
            "/",
            &OwnedPathProbe {
                canonical_parent: None,
                exists: Ok(true)
            }
        ),
        Err("journal root has no parent".into())
    );
    assert_eq!(
        check("/tmp/other/journal", &probe("/tmp/other", Ok(false))),
        Err("journal root must be a direct child of the owned root".into())
    );
    assert_eq!(
        check("/tmp/owned/journal", &probe("/tmp/owned", Ok(true))),
        Err("journal root already exists".into())
    );
    assert_eq!(
        check(
            "/tmp/owned/journal",
            &probe("/tmp/owned", Err("denied".into()))
        ),
        Err("denied".into())
    );
}

#[test]
fn the_device_manager_is_exact() {
    assert_eq!(validate_udevadm("/usr/bin/udevadm", &Ok(true)), Ok(()));
    assert_eq!(
        validate_udevadm("udevadm", &Ok(true)),
        Err("udevadm path is not exact".into())
    );
    assert_eq!(
        validate_udevadm("/usr/bin/udev", &Ok(true)),
        Err("udevadm path is not exact".into())
    );
    assert_eq!(
        validate_udevadm("/usr/bin/udevadm", &Ok(false)),
        Err("udevadm path is not a file".into())
    );
}

#[test]
fn only_owned_directories_are_removed() {
    let parent = |p: &str| Some(Ok(p.to_owned()));
    assert_eq!(
        check_cleanup("/tmp/owned", &parent("/tmp/owned"), &Ok(true)),
        Ok(())
    );
    assert_eq!(
        check_cleanup("/tmp/owned", &parent("/tmp"), &Ok(true)),
        Err("refusing cleanup outside owned root".into())
    );
    assert_eq!(
        check_cleanup("/tmp/owned", &None, &Ok(true)),
        Err("owned cleanup path has no parent".into())
    );
    assert_eq!(
        check_cleanup("/tmp/owned", &parent("/tmp/owned"), &Ok(false)),
        Err("owned cleanup path is not an exact directory".into())
    );
}
