use storage_executor::digest::fingerprint;
use storage_executor::journal_store::{
    admit_journal_directory, admit_record_for_read, admit_record_for_write, allowed_transition,
    approved_state, check_journal_root, check_record_size, judge_new_record, preconditions_state,
    validate_hex_digest, validate_journal, validate_journal_id, validate_loaded_journal,
    NamingOutcome, RecordStatus, MAX_JOURNAL_BYTES,
};
use storage_executor::model::{
    BindingIntegrity, ExactApprovalBinding, ExecutionStartBinding, JournalEvent, JournalPhase,
    OperationJournal, VerifiedMutationBoundaryBinding,
};
use storage_executor::secure_directory::{directories_to_secure, PathStatus};
use storage_executor::{DurableJournalStore, JournalStoreError};

fn digest(byte: char) -> String {
    std::iter::repeat_n(byte, 64).collect()
}

fn journal() -> OperationJournal {
    OperationJournal {
        schema_version: 1,
        journal_id: digest('a'),
        plan_id: digest('b'),
        target: "/".to_owned(),
        baseline_manifest_digest: digest('c'),
        phase: JournalPhase::Planned,
        mutation_may_have_started: false,
        approval: None,
        execution: None,
        verified_boundary: None,
        events: Vec::new(),
    }
}

fn advance(journal: &mut OperationJournal, to: JournalPhase, code: &str) {
    let sequence = journal.events.len() as u64 + 1;
    journal.events.push(JournalEvent {
        sequence,
        from: journal.phase,
        to,
        code: code.into(),
    });
    journal.phase = to;
    journal.mutation_may_have_started = matches!(
        to,
        JournalPhase::Executing
            | JournalPhase::Verifying
            | JournalPhase::Completed
            | JournalPhase::RecoveryRequired
    );
}

fn bytes_of(journal: &Option<OperationJournal>) -> Vec<u8> {
    format!("{journal:?}").into_bytes()
}

fn validate(journal: &OperationJournal) -> Result<(), JournalStoreError> {
    validate_journal(
        journal,
        &bytes_of(&preconditions_state(journal)),
        &bytes_of(&approved_state(journal)),
    )
}

fn load(journal: &OperationJournal, journal_id: &str) -> Result<(), JournalStoreError> {
    validate_loaded_journal(
        journal_id,
        journal,
        &bytes_of(&preconditions_state(journal)),
        &bytes_of(&approved_state(journal)),
    )
}

fn locked() -> OperationJournal {
    let mut journal = journal();
    advance(&mut journal, JournalPhase::HostLockHeld, "host-lock-acquired");
    journal
}

fn revalidated() -> OperationJournal {
    let mut journal = locked();
    advance(
        &mut journal,
        JournalPhase::IdentityRevalidated,
        "identity-revalidated",
    );
    journal
}

fn approved() -> OperationJournal {
    let mut journal = revalidated();
    advance(
        &mut journal,
        JournalPhase::PreconditionsVerified,
        "preconditions-verified",
    );
    let before = fingerprint(&bytes_of(&Some(journal.clone())));
    journal.approval = Some(ExactApprovalBinding {
        schema_version: 1,
        approval_id: digest('9'),
        plan_id: journal.plan_id.clone(),
        evidence_bundle_id: digest('d'),
        target_manifest_digest: journal.baseline_manifest_digest.clone(),
        locked_session_id: digest('e'),
        preconditions_journal_digest: before,
        integrity: BindingIntegrity::Matches,
    });
    advance(&mut journal, JournalPhase::Approved, "exact-plan-approved");
    journal
}

fn executing() -> OperationJournal {
    let mut journal = approved();
    let before = fingerprint(&bytes_of(&Some(journal.clone())));
    journal.execution = Some(ExecutionStartBinding {
        schema_version: 1,
        execution_id: digest('8'),
        journal_id: journal.journal_id.clone(),
        plan_id: journal.plan_id.clone(),
        approval_id: digest('9'),
        source_manifest_id: digest('f'),
        native_manifest_digest: digest('1'),
        fresh_identity_digest: journal.baseline_manifest_digest.clone(),
        mutation_step_ids: vec![5, 6],
        approved_journal_digest: before,
        integrity: BindingIntegrity::Matches,
    });
    advance(&mut journal, JournalPhase::Executing, "execution-started");
    journal
}

fn continued() -> OperationJournal {
    let mut journal = executing();
    advance(&mut journal, JournalPhase::Verifying, "verification-started");
    advance(
        &mut journal,
        JournalPhase::Executing,
        "verification-passed-continue",
    );
    journal.verified_boundary = Some(VerifiedMutationBoundaryBinding {
        schema_version: 1,
        boundary_id: digest('7'),
        execution_id: digest('8'),
        completed_step_id: 5,
        next_step_id: 6,
        fresh_identity_digest: digest('2'),
        final_step_id: None,
        final_identity_digest: None,
        integrity: BindingIntegrity::Matches,
    });
    journal
}

fn completed() -> OperationJournal {
    let mut journal = continued();
    advance(&mut journal, JournalPhase::Verifying, "verification-started");
    advance(
        &mut journal,
        JournalPhase::Completed,
        "verification-passed-complete",
    );
    let boundary = journal.verified_boundary.as_mut().unwrap();
    boundary.schema_version = 2;
    boundary.final_step_id = Some(6);
    boundary.final_identity_digest = Some(digest('3'));
    journal
}

fn message(result: Result<(), JournalStoreError>) -> String {
    match result {
        Err(JournalStoreError::InvalidRecord(message)) => message,
        other => panic!("expected an invalid record, got {other:?}"),
    }
}

#[test]
fn every_phase_of_a_run_is_a_valid_record() {
    for journal in [
        journal(),
        locked(),
        revalidated(),
        approved(),
        executing(),
        continued(),
        completed(),
    ] {
        assert_eq!(validate(&journal), Ok(()));
        assert_eq!(load(&journal, &digest('a')), Ok(()));
        assert_eq!(
            message(load(&journal, &digest('b'))),
            "journal ID does not match the requested durable record"
        );
    }
}

#[test]
fn persist_new_never_replaces_existing_durable_identity() {
    let original = locked();
    let path = "/journals/record.json";
    assert!(matches!(
        judge_new_record(&original.journal_id, path, &NamingOutcome::Taken),
        Err(JournalStoreError::AlreadyExists(ref journal_id))
            if journal_id == &original.journal_id
    ));
    assert_eq!(
        judge_new_record(&original.journal_id, path, &NamingOutcome::Named),
        Ok(())
    );
    assert_eq!(
        judge_new_record(
            &original.journal_id,
            path,
            &NamingOutcome::Failed("disk full".into())
        ),
        Err(JournalStoreError::Io {
            path: path.into(),
            source: "disk full".into()
        })
    );
}

#[test]
fn durable_round_trip_preserves_revalidated_journal() {
    let store = DurableJournalStore::at("/journals".into());
    let journal = revalidated();

    let path = store.path_for(&journal.journal_id).unwrap();
    assert_eq!(validate(&journal), Ok(()));
    assert_eq!(
        admit_record_for_read(
            &journal.journal_id,
            &path,
            &RecordStatus::Present {
                regular: true,
                size: MAX_JOURNAL_BYTES
            }
        ),
        Ok(())
    );
    assert_eq!(load(&journal, &journal.journal_id), Ok(()));
    assert_eq!(path, format!("/journals/{}.json", journal.journal_id));
    assert_eq!(store.root(), "/journals");
    assert_eq!(
        store.temp_path(&journal.journal_id, 42, 7),
        format!("/journals/.{}.tmp-42-7", journal.journal_id)
    );
}

#[test]
fn tampered_impossible_transition_is_rejected() {
    let mut journal = locked();
    journal.events[0].to = JournalPhase::Completed;
    journal.phase = JournalPhase::Completed;
    journal.mutation_may_have_started = true;

    let result = load(&journal, &journal.journal_id);
    assert!(matches!(result, Err(JournalStoreError::InvalidRecord(_))));
}

#[test]
fn journal_symlink_is_rejected() {
    let link = "/journals/link.json";
    let status = RecordStatus::Present {
        regular: false,
        size: 2,
    };
    assert!(matches!(
        admit_record_for_read(&digest('a'), link, &status),
        Err(JournalStoreError::NotRegularFile(path)) if path == link
    ));
    assert!(matches!(
        admit_record_for_write(link, &status),
        Err(JournalStoreError::NotRegularFile(path)) if path == link
    ));
    assert_eq!(admit_record_for_write(link, &RecordStatus::Absent), Ok(()));
}

#[test]
fn symlink_journal_directory_is_rejected() {
    let root = "/journals";
    assert!(matches!(
        admit_journal_directory(root, &PathStatus::Other, true),
        Err(JournalStoreError::UnsafeDirectory(path)) if path == root
    ));
    assert_eq!(
        admit_journal_directory(root, &PathStatus::Directory, false),
        Ok(false)
    );
    assert_eq!(
        admit_journal_directory(root, &PathStatus::Absent("none".into()), true),
        Ok(true)
    );
    let relative = directories_to_secure("journals");
    assert!(matches!(
        check_journal_root("journals", &relative),
        Err(JournalStoreError::UnsafeDirectory(path)) if path == "journals"
    ));
}

#[test]
fn recomputed_approval_for_another_preconditions_journal_is_rejected_on_reload() {
    let mut journal = approved();
    assert_eq!(load(&journal, &journal.journal_id), Ok(()));
    let tampered = journal.approval.as_mut().unwrap();
    tampered.preconditions_journal_digest = digest('f');

    let result = load(&journal, &journal.journal_id);

    assert!(matches!(result, Err(JournalStoreError::InvalidRecord(_))));
}

#[test]
fn unsupported_approval_binding_schema_is_rejected_on_reload() {
    let mut journal = approved();
    journal.approval.as_mut().unwrap().schema_version = 2;

    let result = load(&journal, &journal.journal_id);

    assert!(matches!(result, Err(JournalStoreError::InvalidRecord(_))));
}

#[test]
fn tampered_execution_binding_is_rejected_on_reload() {
    let mut journal = executing();
    let execution = journal.execution.as_mut().unwrap();
    execution.native_manifest_digest = digest('2');
    execution.integrity = BindingIntegrity::Differs;

    assert!(matches!(
        load(&journal, &journal.journal_id),
        Err(JournalStoreError::InvalidRecord(_))
    ));
}

#[test]
fn tampered_verified_boundary_is_rejected_on_reload() {
    let mut journal = continued();
    let boundary = journal.verified_boundary.as_mut().unwrap();
    boundary.fresh_identity_digest = digest('3');
    boundary.integrity = BindingIntegrity::Differs;

    assert!(matches!(
        load(&journal, &journal.journal_id),
        Err(JournalStoreError::InvalidRecord(_))
    ));
}

#[test]
fn tampered_terminal_verification_is_rejected_on_reload() {
    let mut journal = completed();
    let boundary = journal.verified_boundary.as_mut().unwrap();
    boundary.final_identity_digest = Some(digest('4'));
    boundary.integrity = BindingIntegrity::Differs;

    assert!(matches!(
        load(&journal, &journal.journal_id),
        Err(JournalStoreError::InvalidRecord(_))
    ));
}

#[test]
fn mutation_boundary_requires_recovery_after_reload() {
    let mut journal = executing();
    advance(&mut journal, JournalPhase::RecoveryRequired, "interrupted");

    assert_eq!(load(&journal, &journal.journal_id), Ok(()));
    assert_eq!(journal.phase, JournalPhase::RecoveryRequired);
    assert!(journal.mutation_may_have_started);
}

#[test]
fn frames_are_checked_first() {
    let mut journal = locked();
    journal.schema_version = 2;
    assert_eq!(
        message(validate(&journal)),
        "unsupported journal schema version"
    );
    let mut journal = locked();
    journal.journal_id = "short".into();
    assert_eq!(validate(&journal), Err(JournalStoreError::InvalidJournalId));
    let mut journal = locked();
    journal.plan_id = digest('G');
    assert_eq!(
        message(validate(&journal)),
        "plan ID is not a SHA-256 lowercase hexadecimal digest"
    );
    let mut journal = locked();
    journal.target = "bad\ntarget".into();
    assert_eq!(
        message(validate(&journal)),
        "journal target is empty or contains control characters"
    );
}

#[test]
fn event_chains_are_contiguous_and_allowed() {
    let mut journal = revalidated();
    journal.events[1].sequence = 3;
    assert_eq!(
        message(validate(&journal)),
        "journal event sequence is not contiguous at 2"
    );
    let mut journal = revalidated();
    journal.events[1].from = JournalPhase::Planned;
    assert_eq!(
        message(validate(&journal)),
        "journal event 2 does not continue from the previous phase"
    );
    let mut journal = locked();
    advance(&mut journal, JournalPhase::Approved, "skip");
    assert_eq!(
        message(validate(&journal)),
        "journal event 2 contains an impossible phase transition"
    );
    let mut journal = locked();
    journal.events[0].code = String::new();
    assert_eq!(
        message(validate(&journal)),
        "journal event 1 has an invalid code"
    );
    let mut journal = locked();
    journal.phase = JournalPhase::Aborted;
    assert_eq!(
        message(validate(&journal)),
        "journal phase does not match the event chain"
    );
    let mut journal = locked();
    journal.mutation_may_have_started = true;
    assert_eq!(
        message(validate(&journal)),
        "mutation boundary flag is inconsistent with the journal phase"
    );
}

#[test]
fn bindings_and_transitions_come_together() {
    let mut journal = approved();
    journal.approval = None;
    assert_eq!(
        message(validate(&journal)),
        "approved journal is missing the exact approval binding"
    );
    let mut journal = revalidated();
    journal.approval = approved().approval;
    assert_eq!(
        message(validate(&journal)),
        "journal contains an approval binding without an approval transition"
    );
    let mut journal = executing();
    journal.execution = None;
    assert_eq!(
        message(validate(&journal)),
        "executing journal is missing the exact execution binding"
    );
    let mut journal = executing();
    journal.execution.as_mut().unwrap().mutation_step_ids = vec![5, 5];
    assert_eq!(
        message(validate(&journal)),
        "execution binding mutation step sequence is invalid"
    );
    let mut journal = continued();
    journal.verified_boundary = None;
    assert_eq!(
        message(validate(&journal)),
        "verification continuation is missing the durable verified boundary binding"
    );
    let mut journal = continued();
    journal.verified_boundary.as_mut().unwrap().next_step_id = 7;
    assert_eq!(
        message(validate(&journal)),
        "verified boundary steps do not match the durable execution sequence"
    );
    let mut journal = completed();
    let boundary = journal.verified_boundary.as_mut().unwrap();
    boundary.schema_version = 1;
    boundary.final_step_id = None;
    boundary.final_identity_digest = None;
    assert_eq!(
        message(validate(&journal)),
        "completed multi-step execution is missing durable terminal verification"
    );
    let mut journal = completed();
    journal.verified_boundary.as_mut().unwrap().final_step_id = None;
    assert_eq!(
        message(validate(&journal)),
        "terminal verification binding is incomplete"
    );
    let mut journal = approved();
    journal.approval.as_mut().unwrap().integrity = BindingIntegrity::Unavailable;
    assert_eq!(
        validate(&journal),
        Err(JournalStoreError::BindingIntegrityUnavailable)
    );
}

#[test]
fn terminal_phases_allow_nothing_more() {
    let all = [
        JournalPhase::Planned,
        JournalPhase::HostLockHeld,
        JournalPhase::IdentityRevalidated,
        JournalPhase::PreconditionsVerified,
        JournalPhase::Approved,
        JournalPhase::Executing,
        JournalPhase::Verifying,
        JournalPhase::Completed,
        JournalPhase::Aborted,
        JournalPhase::RecoveryRequired,
    ];
    for to in all {
        assert!(!allowed_transition(JournalPhase::Completed, to));
        assert!(!allowed_transition(JournalPhase::Aborted, to));
        assert!(!allowed_transition(JournalPhase::RecoveryRequired, to));
        assert!(!allowed_transition(to, JournalPhase::Planned));
    }
    let count = all
        .iter()
        .flat_map(|from| all.iter().map(move |to| (*from, *to)))
        .filter(|(from, to)| allowed_transition(*from, *to))
        .count();
    assert_eq!(count, 15);
}

#[test]
fn identifiers_and_sizes_have_limits() {
    assert_eq!(validate_journal_id(&digest('a')), Ok(()));
    assert_eq!(
        validate_journal_id("../escape"),
        Err(JournalStoreError::InvalidJournalId)
    );
    assert_eq!(
        DurableJournalStore::at("/journals".into()).path_for("../escape"),
        Err(JournalStoreError::InvalidJournalId)
    );
    assert_eq!(
        message(validate_hex_digest("x", "label")),
        "label is not a SHA-256 lowercase hexadecimal digest"
    );
    assert_eq!(check_record_size(MAX_JOURNAL_BYTES), Ok(()));
    assert_eq!(
        check_record_size(MAX_JOURNAL_BYTES + 1),
        Err(JournalStoreError::TooLarge)
    );
    assert_eq!(
        admit_record_for_read(&digest('a'), "/j", &RecordStatus::Absent),
        Err(JournalStoreError::NotFound(digest('a')))
    );
    assert_eq!(
        admit_record_for_read(
            &digest('a'),
            "/j",
            &RecordStatus::Present {
                regular: true,
                size: MAX_JOURNAL_BYTES + 1
            }
        ),
        Err(JournalStoreError::TooLarge)
    );
}

#[test]
fn earlier_states_are_cut_out_of_the_journal() {
    let journal = completed();
    let before_approval = preconditions_state(&journal).unwrap();
    assert_eq!(before_approval.phase, JournalPhase::PreconditionsVerified);
    assert_eq!(before_approval.events.len(), 3);
    assert!(before_approval.approval.is_none());
    let before_execution = approved_state(&journal).unwrap();
    assert_eq!(before_execution.phase, JournalPhase::Approved);
    assert_eq!(before_execution.events.len(), 4);
    assert!(before_execution.approval.is_some());
    assert!(before_execution.execution.is_none());
    assert!(before_execution.verified_boundary.is_none());
    assert!(preconditions_state(&locked()).is_none());
}
