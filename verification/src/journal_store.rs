//! The rules of a durable journal record.

use vstd::prelude::*;
use vstd::string::*;

use crate::reading;
use crate::text;
use crate::model;
use crate::digest;
use crate::digest::fingerprint;
use crate::model::{
    copy_approval, find_transition, steps_adjacent, BindingIntegrity, ExactApprovalBinding,
    ExecutionStartBinding, JournalEvent, JournalPhase, OperationJournal,
    VerifiedMutationBoundaryBinding,
};
use crate::secure_directory::{judge_directory, DirectoryDescent, DirectoryVerdict, PathStatus};
use crate::text::{
    contains_control, holds_id, is_lower_hex_digest, join_path, push_decimal, same_text,
};

verus! {

/// Records beyond this size are refused.
pub const MAX_JOURNAL_BYTES: u64 = 1024 * 1024;

/// Where journal records are kept.
#[derive(Clone, Debug, PartialEq, Eq)]
pub struct DurableJournalStore {
    root: String,
}

impl View for DurableJournalStore {
    type V = Seq<char>;

    closed spec fn view(&self) -> Seq<char> {
        self.root@
    }
}

#[derive(Debug, PartialEq, Eq)]
pub enum JournalStoreError {
    InvalidJournalId,
    UnsafeDirectory(String),
    NotRegularFile(String),
    AlreadyExists(String),
    NotFound(String),
    TooLarge,
    InvalidRecord(String),
    BindingIntegrityUnavailable,
    Io { path: String, source: String },
}

/// The content of a refusal.
pub enum JournalFault {
    InvalidJournalId,
    UnsafeDirectory(Seq<char>),
    NotRegularFile(Seq<char>),
    AlreadyExists(Seq<char>),
    NotFound(Seq<char>),
    TooLarge,
    InvalidRecord(Seq<char>),
    BindingIntegrityUnavailable,
    Io { path: Seq<char>, source: Seq<char> },
}

impl View for JournalStoreError {
    type V = JournalFault;

    open spec fn view(&self) -> JournalFault {
        match *self {
            JournalStoreError::InvalidJournalId => JournalFault::InvalidJournalId,
            JournalStoreError::UnsafeDirectory(s) => JournalFault::UnsafeDirectory(s@),
            JournalStoreError::AlreadyExists(s) => JournalFault::AlreadyExists(s@),
            JournalStoreError::NotRegularFile(s) => JournalFault::NotRegularFile(s@),
            JournalStoreError::NotFound(s) => JournalFault::NotFound(s@),
            JournalStoreError::TooLarge => JournalFault::TooLarge,
            JournalStoreError::InvalidRecord(s) => JournalFault::InvalidRecord(s@),
            JournalStoreError::BindingIntegrityUnavailable => {
                JournalFault::BindingIntegrityUnavailable
            },
            JournalStoreError::Io { path, source } => {
                JournalFault::Io { path: path@, source: source@ }
            },
        }
    }
}

/// The path of the record of one journal, below the root of a store.
pub open spec fn record_path(root: Seq<char>, journal_id: Seq<char>) -> Seq<char> {
    text::path_join(root, journal_id + ".json"@)
}

impl DurableJournalStore {
    pub fn at(root: String) -> (store: Self)
        ensures
            store@ == root@,
    {
        DurableJournalStore { root }
    }

    pub fn root(&self) -> (value: &str)
        ensures
            value@ == self@,
    {
        self.root.as_str()
    }

    /// The path of the record of one journal.
    pub fn path_for(&self, journal_id: &str) -> (result: Result<String, JournalStoreError>)
        ensures
            match result {
                Ok(path) => text::is_digest_text(journal_id@) && path@ == record_path(
                    self@,
                    journal_id@,
                ),
                Err(e) => !text::is_digest_text(journal_id@) && e is InvalidJournalId,
            },
    {
        match validate_journal_id(journal_id) {
            Ok(_) => {},
            Err(e) => return Err(e),
        }
        let mut name = journal_id.to_owned();
        name.append(".json");
        Ok(join_path(self.root.as_str(), name.as_str()))
    }

    /// The path of a record that is being written.
    pub fn temp_path(&self, journal_id: &str, process_id: u32, sequence: u64) -> (path: String)
        ensures
            path@ == text::path_join(
                self@,
                "."@ + journal_id@ + ".tmp-"@ + text::decimal_text(process_id as nat) + "-"@
                    + text::decimal_text(sequence as nat),
            ),
    {
        let mut name = ".".to_owned();
        name.append(journal_id);
        name.append(".tmp-");
        push_decimal(&mut name, process_id as u64);
        name.append("-");
        push_decimal(&mut name, sequence);
        join_path(self.root.as_str(), name.as_str())
    }
}

/// Refuses a record that is too large.
pub fn check_record_size(bytes: u64) -> (result: Result<(), JournalStoreError>)
    ensures
        match result {
            Ok(_) => bytes <= MAX_JOURNAL_BYTES,
            Err(e) => bytes > MAX_JOURNAL_BYTES && e is TooLarge,
        },
{
    if bytes > MAX_JOURNAL_BYTES {
        Err(JournalStoreError::TooLarge)
    } else {
        Ok(())
    }
}

/// What a directory on the way to the store is refused for, if anything.
pub open spec fn journal_directory_refusal(
    path: Seq<char>,
    status: PathStatus,
    may_create: bool,
) -> Option<JournalFault> {
    match status {
        PathStatus::Directory => None,
        PathStatus::Other => Some(JournalFault::UnsafeDirectory(path)),
        PathStatus::Unreadable(source) => Some(JournalFault::Io { path, source: source@ }),
        PathStatus::Absent(source) => if may_create {
            None
        } else {
            Some(JournalFault::Io { path, source: source@ })
        },
    }
}

/// Admits one directory on the way to the store; the result says whether it has to be created.
pub fn admit_journal_directory(path: &str, status: &PathStatus, may_create: bool) -> (result: Result<
    bool,
    JournalStoreError,
>)
    ensures
        match result {
            Ok(create) => journal_directory_refusal(path@, *status, may_create) is None && create
                == (status is Absent),
            Err(e) => journal_directory_refusal(path@, *status, may_create) == Some(e@),
        },
{
    match judge_directory(status, may_create) {
        DirectoryVerdict::Accept => Ok(false),
        DirectoryVerdict::Create => Ok(true),
        DirectoryVerdict::Refuse => Err(JournalStoreError::UnsafeDirectory(path.to_owned())),
        DirectoryVerdict::Fail(source) => Err(
            JournalStoreError::Io { path: path.to_owned(), source },
        ),
    }
}

/// Refuses a path of the store that is relative or steps back to a parent directory, once the
/// directories before that were admitted.
pub fn check_journal_root(path: &str, descent: &DirectoryDescent) -> (result: Result<
    (),
    JournalStoreError,
>)
    ensures
        match result {
            Ok(_) => descent.complete,
            Err(e) => !descent.complete && e@ == JournalFault::UnsafeDirectory(path@),
        },
{
    if descent.complete {
        Ok(())
    } else {
        Err(JournalStoreError::UnsafeDirectory(path.to_owned()))
    }
}

/// How the attempt to give a new record its name ended.
#[derive(Debug, PartialEq, Eq)]
pub enum NamingOutcome {
    Named,
    Taken,
    Failed(String),
}

/// What the attempt to give a new record its name failed for, if it failed.
pub open spec fn naming_fault(
    journal_id: Seq<char>,
    path: Seq<char>,
    outcome: NamingOutcome,
) -> Option<JournalFault> {
    match outcome {
        NamingOutcome::Named => None,
        NamingOutcome::Taken => Some(JournalFault::AlreadyExists(journal_id)),
        NamingOutcome::Failed(source) => Some(JournalFault::Io { path, source: source@ }),
    }
}

/// Judges the attempt to give a new record its name: an existing record is never replaced.
pub fn judge_new_record(journal_id: &str, path: &str, outcome: &NamingOutcome) -> (result: Result<
    (),
    JournalStoreError,
>)
    ensures
        match result {
            Ok(_) => naming_fault(journal_id@, path@, *outcome) is None,
            Err(e) => naming_fault(journal_id@, path@, *outcome) == Some(e@),
        },
{
    match outcome {
        NamingOutcome::Named => Ok(()),
        NamingOutcome::Taken => Err(JournalStoreError::AlreadyExists(journal_id.to_owned())),
        NamingOutcome::Failed(source) => Err(
            JournalStoreError::Io { path: path.to_owned(), source: source.clone() },
        ),
    }
}

/// What the file system says of a record, links not followed.
#[derive(Debug, PartialEq, Eq)]
pub enum RecordStatus {
    Absent,
    Unreadable(String),
    Present { regular: bool, size: u64 },
}

/// What replacing a record is refused for, if anything.
pub open spec fn record_write_refusal(path: Seq<char>, status: RecordStatus) -> Option<
    JournalFault,
> {
    match status {
        RecordStatus::Absent => None,
        RecordStatus::Unreadable(source) => Some(JournalFault::Io { path, source: source@ }),
        RecordStatus::Present { regular, .. } => {
            if regular {
                None
            } else {
                Some(JournalFault::NotRegularFile(path))
            }
        },
    }
}

/// Admits a record that is about to be written or replaced.
pub fn admit_record_for_write(path: &str, status: &RecordStatus) -> (result: Result<
    (),
    JournalStoreError,
>)
    ensures
        match result {
            Ok(_) => record_write_refusal(path@, *status) is None,
            Err(e) => record_write_refusal(path@, *status) == Some(e@),
        },
{
    match status {
        RecordStatus::Absent => Ok(()),
        RecordStatus::Unreadable(source) => Err(
            JournalStoreError::Io { path: path.to_owned(), source: source.clone() },
        ),
        RecordStatus::Present { regular, .. } => {
            if *regular {
                Ok(())
            } else {
                Err(JournalStoreError::NotRegularFile(path.to_owned()))
            }
        },
    }
}

/// What reading a record is refused for, if anything.
pub open spec fn record_read_refusal(
    journal_id: Seq<char>,
    path: Seq<char>,
    status: RecordStatus,
) -> Option<JournalFault> {
    match status {
        RecordStatus::Absent => Some(JournalFault::NotFound(journal_id)),
        RecordStatus::Unreadable(source) => Some(JournalFault::Io { path, source: source@ }),
        RecordStatus::Present { regular, size } => {
            if !regular {
                Some(JournalFault::NotRegularFile(path))
            } else if size > MAX_JOURNAL_BYTES {
                Some(JournalFault::TooLarge)
            } else {
                None
            }
        },
    }
}

/// Admits a record that is about to be read.
pub fn admit_record_for_read(journal_id: &str, path: &str, status: &RecordStatus) -> (result: Result<
    (),
    JournalStoreError,
>)
    ensures
        match result {
            Ok(_) => record_read_refusal(journal_id@, path@, *status) is None,
            Err(e) => record_read_refusal(journal_id@, path@, *status) == Some(e@),
        },
{
    match status {
        RecordStatus::Absent => Err(JournalStoreError::NotFound(journal_id.to_owned())),
        RecordStatus::Unreadable(source) => Err(
            JournalStoreError::Io { path: path.to_owned(), source: source.clone() },
        ),
        RecordStatus::Present { regular, size } => {
            if !*regular {
                Err(JournalStoreError::NotRegularFile(path.to_owned()))
            } else {
                check_record_size(*size)
            }
        },
    }
}

/// The phase changes that a journal may record.
pub open spec fn is_allowed_transition(from: JournalPhase, to: JournalPhase) -> bool {
    match from {
        JournalPhase::Planned => to == JournalPhase::HostLockHeld || to == JournalPhase::Aborted,
        JournalPhase::HostLockHeld => to == JournalPhase::IdentityRevalidated || to
            == JournalPhase::Aborted,
        JournalPhase::IdentityRevalidated => to == JournalPhase::PreconditionsVerified || to
            == JournalPhase::Aborted,
        JournalPhase::PreconditionsVerified => to == JournalPhase::Approved || to
            == JournalPhase::Aborted,
        JournalPhase::Approved => to == JournalPhase::Executing || to == JournalPhase::Aborted,
        JournalPhase::Executing => to == JournalPhase::Verifying || to
            == JournalPhase::RecoveryRequired,
        JournalPhase::Verifying => to == JournalPhase::Executing || to == JournalPhase::Completed
            || to == JournalPhase::RecoveryRequired,
        JournalPhase::Completed => false,
        JournalPhase::Aborted => false,
        JournalPhase::RecoveryRequired => false,
    }
}

/// Whether a journal may record this phase change.
pub fn allowed_transition(from: JournalPhase, to: JournalPhase) -> (yes: bool)
    ensures
        yes == is_allowed_transition(from, to),
{
    matches!(
        (from, to),
        (JournalPhase::Planned, JournalPhase::HostLockHeld)
            | (JournalPhase::HostLockHeld, JournalPhase::IdentityRevalidated)
            | (JournalPhase::IdentityRevalidated, JournalPhase::PreconditionsVerified)
            | (JournalPhase::PreconditionsVerified, JournalPhase::Approved)
            | (JournalPhase::Approved, JournalPhase::Executing)
            | (JournalPhase::Executing, JournalPhase::Verifying)
            | (JournalPhase::Verifying, JournalPhase::Executing)
            | (JournalPhase::Verifying, JournalPhase::Completed)
            | (JournalPhase::Planned, JournalPhase::Aborted)
            | (JournalPhase::HostLockHeld, JournalPhase::Aborted)
            | (JournalPhase::IdentityRevalidated, JournalPhase::Aborted)
            | (JournalPhase::PreconditionsVerified, JournalPhase::Aborted)
            | (JournalPhase::Approved, JournalPhase::Aborted)
            | (JournalPhase::Executing, JournalPhase::RecoveryRequired)
            | (JournalPhase::Verifying, JournalPhase::RecoveryRequired)
    )
}

/// The phases in which a mutation may have started.
pub open spec fn is_mutation_phase(phase: JournalPhase) -> bool {
    phase == JournalPhase::Executing || phase == JournalPhase::Verifying || phase
        == JournalPhase::Completed || phase == JournalPhase::RecoveryRequired
}

fn mutation_phase(phase: JournalPhase) -> (yes: bool)
    ensures
        yes == is_mutation_phase(phase),
{
    matches!(
        phase,
        JournalPhase::Executing
            | JournalPhase::Verifying
            | JournalPhase::Completed
            | JournalPhase::RecoveryRequired
    )
}

/// The first of two faults.
pub open spec fn either(a: Option<JournalFault>, b: Option<JournalFault>) -> Option<JournalFault> {
    if a is Some {
        a
    } else {
        b
    }
}

/// A fault that is there only under a condition.
pub open spec fn record_fault(wrong: bool, message: Seq<char>) -> Option<JournalFault> {
    if wrong {
        Some(JournalFault::InvalidRecord(message))
    } else {
        None
    }
}

/// An identifier that should be a digest and is not.
pub open spec fn digest_fault(value: Seq<char>, label: Seq<char>) -> Option<JournalFault> {
    record_fault(
        !text::is_digest_text(value),
        label + " is not a SHA-256 lowercase hexadecimal digest"@,
    )
}

/// The phase before the event at `i`.
pub open spec fn phase_before(events: Seq<JournalEvent>, i: int) -> JournalPhase {
    if i <= 0 {
        JournalPhase::Planned
    } else {
        events[i - 1].to
    }
}

/// A message about the event with number `n`.
pub open spec fn event_message(n: nat, rest: Seq<char>) -> Seq<char> {
    "journal event "@ + text::decimal_text(n) + rest
}

/// What is wrong with the event at `i`, if anything.
pub open spec fn event_fault(events: Seq<JournalEvent>, i: int) -> Option<JournalFault> {
    let event = events[i];
    let n = (i + 1) as nat;
    if event.sequence != n {
        Some(
            JournalFault::InvalidRecord(
                "journal event sequence is not contiguous at "@ + text::decimal_text(n),
            ),
        )
    } else if event.from != phase_before(events, i) {
        Some(
            JournalFault::InvalidRecord(
                event_message(n, " does not continue from the previous phase"@),
            ),
        )
    } else if !is_allowed_transition(event.from, event.to) {
        Some(
            JournalFault::InvalidRecord(
                event_message(n, " contains an impossible phase transition"@),
            ),
        )
    } else if event.code@.len() == 0 || text::has_control_char(event.code@) {
        Some(JournalFault::InvalidRecord(event_message(n, " has an invalid code"@)))
    } else {
        None
    }
}

/// The first fault in the chain of events.
pub open spec fn chain_fault(events: Seq<JournalEvent>) -> Option<JournalFault> {
    text::first_some(events.len() as int, |i: int| event_fault(events, i))
}

/// The journal as it stood before it was approved.
pub open spec fn is_preconditions_state(journal: OperationJournal, state: OperationJournal) -> bool {
    &&& state.schema_version == journal.schema_version
    &&& state.journal_id == journal.journal_id
    &&& state.plan_id == journal.plan_id
    &&& state.target == journal.target
    &&& state.baseline_manifest_digest == journal.baseline_manifest_digest
    &&& state.phase == JournalPhase::PreconditionsVerified
    &&& !state.mutation_may_have_started
    &&& state.approval is None
    &&& state.execution is None
    &&& state.verified_boundary is None
    &&& approval_index(journal.events@) is Some
    &&& state.events@ == journal.events@.take(approval_index(journal.events@)->Some_0)
}

/// The journal as it stood before its execution started.
pub open spec fn is_approved_state(journal: OperationJournal, state: OperationJournal) -> bool {
    &&& state.schema_version == journal.schema_version
    &&& state.journal_id == journal.journal_id
    &&& state.plan_id == journal.plan_id
    &&& state.target == journal.target
    &&& state.baseline_manifest_digest == journal.baseline_manifest_digest
    &&& state.phase == JournalPhase::Approved
    &&& !state.mutation_may_have_started
    &&& state.approval == journal.approval
    &&& state.execution is None
    &&& state.verified_boundary is None
    &&& execution_index(journal.events@) is Some
    &&& state.events@ == journal.events@.take(execution_index(journal.events@)->Some_0)
}

/// The event that recorded the approval.
pub open spec fn approval_index(events: Seq<JournalEvent>) -> Option<int> {
    model::first_transition(events, JournalPhase::PreconditionsVerified, JournalPhase::Approved)
}

/// The event that recorded the start of execution.
pub open spec fn execution_index(events: Seq<JournalEvent>) -> Option<int> {
    model::first_transition(events, JournalPhase::Approved, JournalPhase::Executing)
}

fn copy_events(events: &Vec<JournalEvent>, n: usize) -> (copy: Vec<JournalEvent>)
    requires
        n <= events@.len(),
    ensures
        copy@ == events@.take(n as int),
{
    let mut copy: Vec<JournalEvent> = Vec::new();
    let mut i: usize = 0;
    while i < n
        invariant
            i <= n <= events@.len(),
            copy@ == events@.take(i as int),
        decreases n - i,
    {
        let event = &events[i];
        copy.push(
            JournalEvent {
                sequence: event.sequence,
                from: event.from,
                to: event.to,
                code: event.code.clone(),
            },
        );
        assert(events@.take(i + 1) =~= events@.take(i as int).push(events@[i as int]));
        i += 1;
    }
    copy
}

/// Recovers the journal as it stood before it was approved, if it was approved.
pub fn preconditions_state(journal: &OperationJournal) -> (state: Option<OperationJournal>)
    ensures
        match state {
            Some(s) => is_preconditions_state(*journal, s),
            None => approval_index(journal.events@) is None,
        },
{
    match find_transition(
        &journal.events,
        JournalPhase::PreconditionsVerified,
        JournalPhase::Approved,
    ) {
        None => None,
        Some(index) => Some(
            OperationJournal {
                schema_version: journal.schema_version,
                journal_id: journal.journal_id.clone(),
                plan_id: journal.plan_id.clone(),
                target: journal.target.clone(),
                baseline_manifest_digest: journal.baseline_manifest_digest.clone(),
                phase: JournalPhase::PreconditionsVerified,
                mutation_may_have_started: false,
                approval: None,
                execution: None,
                verified_boundary: None,
                events: copy_events(&journal.events, index),
            },
        ),
    }
}

/// Recovers the journal as it stood before its execution started, if it started.
pub fn approved_state(journal: &OperationJournal) -> (state: Option<OperationJournal>)
    ensures
        match state {
            Some(s) => is_approved_state(*journal, s),
            None => execution_index(journal.events@) is None,
        },
{
    match find_transition(&journal.events, JournalPhase::Approved, JournalPhase::Executing) {
        None => None,
        Some(index) => Some(
            OperationJournal {
                schema_version: journal.schema_version,
                journal_id: journal.journal_id.clone(),
                plan_id: journal.plan_id.clone(),
                target: journal.target.clone(),
                baseline_manifest_digest: journal.baseline_manifest_digest.clone(),
                phase: JournalPhase::Approved,
                mutation_may_have_started: false,
                approval: match &journal.approval {
                    Some(approval) => Some(copy_approval(approval)),
                    None => None,
                },
                execution: None,
                verified_boundary: None,
                events: copy_events(&journal.events, index),
            },
        ),
    }
}

/// What the planner's fingerprint check means for a record.
pub open spec fn integrity_fault(integrity: BindingIntegrity, message: Seq<char>) -> Option<
    JournalFault,
> {
    match integrity {
        BindingIntegrity::Matches => None,
        BindingIntegrity::Differs => Some(JournalFault::InvalidRecord(message)),
        BindingIntegrity::Unavailable => Some(JournalFault::BindingIntegrityUnavailable),
    }
}

/// What is wrong with an approval that a journal records.
pub open spec fn recorded_approval_fault(
    journal: OperationJournal,
    binding: ExactApprovalBinding,
    preconditions_json: Seq<u8>,
) -> Option<JournalFault> {
    either(
        record_fault(
            binding.schema_version != 1,
            "unsupported exact approval binding schema version "@ + text::decimal_text(
                binding.schema_version as nat,
            ),
        ),
        either(
            digest_fault(binding.approval_id@, "approval ID"@),
            either(
                digest_fault(binding.plan_id@, "approval plan ID"@),
                either(
                    digest_fault(binding.evidence_bundle_id@, "approval evidence bundle ID"@),
                    either(
                        digest_fault(
                            binding.target_manifest_digest@,
                            "approval target manifest digest"@,
                        ),
                        either(
                            digest_fault(binding.locked_session_id@, "approval locked session ID"@),
                            either(
                                digest_fault(
                                    binding.preconditions_journal_digest@,
                                    "approval preconditions journal digest"@,
                                ),
                                either(
                                    record_fault(
                                        binding.plan_id@ != journal.plan_id@,
                                        "approval binding plan ID does not match the journal"@,
                                    ),
                                    either(
                                        record_fault(
                                            binding.target_manifest_digest@
                                                != journal.baseline_manifest_digest@,
                                            "approval binding target manifest does not match the journal"@,
                                        ),
                                        either(
                                            integrity_fault(
                                                binding.integrity,
                                                "approval binding fingerprint does not match its contents"@,
                                            ),
                                            record_fault(
                                                binding.preconditions_journal_digest@
                                                    != digest::fingerprint_of(preconditions_json),
                                                "approval binding does not match the exact preconditions journal state"@,
                                            ),
                                        ),
                                    ),
                                ),
                            ),
                        ),
                    ),
                ),
            ),
        ),
    )
}

/// What is wrong with the approval part of a journal, if anything.
pub open spec fn approval_fault(journal: OperationJournal, preconditions_json: Seq<u8>) -> Option<
    JournalFault,
> {
    match (journal.approval, approval_index(journal.events@)) {
        (None, None) => None,
        (None, Some(_)) => Some(
            JournalFault::InvalidRecord("approved journal is missing the exact approval binding"@),
        ),
        (Some(_), None) => Some(
            JournalFault::InvalidRecord(
                "journal contains an approval binding without an approval transition"@,
            ),
        ),
        (Some(binding), Some(_)) => recorded_approval_fault(journal, binding, preconditions_json),
    }
}

/// A usable order of mutations: some steps, none numbered zero, none repeated.
pub open spec fn is_step_sequence(ids: Seq<u32>) -> bool {
    &&& ids.len() > 0
    &&& !ids.contains(0)
    &&& ids.no_duplicates()
}

/// What is wrong with an execution start that a journal records.
pub open spec fn recorded_execution_fault(
    journal: OperationJournal,
    binding: ExecutionStartBinding,
    approved_json: Seq<u8>,
) -> Option<JournalFault> {
    either(
        record_fault(
            binding.schema_version != 1,
            "unsupported execution binding schema version "@ + text::decimal_text(
                binding.schema_version as nat,
            ),
        ),
        either(
            execution_digest_fault(binding),
            either(
                record_fault(
                    !is_step_sequence(binding.mutation_step_ids@),
                    "execution binding mutation step sequence is invalid"@,
                ),
                either(
                    record_fault(
                        binding.journal_id@ != journal.journal_id@,
                        "execution binding journal ID does not match the journal"@,
                    ),
                    either(
                        record_fault(
                            binding.plan_id@ != journal.plan_id@,
                            "execution binding plan ID does not match the journal"@,
                        ),
                        match journal.approval {
                            None => Some(
                                JournalFault::InvalidRecord(
                                    "execution binding exists without an approval binding"@,
                                ),
                            ),
                            Some(approval) => either(
                                record_fault(
                                    binding.approval_id@ != approval.approval_id@,
                                    "execution binding approval ID does not match the journal"@,
                                ),
                                either(
                                    record_fault(
                                        binding.fresh_identity_digest@
                                            != journal.baseline_manifest_digest@,
                                        "execution binding fresh identity does not match the journal baseline"@,
                                    ),
                                    either(
                                        integrity_fault(
                                            binding.integrity,
                                            "execution binding fingerprint does not match its contents"@,
                                        ),
                                        record_fault(
                                            binding.approved_journal_digest@ != digest::fingerprint_of(
                                                approved_json,
                                            ),
                                            "execution binding does not match the exact approved journal state"@,
                                        ),
                                    ),
                                ),
                            ),
                        },
                    ),
                ),
            ),
        ),
    )
}

/// The first identifier of an execution start that is no digest.
pub open spec fn execution_digest_fault(binding: ExecutionStartBinding) -> Option<JournalFault> {
    either(
        digest_fault(binding.execution_id@, "execution ID"@),
        either(
            digest_fault(binding.journal_id@, "execution journal ID"@),
            either(
                digest_fault(binding.plan_id@, "execution plan ID"@),
                either(
                    digest_fault(binding.approval_id@, "execution approval ID"@),
                    either(
                        digest_fault(binding.source_manifest_id@, "execution source manifest ID"@),
                        either(
                            digest_fault(
                                binding.native_manifest_digest@,
                                "execution native manifest digest"@,
                            ),
                            either(
                                digest_fault(
                                    binding.fresh_identity_digest@,
                                    "execution fresh identity digest"@,
                                ),
                                digest_fault(
                                    binding.approved_journal_digest@,
                                    "execution approved journal digest"@,
                                ),
                            ),
                        ),
                    ),
                ),
            ),
        ),
    )
}

/// What is wrong with the execution part of a journal, if anything.
pub open spec fn execution_fault(journal: OperationJournal, approved_json: Seq<u8>) -> Option<
    JournalFault,
> {
    match (journal.execution, execution_index(journal.events@)) {
        (None, None) => None,
        (None, Some(_)) => Some(
            JournalFault::InvalidRecord("executing journal is missing the exact execution binding"@),
        ),
        (Some(_), None) => Some(
            JournalFault::InvalidRecord(
                "journal contains an execution binding without an execution transition"@,
            ),
        ),
        (Some(binding), Some(_)) => recorded_execution_fault(journal, binding, approved_json),
    }
}

/// Some event carries this code.
pub open spec fn has_event_code(events: Seq<JournalEvent>, code: Seq<char>) -> bool {
    exists|i: int| 0 <= i < events.len() && (#[trigger] events[i]).code@ == code
}

/// What is wrong with the terminal part of a verified boundary, if anything.
pub open spec fn terminal_fault(
    journal: OperationJournal,
    binding: VerifiedMutationBoundaryBinding,
    execution: ExecutionStartBinding,
) -> Option<JournalFault> {
    let ids = execution.mutation_step_ids@;
    let completed = has_event_code(journal.events@, "verification-passed-complete"@);
    match (binding.final_step_id, binding.final_identity_digest) {
        (None, None) => record_fault(
            binding.schema_version != 1 || completed || (journal.phase == JournalPhase::Completed
                && ids.len() > 1),
            "completed multi-step execution is missing durable terminal verification"@,
        ),
        (Some(final_step), Some(final_digest)) => either(
            record_fault(
                binding.schema_version != 2 || !completed || journal.phase
                    != JournalPhase::Completed,
                "terminal verification binding exists without terminal completion"@,
            ),
            either(
                digest_fault(final_digest@, "terminal verification fresh identity digest"@),
                record_fault(
                    !(ids.len() > 0 && ids.last() == final_step) || binding.next_step_id
                        != final_step,
                    "terminal verification step does not match the final durable mutation step"@,
                ),
            ),
        ),
        _ => Some(
            JournalFault::InvalidRecord("terminal verification binding is incomplete"@),
        ),
    }
}

/// What is wrong with a verified boundary that a journal records.
pub open spec fn recorded_boundary_fault(
    journal: OperationJournal,
    binding: VerifiedMutationBoundaryBinding,
) -> Option<JournalFault> {
    either(
        record_fault(
            !(binding.schema_version == 1 || binding.schema_version == 2),
            "unsupported verified boundary binding schema version "@ + text::decimal_text(
                binding.schema_version as nat,
            ),
        ),
        either(
            digest_fault(binding.boundary_id@, "verified boundary ID"@),
            either(
                digest_fault(binding.execution_id@, "verified boundary execution ID"@),
                either(
                    digest_fault(
                        binding.fresh_identity_digest@,
                        "verified boundary fresh identity digest"@,
                    ),
                    either(
                        record_fault(
                            binding.completed_step_id == 0 || binding.next_step_id == 0
                                || binding.completed_step_id == binding.next_step_id,
                            "verified boundary step sequence is invalid"@,
                        ),
                        match journal.execution {
                            None => Some(
                                JournalFault::InvalidRecord(
                                    "verified boundary exists without the durable execution binding"@,
                                ),
                            ),
                            Some(execution) => either(
                                record_fault(
                                    binding.execution_id@ != execution.execution_id@,
                                    "verified boundary execution ID does not match the journal"@,
                                ),
                                either(
                                    record_fault(
                                        !model::adjacent(
                                            execution.mutation_step_ids@,
                                            binding.completed_step_id,
                                            binding.next_step_id,
                                        ),
                                        "verified boundary steps do not match the durable execution sequence"@,
                                    ),
                                    either(
                                        integrity_fault(
                                            binding.integrity,
                                            "verified boundary fingerprint does not match its contents"@,
                                        ),
                                        either(
                                            terminal_fault(journal, binding, execution),
                                            record_fault(
                                                !is_mutation_phase(journal.phase),
                                                "verified boundary exists before the mutation verification boundary"@,
                                            ),
                                        ),
                                    ),
                                ),
                            ),
                        },
                    ),
                ),
            ),
        ),
    )
}

/// What is wrong with the boundary part of a journal, if anything.
pub open spec fn boundary_fault(journal: OperationJournal) -> Option<JournalFault> {
    let continued = has_event_code(journal.events@, "verification-passed-continue"@);
    match journal.verified_boundary {
        None => record_fault(
            continued,
            "verification continuation is missing the durable verified boundary binding"@,
        ),
        Some(binding) => {
            if !continued {
                Some(
                    JournalFault::InvalidRecord(
                        "verified boundary binding exists without a verification continuation"@,
                    ),
                )
            } else {
                recorded_boundary_fault(journal, binding)
            }
        },
    }
}

/// What is wrong with the frame of a journal: its schema and its names.
pub open spec fn frame_fault(journal: OperationJournal) -> Option<JournalFault> {
    if journal.schema_version != 1 {
        Some(JournalFault::InvalidRecord("unsupported journal schema version"@))
    } else if !text::is_digest_text(journal.journal_id@) {
        Some(JournalFault::InvalidJournalId)
    } else {
        either(
            digest_fault(journal.plan_id@, "plan ID"@),
            either(
                digest_fault(journal.baseline_manifest_digest@, "baseline manifest digest"@),
                record_fault(
                    journal.target@.len() == 0 || text::has_control_char(journal.target@),
                    "journal target is empty or contains control characters"@,
                ),
            ),
        )
    }
}

/// What is wrong with the phase of a journal, given its events.
pub open spec fn phase_fault(journal: OperationJournal) -> Option<JournalFault> {
    either(
        record_fault(
            phase_before(journal.events@, journal.events@.len() as int) != journal.phase,
            "journal phase does not match the event chain"@,
        ),
        record_fault(
            journal.mutation_may_have_started != is_mutation_phase(journal.phase),
            "mutation boundary flag is inconsistent with the journal phase"@,
        ),
    )
}

/// What is wrong with a journal record, if anything. `preconditions_json` and `approved_json` are
/// the serialised states before approval and before execution.
pub open spec fn journal_fault(
    journal: OperationJournal,
    preconditions_json: Seq<u8>,
    approved_json: Seq<u8>,
) -> Option<JournalFault> {
    either(
        frame_fault(journal),
        either(
            chain_fault(journal.events@),
            either(
                phase_fault(journal),
                either(
                    approval_fault(journal, preconditions_json),
                    either(execution_fault(journal, approved_json), boundary_fault(journal)),
                ),
            ),
        ),
    )
}

fn invalid(message: &str) -> (e: JournalStoreError)
    ensures
        e@ == JournalFault::InvalidRecord(message@),
{
    JournalStoreError::InvalidRecord(message.to_owned())
}

/// Refuses a journal identifier that is no digest.
pub fn validate_journal_id(value: &str) -> (result: Result<(), JournalStoreError>)
    ensures
        match result {
            Ok(_) => text::is_digest_text(value@),
            Err(e) => !text::is_digest_text(value@) && e is InvalidJournalId,
        },
{
    if is_lower_hex_digest(value) {
        Ok(())
    } else {
        Err(JournalStoreError::InvalidJournalId)
    }
}

/// Refuses an identifier that is no digest.
pub fn validate_hex_digest(value: &str, label: &str) -> (result: Result<(), JournalStoreError>)
    ensures
        match result {
            Ok(_) => digest_fault(value@, label@) is None,
            Err(e) => digest_fault(value@, label@) == Some(e@),
        },
{
    if is_lower_hex_digest(value) {
        Ok(())
    } else {
        let mut message = label.to_owned();
        message.append(" is not a SHA-256 lowercase hexadecimal digest");
        Err(JournalStoreError::InvalidRecord(message))
    }
}

fn numbered(prefix: &str, n: u64, rest: &str) -> (e: JournalStoreError)
    ensures
        e@ == JournalFault::InvalidRecord(prefix@ + text::decimal_text(n as nat) + rest@),
{
    let mut message = prefix.to_owned();
    push_decimal(&mut message, n);
    message.append(rest);
    JournalStoreError::InvalidRecord(message)
}

fn check_event(events: &Vec<JournalEvent>, i: usize) -> (result: Result<(), JournalStoreError>)
    requires
        i < events@.len(),
    ensures
        match result {
            Ok(_) => event_fault(events@, i as int) is None,
            Err(e) => event_fault(events@, i as int) == Some(e@),
        },
{
    let count: usize = events.len();
    assert(i < count);
    let event = &events[i];
    let n: u64 = i as u64 + 1;
    if event.sequence != n {
        let mut message = "journal event sequence is not contiguous at ".to_owned();
        push_decimal(&mut message, n);
        return Err(JournalStoreError::InvalidRecord(message));
    }
    let phase = if i == 0 {
        JournalPhase::Planned
    } else {
        events[i - 1].to
    };
    if event.from != phase {
        return Err(numbered("journal event ", n, " does not continue from the previous phase"));
    }
    if !allowed_transition(event.from, event.to) {
        return Err(numbered("journal event ", n, " contains an impossible phase transition"));
    }
    if event.code.as_str().is_empty() || contains_control(event.code.as_str()) {
        return Err(numbered("journal event ", n, " has an invalid code"));
    }
    Ok(())
}

fn check_integrity(integrity: BindingIntegrity, message: &str) -> (result: Result<
    (),
    JournalStoreError,
>)
    ensures
        match result {
            Ok(_) => integrity_fault(integrity, message@) is None,
            Err(e) => integrity_fault(integrity, message@) == Some(e@),
        },
{
    match integrity {
        BindingIntegrity::Matches => Ok(()),
        BindingIntegrity::Differs => Err(invalid(message)),
        BindingIntegrity::Unavailable => Err(JournalStoreError::BindingIntegrityUnavailable),
    }
}

fn validate_approval_binding(journal: &OperationJournal, preconditions_json: &[u8]) -> (result:
    Result<(), JournalStoreError>)
    ensures
        match result {
            Ok(_) => approval_fault(*journal, preconditions_json@) is None,
            Err(e) => approval_fault(*journal, preconditions_json@) == Some(e@),
        },
{
    let index = find_transition(
        &journal.events,
        JournalPhase::PreconditionsVerified,
        JournalPhase::Approved,
    );
    match (&journal.approval, index) {
        (None, None) => Ok(()),
        (None, Some(_)) => Err(invalid("approved journal is missing the exact approval binding")),
        (Some(_), None) => Err(
            invalid("journal contains an approval binding without an approval transition"),
        ),
        (Some(binding), Some(_)) => {
            if binding.schema_version != 1 {
                let mut message = "unsupported exact approval binding schema version ".to_owned();
                push_decimal(&mut message, binding.schema_version as u64);
                return Err(JournalStoreError::InvalidRecord(message));
            }
            match validate_hex_digest(binding.approval_id.as_str(), "approval ID") {
                Ok(_) => {},
                Err(e) => return Err(e),
            }
            match validate_hex_digest(binding.plan_id.as_str(), "approval plan ID") {
                Ok(_) => {},
                Err(e) => return Err(e),
            }
            match validate_hex_digest(
                binding.evidence_bundle_id.as_str(),
                "approval evidence bundle ID",
            ) {
                Ok(_) => {},
                Err(e) => return Err(e),
            }
            match validate_hex_digest(
                binding.target_manifest_digest.as_str(),
                "approval target manifest digest",
            ) {
                Ok(_) => {},
                Err(e) => return Err(e),
            }
            match validate_hex_digest(
                binding.locked_session_id.as_str(),
                "approval locked session ID",
            ) {
                Ok(_) => {},
                Err(e) => return Err(e),
            }
            match validate_hex_digest(
                binding.preconditions_journal_digest.as_str(),
                "approval preconditions journal digest",
            ) {
                Ok(_) => {},
                Err(e) => return Err(e),
            }
            if !same_text(binding.plan_id.as_str(), journal.plan_id.as_str()) {
                return Err(invalid("approval binding plan ID does not match the journal"));
            }
            if !same_text(
                binding.target_manifest_digest.as_str(),
                journal.baseline_manifest_digest.as_str(),
            ) {
                return Err(invalid("approval binding target manifest does not match the journal"));
            }
            match check_integrity(
                binding.integrity,
                "approval binding fingerprint does not match its contents",
            ) {
                Ok(_) => {},
                Err(e) => return Err(e),
            }
            let expected = fingerprint(preconditions_json);
            if !same_text(binding.preconditions_journal_digest.as_str(), expected.as_str()) {
                return Err(
                    invalid("approval binding does not match the exact preconditions journal state"),
                );
            }
            Ok(())
        },
    }
}

/// Whether a list of steps is a usable order of mutations.
fn usable_step_sequence(ids: &Vec<u32>) -> (yes: bool)
    ensures
        yes == is_step_sequence(ids@),
{
    if ids.len() == 0 || holds_id(ids, 0) {
        return false;
    }
    let mut seen: Vec<u32> = Vec::new();
    let mut i: usize = 0;
    while i < ids.len()
        invariant
            i <= ids@.len(),
            seen@ == ids@.take(i as int),
            forall|a: int, b: int| 0 <= a < b < i ==> ids@[a] != ids@[b],
        decreases ids@.len() - i,
    {
        if holds_id(&seen, ids[i]) {
            proof {
                let k = choose|k: int| 0 <= k < seen@.len() && seen@[k] == ids@[i as int];
                assert(ids@[k] == ids@[i as int]);
            }
            return false;
        }
        proof {
            assert forall|a: int| 0 <= a < i implies ids@[a] != ids@[i as int] by {
                assert(seen@[a] == ids@[a]);
            }
        }
        seen.push(ids[i]);
        assert(ids@.take(i + 1) =~= ids@.take(i as int).push(ids@[i as int]));
        i += 1;
    }
    true
}

fn check_execution_digests(binding: &ExecutionStartBinding) -> (result: Result<
    (),
    JournalStoreError,
>)
    ensures
        match result {
            Ok(_) => execution_digest_fault(*binding) is None,
            Err(e) => execution_digest_fault(*binding) == Some(e@),
        },
{
    match validate_hex_digest(binding.execution_id.as_str(), "execution ID") {
        Ok(_) => {},
        Err(e) => return Err(e),
    }
    match validate_hex_digest(binding.journal_id.as_str(), "execution journal ID") {
        Ok(_) => {},
        Err(e) => return Err(e),
    }
    match validate_hex_digest(binding.plan_id.as_str(), "execution plan ID") {
        Ok(_) => {},
        Err(e) => return Err(e),
    }
    match validate_hex_digest(binding.approval_id.as_str(), "execution approval ID") {
        Ok(_) => {},
        Err(e) => return Err(e),
    }
    match validate_hex_digest(binding.source_manifest_id.as_str(), "execution source manifest ID") {
        Ok(_) => {},
        Err(e) => return Err(e),
    }
    match validate_hex_digest(
        binding.native_manifest_digest.as_str(),
        "execution native manifest digest",
    ) {
        Ok(_) => {},
        Err(e) => return Err(e),
    }
    match validate_hex_digest(
        binding.fresh_identity_digest.as_str(),
        "execution fresh identity digest",
    ) {
        Ok(_) => {},
        Err(e) => return Err(e),
    }
    validate_hex_digest(
        binding.approved_journal_digest.as_str(),
        "execution approved journal digest",
    )
}

fn validate_execution_binding(journal: &OperationJournal, approved_json: &[u8]) -> (result: Result<
    (),
    JournalStoreError,
>)
    ensures
        match result {
            Ok(_) => execution_fault(*journal, approved_json@) is None,
            Err(e) => execution_fault(*journal, approved_json@) == Some(e@),
        },
{
    let index = find_transition(&journal.events, JournalPhase::Approved, JournalPhase::Executing);
    match (&journal.execution, index) {
        (None, None) => Ok(()),
        (None, Some(_)) => Err(invalid("executing journal is missing the exact execution binding")),
        (Some(_), None) => Err(
            invalid("journal contains an execution binding without an execution transition"),
        ),
        (Some(binding), Some(_)) => {
            if binding.schema_version != 1 {
                let mut message = "unsupported execution binding schema version ".to_owned();
                push_decimal(&mut message, binding.schema_version as u64);
                return Err(JournalStoreError::InvalidRecord(message));
            }
            match check_execution_digests(binding) {
                Ok(_) => {},
                Err(e) => return Err(e),
            }
            if !usable_step_sequence(&binding.mutation_step_ids) {
                return Err(invalid("execution binding mutation step sequence is invalid"));
            }
            if !same_text(binding.journal_id.as_str(), journal.journal_id.as_str()) {
                return Err(invalid("execution binding journal ID does not match the journal"));
            }
            if !same_text(binding.plan_id.as_str(), journal.plan_id.as_str()) {
                return Err(invalid("execution binding plan ID does not match the journal"));
            }
            match &journal.approval {
                None => {
                    return Err(invalid("execution binding exists without an approval binding"));
                },
                Some(approval) => {
                    if !same_text(binding.approval_id.as_str(), approval.approval_id.as_str()) {
                        return Err(
                            invalid("execution binding approval ID does not match the journal"),
                        );
                    }
                },
            }
            if !same_text(
                binding.fresh_identity_digest.as_str(),
                journal.baseline_manifest_digest.as_str(),
            ) {
                return Err(
                    invalid("execution binding fresh identity does not match the journal baseline"),
                );
            }
            match check_integrity(
                binding.integrity,
                "execution binding fingerprint does not match its contents",
            ) {
                Ok(_) => {},
                Err(e) => return Err(e),
            }
            let expected = fingerprint(approved_json);
            if !same_text(binding.approved_journal_digest.as_str(), expected.as_str()) {
                return Err(
                    invalid("execution binding does not match the exact approved journal state"),
                );
            }
            Ok(())
        },
    }
}

fn finds_event_code(events: &Vec<JournalEvent>, code: &str) -> (found: bool)
    ensures
        found == has_event_code(events@, code@),
{
    let mut i: usize = 0;
    while i < events.len()
        invariant
            i <= events@.len(),
            forall|j: int| 0 <= j < i ==> (#[trigger] events@[j]).code@ != code@,
        decreases events@.len() - i,
    {
        if same_text(events[i].code.as_str(), code) {
            assert(events@[i as int].code@ == code@);
            return true;
        }
        i += 1;
    }
    false
}

fn check_terminal(
    journal: &OperationJournal,
    binding: &VerifiedMutationBoundaryBinding,
    execution: &ExecutionStartBinding,
) -> (result: Result<(), JournalStoreError>)
    ensures
        match result {
            Ok(_) => terminal_fault(*journal, *binding, *execution) is None,
            Err(e) => terminal_fault(*journal, *binding, *execution) == Some(e@),
        },
{
    let completed = finds_event_code(&journal.events, "verification-passed-complete");
    let ids = &execution.mutation_step_ids;
    match (&binding.final_step_id, &binding.final_identity_digest) {
        (None, None) => {
            if binding.schema_version != 1 || completed || (journal.phase == JournalPhase::Completed
                && ids.len() > 1) {
                return Err(
                    invalid("completed multi-step execution is missing durable terminal verification"),
                );
            }
            Ok(())
        },
        (Some(final_step), Some(final_digest)) => {
            if binding.schema_version != 2 || !completed || journal.phase
                != JournalPhase::Completed {
                return Err(
                    invalid("terminal verification binding exists without terminal completion"),
                );
            }
            match validate_hex_digest(
                final_digest.as_str(),
                "terminal verification fresh identity digest",
            ) {
                Ok(_) => {},
                Err(e) => return Err(e),
            }
            if ids.len() == 0 || ids[ids.len() - 1] != *final_step || binding.next_step_id
                != *final_step {
                return Err(
                    invalid("terminal verification step does not match the final durable mutation step"),
                );
            }
            Ok(())
        },
        _ => Err(invalid("terminal verification binding is incomplete")),
    }
}

fn validate_verified_boundary_binding(journal: &OperationJournal) -> (result: Result<
    (),
    JournalStoreError,
>)
    ensures
        match result {
            Ok(_) => boundary_fault(*journal) is None,
            Err(e) => boundary_fault(*journal) == Some(e@),
        },
{
    let continued = finds_event_code(&journal.events, "verification-passed-continue");
    match &journal.verified_boundary {
        None => {
            if continued {
                Err(
                    invalid("verification continuation is missing the durable verified boundary binding"),
                )
            } else {
                Ok(())
            }
        },
        Some(binding) => {
            if !continued {
                return Err(
                    invalid("verified boundary binding exists without a verification continuation"),
                );
            }
            if !(binding.schema_version == 1 || binding.schema_version == 2) {
                let mut message = "unsupported verified boundary binding schema version ".to_owned();
                push_decimal(&mut message, binding.schema_version as u64);
                return Err(JournalStoreError::InvalidRecord(message));
            }
            match validate_hex_digest(binding.boundary_id.as_str(), "verified boundary ID") {
                Ok(_) => {},
                Err(e) => return Err(e),
            }
            match validate_hex_digest(
                binding.execution_id.as_str(),
                "verified boundary execution ID",
            ) {
                Ok(_) => {},
                Err(e) => return Err(e),
            }
            match validate_hex_digest(
                binding.fresh_identity_digest.as_str(),
                "verified boundary fresh identity digest",
            ) {
                Ok(_) => {},
                Err(e) => return Err(e),
            }
            if binding.completed_step_id == 0 || binding.next_step_id == 0
                || binding.completed_step_id == binding.next_step_id {
                return Err(invalid("verified boundary step sequence is invalid"));
            }
            match &journal.execution {
                None => Err(
                    invalid("verified boundary exists without the durable execution binding"),
                ),
                Some(execution) => {
                    if !same_text(binding.execution_id.as_str(), execution.execution_id.as_str()) {
                        return Err(
                            invalid("verified boundary execution ID does not match the journal"),
                        );
                    }
                    if !steps_adjacent(
                        &execution.mutation_step_ids,
                        binding.completed_step_id,
                        binding.next_step_id,
                    ) {
                        return Err(
                            invalid("verified boundary steps do not match the durable execution sequence"),
                        );
                    }
                    match check_integrity(
                        binding.integrity,
                        "verified boundary fingerprint does not match its contents",
                    ) {
                        Ok(_) => {},
                        Err(e) => return Err(e),
                    }
                    match check_terminal(journal, binding, execution) {
                        Ok(_) => {},
                        Err(e) => return Err(e),
                    }
                    if !mutation_phase(journal.phase) {
                        return Err(
                            invalid("verified boundary exists before the mutation verification boundary"),
                        );
                    }
                    Ok(())
                },
            }
        },
    }
}

fn check_frame(journal: &OperationJournal) -> (result: Result<(), JournalStoreError>)
    ensures
        match result {
            Ok(_) => frame_fault(*journal) is None,
            Err(e) => frame_fault(*journal) == Some(e@),
        },
{
    if journal.schema_version != 1 {
        return Err(invalid("unsupported journal schema version"));
    }
    match validate_journal_id(journal.journal_id.as_str()) {
        Ok(_) => {},
        Err(e) => return Err(e),
    }
    match validate_hex_digest(journal.plan_id.as_str(), "plan ID") {
        Ok(_) => {},
        Err(e) => return Err(e),
    }
    match validate_hex_digest(
        journal.baseline_manifest_digest.as_str(),
        "baseline manifest digest",
    ) {
        Ok(_) => {},
        Err(e) => return Err(e),
    }
    if journal.target.as_str().is_empty() || contains_control(journal.target.as_str()) {
        return Err(invalid("journal target is empty or contains control characters"));
    }
    Ok(())
}

fn check_chain(events: &Vec<JournalEvent>) -> (result: Result<(), JournalStoreError>)
    ensures
        match result {
            Ok(_) => chain_fault(events@) is None,
            Err(e) => chain_fault(events@) == Some(e@),
        },
{
    let ghost on_event = |i: int| event_fault(events@, i);
    let mut i: usize = 0;
    while i < events.len()
        invariant
            i <= events@.len(),
            on_event == (|i: int| event_fault(events@, i)),
            text::first_some(i as int, on_event) is None,
        decreases events@.len() - i,
    {
        match check_event(events, i) {
            Ok(_) => {},
            Err(e) => {
                proof {
                    assert(text::first_some(i + 1, on_event) == Some(e@));
                    text::lemma_first_some_stays(i + 1, events@.len() as int, on_event);
                }
                return Err(e);
            },
        }
        i += 1;
    }
    Ok(())
}

/// Validates a journal record. `preconditions_json` and `approved_json` are the serialised forms
/// of [`preconditions_state`] and [`approved_state`]; they are looked at only where those states
/// exist.
pub fn validate_journal(
    journal: &OperationJournal,
    preconditions_json: &[u8],
    approved_json: &[u8],
) -> (result: Result<(), JournalStoreError>)
    ensures
        match result {
            Ok(_) => journal_fault(*journal, preconditions_json@, approved_json@) is None,
            Err(e) => journal_fault(*journal, preconditions_json@, approved_json@) == Some(e@),
        },
{
    match check_frame(journal) {
        Ok(_) => {},
        Err(e) => return Err(e),
    }
    match check_chain(&journal.events) {
        Ok(_) => {},
        Err(e) => return Err(e),
    }
    let count: usize = journal.events.len();
    let phase = if count == 0 {
        JournalPhase::Planned
    } else {
        journal.events[count - 1].to
    };
    if phase != journal.phase {
        return Err(invalid("journal phase does not match the event chain"));
    }
    if journal.mutation_may_have_started != mutation_phase(journal.phase) {
        return Err(invalid("mutation boundary flag is inconsistent with the journal phase"));
    }
    match validate_approval_binding(journal, preconditions_json) {
        Ok(_) => {},
        Err(e) => return Err(e),
    }
    match validate_execution_binding(journal, approved_json) {
        Ok(_) => {},
        Err(e) => return Err(e),
    }
    validate_verified_boundary_binding(journal)
}

/// What is wrong with a record that was read back under a journal identifier, if anything.
pub open spec fn loaded_fault(
    journal_id: Seq<char>,
    journal: OperationJournal,
    preconditions_json: Seq<u8>,
    approved_json: Seq<u8>,
) -> Option<JournalFault> {
    either(
        record_fault(
            journal.journal_id@ != journal_id,
            "journal ID does not match the requested durable record"@,
        ),
        journal_fault(journal, preconditions_json, approved_json),
    )
}

/// Validates a journal record that was read back for `journal_id`.
pub fn validate_loaded_journal(
    journal_id: &str,
    journal: &OperationJournal,
    preconditions_json: &[u8],
    approved_json: &[u8],
) -> (result: Result<(), JournalStoreError>)
    ensures
        match result {
            Ok(_) => loaded_fault(journal_id@, *journal, preconditions_json@, approved_json@) is None,
            Err(e) => loaded_fault(journal_id@, *journal, preconditions_json@, approved_json@)
                == Some(e@),
        },
{
    if !same_text(journal.journal_id.as_str(), journal_id) {
        return Err(invalid("journal ID does not match the requested durable record"));
    }
    validate_journal(journal, preconditions_json, approved_json)
}

/// A chain of events without a fault is a walk along allowed phase changes.
pub proof fn chain_follows_transitions(events: Seq<JournalEvent>, i: int)
    requires
        chain_fault(events) is None,
        0 <= i < events.len(),
    ensures
        events[i].sequence == i + 1,
        events[i].from == phase_before(events, i),
        is_allowed_transition(events[i].from, events[i].to),
{
    let at = |i: int| event_fault(events, i);
    text::lemma_first_some_none(events.len() as int, at, i);
    assert(at(i) is None);
}

/// Nothing follows a completed, aborted or failed operation.
pub proof fn terminal_phase_ends_the_chain(events: Seq<JournalEvent>, i: int)
    requires
        chain_fault(events) is None,
        0 <= i < events.len(),
        events[i].to == JournalPhase::Completed || events[i].to == JournalPhase::Aborted
            || events[i].to == JournalPhase::RecoveryRequired,
    ensures
        i == events.len() - 1,
{
    if i < events.len() - 1 {
        chain_follows_transitions(events, i + 1);
    }
}

/// Execution starts only from an approval: an event that enters execution comes after one that
/// records the approval.
pub proof fn execution_follows_approval(events: Seq<JournalEvent>, i: int) -> (a: int)
    requires
        chain_fault(events) is None,
        0 <= i < events.len(),
        is_mutation_phase(events[i].to),
    ensures
        0 <= a < i,
        events[a].from == JournalPhase::PreconditionsVerified,
        events[a].to == JournalPhase::Approved,
    decreases i,
{
    chain_follows_transitions(events, i);
    if i > 0 {
        chain_follows_transitions(events, i - 1);
    }
    if events[i].from == JournalPhase::Approved {
        i - 1
    } else {
        execution_follows_approval(events, i - 1)
    }
}

/// Every mutation phase follows a recorded start of execution.
pub proof fn mutation_phase_follows_execution_start(events: Seq<JournalEvent>, i: int) -> (s: int)
    requires
        chain_fault(events) is None,
        0 <= i < events.len(),
        is_mutation_phase(events[i].to),
    ensures
        0 <= s <= i,
        events[s].from == JournalPhase::Approved,
        events[s].to == JournalPhase::Executing,
    decreases i,
{
    chain_follows_transitions(events, i);
    if events[i].from == JournalPhase::Approved {
        i
    } else {
        mutation_phase_follows_execution_start(events, i - 1)
    }
}

/// A completed operation was verified: the last event leads from verification to completion.
pub proof fn completion_follows_verification(events: Seq<JournalEvent>, i: int)
    requires
        chain_fault(events) is None,
        0 <= i < events.len(),
        events[i].to == JournalPhase::Completed,
    ensures
        events[i].from == JournalPhase::Verifying,
{
    chain_follows_transitions(events, i);
}

/// Once execution has started, no later event leads back out of the mutation phases.
pub proof fn mutation_phases_are_final(events: Seq<JournalEvent>, s: int, i: int)
    requires
        chain_fault(events) is None,
        0 <= s <= i < events.len(),
        is_mutation_phase(events[s].to),
    ensures
        is_mutation_phase(events[i].to),
    decreases i - s,
{
    if s < i {
        mutation_phases_are_final(events, s, i - 1);
        chain_follows_transitions(events, i);
    }
}

/// A valid journal says that a mutation may have started exactly when it records the start of an
/// execution.
pub proof fn mutation_flag_is_exact(
    journal: OperationJournal,
    preconditions_json: Seq<u8>,
    approved_json: Seq<u8>,
)
    requires
        journal_fault(journal, preconditions_json, approved_json) is None,
    ensures
        journal.mutation_may_have_started <==> exists|i: int|
            0 <= i < journal.events@.len() && (#[trigger] journal.events@[i]).to
                == JournalPhase::Executing,
{
    let events = journal.events@;
    let last = events.len() - 1;
    if journal.mutation_may_have_started {
        let s = mutation_phase_follows_execution_start(events, last);
        assert(events[s].to == JournalPhase::Executing);
    }
    if exists|i: int| 0 <= i < events.len() && (#[trigger] events[i]).to == JournalPhase::Executing {
        let i = choose|i: int|
            0 <= i < events.len() && (#[trigger] events[i]).to == JournalPhase::Executing;
        mutation_phases_are_final(events, i, last);
    }
}

/// A valid journal whose mutation may have started carries its approval and its execution start,
/// bound to each other and to the journal.
pub proof fn started_journal_is_bound(
    journal: OperationJournal,
    preconditions_json: Seq<u8>,
    approved_json: Seq<u8>,
)
    requires
        journal_fault(journal, preconditions_json, approved_json) is None,
        journal.mutation_may_have_started,
    ensures
        journal.approval is Some,
        journal.execution is Some,
        journal.execution->Some_0.is_sound(),
        journal.execution->Some_0.journal_id@ == journal.journal_id@,
        journal.execution->Some_0.plan_id@ == journal.plan_id@,
        journal.execution->Some_0.approval_id@ == journal.approval->Some_0.approval_id@,
        journal.approval->Some_0.plan_id@ == journal.plan_id@,
        is_step_sequence(journal.execution->Some_0.mutation_step_ids@),
{
    let events = journal.events@;
    let last = events.len() - 1;
    let s = mutation_phase_follows_execution_start(events, last);
    model::lemma_transition_found(events, JournalPhase::Approved, JournalPhase::Executing, s);
    let a = execution_follows_approval(events, last);
    model::lemma_transition_found(events, JournalPhase::PreconditionsVerified, JournalPhase::Approved, a);
}

/// A journal that may be written is read back under its own identifier and under no other.
pub proof fn written_record_is_read_back(
    journal: OperationJournal,
    preconditions_json: Seq<u8>,
    approved_json: Seq<u8>,
    journal_id: Seq<char>,
    path: Seq<char>,
    size: u64,
)
    requires
        journal_fault(journal, preconditions_json, approved_json) is None,
        size <= MAX_JOURNAL_BYTES,
    ensures
        text::is_digest_text(journal.journal_id@),
        record_read_refusal(
            journal.journal_id@,
            path,
            RecordStatus::Present { regular: true, size },
        ) is None,
        loaded_fault(journal_id, journal, preconditions_json, approved_json) is None <==> journal_id
            == journal.journal_id@,
{
}

/// What a store holds: its root, and the journal of each record by its path.
pub struct StoreModel {
    pub root: Seq<char>,
    pub records: Map<Seq<char>, OperationJournal>,
}

/// A store after a record was written, in place of an earlier one where there is one.
pub open spec fn persisted(store: StoreModel, journal: OperationJournal) -> StoreModel {
    StoreModel {
        records: store.records.insert(record_path(store.root, journal.journal_id@), journal),
        ..store
    }
}

/// How the attempt to name a new record in a store ends: only one name is given to one record.
pub open spec fn naming_in(store: StoreModel, journal: OperationJournal) -> NamingOutcome {
    if store.records.dom().contains(record_path(store.root, journal.journal_id@)) {
        NamingOutcome::Taken
    } else {
        NamingOutcome::Named
    }
}

/// A store after the attempt to write a new record, and what the attempt failed for, if it failed.
pub open spec fn persisted_new(store: StoreModel, journal: OperationJournal) -> (
    StoreModel,
    Option<JournalFault>,
) {
    let fault = naming_fault(
        journal.journal_id@,
        record_path(store.root, journal.journal_id@),
        naming_in(store, journal),
    );
    if fault is Some {
        (store, fault)
    } else {
        (persisted(store, journal), None)
    }
}

/// What reading a record gives. `size` is that of its file, and `states` gives the serialised earlier
/// states of a journal: the one before its approval and the one before its execution.
pub open spec fn loaded(
    store: StoreModel,
    journal_id: Seq<char>,
    size: u64,
    states: spec_fn(OperationJournal) -> (Seq<u8>, Seq<u8>),
) -> Result<OperationJournal, JournalFault> {
    let path = record_path(store.root, journal_id);
    let status = if store.records.dom().contains(path) {
        RecordStatus::Present { regular: true, size }
    } else {
        RecordStatus::Absent
    };
    if !text::is_digest_text(journal_id) {
        Err(JournalFault::InvalidJournalId)
    } else {
        match record_read_refusal(journal_id, path, status) {
            Some(fault) => Err(fault),
            None => {
                let journal = store.records[path];
                match loaded_fault(journal_id, journal, states(journal).0, states(journal).1) {
                    Some(fault) => Err(fault),
                    None => Ok(journal),
                }
            },
        }
    }
}

/// Whether a journal may be written.
pub open spec fn is_writable(
    journal: OperationJournal,
    size: u64,
    states: spec_fn(OperationJournal) -> (Seq<u8>, Seq<u8>),
) -> bool {
    size <= MAX_JOURNAL_BYTES && journal_fault(journal, states(journal).0, states(journal).1)
        is None
}

/// A read gives back the last write under an identifier, and writes under other identifiers do not
/// touch it.
pub proof fn last_write_is_read_back(
    store: StoreModel,
    journal: OperationJournal,
    other: OperationJournal,
    size: u64,
    states: spec_fn(OperationJournal) -> (Seq<u8>, Seq<u8>),
)
    requires
        is_writable(journal, size, states),
    ensures
        loaded(persisted(store, journal), journal.journal_id@, size, states) == Ok::<
            OperationJournal,
            JournalFault,
        >(journal),
        other.journal_id@ != journal.journal_id@ ==> loaded(
            persisted(persisted(store, journal), other),
            journal.journal_id@,
            size,
            states,
        ) == Ok::<OperationJournal, JournalFault>(journal),
{
    let after = persisted(store, journal);
    let path = record_path(store.root, journal.journal_id@);
    let beside = record_path(store.root, other.journal_id@);
    assert(after.records[path] == journal);
    if other.journal_id@ != journal.journal_id@ {
        if path == beside {
            let x = journal.journal_id@ + ".json"@;
            let y = other.journal_id@ + ".json"@;
            text::lemma_join_injective(store.root, x, y);
            assert(x.len() == y.len());
            assert(journal.journal_id@ =~= x.take(journal.journal_id@.len() as int));
            assert(other.journal_id@ =~= y.take(other.journal_id@.len() as int));
        }
        assert(persisted(after, other).records[path] == journal);
    }
}

/// A new record never replaces an earlier one: the attempt is refused, the store stays as it is, and
/// the earlier record is still read back.
pub proof fn new_record_never_replaces(
    store: StoreModel,
    original: OperationJournal,
    replacement: OperationJournal,
    size: u64,
    states: spec_fn(OperationJournal) -> (Seq<u8>, Seq<u8>),
)
    requires
        is_writable(original, size, states),
        persisted_new(store, original).1 is None,
        replacement.journal_id@ == original.journal_id@,
    ensures
        ({
            let first = persisted_new(store, original).0;
            let (second, fault) = persisted_new(first, replacement);
            &&& fault == Some(JournalFault::AlreadyExists(original.journal_id@))
            &&& second == first
            &&& loaded(second, original.journal_id@, size, states) == Ok::<
                OperationJournal,
                JournalFault,
            >(original)
        }),
{
    last_write_is_read_back(store, original, original, size, states);
}

/// A record that was edited is refused as invalid: one with an impossible phase change or a binding
/// that does not fit, and any other that could not have been written.
pub proof fn edited_record_is_refused(
    store: StoreModel,
    journal_id: Seq<char>,
    edited: OperationJournal,
    size: u64,
    states: spec_fn(OperationJournal) -> (Seq<u8>, Seq<u8>),
)
    requires
        text::is_digest_text(journal_id),
        size <= MAX_JOURNAL_BYTES,
        store.records.dom().contains(record_path(store.root, journal_id)),
        store.records[record_path(store.root, journal_id)] == edited,
        edited.journal_id@ != journal_id || journal_fault(
            edited,
            states(edited).0,
            states(edited).1,
        ) is Some,
        edited.approval is Some ==> edited.approval->Some_0.integrity
            != BindingIntegrity::Unavailable,
        edited.execution is Some ==> edited.execution->Some_0.integrity
            != BindingIntegrity::Unavailable,
        edited.verified_boundary is Some ==> edited.verified_boundary->Some_0.integrity
            != BindingIntegrity::Unavailable,
    ensures
        loaded(store, journal_id, size, states) matches Err(JournalFault::InvalidRecord(_)),
{
    lemma_first_event_fault(edited.events@, edited.events@.len() as int);
}

proof fn lemma_first_event_fault(events: Seq<JournalEvent>, n: int)
    ensures
        text::first_some(n, |i: int| event_fault(events, i)) matches Some(fault)
            ==> fault is InvalidRecord,
    decreases n,
{
    if n > 0 {
        lemma_first_event_fault(events, n - 1);
    }
}

/// A frame is sound exactly where the schema is known, the three identifiers are digests, and the
/// target is a plain text that is not empty.
pub proof fn sound_frame_is_named_by_digests(journal: OperationJournal)
    ensures
        frame_fault(journal) is None <==> {
            &&& journal.schema_version == 1
            &&& text::is_digest_text(journal.journal_id@)
            &&& text::is_digest_text(journal.plan_id@)
            &&& text::is_digest_text(journal.baseline_manifest_digest@)
            &&& journal.target@.len() > 0
            &&& !text::has_control_char(journal.target@)
        },
{
}

/// A chain of events is sound exactly where the events are numbered from one, each starts in the
/// phase in which the one before it ended, the first in the planned one, each makes an allowed
/// change, and each has a plain code that is not empty.
pub proof fn sound_chain_is_numbered_and_unbroken(events: Seq<JournalEvent>)
    ensures
        chain_fault(events) is None <==> forall|i: int|
            0 <= i < events.len() ==> {
                &&& (#[trigger] events[i]).sequence == i + 1
                &&& i == 0 ==> events[i].from is Planned
                &&& i > 0 ==> events[i].from == events[i - 1].to
                &&& is_allowed_transition(events[i].from, events[i].to)
                &&& events[i].code@.len() > 0
                &&& !text::has_control_char(events[i].code@)
            },
{
    let at = |i: int| event_fault(events, i);
    reading::report_is_the_first_one(events.len() as int, at);
    assert(chain_fault(events) == text::first_some(events.len() as int, at));
    if chain_fault(events) is None {
        assert forall|i: int| 0 <= i < events.len() implies event_fault(events, i) is None by {
            assert(at(i) is None);
        }
        assert forall|i: int| 0 <= i < events.len() implies {
            &&& (#[trigger] events[i]).sequence == i + 1
            &&& i == 0 ==> events[i].from is Planned
            &&& i > 0 ==> events[i].from == events[i - 1].to
            &&& is_allowed_transition(events[i].from, events[i].to)
            &&& events[i].code@.len() > 0
            &&& !text::has_control_char(events[i].code@)
        } by {
            assert(event_fault(events, i) is None);
        }
    } else {
        let i = choose|i: int| reading::is_first_report(events.len() as int, at, i);
        assert(event_fault(events, i) is Some);
        assert(events[i] == events[i]);
    }
}

/// A phase comes after how many steps of an execution; the two ways out are not counted.
pub open spec fn phase_rank(phase: JournalPhase) -> int {
    match phase {
        JournalPhase::Planned => 0,
        JournalPhase::HostLockHeld => 1,
        JournalPhase::IdentityRevalidated => 2,
        JournalPhase::PreconditionsVerified => 3,
        JournalPhase::Approved => 4,
        JournalPhase::Executing => 5,
        JournalPhase::Verifying => 6,
        JournalPhase::Completed => 7,
        _ => -1,
    }
}

/// A journal moves on by one phase at a time, goes back only from verifying to executing, is
/// aborted only before it executes, and needs recovery only once it does. Three phases are final.
pub proof fn phases_are_passed_in_order(from: JournalPhase, to: JournalPhase)
    ensures
        is_allowed_transition(from, to) <==> {
            ||| 0 <= phase_rank(from) && phase_rank(to) == phase_rank(from) + 1
            ||| from is Verifying && to is Executing
            ||| to is Aborted && 0 <= phase_rank(from) < 5
            ||| to is RecoveryRequired && (from is Executing || from is Verifying)
        },
        is_mutation_phase(to) <==> phase_rank(to) >= 5 || to is RecoveryRequired,
{
}

/// The phase is sound exactly where it is the one that the events end in, and the mutation flag is
/// set exactly where a mutation may have started in that phase.
pub proof fn sound_phase_is_where_the_events_end(journal: OperationJournal)
    ensures
        phase_fault(journal) is None <==> {
            &&& journal.events@.len() == 0 ==> journal.phase is Planned
            &&& journal.events@.len() > 0 ==> journal.phase == journal.events@[journal.events@.len()
                - 1].to
            &&& journal.mutation_may_have_started <==> phase_rank(journal.phase) >= 5
                || journal.phase is RecoveryRequired
        },
{
}

/// The approval part is sound exactly where a binding is there if and only if the journal was
/// approved, its identifiers are digests, it names the plan and the target of the journal, its
/// fingerprint holds, and it names the journal as it stood before it was approved.
pub proof fn sound_approval_names_the_journal_before_it(
    journal: OperationJournal,
    preconditions_json: Seq<u8>,
)
    ensures
        approval_fault(journal, preconditions_json) is None <==> {
            &&& journal.approval is Some <==> exists|i: int|
                0 <= i < journal.events@.len() && (#[trigger] journal.events@[i]).from
                    is PreconditionsVerified && journal.events@[i].to is Approved
            &&& journal.approval matches Some(binding) ==> {
                &&& binding.schema_version == 1
                &&& binding.integrity is Matches
                &&& text::is_digest_text(binding.approval_id@)
                &&& text::is_digest_text(binding.plan_id@)
                &&& text::is_digest_text(binding.evidence_bundle_id@)
                &&& text::is_digest_text(binding.target_manifest_digest@)
                &&& text::is_digest_text(binding.locked_session_id@)
                &&& text::is_digest_text(binding.preconditions_journal_digest@)
                &&& binding.plan_id@ == journal.plan_id@
                &&& binding.target_manifest_digest@ == journal.baseline_manifest_digest@
                &&& binding.preconditions_journal_digest@ == digest::fingerprint_of(
                    preconditions_json,
                )
            }
        },
{
    looked_up_transition_is_the_first(
        journal.events@,
        JournalPhase::PreconditionsVerified,
        JournalPhase::Approved,
    );
}

/// The event at `i` is the first that makes this phase change.
pub open spec fn is_first_change_at(
    events: Seq<JournalEvent>,
    from: JournalPhase,
    to: JournalPhase,
    i: int,
) -> bool {
    &&& 0 <= i < events.len()
    &&& events[i].from == from
    &&& events[i].to == to
    &&& forall|j: int| 0 <= j < i ==> (#[trigger] events[j]).from != from || events[j].to != to
}

/// The phase change that is looked up is the first of its kind.
pub proof fn looked_up_transition_is_the_first(
    events: Seq<JournalEvent>,
    from: JournalPhase,
    to: JournalPhase,
)
    ensures
        model::first_transition(events, from, to) is Some <==> exists|i: int|
            0 <= i < events.len() && (#[trigger] events[i]).from == from && events[i].to == to,
        model::first_transition(events, from, to) matches Some(i) ==> is_first_change_at(
            events,
            from,
            to,
            i,
        ),
        forall|i: int| #[trigger]
            is_first_change_at(events, from, to, i) ==> model::first_transition(events, from, to)
                == Some(i),
{
    let at = |i: int|
        if events[i].from == from && events[i].to == to {
            Some(i)
        } else {
            None
        };
    reading::report_is_the_first_one(events.len() as int, at);
    assert(model::first_transition(events, from, to) == text::first_some(events.len() as int, at));
    if model::first_transition(events, from, to) is None {
        assert forall|i: int| 0 <= i < events.len() implies (#[trigger] events[i]).from != from
            || events[i].to != to by {
            assert(at(i) is None);
        }
    } else {
        let i = choose|i: int| reading::is_first_report(events.len() as int, at, i);
        assert forall|j: int| 0 <= j < i implies (#[trigger] events[j]).from != from || events[j].to
            != to by {
            assert(at(j) is None);
        }
        assert(at(i) == Some(i));
        assert(events[i].from == from);
    }
    assert forall|i: int| #[trigger] is_first_change_at(events, from, to, i) implies
        model::first_transition(events, from, to) == Some(i) by {
        assert forall|j: int| 0 <= j < i implies #[trigger] at(j) is None by {
            assert(events[j].from != from || events[j].to != to);
        }
        assert(reading::is_first_report(events.len() as int, at, i));
    }
}

/// The execution part is sound exactly where a binding is there if and only if execution started,
/// its identifiers are digests, it lists some steps, none zero and none twice, it names the
/// journal, plan, approval and target of the journal, its fingerprint holds, and it names the
/// journal as it stood when it was approved.
pub proof fn sound_execution_names_the_approved_journal(
    journal: OperationJournal,
    approved_json: Seq<u8>,
)
    ensures
        execution_fault(journal, approved_json) is None <==> {
            &&& journal.execution is Some <==> exists|i: int|
                0 <= i < journal.events@.len() && (#[trigger] journal.events@[i]).from is Approved
                    && journal.events@[i].to is Executing
            &&& journal.execution matches Some(binding) ==> {
                &&& binding.schema_version == 1
                &&& binding.integrity is Matches
                &&& text::is_digest_text(binding.execution_id@)
                &&& text::is_digest_text(binding.journal_id@)
                &&& text::is_digest_text(binding.plan_id@)
                &&& text::is_digest_text(binding.approval_id@)
                &&& text::is_digest_text(binding.source_manifest_id@)
                &&& text::is_digest_text(binding.native_manifest_digest@)
                &&& text::is_digest_text(binding.fresh_identity_digest@)
                &&& text::is_digest_text(binding.approved_journal_digest@)
                &&& binding.mutation_step_ids@.len() > 0
                &&& forall|i: int|
                    0 <= i < binding.mutation_step_ids@.len()
                        ==> #[trigger] binding.mutation_step_ids@[i] != 0
                &&& forall|i: int, j: int|
                    0 <= i < j < binding.mutation_step_ids@.len()
                        ==> #[trigger] binding.mutation_step_ids@[i]
                        != #[trigger] binding.mutation_step_ids@[j]
                &&& binding.journal_id@ == journal.journal_id@
                &&& binding.plan_id@ == journal.plan_id@
                &&& journal.approval matches Some(approval)
                &&& binding.approval_id@ == approval.approval_id@
                &&& binding.fresh_identity_digest@ == journal.baseline_manifest_digest@
                &&& binding.approved_journal_digest@ == digest::fingerprint_of(approved_json)
            }
        },
{
    looked_up_transition_is_the_first(
        journal.events@,
        JournalPhase::Approved,
        JournalPhase::Executing,
    );
    if journal.execution is Some {
        let ids = journal.execution->Some_0.mutation_step_ids@;
        if ids.contains(0) {
            let i = choose|i: int| 0 <= i < ids.len() && ids[i] == 0;
            assert(ids[i] == 0);
        } else {
            assert forall|i: int| 0 <= i < ids.len() implies #[trigger] ids[i] != 0 by {
                assert(ids.contains(ids[i]));
            }
        }
        if forall|i: int, j: int|
            0 <= i < j < ids.len() ==> #[trigger] ids[i] != #[trigger] ids[j] {
            assert(ids.no_duplicates());
        }
    }
}

/// The boundary part is sound exactly where a boundary is there if and only if verification led to
/// a further step; it then names two neighbouring steps of this very execution by digests, its
/// fingerprint holds, a mutation may have started, and its end is there if and only if the last
/// step was verified and the journal completed.
pub proof fn sound_boundary_stands_between_neighbouring_steps(journal: OperationJournal)
    ensures
        boundary_fault(journal) is None <==> {
            &&& journal.verified_boundary is Some <==> exists|i: int|
                0 <= i < journal.events@.len() && (#[trigger] journal.events@[i]).code@
                    == "verification-passed-continue"@
            &&& journal.verified_boundary matches Some(binding) ==> {
                &&& binding.integrity is Matches
                &&& text::is_digest_text(binding.boundary_id@)
                &&& text::is_digest_text(binding.execution_id@)
                &&& text::is_digest_text(binding.fresh_identity_digest@)
                &&& binding.completed_step_id != 0
                &&& binding.next_step_id != 0
                &&& binding.completed_step_id != binding.next_step_id
                &&& phase_rank(journal.phase) >= 5 || journal.phase is RecoveryRequired
                &&& journal.execution matches Some(execution)
                &&& binding.execution_id@ == execution.execution_id@
                &&& exists|k: int|
                    {
                        &&& 0 <= k < execution.mutation_step_ids@.len() - 1
                        &&& #[trigger] execution.mutation_step_ids@[k] == binding.completed_step_id
                        &&& execution.mutation_step_ids@[k + 1] == binding.next_step_id
                    }
                &&& {
                    let completed = exists|i: int|
                        0 <= i < journal.events@.len() && (#[trigger] journal.events@[i]).code@
                            == "verification-passed-complete"@;
                    ||| {
                        &&& binding.schema_version == 1
                        &&& binding.final_step_id is None
                        &&& binding.final_identity_digest is None
                        &&& !completed
                        &&& !(journal.phase is Completed)
                    }
                    ||| {
                        &&& binding.schema_version == 2
                        &&& binding.final_step_id == Some(binding.next_step_id)
                        &&& binding.final_identity_digest is Some
                        &&& text::is_digest_text(binding.final_identity_digest->Some_0@)
                        &&& completed
                        &&& journal.phase is Completed
                        &&& execution.mutation_step_ids@[execution.mutation_step_ids@.len() - 1]
                            == binding.next_step_id
                    }
                }
            }
        },
{
}

/// A journal is sound exactly where each of its parts is.
pub proof fn sound_journal_is_sound_in_every_part(
    journal: OperationJournal,
    preconditions_json: Seq<u8>,
    approved_json: Seq<u8>,
    journal_id: Seq<char>,
)
    ensures
        journal_fault(journal, preconditions_json, approved_json) is None <==> {
            &&& frame_fault(journal) is None
            &&& chain_fault(journal.events@) is None
            &&& phase_fault(journal) is None
            &&& approval_fault(journal, preconditions_json) is None
            &&& execution_fault(journal, approved_json) is None
            &&& boundary_fault(journal) is None
        },
        loaded_fault(journal_id, journal, preconditions_json, approved_json) is None <==> {
            &&& journal.journal_id@ == journal_id
            &&& journal_fault(journal, preconditions_json, approved_json) is None
        },
{
}

/// A record is read exactly where it is a regular file of at most one mebibyte; one that is absent
/// is reported as missing.
pub proof fn record_is_read_where_it_is_small_and_regular(
    journal_id: Seq<char>,
    path: Seq<char>,
    regular: bool,
    size: u64,
)
    ensures
        record_read_refusal(journal_id, path, RecordStatus::Present { regular, size }) is None
            <==> regular && size <= 1024 * 1024,
        record_read_refusal(journal_id, path, RecordStatus::Absent) is Some,
        record_write_refusal(path, RecordStatus::Absent) is None,
        record_write_refusal(path, RecordStatus::Present { regular, size }) is None <==> regular,
        !regular ==> record_write_refusal(path, RecordStatus::Present { regular, size }) == Some(
            JournalFault::NotRegularFile(path),
        ),
{
}

/// Different journals have different records, all below the root of their store.
pub proof fn records_of_different_journals_differ(root: Seq<char>, a: Seq<char>, b: Seq<char>)
    ensures
        record_path(root, a) == record_path(root, b) ==> a == b,
        root.len() > 0 && root[root.len() - 1] != '/' ==> record_path(root, a) == root + seq!['/']
            + a + ".json"@,
{
    let p = record_path(root, a);
    let q = record_path(root, b);
    let front = if root.len() == 0 {
        Seq::<char>::empty()
    } else if root.last() == '/' {
        root
    } else {
        root.push('/')
    };
    assert(p =~= front + (a + ".json"@));
    assert(q =~= front + (b + ".json"@));
    if p == q {
        assert(p.len() == q.len());
        assert(a.len() == b.len());
        assert forall|i: int| 0 <= i < a.len() implies a[i] == b[i] by {
            assert(p[front.len() + i] == a[i]);
            assert(q[front.len() + i] == b[i]);
        }
        assert(a =~= b);
    }
    if root.len() > 0 && root[root.len() - 1] != '/' {
        assert(p =~= root + seq!['/'] + a + ".json"@);
    }
}

/// A directory on the way to the store is entered exactly where it is a real one, or is missing and
/// may be made. A new record needs a name that is not taken.
pub proof fn store_is_reached_through_real_directories(
    path: Seq<char>,
    status: PathStatus,
    may_create: bool,
    journal_id: Seq<char>,
    outcome: NamingOutcome,
)
    ensures
        journal_directory_refusal(path, status, may_create) is None <==> status is Directory || (
        status is Absent && may_create),
        status is Other ==> journal_directory_refusal(path, status, may_create) == Some(
            JournalFault::UnsafeDirectory(path),
        ),
        naming_fault(journal_id, path, outcome) is None <==> outcome is Named,
        outcome is Taken ==> naming_fault(journal_id, path, outcome) == Some(
            JournalFault::AlreadyExists(journal_id),
        ),
{
}

/// The journal before its approval holds the events in front of the first one that approves, and
/// none of what came with it or after it; the journal before its execution keeps the approval and
/// holds the events in front of the first one that executes.
pub proof fn earlier_state_ends_before_its_event(
    journal: OperationJournal,
    state: OperationJournal,
    i: int,
)
    ensures
        is_preconditions_state(journal, state) && is_first_change_at(
            journal.events@,
            JournalPhase::PreconditionsVerified,
            JournalPhase::Approved,
            i,
        ) ==> {
            &&& state.events@ == journal.events@.subrange(0, i)
            &&& state.phase is PreconditionsVerified
            &&& !state.mutation_may_have_started
            &&& state.approval is None
            &&& state.execution is None
            &&& state.verified_boundary is None
            &&& state.journal_id@ == journal.journal_id@
            &&& state.plan_id@ == journal.plan_id@
            &&& state.target@ == journal.target@
            &&& state.baseline_manifest_digest@ == journal.baseline_manifest_digest@
            &&& state.schema_version == journal.schema_version
        },
        is_approved_state(journal, state) && is_first_change_at(
            journal.events@,
            JournalPhase::Approved,
            JournalPhase::Executing,
            i,
        ) ==> {
            &&& state.events@ == journal.events@.subrange(0, i)
            &&& state.phase is Approved
            &&& !state.mutation_may_have_started
            &&& state.approval == journal.approval
            &&& state.execution is None
            &&& state.verified_boundary is None
            &&& state.journal_id@ == journal.journal_id@
            &&& state.plan_id@ == journal.plan_id@
            &&& state.target@ == journal.target@
            &&& state.baseline_manifest_digest@ == journal.baseline_manifest_digest@
            &&& state.schema_version == journal.schema_version
        },
{
    looked_up_transition_is_the_first(
        journal.events@,
        JournalPhase::PreconditionsVerified,
        JournalPhase::Approved,
    );
    looked_up_transition_is_the_first(
        journal.events@,
        JournalPhase::Approved,
        JournalPhase::Executing,
    );
}

/// What is reported of a chain of events is the first one that is wrong, by its number: one out of
/// sequence, one that does not start where the one before ended, one that makes no allowed change,
/// or one with a code that is none.
pub proof fn first_broken_event_is_reported(events: Seq<JournalEvent>)
    ensures
        chain_fault(events) matches Some(fault) ==> exists|i: int, n: Seq<char>|
            {
                &&& 0 <= i < events.len()
                &&& #[trigger] reading::spells(n, i + 1)
                &&& chain_fault(events.take(i)) is None
                &&& {
                    ||| events[i].sequence != i + 1 && fault == JournalFault::InvalidRecord(
                        "journal event sequence is not contiguous at "@ + n,
                    )
                    ||| events[i].from != phase_before(events, i) && fault
                        == JournalFault::InvalidRecord(
                        "journal event "@ + n + " does not continue from the previous phase"@,
                    )
                    ||| !is_allowed_transition(events[i].from, events[i].to) && fault
                        == JournalFault::InvalidRecord(
                        "journal event "@ + n + " contains an impossible phase transition"@,
                    )
                    ||| (events[i].code@.len() == 0 || text::has_control_char(events[i].code@))
                        && fault == JournalFault::InvalidRecord(
                        "journal event "@ + n + " has an invalid code"@,
                    )
                }
            },
{
    let at = |i: int| event_fault(events, i);
    reading::report_is_the_first_one(events.len() as int, at);
    assert(chain_fault(events) == text::first_some(events.len() as int, at));
    if chain_fault(events) is Some {
        let i = choose|i: int| reading::is_first_report(events.len() as int, at, i);
        reading::written_number_is_read_back((i + 1) as nat);
        assert(reading::spells(text::decimal_text((i + 1) as nat), i + 1));
        let front = events.take(i);
        let at_front = |j: int| event_fault(front, j);
        reading::report_is_the_first_one(i, at_front);
        assert forall|j: int| 0 <= j < i implies #[trigger] at_front(j) is None by {
            assert(at(j) is None);
            assert(front[j] == events[j]);
            if j > 0 {
                assert(front[j - 1] == events[j - 1]);
            }
        }
        assert(chain_fault(front) == text::first_some(i, at_front));
    }
}

} // verus!
