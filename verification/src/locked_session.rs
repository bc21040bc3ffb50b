//! A session that holds the host storage lock.

use vstd::bytes::*;
use vstd::prelude::*;
use vstd::string::*;
use vstd::utf8::*;

use crate::reading;
use crate::journal_store;
use crate::text;
use crate::model;
use crate::digest;
use crate::digest::fingerprint;
use crate::journal_store::allowed_transition;
use crate::model::{
    same_approval_option, same_boundary_option, same_events, same_execution_option,
    ExecutionHandoffStatus, FrozenExecutionHandoff, IdentityChange, IdentityRevalidation,
    JournalPhase, OperationJournal,
};
use crate::text::same_text;
use crate::MUTATION_ENABLED;

verus! {

#[derive(Clone, Copy, Debug, PartialEq, Eq, Structural)]
pub enum LockedRevalidationStatus {
    Revalidated,
    Blocked,
}

/// What revalidation under the lock found.
#[derive(Clone, Debug, PartialEq, Eq)]
pub struct LockedRevalidation {
    pub status: LockedRevalidationStatus,
    pub identity: IdentityRevalidation,
    pub capabilities_match: bool,
    pub blockers: Vec<String>,
}

#[derive(Clone, Copy, Debug, PartialEq, Eq, Structural)]
pub enum LockedSessionError {
    HandoffBlocked,
    MutationEnabled,
    RevalidationAlreadyAttempted,
    DurableJournalRequired,
    DurableJournalMismatch,
}

/// A locked session: its frozen handoff, its journal, and the journal record last read back from
/// the durable store, if there is a store.
#[derive(Debug)]
pub struct LockedExecutionSession {
    lock_path: String,
    session_id: String,
    handoff: FrozenExecutionHandoff,
    journal: OperationJournal,
    persisted: Option<OperationJournal>,
    revalidation_attempted: bool,
}

/// The content of a locked session.
pub struct SessionModel {
    pub lock_path: Seq<char>,
    pub session_id: Seq<char>,
    pub handoff: FrozenExecutionHandoff,
    pub journal: OperationJournal,
    pub persisted: Option<OperationJournal>,
    pub revalidation_attempted: bool,
}

impl View for LockedExecutionSession {
    type V = SessionModel;

    closed spec fn view(&self) -> SessionModel {
        SessionModel {
            lock_path: self.lock_path@,
            session_id: self.session_id@,
            handoff: self.handoff,
            journal: self.journal,
            persisted: self.persisted,
            revalidation_attempted: self.revalidation_attempted,
        }
    }
}

impl SessionModel {
    /// The durable record is there and agrees with the journal of the session.
    pub open spec fn durable_current(self) -> bool {
        self.persisted is Some && journals_agree(self.persisted->Some_0, self.journal)
    }
}

/// Why the durable record does not back the journal of a session, if it does not.
pub open spec fn durable_refusal(session: SessionModel) -> Option<LockedSessionError> {
    if session.persisted is None {
        Some(LockedSessionError::DurableJournalRequired)
    } else if !session.durable_current() {
        Some(LockedSessionError::DurableJournalMismatch)
    } else {
        None
    }
}

/// Two journals record the same.
pub open spec fn journals_agree(a: OperationJournal, b: OperationJournal) -> bool {
    &&& a.schema_version == b.schema_version
    &&& a.journal_id@ == b.journal_id@
    &&& a.plan_id@ == b.plan_id@
    &&& a.target@ == b.target@
    &&& a.baseline_manifest_digest@ == b.baseline_manifest_digest@
    &&& a.phase == b.phase
    &&& a.mutation_may_have_started == b.mutation_may_have_started
    &&& model::approval_options_agree(a.approval, b.approval)
    &&& model::execution_options_agree(a.execution, b.execution)
    &&& model::boundary_options_agree(a.verified_boundary, b.verified_boundary)
    &&& model::events_agree(a.events@, b.events@)
}

/// Compares two journals.
pub fn same_journal(a: &OperationJournal, b: &OperationJournal) -> (same: bool)
    ensures
        same == journals_agree(*a, *b),
{
    a.schema_version == b.schema_version && same_text(a.journal_id.as_str(), b.journal_id.as_str())
        && same_text(a.plan_id.as_str(), b.plan_id.as_str()) && same_text(
        a.target.as_str(),
        b.target.as_str(),
    ) && same_text(a.baseline_manifest_digest.as_str(), b.baseline_manifest_digest.as_str())
        && a.phase == b.phase && a.mutation_may_have_started == b.mutation_may_have_started
        && same_approval_option(&a.approval, &b.approval) && same_execution_option(
        &a.execution,
        &b.execution,
    ) && same_boundary_option(&a.verified_boundary, &b.verified_boundary) && same_events(
        &a.events,
        &b.events,
    )
}

/// The bytes that identify a session: a domain tag, the handoff, the process, a counter and the
/// lock path.
pub open spec fn session_seed(
    handoff_id: Seq<char>,
    process_id: u32,
    sequence: u64,
    lock_path: Seq<char>,
) -> Seq<u8> {
    encode_utf8("linux-storage-manager:locked-session:v1\0"@) + encode_utf8(handoff_id) + seq![0u8]
        + spec_u32_to_le_bytes(process_id) + spec_u64_to_le_bytes(sequence) + encode_utf8(lock_path)
}

fn append_bytes(out: &mut Vec<u8>, bytes: &[u8])
    ensures
        final(out)@ == old(out)@ + bytes@,
{
    let mut i: usize = 0;
    while i < bytes.len()
        invariant
            i <= bytes@.len(),
            out@ == old(out)@ + bytes@.take(i as int),
        decreases bytes@.len() - i,
    {
        out.push(bytes[i]);
        assert(old(out)@ + bytes@.take(i + 1) =~= (old(out)@ + bytes@.take(i as int)).push(
            bytes@[i as int],
        ));
        i += 1;
    }
    assert(bytes@.take(bytes@.len() as int) =~= bytes@);
}

/// The identifier of a session.
pub fn build_session_id(handoff_id: &str, process_id: u32, sequence: u64, lock_path: &str) -> (id:
    String)
    ensures
        id@ == digest::fingerprint_of(session_seed(handoff_id@, process_id, sequence, lock_path@)),
        text::is_digest_text(id@),
{
    let mut seed: Vec<u8> = Vec::new();
    append_bytes(&mut seed, "linux-storage-manager:locked-session:v1\0".as_bytes());
    append_bytes(&mut seed, handoff_id.as_bytes());
    seed.push(0);
    append_bytes(&mut seed, u32_to_le_bytes(process_id).as_slice());
    append_bytes(&mut seed, u64_to_le_bytes(sequence).as_slice());
    append_bytes(&mut seed, lock_path.as_bytes());
    assert(seed@ =~= session_seed(handoff_id@, process_id, sequence, lock_path@));
    fingerprint(seed.as_slice())
}

/// What a handoff is refused for, if anything.
pub open spec fn handoff_refusal(handoff: FrozenExecutionHandoff) -> Option<LockedSessionError> {
    if handoff.status == ExecutionHandoffStatus::Blocked {
        Some(LockedSessionError::HandoffBlocked)
    } else if handoff.mutation_enabled || MUTATION_ENABLED {
        Some(LockedSessionError::MutationEnabled)
    } else {
        None
    }
}

/// Whether a handoff may enter a locked session.
pub fn validate_handoff(handoff: &FrozenExecutionHandoff) -> (result: Result<(), LockedSessionError>)
    ensures
        match result {
            Ok(_) => handoff_refusal(*handoff) is None,
            Err(e) => handoff_refusal(*handoff) == Some(e),
        },
{
    if matches!(handoff.status, ExecutionHandoffStatus::Blocked) {
        return Err(LockedSessionError::HandoffBlocked);
    }
    if handoff.mutation_enabled || MUTATION_ENABLED {
        return Err(LockedSessionError::MutationEnabled);
    }
    Ok(())
}

/// What a new session is refused for, if anything. Its journal belongs to the handoff and holds the
/// lock and nothing more, and where there is a store, it holds exactly that journal.
pub open spec fn begin_refusal(
    handoff: FrozenExecutionHandoff,
    journal: OperationJournal,
    persisted: Option<OperationJournal>,
) -> Option<LockedSessionError> {
    if handoff_refusal(handoff) is Some {
        handoff_refusal(handoff)
    } else if journal.phase != JournalPhase::HostLockHeld || journal.mutation_may_have_started
        || journal.plan_id@ != handoff.plan.plan_id@ || journal.baseline_manifest_digest@
        != handoff.target_identity.manifest_digest@ || (persisted is Some && !journals_agree(
        persisted->Some_0,
        journal,
    )) {
        Some(LockedSessionError::DurableJournalMismatch)
    } else {
        None
    }
}

/// A session right after the lock was taken.
pub open spec fn begun_session(
    handoff: FrozenExecutionHandoff,
    journal: OperationJournal,
    persisted: Option<OperationJournal>,
    process_id: u32,
    sequence: u64,
    lock_path: Seq<char>,
) -> SessionModel {
    SessionModel {
        lock_path,
        session_id: digest::fingerprint_of(session_seed(handoff.handoff_id@, process_id, sequence, lock_path)),
        handoff,
        journal,
        persisted,
        revalidation_attempted: false,
    }
}

/// What blocks a session after revalidation: every identity change, then the tool inventory.
pub open spec fn revalidation_blockers(changes: Seq<IdentityChange>, capabilities_match: bool) -> Seq<
    Seq<char>,
> {
    let found = changes.map_values(|c: IdentityChange| c.code@ + ": "@ + c.message@);
    if capabilities_match {
        found
    } else {
        found.push(
            "capability-inventory-changed: storage tool capability inventory changed since the frozen handoff"@,
        )
    }
}

/// One line for each identity change.
pub(crate) fn change_lines(changes: &Vec<IdentityChange>) -> (lines: Vec<String>)
    ensures
        text::texts(lines@) == changes@.map_values(|c: IdentityChange| c.code@ + ": "@ + c.message@),
{
    let mut lines: Vec<String> = Vec::new();
    let ghost all = changes@.map_values(|c: IdentityChange| c.code@ + ": "@ + c.message@);
    let mut i: usize = 0;
    while i < changes.len()
        invariant
            i <= changes@.len(),
            all == changes@.map_values(|c: IdentityChange| c.code@ + ": "@ + c.message@),
            text::texts(lines@) == all.take(i as int),
        decreases changes@.len() - i,
    {
        let ghost before = text::texts(lines@);
        let mut line = changes[i].code.clone();
        line.append(": ");
        line.append(changes[i].message.as_str());
        lines.push(line);
        assert(text::texts(lines@) =~= before.push(line@));
        assert(all.take(i + 1) =~= all.take(i as int).push(all[i as int]));
        i += 1;
    }
    assert(all.take(all.len() as int) =~= all);
    lines
}

/// What a durable step is refused for, if anything. The session is backed by its store, the next
/// journal belongs to the same operation and follows by an allowed phase change, and the store holds
/// exactly that journal.
pub open spec fn advance_refusal(
    session: SessionModel,
    next: OperationJournal,
    record: OperationJournal,
) -> Option<LockedSessionError> {
    let journal = session.journal;
    if durable_refusal(session) is Some {
        durable_refusal(session)
    } else if next.journal_id@ != journal.journal_id@ || next.plan_id@ != journal.plan_id@
        || next.target@ != journal.target@ || next.baseline_manifest_digest@
        != journal.baseline_manifest_digest@ || !journal_store::is_allowed_transition(
        journal.phase,
        next.phase,
    ) || !journals_agree(record, next) {
        Some(LockedSessionError::DurableJournalMismatch)
    } else {
        None
    }
}

/// What a durable step to one phase is refused for, if anything.
pub open spec fn durable_step_refusal(
    session: SessionModel,
    phase: JournalPhase,
    next: OperationJournal,
    record: OperationJournal,
) -> Option<LockedSessionError> {
    if durable_refusal(session) is Some {
        durable_refusal(session)
    } else if next.phase != phase {
        Some(LockedSessionError::DurableJournalMismatch)
    } else {
        advance_refusal(session, next, record)
    }
}

/// A session after a durable step.
pub open spec fn advanced_session(
    session: SessionModel,
    next: OperationJournal,
    record: OperationJournal,
) -> SessionModel {
    SessionModel { journal: next, persisted: Some(record), ..session }
}

/// What a revalidation does to a session and what it finds, if it is the first one.
pub open spec fn revalidation_step(session: SessionModel, matches: bool) -> (
    SessionModel,
    Option<LockedRevalidationStatus>,
) {
    if session.revalidation_attempted {
        (session, None)
    } else {
        (
            SessionModel { revalidation_attempted: true, ..session },
            Some(
                if matches {
                    LockedRevalidationStatus::Revalidated
                } else {
                    LockedRevalidationStatus::Blocked
                },
            ),
        )
    }
}

/// What the record of a successful revalidation is refused for, if anything. The next journal
/// belongs to the same operation and has its identity revalidated, and where there is a store, it
/// holds exactly that journal.
pub open spec fn revalidation_record_refusal(
    session: SessionModel,
    next: OperationJournal,
    record: Option<OperationJournal>,
) -> Option<LockedSessionError> {
    let journal = session.journal;
    let continues = next.journal_id@ == journal.journal_id@ && next.plan_id@ == journal.plan_id@
        && next.target@ == journal.target@ && next.baseline_manifest_digest@
        == journal.baseline_manifest_digest@ && journal.phase == JournalPhase::HostLockHeld
        && next.phase == JournalPhase::IdentityRevalidated;
    let stored = match (session.persisted, record) {
        (Some(_), Some(kept)) => journals_agree(kept, next),
        (None, None) => true,
        _ => false,
    };
    if continues && stored {
        None
    } else {
        Some(LockedSessionError::DurableJournalMismatch)
    }
}

impl LockedExecutionSession {
    /// Opens a session without a durable store for a handoff whose journal has recorded the acquired
    /// lock.
    pub fn begin(
        handoff: FrozenExecutionHandoff,
        journal: OperationJournal,
        process_id: u32,
        sequence: u64,
        lock_path: &str,
    ) -> (result: Result<Self, LockedSessionError>)
        ensures
            match result {
                Ok(session) => begin_refusal(handoff, journal, None) is None && session@
                    == begun_session(
                    handoff,
                    journal,
                    None,
                    process_id,
                    sequence,
                    lock_path@,
                ),
                Err(e) => begin_refusal(handoff, journal, None) == Some(e),
            },
    {
        Self::begin_with_lock(handoff, journal, None, process_id, sequence, lock_path)
    }

    /// Opens a session whose journal has been recorded durably; `record` is what was read back.
    pub fn begin_durable(
        handoff: FrozenExecutionHandoff,
        journal: OperationJournal,
        record: OperationJournal,
        process_id: u32,
        sequence: u64,
        lock_path: &str,
    ) -> (result: Result<Self, LockedSessionError>)
        ensures
            match result {
                Ok(session) => begin_refusal(handoff, journal, Some(record)) is None && session@
                    == begun_session(
                    handoff,
                    journal,
                    Some(record),
                    process_id,
                    sequence,
                    lock_path@,
                ),
                Err(e) => begin_refusal(handoff, journal, Some(record)) == Some(e),
            },
    {
        Self::begin_with_lock(handoff, journal, Some(record), process_id, sequence, lock_path)
    }

    fn begin_with_lock(
        handoff: FrozenExecutionHandoff,
        journal: OperationJournal,
        persisted: Option<OperationJournal>,
        process_id: u32,
        sequence: u64,
        lock_path: &str,
    ) -> (result: Result<Self, LockedSessionError>)
        ensures
            match result {
                Ok(session) => begin_refusal(handoff, journal, persisted) is None && session@
                    == begun_session(
                    handoff,
                    journal,
                    persisted,
                    process_id,
                    sequence,
                    lock_path@,
                ),
                Err(e) => begin_refusal(handoff, journal, persisted) == Some(e),
            },
    {
        match validate_handoff(&handoff) {
            Ok(_) => {},
            Err(e) => return Err(e),
        }
        let stored = match &persisted {
            Some(record) => same_journal(record, &journal),
            None => true,
        };
        if journal.phase != JournalPhase::HostLockHeld || journal.mutation_may_have_started
            || !same_text(journal.plan_id.as_str(), handoff.plan.plan_id.as_str()) || !same_text(
            journal.baseline_manifest_digest.as_str(),
            handoff.target_identity.manifest_digest.as_str(),
        ) || !stored {
            return Err(LockedSessionError::DurableJournalMismatch);
        }
        let session_id = build_session_id(
            handoff.handoff_id.as_str(),
            process_id,
            sequence,
            lock_path,
        );
        Ok(
            LockedExecutionSession {
                lock_path: lock_path.to_owned(),
                session_id,
                handoff,
                journal,
                persisted,
                revalidation_attempted: false,
            },
        )
    }

    pub fn lock_path(&self) -> (value: &str)
        ensures
            value@ == self@.lock_path,
    {
        self.lock_path.as_str()
    }

    pub fn session_id(&self) -> (value: &str)
        ensures
            value@ == self@.session_id,
    {
        self.session_id.as_str()
    }

    pub fn journal(&self) -> (value: &OperationJournal)
        ensures
            *value == self@.journal,
    {
        &self.journal
    }

    pub fn handoff(&self) -> (value: &FrozenExecutionHandoff)
        ensures
            *value == self@.handoff,
    {
        &self.handoff
    }

    pub fn mutation_enabled(&self) -> (value: bool)
        ensures
            !value,
    {
        MUTATION_ENABLED
    }

    pub fn durable_journal_enabled(&self) -> (value: bool)
        ensures
            value == self@.persisted is Some,
    {
        self.persisted.is_some()
    }

    /// Whether the durable record agrees with the journal of the session.
    pub fn require_current_durable_journal(&self) -> (result: Result<(), LockedSessionError>)
        ensures
            match result {
                Ok(_) => durable_refusal(self@) is None,
                Err(e) => durable_refusal(self@) == Some(e),
            },
    {
        match &self.persisted {
            None => Err(LockedSessionError::DurableJournalRequired),
            Some(record) => {
                if same_journal(record, &self.journal) {
                    Ok(())
                } else {
                    Err(LockedSessionError::DurableJournalMismatch)
                }
            },
        }
    }

    /// Judges one revalidation against a fresh snapshot. A session allows one attempt.
    pub fn revalidate(&mut self, identity: IdentityRevalidation, capabilities_match: bool) -> (result:
        Result<LockedRevalidation, LockedSessionError>)
        ensures
            ({
                let (after, status) = revalidation_step(
                    old(self)@,
                    identity.matches && capabilities_match,
                );
                &&& final(self)@ == after
                &&& match result {
                    Ok(found) => {
                        &&& status == Some(found.status)
                        &&& found.identity == identity
                        &&& found.capabilities_match == capabilities_match
                        &&& text::texts(found.blockers@) == revalidation_blockers(
                            identity.changes@,
                            capabilities_match,
                        )
                    },
                    Err(e) => {
                        &&& status is None
                        &&& e == LockedSessionError::RevalidationAlreadyAttempted
                    },
                }
            }),
    {
        if self.revalidation_attempted {
            return Err(LockedSessionError::RevalidationAlreadyAttempted);
        }
        self.revalidation_attempted = true;
        let mut blockers = change_lines(&identity.changes);
        if !capabilities_match {
            let ghost before = text::texts(blockers@);
            blockers.push(
                "capability-inventory-changed: storage tool capability inventory changed since the frozen handoff".to_owned(),
            );
            assert(text::texts(blockers@) =~= before.push(
                "capability-inventory-changed: storage tool capability inventory changed since the frozen handoff"@,
            ));
        }
        let status = if identity.matches && capabilities_match {
            LockedRevalidationStatus::Revalidated
        } else {
            LockedRevalidationStatus::Blocked
        };
        Ok(LockedRevalidation { status, identity, capabilities_match, blockers })
    }

    /// Spends the one attempt where the host could not be compared with the handoff.
    pub fn fail_revalidation(&mut self) -> (result: Result<(), LockedSessionError>)
        ensures
            match result {
                Ok(_) => !old(self)@.revalidation_attempted && final(self)@ == (SessionModel {
                    revalidation_attempted: true,
                    ..old(self)@
                }),
                Err(e) => {
                    &&& e == LockedSessionError::RevalidationAlreadyAttempted
                    &&& old(self)@.revalidation_attempted
                    &&& final(self)@ == old(self)@
                },
            },
    {
        if self.revalidation_attempted {
            return Err(LockedSessionError::RevalidationAlreadyAttempted);
        }
        self.revalidation_attempted = true;
        Ok(())
    }

    /// Takes over the journal of a successful revalidation, with its record where there is a store.
    /// Afterwards the identity counts as revalidated and the store holds the journal of the session.
    pub fn record_revalidation(
        &mut self,
        next: OperationJournal,
        record: Option<OperationJournal>,
    ) -> (result: Result<(), LockedSessionError>)
        ensures
            match result {
                Ok(_) => {
                    &&& revalidation_record_refusal(old(self)@, next, record) is None
                    &&& final(self)@ == (SessionModel {
                        journal: next,
                        persisted: record,
                        ..old(self)@
                    })
                    &&& final(self)@.journal.phase == JournalPhase::IdentityRevalidated
                    &&& old(self)@.persisted is Some ==> final(self)@.durable_current()
                },
                Err(e) => {
                    &&& revalidation_record_refusal(old(self)@, next, record) == Some(e)
                    &&& final(self)@ == old(self)@
                },
            },
    {
        let journal = &self.journal;
        if !same_text(next.journal_id.as_str(), journal.journal_id.as_str()) || !same_text(
            next.plan_id.as_str(),
            journal.plan_id.as_str(),
        ) || !same_text(next.target.as_str(), journal.target.as_str()) || !same_text(
            next.baseline_manifest_digest.as_str(),
            journal.baseline_manifest_digest.as_str(),
        ) || journal.phase != JournalPhase::HostLockHeld || next.phase
            != JournalPhase::IdentityRevalidated {
            return Err(LockedSessionError::DurableJournalMismatch);
        }
        let stored = match (&self.persisted, &record) {
            (Some(_), Some(kept)) => same_journal(kept, &next),
            (None, None) => true,
            _ => false,
        };
        if !stored {
            return Err(LockedSessionError::DurableJournalMismatch);
        }
        self.journal = next;
        self.persisted = record;
        Ok(())
    }

    /// The digest that the journal records for a matching revalidation.
    pub fn revalidated_digest<'a>(&'a self, identity: &'a IdentityRevalidation) -> (digest: &'a str)
        ensures
            digest@ == match identity.fresh_digest {
                Some(fresh) => fresh@,
                None => self@.handoff.target_identity.manifest_digest@,
            },
    {
        match &identity.fresh_digest {
            Some(fresh) => fresh.as_str(),
            None => self.handoff.target_identity.manifest_digest.as_str(),
        }
    }

    /// Takes over the next journal state and the record that was persisted for it. Afterwards the
    /// session has made one allowed phase change of the same operation and the store holds its
    /// journal. A refusal changes nothing.
    pub fn advance_durable(&mut self, next: OperationJournal, record: OperationJournal) -> (result:
        Result<(), LockedSessionError>)
        ensures
            match result {
                Ok(_) => {
                    &&& advance_refusal(old(self)@, next, record) is None
                    &&& final(self)@ == advanced_session(old(self)@, next, record)
                    &&& final(self)@.durable_current()
                    &&& journal_store::is_allowed_transition(
                        old(self)@.journal.phase,
                        final(self)@.journal.phase,
                    )
                },
                Err(e) => {
                    &&& advance_refusal(old(self)@, next, record) == Some(e)
                    &&& final(self)@ == old(self)@
                },
            },
    {
        match self.require_current_durable_journal() {
            Ok(_) => {},
            Err(e) => return Err(e),
        }
        let journal = &self.journal;
        if !same_text(next.journal_id.as_str(), journal.journal_id.as_str()) || !same_text(
            next.plan_id.as_str(),
            journal.plan_id.as_str(),
        ) || !same_text(next.target.as_str(), journal.target.as_str()) || !same_text(
            next.baseline_manifest_digest.as_str(),
            journal.baseline_manifest_digest.as_str(),
        ) || !allowed_transition(journal.phase, next.phase) || !same_journal(&record, &next) {
            return Err(LockedSessionError::DurableJournalMismatch);
        }
        self.journal = next;
        self.persisted = Some(record);
        Ok(())
    }

    /// Takes over the next journal state of a step that leads to `phase`.
    pub fn advance_durable_to(
        &mut self,
        phase: JournalPhase,
        next: OperationJournal,
        record: OperationJournal,
    ) -> (result: Result<(), LockedSessionError>)
        ensures
            match result {
                Ok(_) => {
                    &&& durable_step_refusal(old(self)@, phase, next, record) is None
                    &&& final(self)@ == advanced_session(old(self)@, next, record)
                    &&& final(self)@.durable_current()
                    &&& final(self)@.journal.phase == phase
                },
                Err(e) => {
                    &&& durable_step_refusal(old(self)@, phase, next, record) == Some(e)
                    &&& final(self)@ == old(self)@
                },
            },
    {
        match self.require_current_durable_journal() {
            Ok(_) => {},
            Err(e) => return Err(e),
        }
        if next.phase != phase {
            return Err(LockedSessionError::DurableJournalMismatch);
        }
        self.advance_durable(next, record)
    }

    /// Looks at the store again: `record` is what it holds now. Where there is no store, nothing
    /// changes.
    pub fn reread_record(&mut self, record: OperationJournal)
        ensures
            final(self)@ == (SessionModel {
                persisted: if old(self)@.persisted is Some {
                    Some(record)
                } else {
                    None
                },
                ..old(self)@
            }),
    {
        if self.persisted.is_some() {
            self.persisted = Some(record);
        }
    }
}

/// A session that made a durable step has its own journal in the store, in a phase that the step was
/// allowed to lead to, and still belongs to the same operation.
pub proof fn durable_step_is_recorded(
    session: SessionModel,
    next: OperationJournal,
    record: OperationJournal,
)
    requires
        advance_refusal(session, next, record) is None,
    ensures
        ({
            let after = advanced_session(session, next, record);
            &&& after.durable_current()
            &&& journal_store::is_allowed_transition(session.journal.phase, after.journal.phase)
            &&& after.journal.journal_id@ == session.journal.journal_id@
            &&& after.journal.plan_id@ == session.journal.plan_id@
            &&& after.journal.target@ == session.journal.target@
            &&& after.journal.baseline_manifest_digest@ == session.journal.baseline_manifest_digest@
            &&& after.session_id == session.session_id
            &&& after.handoff == session.handoff
        }),
{
}

/// A session revalidates once. A blocked attempt leaves its journal alone. A successful one, once
/// recorded, leaves the identity revalidated and the store, if there is one, with the journal of the
/// session. Any further attempt is refused, whatever the first one gave.
pub proof fn revalidation_happens_once(
    session: SessionModel,
    matches: bool,
    next: OperationJournal,
    record: Option<OperationJournal>,
    matches_later: bool,
)
    requires
        !session.revalidation_attempted,
    ensures
        ({
            let (after, status) = revalidation_step(session, matches);
            let recorded = SessionModel { journal: next, persisted: record, ..after };
            let accepted = revalidation_record_refusal(after, next, record) is None;
            &&& status == Some(LockedRevalidationStatus::Revalidated) <==> matches
            &&& status == Some(LockedRevalidationStatus::Blocked) <==> !matches
            &&& after.journal == session.journal && after.persisted == session.persisted
            &&& accepted ==> recorded.journal.phase == JournalPhase::IdentityRevalidated
            &&& accepted && session.persisted is Some ==> recorded.durable_current()
            &&& revalidation_step(after, matches_later) == (after, None::<LockedRevalidationStatus>)
            &&& revalidation_step(recorded, matches_later) == (
                recorded,
                None::<LockedRevalidationStatus>,
            )
        }),
{
}

/// A session begins exactly where the handoff is not blocked and allows no mutation, the journal
/// holds the lock and nothing more, belongs to the plan and the target of the handoff, and is what
/// the store holds, where there is a store.
pub proof fn session_begins_with_a_held_lock_and_nothing_more(
    handoff: FrozenExecutionHandoff,
    journal: OperationJournal,
    persisted: Option<OperationJournal>,
)
    ensures
        begin_refusal(handoff, journal, persisted) is None <==> {
            &&& !(handoff.status is Blocked)
            &&& !handoff.mutation_enabled
            &&& journal.phase is HostLockHeld
            &&& !journal.mutation_may_have_started
            &&& journal.plan_id@ == handoff.plan.plan_id@
            &&& journal.baseline_manifest_digest@ == handoff.target_identity.manifest_digest@
            &&& persisted matches Some(kept) ==> journals_agree(kept, journal)
        },
        handoff.status is Blocked ==> begin_refusal(handoff, journal, persisted) == Some(
            LockedSessionError::HandoffBlocked,
        ),
        !(handoff.status is Blocked) && handoff.mutation_enabled ==> begin_refusal(
            handoff,
            journal,
            persisted,
        ) == Some(LockedSessionError::MutationEnabled),
{
}

/// A session that has begun holds what it was given, and has not been revalidated.
pub proof fn begun_session_holds_what_it_was_given(
    handoff: FrozenExecutionHandoff,
    journal: OperationJournal,
    persisted: Option<OperationJournal>,
    process_id: u32,
    sequence: u64,
    lock_path: Seq<char>,
)
    ensures
        ({
            let session = begun_session(
                handoff,
                journal,
                persisted,
                process_id,
                sequence,
                lock_path,
            );
            &&& session.lock_path == lock_path
            &&& session.handoff == handoff
            &&& session.journal == journal
            &&& session.persisted == persisted
            &&& !session.revalidation_attempted
        }),
{
}

/// Journals that agree record the same, field by field.
pub proof fn agreeing_journals_record_the_same(a: OperationJournal, b: OperationJournal)
    requires
        journals_agree(a, b),
    ensures
        a.schema_version == b.schema_version,
        a.journal_id@ == b.journal_id@,
        a.plan_id@ == b.plan_id@,
        a.target@ == b.target@,
        a.baseline_manifest_digest@ == b.baseline_manifest_digest@,
        a.phase == b.phase,
        a.mutation_may_have_started == b.mutation_may_have_started,
        a.approval is Some <==> b.approval is Some,
        a.approval is Some ==> {
            let p = a.approval->Some_0;
            let q = b.approval->Some_0;
            &&& p.schema_version == q.schema_version
            &&& p.approval_id@ == q.approval_id@
            &&& p.plan_id@ == q.plan_id@
            &&& p.evidence_bundle_id@ == q.evidence_bundle_id@
            &&& p.target_manifest_digest@ == q.target_manifest_digest@
            &&& p.locked_session_id@ == q.locked_session_id@
            &&& p.preconditions_journal_digest@ == q.preconditions_journal_digest@
        },
        a.execution is Some <==> b.execution is Some,
        a.execution is Some ==> {
            let p = a.execution->Some_0;
            let q = b.execution->Some_0;
            &&& p.schema_version == q.schema_version
            &&& p.execution_id@ == q.execution_id@
            &&& p.journal_id@ == q.journal_id@
            &&& p.plan_id@ == q.plan_id@
            &&& p.approval_id@ == q.approval_id@
            &&& p.source_manifest_id@ == q.source_manifest_id@
            &&& p.native_manifest_digest@ == q.native_manifest_digest@
            &&& p.fresh_identity_digest@ == q.fresh_identity_digest@
            &&& p.mutation_step_ids@ == q.mutation_step_ids@
            &&& p.approved_journal_digest@ == q.approved_journal_digest@
        },
        a.verified_boundary is Some <==> b.verified_boundary is Some,
        a.verified_boundary is Some ==> {
            let p = a.verified_boundary->Some_0;
            let q = b.verified_boundary->Some_0;
            &&& p.schema_version == q.schema_version
            &&& p.boundary_id@ == q.boundary_id@
            &&& p.execution_id@ == q.execution_id@
            &&& p.completed_step_id == q.completed_step_id
            &&& p.next_step_id == q.next_step_id
            &&& p.fresh_identity_digest@ == q.fresh_identity_digest@
            &&& p.final_step_id == q.final_step_id
            &&& reading::read_alike(p.final_identity_digest, q.final_identity_digest)
        },
        a.events@.len() == b.events@.len(),
        forall|i: int|
            0 <= i < a.events@.len() ==> {
                &&& (#[trigger] a.events@[i]).sequence == b.events@[i].sequence
                &&& a.events@[i].from == b.events@[i].from
                &&& a.events@[i].to == b.events@[i].to
                &&& a.events@[i].code@ == b.events@[i].code@
            },
{
}

/// Every journal agrees with itself.
pub proof fn journal_agrees_with_itself(a: OperationJournal)
    ensures
        journals_agree(a, a),
{
}

/// A durable step is made exactly where the session is backed by its store, the next journal is of
/// the same operation and follows by an allowed phase change, and the store holds just that
/// journal. The session then holds both and is otherwise what it was.
pub proof fn durable_step_moves_the_same_operation_on(
    session: SessionModel,
    phase: JournalPhase,
    next: OperationJournal,
    record: OperationJournal,
)
    ensures
        advance_refusal(session, next, record) is None <==> {
            &&& session.persisted is Some
            &&& journals_agree(session.persisted->Some_0, session.journal)
            &&& next.journal_id@ == session.journal.journal_id@
            &&& next.plan_id@ == session.journal.plan_id@
            &&& next.target@ == session.journal.target@
            &&& next.baseline_manifest_digest@ == session.journal.baseline_manifest_digest@
            &&& journal_store::is_allowed_transition(session.journal.phase, next.phase)
            &&& journals_agree(record, next)
        },
        session.persisted is None ==> advance_refusal(session, next, record) == Some(
            LockedSessionError::DurableJournalRequired,
        ),
        session.persisted is Some && advance_refusal(session, next, record) is Some
            ==> advance_refusal(session, next, record) == Some(
            LockedSessionError::DurableJournalMismatch,
        ),
        durable_step_refusal(session, phase, next, record) is None <==> next.phase == phase
            && advance_refusal(session, next, record) is None,
        ({
            let after = advanced_session(session, next, record);
            &&& after.journal == next
            &&& after.persisted == Some(record)
            &&& after.handoff == session.handoff
            &&& after.session_id == session.session_id
            &&& after.lock_path == session.lock_path
            &&& after.revalidation_attempted == session.revalidation_attempted
            &&& advance_refusal(session, next, record) is None ==> after.durable_current()
        }),
{
}

/// What blocks a session after revalidation is every change of the identity, in order, and then
/// the tool inventory where it changed. Nothing blocks exactly where nothing changed.
pub proof fn every_change_blocks_a_revalidated_session(
    changes: Seq<IdentityChange>,
    capabilities_match: bool,
    i: int,
)
    ensures
        ({
            let found = revalidation_blockers(changes, capabilities_match);
            &&& found.len() == 0 <==> changes.len() == 0 && capabilities_match
            &&& 0 <= i < changes.len() ==> i < found.len() && found[i] == changes[i].code@ + ": "@
                + changes[i].message@
            &&& capabilities_match ==> found.len() == changes.len()
            &&& !capabilities_match ==> found.len() == changes.len() + 1 && found[found.len() - 1]
                == "capability-inventory-changed: storage tool capability inventory changed since the frozen handoff"@
        }),
{
}

/// A session is revalidated once, and what that finds is whether everything matched; nothing else
/// of the session changes.
pub proof fn first_revalidation_finds_what_matched(session: SessionModel, matches: bool)
    ensures
        ({
            let (after, found) = revalidation_step(session, matches);
            &&& after.revalidation_attempted
            &&& after.session_id == session.session_id
            &&& after.lock_path == session.lock_path
            &&& after.handoff == session.handoff
            &&& after.journal == session.journal
            &&& after.persisted == session.persisted
            &&& found is None <==> session.revalidation_attempted
            &&& found == Some(LockedRevalidationStatus::Revalidated) <==> matches
                && !session.revalidation_attempted
            &&& found == Some(LockedRevalidationStatus::Blocked) <==> !matches
                && !session.revalidation_attempted
        }),
{
}

/// A revalidation is recorded exactly where the journal moves on from the held lock to the
/// revalidated identity of the same operation, and there is a record of it if and only if there is
/// a store.
pub proof fn revalidation_is_recorded_in_its_own_journal(
    session: SessionModel,
    next: OperationJournal,
    record: Option<OperationJournal>,
)
    ensures
        revalidation_record_refusal(session, next, record) is None <==> {
            &&& session.journal.phase is HostLockHeld
            &&& next.phase is IdentityRevalidated
            &&& next.journal_id@ == session.journal.journal_id@
            &&& next.plan_id@ == session.journal.plan_id@
            &&& next.target@ == session.journal.target@
            &&& next.baseline_manifest_digest@ == session.journal.baseline_manifest_digest@
            &&& session.persisted is Some <==> record is Some
            &&& record matches Some(kept) ==> journals_agree(kept, next)
        },
{
}

/// Sessions of one handoff and one lock that differ in process or counter have different seeds.
pub proof fn every_session_has_its_own_seed(
    handoff_id: Seq<char>,
    lock_path: Seq<char>,
    process_a: u32,
    sequence_a: u64,
    process_b: u32,
    sequence_b: u64,
)
    ensures
        session_seed(handoff_id, process_a, sequence_a, lock_path) == session_seed(
            handoff_id,
            process_b,
            sequence_b,
            lock_path,
        ) ==> process_a == process_b && sequence_a == sequence_b,
{
    let front = encode_utf8("linux-storage-manager:locked-session:v1\0"@) + encode_utf8(handoff_id)
        + seq![0u8];
    let pa = spec_u32_to_le_bytes(process_a);
    let pb = spec_u32_to_le_bytes(process_b);
    let sa = spec_u64_to_le_bytes(sequence_a);
    let sb = spec_u64_to_le_bytes(sequence_b);
    let back = encode_utf8(lock_path);
    let a = session_seed(handoff_id, process_a, sequence_a, lock_path);
    let b = session_seed(handoff_id, process_b, sequence_b, lock_path);
    lemma_auto_spec_u32_to_from_le_bytes();
    lemma_auto_spec_u64_to_from_le_bytes();
    if a == b {
        let n = front.len() as int;
        assert(a == front + pa + sa + back);
        assert(b == front + pb + sb + back);
        assert(pa =~= a.subrange(n, n + 4));
        assert(pb =~= b.subrange(n, n + 4));
        assert(sa =~= a.subrange(n + 4, n + 12));
        assert(sb =~= b.subrange(n + 4, n + 12));
    }
}

} // verus!
