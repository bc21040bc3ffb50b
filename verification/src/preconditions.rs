//! Verification of everything that must hold before an approval.

use vstd::prelude::*;
use vstd::string::*;

use crate::locked_session;
use crate::text;
use crate::precondition_evidence;
use crate::digest;
use crate::backup_capture::BackupReceiptRevalidation;
use crate::digest::fingerprint;
use crate::filesystem_health::HealthReceiptModel;
use crate::locked_session::{LockedExecutionSession, LockedSessionError, SessionModel};
use crate::model::{
    DecisionModel, FilesystemDecisionState, IdentityRevalidation, JournalPhase, OperationJournal,
};
use crate::precondition_evidence::{
    EvidenceModel, PreMutationEvidenceBundle, PreMutationEvidenceStatus, EVIDENCE_SCHEMA_VERSION,
};
use crate::text::{is_lower_hex_digest, same_text, text_starts_with};
use crate::MUTATION_ENABLED;

verus! {

/// Proof that the evidence of one session was accepted for one journal state.
#[derive(Clone, Debug, PartialEq, Eq)]
pub struct PreconditionsVerification {
    bundle_id: String,
    locked_session_id: String,
    journal_id: String,
    plan_id: String,
    target_manifest_digest: String,
    journal_digest: String,
}

/// The content of a verification.
pub struct VerificationModel {
    pub bundle_id: Seq<char>,
    pub locked_session_id: Seq<char>,
    pub journal_id: Seq<char>,
    pub plan_id: Seq<char>,
    pub target_manifest_digest: Seq<char>,
    pub journal_digest: Seq<char>,
}

impl View for PreconditionsVerification {
    type V = VerificationModel;

    closed spec fn view(&self) -> VerificationModel {
        VerificationModel {
            bundle_id: self.bundle_id@,
            locked_session_id: self.locked_session_id@,
            journal_id: self.journal_id@,
            plan_id: self.plan_id@,
            target_manifest_digest: self.target_manifest_digest@,
            journal_digest: self.journal_digest@,
        }
    }
}

impl PreconditionsVerification {
    pub fn bundle_id(&self) -> (value: &str)
        ensures
            value@ == self@.bundle_id,
    {
        self.bundle_id.as_str()
    }

    pub fn locked_session_id(&self) -> (value: &str)
        ensures
            value@ == self@.locked_session_id,
    {
        self.locked_session_id.as_str()
    }

    pub fn journal_id(&self) -> (value: &str)
        ensures
            value@ == self@.journal_id,
    {
        self.journal_id.as_str()
    }

    pub fn plan_id(&self) -> (value: &str)
        ensures
            value@ == self@.plan_id,
    {
        self.plan_id.as_str()
    }

    pub fn target_manifest_digest(&self) -> (value: &str)
        ensures
            value@ == self@.target_manifest_digest,
    {
        self.target_manifest_digest.as_str()
    }

    pub fn journal_digest(&self) -> (value: &str)
        ensures
            value@ == self@.journal_digest,
    {
        self.journal_digest.as_str()
    }

    /// The verification of a session that takes over the journal in which its accepted evidence was
    /// recorded. `record` is what the store holds, `journal_json` the serialised journal. Afterwards
    /// the preconditions of the session count as verified and its store holds its journal. A refusal
    /// changes nothing.
    pub fn recorded(
        session: &mut LockedExecutionSession,
        accepted: AcceptedPreconditions,
        next: OperationJournal,
        record: OperationJournal,
        journal_json: &[u8],
    ) -> (result: Result<Self, PreconditionsVerificationError>)
        ensures
            match result {
                Ok(verification) => {
                    &&& recorded_preconditions_refusal(old(session)@, accepted@, next, record)
                        is None
                    &&& final(session)@ == locked_session::advanced_session(
                        old(session)@,
                        next,
                        record,
                    )
                    &&& final(session)@.journal.phase == JournalPhase::PreconditionsVerified
                    &&& final(session)@.durable_current()
                    &&& verification@ == recorded_verification(accepted@, journal_json@)
                },
                Err(e) => {
                    &&& recorded_preconditions_refusal(old(session)@, accepted@, next, record)
                        == Some(e)
                    &&& final(session)@ == old(session)@
                },
            },
    {
        if !same_text(accepted.locked_session_id.as_str(), session.session_id()) || !same_text(
            accepted.journal_id.as_str(),
            session.journal().journal_id.as_str(),
        ) {
            return Err(PreconditionsVerificationError::SessionBindingMismatch);
        }
        match session.advance_durable_to(JournalPhase::PreconditionsVerified, next, record) {
            Ok(_) => {},
            Err(e) => return Err(PreconditionsVerificationError::Session(e)),
        }
        Ok(
            PreconditionsVerification {
                bundle_id: accepted.bundle_id,
                locked_session_id: accepted.locked_session_id,
                journal_id: accepted.journal_id,
                plan_id: accepted.plan_id,
                target_manifest_digest: accepted.target_manifest_digest,
                journal_digest: fingerprint(journal_json),
            },
        )
    }
}

/// Evidence that was accepted for one session and has not been recorded yet. It is handed over,
/// never copied.
#[derive(Debug, PartialEq, Eq)]
pub struct AcceptedPreconditions {
    bundle_id: String,
    locked_session_id: String,
    journal_id: String,
    plan_id: String,
    target_manifest_digest: String,
}

/// The content of accepted evidence.
pub struct AcceptedPreconditionsModel {
    pub bundle_id: Seq<char>,
    pub locked_session_id: Seq<char>,
    pub journal_id: Seq<char>,
    pub plan_id: Seq<char>,
    pub target_manifest_digest: Seq<char>,
}

impl View for AcceptedPreconditions {
    type V = AcceptedPreconditionsModel;

    closed spec fn view(&self) -> AcceptedPreconditionsModel {
        AcceptedPreconditionsModel {
            bundle_id: self.bundle_id@,
            locked_session_id: self.locked_session_id@,
            journal_id: self.journal_id@,
            plan_id: self.plan_id@,
            target_manifest_digest: self.target_manifest_digest@,
        }
    }
}

/// What a session accepts of its evidence.
pub open spec fn accepted_preconditions(
    session: SessionModel,
    evidence: EvidenceModel,
) -> AcceptedPreconditionsModel {
    AcceptedPreconditionsModel {
        bundle_id: evidence.bundle_id,
        locked_session_id: session.session_id,
        journal_id: session.journal.journal_id@,
        plan_id: evidence.plan_id,
        target_manifest_digest: evidence.target_manifest_digest,
    }
}

/// The verification of accepted evidence, recorded in a journal that reads `journal_json`.
pub open spec fn recorded_verification(
    accepted: AcceptedPreconditionsModel,
    journal_json: Seq<u8>,
) -> VerificationModel {
    VerificationModel {
        bundle_id: accepted.bundle_id,
        locked_session_id: accepted.locked_session_id,
        journal_id: accepted.journal_id,
        plan_id: accepted.plan_id,
        target_manifest_digest: accepted.target_manifest_digest,
        journal_digest: digest::fingerprint_of(journal_json),
    }
}

/// Why accepted evidence is not taken as recorded, if it is not: it was accepted for another
/// session, or the session cannot make the step.
pub open spec fn recorded_preconditions_refusal(
    session: SessionModel,
    accepted: AcceptedPreconditionsModel,
    next: OperationJournal,
    record: OperationJournal,
) -> Option<PreconditionsVerificationError> {
    if accepted.locked_session_id != session.session_id || accepted.journal_id
        != session.journal.journal_id@ {
        Some(PreconditionsVerificationError::SessionBindingMismatch)
    } else {
        match locked_session::durable_step_refusal(
            session,
            JournalPhase::PreconditionsVerified,
            next,
            record,
        ) {
            Some(e) => Some(PreconditionsVerificationError::Session(e)),
            None => None,
        }
    }
}

#[derive(Clone, Copy, Debug, PartialEq, Eq, Structural)]
pub enum PreconditionsVerificationError {
    SessionNotIdentityRevalidated,
    DurableJournalRequired,
    MutationEnabled,
    UnsupportedEvidenceSchema,
    EvidenceIntegrityMismatch,
    SessionBindingMismatch,
    HandoffBindingMismatch,
    PlanBindingMismatch,
    TargetBindingMismatch,
    BackupBindingInvalid,
    BackupReceiptNotRevalidated,
    EvidenceIncomplete,
    EvidenceBlocked,
    FilesystemNotReady,
    FilesystemChecksRemain,
    OwnerAcceptanceInvariant,
    Session(LockedSessionError),
}

/// An open gate that still asks for work on the filesystem.
pub open spec fn is_filesystem_gate(gate: Seq<char>) -> bool {
    text::has_prefix(gate, "filesystem:"@) || text::has_prefix(gate, "filesystem check required:"@)
}

/// Some gate still asks for work on the filesystem.
pub open spec fn has_filesystem_gate(gates: Seq<Seq<char>>) -> bool {
    exists|i: int| 0 <= i < gates.len() && is_filesystem_gate(#[trigger] gates[i])
}

fn finds_filesystem_gate(gates: &[String]) -> (found: bool)
    ensures
        found == has_filesystem_gate(text::texts(gates@)),
{
    let mut i: usize = 0;
    while i < gates.len()
        invariant
            i <= gates@.len(),
            forall|j: int| 0 <= j < i ==> !is_filesystem_gate(#[trigger] text::texts(gates@)[j]),
        decreases gates@.len() - i,
    {
        if text_starts_with(gates[i].as_str(), "filesystem:") || text_starts_with(
            gates[i].as_str(),
            "filesystem check required:",
        ) {
            assert(is_filesystem_gate(text::texts(gates@)[i as int]));
            return true;
        }
        assert(text::texts(gates@)[i as int] == gates@[i as int]@);
        i += 1;
    }
    false
}

/// Why the evidence is refused, if it is.
pub open spec fn preconditions_refusal(session: SessionModel, evidence: EvidenceModel) -> Option<
    PreconditionsVerificationError,
> {
    let handoff = session.handoff;
    let decision = evidence.filesystem_decision;
    if session.journal.phase != JournalPhase::IdentityRevalidated {
        Some(PreconditionsVerificationError::SessionNotIdentityRevalidated)
    } else if session.persisted is None {
        Some(PreconditionsVerificationError::DurableJournalRequired)
    } else if handoff.mutation_enabled || evidence.mutation_enabled {
        Some(PreconditionsVerificationError::MutationEnabled)
    } else if evidence.schema_version != EVIDENCE_SCHEMA_VERSION {
        Some(PreconditionsVerificationError::UnsupportedEvidenceSchema)
    } else if !precondition_evidence::is_intact_evidence(evidence) {
        Some(PreconditionsVerificationError::EvidenceIntegrityMismatch)
    } else if evidence.locked_session_id != session.session_id {
        Some(PreconditionsVerificationError::SessionBindingMismatch)
    } else if evidence.handoff_id != handoff.handoff_id@ {
        Some(PreconditionsVerificationError::HandoffBindingMismatch)
    } else if evidence.plan_id != handoff.plan.plan_id@ {
        Some(PreconditionsVerificationError::PlanBindingMismatch)
    } else if evidence.target_manifest_digest != handoff.target_identity.manifest_digest@ {
        Some(PreconditionsVerificationError::TargetBindingMismatch)
    } else if !handoff.owner_acceptance_required || !evidence.owner_acceptance_required {
        Some(PreconditionsVerificationError::OwnerAcceptanceInvariant)
    } else if !text::is_digest_text(evidence.bundle_id) || !text::is_digest_text(evidence.locked_session_id)
        || !text::is_digest_text(evidence.handoff_id) || !text::is_digest_text(evidence.plan_id)
        || !text::is_digest_text(evidence.target_manifest_digest) || !text::is_digest_text(
        evidence.backup_manifest_id,
    ) || !text::is_digest_text(evidence.backup_receipt_id) {
        Some(PreconditionsVerificationError::BackupBindingInvalid)
    } else if !evidence.backup_receipt_revalidated {
        Some(PreconditionsVerificationError::BackupReceiptNotRevalidated)
    } else if evidence.status != PreMutationEvidenceStatus::EvidenceComplete {
        Some(PreconditionsVerificationError::EvidenceIncomplete)
    } else if evidence.blockers.len() != 0 {
        Some(PreconditionsVerificationError::EvidenceBlocked)
    } else if decision.state != FilesystemDecisionState::ReadyOnlineGrow {
        Some(PreconditionsVerificationError::FilesystemNotReady)
    } else if decision.read_only_check is Some || decision.required_actions.len() != 0
        || has_filesystem_gate(evidence.future_gates) {
        Some(PreconditionsVerificationError::FilesystemChecksRemain)
    } else if !session.durable_current() {
        Some(PreconditionsVerificationError::Session(LockedSessionError::DurableJournalMismatch))
    } else {
        None
    }
}

/// Judges pre-mutation evidence for a session. What was accepted allows the journal to record that
/// the preconditions were verified.
pub fn verify_preconditions(
    session: &LockedExecutionSession,
    evidence: &PreMutationEvidenceBundle,
) -> (result: Result<AcceptedPreconditions, PreconditionsVerificationError>)
    ensures
        match result {
            Ok(accepted) => preconditions_refusal(session@, evidence@) is None && accepted@
                == accepted_preconditions(session@, evidence@),
            Err(e) => preconditions_refusal(session@, evidence@) == Some(e),
        },
{
    let handoff = session.handoff();
    if session.journal().phase != JournalPhase::IdentityRevalidated {
        return Err(PreconditionsVerificationError::SessionNotIdentityRevalidated);
    }
    if !session.durable_journal_enabled() {
        return Err(PreconditionsVerificationError::DurableJournalRequired);
    }
    if MUTATION_ENABLED || session.mutation_enabled() || handoff.mutation_enabled
        || evidence.mutation_enabled() {
        return Err(PreconditionsVerificationError::MutationEnabled);
    }
    if evidence.schema_version() != EVIDENCE_SCHEMA_VERSION {
        return Err(PreconditionsVerificationError::UnsupportedEvidenceSchema);
    }
    if !evidence.integrity_holds() {
        return Err(PreconditionsVerificationError::EvidenceIntegrityMismatch);
    }
    if !same_text(evidence.locked_session_id(), session.session_id()) {
        return Err(PreconditionsVerificationError::SessionBindingMismatch);
    }
    if !same_text(evidence.handoff_id(), handoff.handoff_id.as_str()) {
        return Err(PreconditionsVerificationError::HandoffBindingMismatch);
    }
    if !same_text(evidence.plan_id(), handoff.plan.plan_id.as_str()) {
        return Err(PreconditionsVerificationError::PlanBindingMismatch);
    }
    if !same_text(
        evidence.target_manifest_digest(),
        handoff.target_identity.manifest_digest.as_str(),
    ) {
        return Err(PreconditionsVerificationError::TargetBindingMismatch);
    }
    if !handoff.owner_acceptance_required || !evidence.owner_acceptance_required() {
        return Err(PreconditionsVerificationError::OwnerAcceptanceInvariant);
    }
    if !is_lower_hex_digest(evidence.bundle_id()) || !is_lower_hex_digest(
        evidence.locked_session_id(),
    ) || !is_lower_hex_digest(evidence.handoff_id()) || !is_lower_hex_digest(evidence.plan_id())
        || !is_lower_hex_digest(evidence.target_manifest_digest()) || !is_lower_hex_digest(
        evidence.backup_manifest_id(),
    ) || !is_lower_hex_digest(evidence.backup_receipt_id()) {
        return Err(PreconditionsVerificationError::BackupBindingInvalid);
    }
    if !evidence.backup_receipt_revalidated() {
        return Err(PreconditionsVerificationError::BackupReceiptNotRevalidated);
    }
    if evidence.status() != PreMutationEvidenceStatus::EvidenceComplete {
        return Err(PreconditionsVerificationError::EvidenceIncomplete);
    }
    if evidence.blockers().len() != 0 {
        return Err(PreconditionsVerificationError::EvidenceBlocked);
    }
    let decision = evidence.filesystem_decision();
    if decision.state != FilesystemDecisionState::ReadyOnlineGrow {
        return Err(PreconditionsVerificationError::FilesystemNotReady);
    }
    if decision.read_only_check.is_some() || decision.required_actions.len() != 0
        || finds_filesystem_gate(evidence.future_gates()) {
        return Err(PreconditionsVerificationError::FilesystemChecksRemain);
    }
    match session.require_current_durable_journal() {
        Ok(_) => {},
        Err(e) => return Err(PreconditionsVerificationError::Session(e)),
    }
    Ok(
        AcceptedPreconditions {
            bundle_id: evidence.bundle_id().to_owned(),
            locked_session_id: session.session_id().to_owned(),
            journal_id: session.journal().journal_id.clone(),
            plan_id: evidence.plan_id().to_owned(),
            target_manifest_digest: evidence.target_manifest_digest().to_owned(),
        },
    )
}

/// Complete evidence is accepted by the durable session in which it was gathered, as long as the
/// filesystem that it calls ready has nothing left to do.
pub proof fn complete_evidence_is_accepted(
    evidence: EvidenceModel,
    session: SessionModel,
    identity: IdentityRevalidation,
    capabilities_match: bool,
    decision: DecisionModel,
    backup: BackupReceiptRevalidation,
    receipt: Option<HealthReceiptModel>,
)
    requires
        precondition_evidence::evidence_refusal(session, decision, backup, receipt) is None,
        precondition_evidence::is_evidence_of(
            evidence,
            session,
            identity,
            capabilities_match,
            decision,
            backup,
            receipt,
        ),
        evidence.status == PreMutationEvidenceStatus::EvidenceComplete,
        evidence.filesystem_decision.read_only_check is None,
        evidence.filesystem_decision.required_actions.len() == 0,
        session.durable_current(),
        session.handoff.owner_acceptance_required,
        text::is_digest_text(session.session_id),
        text::is_digest_text(session.handoff.handoff_id@),
        text::is_digest_text(session.handoff.plan.plan_id@),
        text::is_digest_text(session.handoff.target_identity.manifest_digest@),
        text::is_digest_text(backup.manifest_id@),
        text::is_digest_text(backup.receipt_id@),
    ensures
        preconditions_refusal(session, evidence) is None,
{
    let settled = evidence.filesystem_decision;
    precondition_evidence::evidence_blocks_iff_something_was_found(
        evidence,
        session,
        identity,
        capabilities_match,
        decision,
        backup,
        receipt,
    );
    let gates = precondition_evidence::found_gates(settled);
    assert forall|i: int| 0 <= i < evidence.future_gates.len() implies !is_filesystem_gate(
        #[trigger] evidence.future_gates[i],
    ) by {
        let gate = evidence.future_gates[i];
        assert(evidence.future_gates.contains(gate));
        assert(gates.contains(gate));
        reveal_strlit("filesystem:");
        reveal_strlit("filesystem check required:");
        reveal_strlit(
            "explicit owner acceptance of the completed M0/M1A baseline is still required before mutation-capable rollout",
        );
        reveal_strlit("exact fresh plan approval has not been recorded");
        reveal_strlit(
            "the durable journal remains at identity_revalidated; this bundle does not advance preconditions_verified",
        );
        reveal_strlit("storage mutation remains disabled");
        assert(gate[0] != 'f');
        if text::has_prefix(gate, "filesystem:"@) {
            assert("filesystem:"@[0] == 'f');
        }
        if text::has_prefix(gate, "filesystem check required:"@) {
            assert("filesystem check required:"@[0] == 'f');
        }
    }
}

/// Complete evidence verifies the preconditions of its session: it is accepted, and once the session
/// takes over a journal that records this, its preconditions count as verified, its store holds its
/// journal, and the verification names the evidence, the session and the journal.
pub proof fn complete_evidence_verifies_the_preconditions(
    evidence: EvidenceModel,
    session: SessionModel,
    identity: IdentityRevalidation,
    capabilities_match: bool,
    decision: DecisionModel,
    backup: BackupReceiptRevalidation,
    receipt: Option<HealthReceiptModel>,
    next: OperationJournal,
    record: OperationJournal,
    journal_json: Seq<u8>,
)
    requires
        precondition_evidence::evidence_refusal(session, decision, backup, receipt) is None,
        precondition_evidence::is_evidence_of(
            evidence,
            session,
            identity,
            capabilities_match,
            decision,
            backup,
            receipt,
        ),
        evidence.status == PreMutationEvidenceStatus::EvidenceComplete,
        evidence.filesystem_decision.read_only_check is None,
        evidence.filesystem_decision.required_actions.len() == 0,
        session.durable_current(),
        session.handoff.owner_acceptance_required,
        text::is_digest_text(session.session_id),
        text::is_digest_text(session.handoff.handoff_id@),
        text::is_digest_text(session.handoff.plan.plan_id@),
        text::is_digest_text(session.handoff.target_identity.manifest_digest@),
        text::is_digest_text(backup.manifest_id@),
        text::is_digest_text(backup.receipt_id@),
        next.journal_id@ == session.journal.journal_id@,
        next.plan_id@ == session.journal.plan_id@,
        next.target@ == session.journal.target@,
        next.baseline_manifest_digest@ == session.journal.baseline_manifest_digest@,
        next.phase == JournalPhase::PreconditionsVerified,
        locked_session::journals_agree(record, next),
    ensures
        ({
            let accepted = accepted_preconditions(session, evidence);
            let after = locked_session::advanced_session(session, next, record);
            let verification = recorded_verification(accepted, journal_json);
            &&& preconditions_refusal(session, evidence) is None
            &&& recorded_preconditions_refusal(session, accepted, next, record) is None
            &&& after.journal.phase == JournalPhase::PreconditionsVerified
            &&& after.durable_current()
            &&& verification.bundle_id == evidence.bundle_id
            &&& verification.locked_session_id == after.session_id
            &&& verification.journal_id == after.journal.journal_id@
        }),
{
    complete_evidence_is_accepted(
        evidence,
        session,
        identity,
        capabilities_match,
        decision,
        backup,
        receipt,
    );
}

/// Evidence is accepted exactly where the session was revalidated and is durable, the bundle is
/// intact and names this session, handoff, plan and target, every identifier is a digest, the
/// backup was revalidated, the evidence is complete without blockers, and the filesystem is ready
/// with no check, action or filesystem gate left.
pub proof fn evidence_is_accepted_where_nothing_remains(
    session: SessionModel,
    evidence: EvidenceModel,
)
    ensures
        preconditions_refusal(session, evidence) is None <==> {
            &&& session.journal.phase is IdentityRevalidated
            &&& session.durable_current()
            &&& !session.handoff.mutation_enabled
            &&& !evidence.mutation_enabled
            &&& evidence.schema_version == 3
            &&& precondition_evidence::is_intact_evidence(evidence)
            &&& evidence.locked_session_id == session.session_id
            &&& evidence.handoff_id == session.handoff.handoff_id@
            &&& evidence.plan_id == session.handoff.plan.plan_id@
            &&& evidence.target_manifest_digest == session.handoff.target_identity.manifest_digest@
            &&& session.handoff.owner_acceptance_required
            &&& evidence.owner_acceptance_required
            &&& text::is_digest_text(evidence.bundle_id)
            &&& text::is_digest_text(evidence.locked_session_id)
            &&& text::is_digest_text(evidence.handoff_id)
            &&& text::is_digest_text(evidence.plan_id)
            &&& text::is_digest_text(evidence.target_manifest_digest)
            &&& text::is_digest_text(evidence.backup_manifest_id)
            &&& text::is_digest_text(evidence.backup_receipt_id)
            &&& evidence.backup_receipt_revalidated
            &&& evidence.status is EvidenceComplete
            &&& evidence.blockers.len() == 0
            &&& evidence.filesystem_decision.state is ReadyOnlineGrow
            &&& evidence.filesystem_decision.read_only_check is None
            &&& evidence.filesystem_decision.required_actions.len() == 0
            &&& forall|i: int, rest: Seq<char>|
                0 <= i < evidence.future_gates.len() ==> #[trigger] evidence.future_gates[i]
                    != #[trigger] ("filesystem:"@ + rest) && evidence.future_gates[i]
                    != "filesystem check required:"@ + rest
        },
{
    let gates = evidence.future_gates;
    assert forall|i: int| 0 <= i < gates.len() implies (is_filesystem_gate(#[trigger] gates[i])
        <==> exists|rest: Seq<char>|
        gates[i] == #[trigger] ("filesystem:"@ + rest) || gates[i] == "filesystem check required:"@
            + rest) by {
        lemma_prefix_means_a_rest(gates[i], "filesystem:"@);
        lemma_prefix_means_a_rest(gates[i], "filesystem check required:"@);
        if is_filesystem_gate(gates[i]) {
            if text::has_prefix(gates[i], "filesystem:"@) {
                let rest = choose|rest: Seq<char>| gates[i] == #[trigger] ("filesystem:"@ + rest);
                assert(gates[i] == "filesystem:"@ + rest);
            } else {
                let rest = choose|rest: Seq<char>|
                    gates[i] == #[trigger] ("filesystem check required:"@ + rest);
                assert(gates[i] == "filesystem check required:"@ + rest);
                let shorter = "filesystem:"@ + rest;
                assert(exists|rest: Seq<char>|
                    gates[i] == #[trigger] ("filesystem:"@ + rest) || gates[i]
                        == "filesystem check required:"@ + rest);
            }
        }
    }
    if has_filesystem_gate(gates) {
        let i = choose|i: int| 0 <= i < gates.len() && is_filesystem_gate(#[trigger] gates[i]);
        let rest = choose|rest: Seq<char>|
            gates[i] == #[trigger] ("filesystem:"@ + rest) || gates[i]
                == "filesystem check required:"@ + rest;
        assert(gates[i] == "filesystem:"@ + rest || gates[i] == "filesystem check required:"@
            + rest);
    }
}

proof fn lemma_prefix_means_a_rest(s: Seq<char>, prefix: Seq<char>)
    ensures
        text::has_prefix(s, prefix) <==> exists|rest: Seq<char>| s == #[trigger] (prefix + rest),
{
    if text::has_prefix(s, prefix) {
        let rest = s.subrange(prefix.len() as int, s.len() as int);
        assert(s =~= prefix + rest);
    }
    if exists|rest: Seq<char>| s == #[trigger] (prefix + rest) {
        let rest = choose|rest: Seq<char>| s == #[trigger] (prefix + rest);
        assert(s.subrange(0, prefix.len() as int) =~= prefix);
    }
}

/// What is accepted of the evidence names its bundle, plan and target and the session and journal
/// it was accepted in; once recorded, it also has the fingerprint of the journal.
pub proof fn accepted_evidence_names_where_it_came_from(
    session: SessionModel,
    evidence: EvidenceModel,
    journal_json: Seq<u8>,
)
    ensures
        ({
            let accepted = accepted_preconditions(session, evidence);
            let recorded = recorded_verification(accepted, journal_json);
            &&& accepted.bundle_id == evidence.bundle_id
            &&& accepted.plan_id == evidence.plan_id
            &&& accepted.target_manifest_digest == evidence.target_manifest_digest
            &&& accepted.locked_session_id == session.session_id
            &&& accepted.journal_id == session.journal.journal_id@
            &&& recorded.bundle_id == evidence.bundle_id
            &&& recorded.plan_id == evidence.plan_id
            &&& recorded.target_manifest_digest == evidence.target_manifest_digest
            &&& recorded.locked_session_id == session.session_id
            &&& recorded.journal_id == session.journal.journal_id@
            &&& recorded.journal_digest == digest::fingerprint_of(journal_json)
        }),
{
}

/// Accepted evidence is recorded exactly where it was accepted in this session and for this
/// journal, and the journal moves on durably to verified preconditions.
pub proof fn accepted_evidence_is_recorded_in_its_own_session(
    session: SessionModel,
    accepted: AcceptedPreconditionsModel,
    next: OperationJournal,
    record: OperationJournal,
)
    ensures
        recorded_preconditions_refusal(session, accepted, next, record) is None <==> {
            &&& accepted.locked_session_id == session.session_id
            &&& accepted.journal_id == session.journal.journal_id@
            &&& next.phase is PreconditionsVerified
            &&& locked_session::advance_refusal(session, next, record) is None
        },
{
}

/// Each refusal of evidence names something that is wrong.
pub proof fn refused_evidence_names_its_reason(session: SessionModel, evidence: EvidenceModel)
    requires
        preconditions_refusal(session, evidence) is Some,
    ensures
        match preconditions_refusal(session, evidence)->Some_0 {
            PreconditionsVerificationError::SessionNotIdentityRevalidated => !(session.journal.phase
                is IdentityRevalidated),
            PreconditionsVerificationError::DurableJournalRequired => session.persisted is None,
            PreconditionsVerificationError::MutationEnabled => session.handoff.mutation_enabled
                || evidence.mutation_enabled,
            PreconditionsVerificationError::UnsupportedEvidenceSchema => evidence.schema_version
                != 3,
            PreconditionsVerificationError::EvidenceIntegrityMismatch => {
                !precondition_evidence::is_intact_evidence(evidence)
            },
            PreconditionsVerificationError::SessionBindingMismatch => evidence.locked_session_id
                != session.session_id,
            PreconditionsVerificationError::HandoffBindingMismatch => evidence.handoff_id
                != session.handoff.handoff_id@,
            PreconditionsVerificationError::PlanBindingMismatch => evidence.plan_id
                != session.handoff.plan.plan_id@,
            PreconditionsVerificationError::TargetBindingMismatch => evidence.target_manifest_digest
                != session.handoff.target_identity.manifest_digest@,
            PreconditionsVerificationError::OwnerAcceptanceInvariant => {
                !session.handoff.owner_acceptance_required || !evidence.owner_acceptance_required
            },
            PreconditionsVerificationError::BackupBindingInvalid => {
                ||| !text::is_digest_text(evidence.bundle_id)
                ||| !text::is_digest_text(evidence.locked_session_id)
                ||| !text::is_digest_text(evidence.handoff_id)
                ||| !text::is_digest_text(evidence.plan_id)
                ||| !text::is_digest_text(evidence.target_manifest_digest)
                ||| !text::is_digest_text(evidence.backup_manifest_id)
                ||| !text::is_digest_text(evidence.backup_receipt_id)
            },
            PreconditionsVerificationError::BackupReceiptNotRevalidated => {
                !evidence.backup_receipt_revalidated
            },
            PreconditionsVerificationError::EvidenceIncomplete => !(evidence.status
                is EvidenceComplete),
            PreconditionsVerificationError::EvidenceBlocked => evidence.blockers.len() > 0,
            PreconditionsVerificationError::FilesystemNotReady => {
                !(evidence.filesystem_decision.state is ReadyOnlineGrow)
            },
            PreconditionsVerificationError::FilesystemChecksRemain => {
                ||| evidence.filesystem_decision.read_only_check is Some
                ||| evidence.filesystem_decision.required_actions.len() > 0
                ||| has_filesystem_gate(evidence.future_gates)
            },
            PreconditionsVerificationError::Session(e) => e is DurableJournalMismatch
                && !session.durable_current(),
            _ => false,
        },
{
}

} // verus!
