//! Exact operator approval of one plan.

use vstd::prelude::*;

use crate::model;
use crate::locked_session;
use crate::preconditions;
use crate::text;
use crate::digest;
use crate::digest::fingerprint;
use crate::locked_session::{LockedExecutionSession, LockedSessionError, SessionModel};
use crate::model::{
    copy_approval, same_approval_option, BindingIntegrity, ExactApprovalBinding, JournalPhase,
    OperationJournal,
};
use crate::precondition_evidence::EvidenceModel;
use crate::preconditions::{PreconditionsVerification, VerificationModel};
use crate::text::{is_lower_hex_digest, same_text};
use crate::MUTATION_ENABLED;

verus! {

/// The record of an exact approval.
#[derive(Clone, Debug, PartialEq, Eq)]
pub struct ExactPlanApproval {
    binding: ExactApprovalBinding,
    journal_id: String,
    owner_acceptance_required: bool,
    mutation_enabled: bool,
}

/// The content of an approval.
pub struct ApprovalModel {
    pub binding: ExactApprovalBinding,
    pub journal_id: Seq<char>,
    pub owner_acceptance_required: bool,
    pub mutation_enabled: bool,
}

impl View for ExactPlanApproval {
    type V = ApprovalModel;

    closed spec fn view(&self) -> ApprovalModel {
        ApprovalModel {
            binding: self.binding,
            journal_id: self.journal_id@,
            owner_acceptance_required: self.owner_acceptance_required,
            mutation_enabled: self.mutation_enabled,
        }
    }
}

impl ExactPlanApproval {
    pub fn approval_id(&self) -> (value: &str)
        ensures
            value@ == self@.binding.approval_id@,
    {
        self.binding.approval_id.as_str()
    }

    pub fn plan_id(&self) -> (value: &str)
        ensures
            value@ == self@.binding.plan_id@,
    {
        self.binding.plan_id.as_str()
    }

    pub fn evidence_bundle_id(&self) -> (value: &str)
        ensures
            value@ == self@.binding.evidence_bundle_id@,
    {
        self.binding.evidence_bundle_id.as_str()
    }

    pub fn target_manifest_digest(&self) -> (value: &str)
        ensures
            value@ == self@.binding.target_manifest_digest@,
    {
        self.binding.target_manifest_digest.as_str()
    }

    pub fn locked_session_id(&self) -> (value: &str)
        ensures
            value@ == self@.binding.locked_session_id@,
    {
        self.binding.locked_session_id.as_str()
    }

    pub fn preconditions_journal_digest(&self) -> (value: &str)
        ensures
            value@ == self@.binding.preconditions_journal_digest@,
    {
        self.binding.preconditions_journal_digest.as_str()
    }

    pub fn journal_id(&self) -> (value: &str)
        ensures
            value@ == self@.journal_id,
    {
        self.journal_id.as_str()
    }

    pub fn owner_acceptance_required(&self) -> (value: bool)
        ensures
            value == self@.owner_acceptance_required,
    {
        self.owner_acceptance_required
    }

    pub fn mutation_enabled(&self) -> (value: bool)
        ensures
            value == self@.mutation_enabled,
    {
        self.mutation_enabled
    }

    /// The approval of a session that takes over the journal in which its accepted approval was
    /// recorded under `binding`. `record` is what the store holds. Afterwards the session counts as
    /// approved and its store holds its journal. Owner acceptance stays an open gate and mutation
    /// stays off. A refusal changes nothing.
    pub fn recorded(
        session: &mut LockedExecutionSession,
        accepted: AcceptedApproval,
        binding: &ExactApprovalBinding,
        next: OperationJournal,
        record: OperationJournal,
    ) -> (result: Result<Self, ExactPlanApprovalError>)
        ensures
            match result {
                Ok(approval) => {
                    &&& recorded_approval_refusal(
                        old(session)@,
                        accepted@,
                        *binding,
                        next,
                        record,
                    ) is None
                    &&& final(session)@ == locked_session::advanced_session(
                        old(session)@,
                        next,
                        record,
                    )
                    &&& final(session)@.journal.phase == JournalPhase::Approved
                    &&& final(session)@.durable_current()
                    &&& approval@ == (ApprovalModel {
                        binding: *binding,
                        journal_id: final(session)@.journal.journal_id@,
                        owner_acceptance_required: true,
                        mutation_enabled: false,
                    })
                },
                Err(e) => {
                    &&& recorded_approval_refusal(
                        old(session)@,
                        accepted@,
                        *binding,
                        next,
                        record,
                    ) == Some(e)
                    &&& final(session)@ == old(session)@
                },
            },
    {
        if !same_text(accepted.locked_session_id.as_str(), session.session_id()) {
            return Err(ExactPlanApprovalError::VerificationSessionMismatch);
        }
        if !same_text(
            accepted.journal_id.as_str(),
            session.journal().journal_id.as_str(),
        ) {
            return Err(ExactPlanApprovalError::VerificationJournalMismatch);
        }
        if !accepted.is_sealed_as(binding) || !same_approval_option(
            &next.approval,
            &Some(copy_approval(binding)),
        ) {
            return Err(
                ExactPlanApprovalError::Session(LockedSessionError::DurableJournalMismatch),
            );
        }
        match session.advance_durable_to(JournalPhase::Approved, next, record) {
            Ok(_) => {},
            Err(e) => return Err(ExactPlanApprovalError::Session(e)),
        }
        Ok(
            ExactPlanApproval {
                binding: copy_approval(binding),
                journal_id: session.journal().journal_id.clone(),
                owner_acceptance_required: true,
                mutation_enabled: false,
            },
        )
    }
}

/// An approval that was accepted for one session and has not been recorded yet. It is handed over,
/// never copied.
#[derive(Debug, PartialEq, Eq)]
pub struct AcceptedApproval {
    bundle_id: String,
    locked_session_id: String,
    journal_id: String,
    plan_id: String,
    target_manifest_digest: String,
    journal_digest: String,
}

impl View for AcceptedApproval {
    type V = VerificationModel;

    closed spec fn view(&self) -> VerificationModel {
        VerificationModel {
            bundle_id: self.bundle_id@,
            locked_session_id: self.locked_session_id@,
            journal_id: self.journal_id@,
            plan_id: self.plan_id@,
            target_manifest_digest: self.target_manifest_digest@,
            journal_digest: self.journal_digest@,
        }
    }
}

impl AcceptedApproval {
    /// The binding to be fingerprinted and recorded.
    pub fn basis(&self) -> (binding: ExactApprovalBinding)
        ensures
            is_approval_basis(binding, self@),
    {
        ExactApprovalBinding {
            schema_version: 1,
            approval_id: String::new(),
            plan_id: self.plan_id.clone(),
            evidence_bundle_id: self.bundle_id.clone(),
            target_manifest_digest: self.target_manifest_digest.clone(),
            locked_session_id: self.locked_session_id.clone(),
            preconditions_journal_digest: self.journal_digest.clone(),
            integrity: BindingIntegrity::Differs,
        }
    }

    fn is_sealed_as(&self, binding: &ExactApprovalBinding) -> (yes: bool)
        ensures
            yes == is_sealed_approval(*binding, self@),
    {
        binding.schema_version == 1 && same_text(binding.plan_id.as_str(), self.plan_id.as_str())
            && same_text(binding.evidence_bundle_id.as_str(), self.bundle_id.as_str()) && same_text(
            binding.target_manifest_digest.as_str(),
            self.target_manifest_digest.as_str(),
        ) && same_text(binding.locked_session_id.as_str(), self.locked_session_id.as_str())
            && same_text(
            binding.preconditions_journal_digest.as_str(),
            self.journal_digest.as_str(),
        ) && matches!(binding.integrity, BindingIntegrity::Matches)
    }
}

/// The binding is what was accepted, under its own fingerprint.
pub open spec fn is_sealed_approval(
    binding: ExactApprovalBinding,
    accepted: VerificationModel,
) -> bool {
    &&& binding.schema_version == 1
    &&& binding.plan_id@ == accepted.plan_id
    &&& binding.evidence_bundle_id@ == accepted.bundle_id
    &&& binding.target_manifest_digest@ == accepted.target_manifest_digest
    &&& binding.locked_session_id@ == accepted.locked_session_id
    &&& binding.preconditions_journal_digest@ == accepted.journal_digest
    &&& binding.integrity == BindingIntegrity::Matches
}

/// Why an accepted approval is not taken as recorded, if it is not: it was accepted for another
/// session, the journal records another approval, or the session cannot make the step.
pub open spec fn recorded_approval_refusal(
    session: SessionModel,
    accepted: VerificationModel,
    binding: ExactApprovalBinding,
    next: OperationJournal,
    record: OperationJournal,
) -> Option<ExactPlanApprovalError> {
    if accepted.locked_session_id != session.session_id {
        Some(ExactPlanApprovalError::VerificationSessionMismatch)
    } else if accepted.journal_id != session.journal.journal_id@ {
        Some(ExactPlanApprovalError::VerificationJournalMismatch)
    } else if !is_sealed_approval(binding, accepted) || !model::approval_options_agree(
        next.approval,
        Some(binding),
    ) {
        Some(ExactPlanApprovalError::Session(LockedSessionError::DurableJournalMismatch))
    } else {
        match locked_session::durable_step_refusal(session, JournalPhase::Approved, next, record) {
            Some(e) => Some(ExactPlanApprovalError::Session(e)),
            None => None,
        }
    }
}

#[derive(Clone, Copy, Debug, PartialEq, Eq, Structural)]
pub enum ExactPlanApprovalError {
    SessionNotPreconditionsVerified,
    DurableJournalRequired,
    MutationEnabled,
    VerificationSessionMismatch,
    VerificationJournalMismatch,
    VerificationPlanMismatch,
    VerificationTargetMismatch,
    VerificationJournalStale,
    ApprovedPlanMismatch,
    ApprovedEvidenceMismatch,
    ApprovedTargetMismatch,
    InvalidDigestIdentity,
    OwnerAcceptanceInvariant,
    Session(LockedSessionError),
}

/// Why an approval is refused, if it is.
pub open spec fn approval_refusal(
    session: SessionModel,
    journal_json: Seq<u8>,
    verification: VerificationModel,
    approved_plan_id: Seq<char>,
    approved_evidence_bundle_id: Seq<char>,
    approved_target_manifest_digest: Seq<char>,
) -> Option<ExactPlanApprovalError> {
    let handoff = session.handoff;
    let journal = session.journal;
    if journal.phase != JournalPhase::PreconditionsVerified {
        Some(ExactPlanApprovalError::SessionNotPreconditionsVerified)
    } else if session.persisted is None {
        Some(ExactPlanApprovalError::DurableJournalRequired)
    } else if handoff.mutation_enabled {
        Some(ExactPlanApprovalError::MutationEnabled)
    } else if verification.locked_session_id != session.session_id {
        Some(ExactPlanApprovalError::VerificationSessionMismatch)
    } else if verification.journal_id != journal.journal_id@ {
        Some(ExactPlanApprovalError::VerificationJournalMismatch)
    } else if verification.plan_id != journal.plan_id@ || verification.plan_id
        != handoff.plan.plan_id@ {
        Some(ExactPlanApprovalError::VerificationPlanMismatch)
    } else if verification.target_manifest_digest != journal.baseline_manifest_digest@
        || verification.target_manifest_digest != handoff.target_identity.manifest_digest@ {
        Some(ExactPlanApprovalError::VerificationTargetMismatch)
    } else if verification.journal_digest != digest::fingerprint_of(journal_json) {
        Some(ExactPlanApprovalError::VerificationJournalStale)
    } else if approved_plan_id != verification.plan_id {
        Some(ExactPlanApprovalError::ApprovedPlanMismatch)
    } else if approved_evidence_bundle_id != verification.bundle_id {
        Some(ExactPlanApprovalError::ApprovedEvidenceMismatch)
    } else if approved_target_manifest_digest != verification.target_manifest_digest {
        Some(ExactPlanApprovalError::ApprovedTargetMismatch)
    } else if !handoff.owner_acceptance_required {
        Some(ExactPlanApprovalError::OwnerAcceptanceInvariant)
    } else if !text::is_digest_text(verification.bundle_id) || !text::is_digest_text(
        verification.locked_session_id,
    ) || !text::is_digest_text(verification.journal_id) || !text::is_digest_text(verification.plan_id)
        || !text::is_digest_text(verification.target_manifest_digest) || !text::is_digest_text(
        verification.journal_digest,
    ) {
        Some(ExactPlanApprovalError::InvalidDigestIdentity)
    } else if !session.durable_current() {
        Some(ExactPlanApprovalError::Session(LockedSessionError::DurableJournalMismatch))
    } else {
        None
    }
}

/// The binding that an approval records; the planner's fingerprint fills in `approval_id`.
pub open spec fn is_approval_basis(
    binding: ExactApprovalBinding,
    verification: VerificationModel,
) -> bool {
    &&& binding.schema_version == 1
    &&& binding.approval_id@ == Seq::<char>::empty()
    &&& binding.plan_id@ == verification.plan_id
    &&& binding.evidence_bundle_id@ == verification.bundle_id
    &&& binding.target_manifest_digest@ == verification.target_manifest_digest
    &&& binding.locked_session_id@ == verification.locked_session_id
    &&& binding.preconditions_journal_digest@ == verification.journal_digest
    &&& binding.integrity == BindingIntegrity::Differs
}

/// Admits one exact approval: the operator names exactly the plan, the evidence and the target
/// that were verified for the current state of this session, whose serialised journal is
/// `journal_json`. What was accepted is to be fingerprinted and recorded.
pub fn approve_exact_plan(
    session: &LockedExecutionSession,
    journal_json: &[u8],
    verification: &PreconditionsVerification,
    approved_plan_id: &str,
    approved_evidence_bundle_id: &str,
    approved_target_manifest_digest: &str,
) -> (result: Result<AcceptedApproval, ExactPlanApprovalError>)
    ensures
        ({
            let refusal = approval_refusal(
                session@,
                journal_json@,
                verification@,
                approved_plan_id@,
                approved_evidence_bundle_id@,
                approved_target_manifest_digest@,
            );
            match result {
                Ok(accepted) => refusal is None && accepted@ == verification@,
                Err(e) => refusal == Some(e),
            }
        }),
{
    let journal = session.journal();
    let handoff = session.handoff();
    if journal.phase != JournalPhase::PreconditionsVerified {
        return Err(ExactPlanApprovalError::SessionNotPreconditionsVerified);
    }
    if !session.durable_journal_enabled() {
        return Err(ExactPlanApprovalError::DurableJournalRequired);
    }
    if MUTATION_ENABLED || session.mutation_enabled() || handoff.mutation_enabled {
        return Err(ExactPlanApprovalError::MutationEnabled);
    }
    if !same_text(verification.locked_session_id(), session.session_id()) {
        return Err(ExactPlanApprovalError::VerificationSessionMismatch);
    }
    if !same_text(verification.journal_id(), journal.journal_id.as_str()) {
        return Err(ExactPlanApprovalError::VerificationJournalMismatch);
    }
    if !same_text(verification.plan_id(), journal.plan_id.as_str()) || !same_text(
        verification.plan_id(),
        handoff.plan.plan_id.as_str(),
    ) {
        return Err(ExactPlanApprovalError::VerificationPlanMismatch);
    }
    if !same_text(
        verification.target_manifest_digest(),
        journal.baseline_manifest_digest.as_str(),
    ) || !same_text(
        verification.target_manifest_digest(),
        handoff.target_identity.manifest_digest.as_str(),
    ) {
        return Err(ExactPlanApprovalError::VerificationTargetMismatch);
    }
    let current = fingerprint(journal_json);
    if !same_text(verification.journal_digest(), current.as_str()) {
        return Err(ExactPlanApprovalError::VerificationJournalStale);
    }
    if !same_text(approved_plan_id, verification.plan_id()) {
        return Err(ExactPlanApprovalError::ApprovedPlanMismatch);
    }
    if !same_text(approved_evidence_bundle_id, verification.bundle_id()) {
        return Err(ExactPlanApprovalError::ApprovedEvidenceMismatch);
    }
    if !same_text(approved_target_manifest_digest, verification.target_manifest_digest()) {
        return Err(ExactPlanApprovalError::ApprovedTargetMismatch);
    }
    if !handoff.owner_acceptance_required {
        return Err(ExactPlanApprovalError::OwnerAcceptanceInvariant);
    }
    if !is_lower_hex_digest(verification.bundle_id()) || !is_lower_hex_digest(
        verification.locked_session_id(),
    ) || !is_lower_hex_digest(verification.journal_id()) || !is_lower_hex_digest(
        verification.plan_id(),
    ) || !is_lower_hex_digest(verification.target_manifest_digest()) || !is_lower_hex_digest(
        verification.journal_digest(),
    ) {
        return Err(ExactPlanApprovalError::InvalidDigestIdentity);
    }
    match session.require_current_durable_journal() {
        Ok(_) => {},
        Err(e) => return Err(ExactPlanApprovalError::Session(e)),
    }
    Ok(
        AcceptedApproval {
            bundle_id: verification.bundle_id().to_owned(),
            locked_session_id: verification.locked_session_id().to_owned(),
            journal_id: verification.journal_id().to_owned(),
            plan_id: verification.plan_id().to_owned(),
            target_manifest_digest: verification.target_manifest_digest().to_owned(),
            journal_digest: verification.journal_digest().to_owned(),
        },
    )
}

/// What a session verified can be approved by its own names, once the session has recorded the
/// verification in a journal of its own plan and target.
pub proof fn recorded_verification_can_be_approved(
    before: SessionModel,
    evidence: EvidenceModel,
    after: SessionModel,
    verification: VerificationModel,
    journal_json: Seq<u8>,
)
    requires
        preconditions::preconditions_refusal(before, evidence) is None,
        after.session_id == before.session_id,
        after.handoff == before.handoff,
        after.journal.phase == JournalPhase::PreconditionsVerified,
        after.journal.plan_id@ == after.handoff.plan.plan_id@,
        after.journal.baseline_manifest_digest@ == after.handoff.target_identity.manifest_digest@,
        after.durable_current(),
        verification == (VerificationModel {
            bundle_id: evidence.bundle_id,
            locked_session_id: after.session_id,
            journal_id: after.journal.journal_id@,
            plan_id: evidence.plan_id,
            target_manifest_digest: evidence.target_manifest_digest,
            journal_digest: digest::fingerprint_of(journal_json),
        }),
        text::is_digest_text(verification.journal_id),
        text::is_digest_text(verification.journal_digest),
    ensures
        approval_refusal(
            after,
            journal_json,
            verification,
            verification.plan_id,
            verification.bundle_id,
            verification.target_manifest_digest,
        ) is None,
{
}

/// An approval goes to exactly the plan, the evidence and the target that were verified, and only
/// while the journal reads as it did then.
pub proof fn approval_is_exact(
    session: SessionModel,
    journal_json: Seq<u8>,
    verification: VerificationModel,
    plan_id: Seq<char>,
    evidence_bundle_id: Seq<char>,
    target_manifest_digest: Seq<char>,
)
    requires
        approval_refusal(
            session,
            journal_json,
            verification,
            plan_id,
            evidence_bundle_id,
            target_manifest_digest,
        ) is None,
    ensures
        plan_id == session.handoff.plan.plan_id@,
        evidence_bundle_id == verification.bundle_id,
        target_manifest_digest == session.handoff.target_identity.manifest_digest@,
        verification.journal_digest == digest::fingerprint_of(journal_json),
        session.durable_current(),
{
}

/// An accepted approval approves its session: once the session takes over a journal that records it
/// under its fingerprint, the session counts as approved and its store holds its journal.
pub proof fn accepted_approval_approves_the_session(
    session: SessionModel,
    journal_json: Seq<u8>,
    verification: VerificationModel,
    binding: ExactApprovalBinding,
    next: OperationJournal,
    record: OperationJournal,
)
    requires
        approval_refusal(
            session,
            journal_json,
            verification,
            verification.plan_id,
            verification.bundle_id,
            verification.target_manifest_digest,
        ) is None,
        is_sealed_approval(binding, verification),
        model::approval_options_agree(next.approval, Some(binding)),
        next.journal_id@ == session.journal.journal_id@,
        next.plan_id@ == session.journal.plan_id@,
        next.target@ == session.journal.target@,
        next.baseline_manifest_digest@ == session.journal.baseline_manifest_digest@,
        next.phase == JournalPhase::Approved,
        locked_session::journals_agree(record, next),
    ensures
        ({
            let after = locked_session::advanced_session(session, next, record);
            &&& recorded_approval_refusal(session, verification, binding, next, record) is None
            &&& after.journal.phase == JournalPhase::Approved
            &&& after.durable_current()
        }),
{
}

/// A plan is approved exactly where the preconditions were verified in this very session and
/// journal, for this plan and target, the journal still reads as it did then, the owner names just
/// that plan, evidence and target, and has yet to accept.
pub proof fn plan_is_approved_where_the_owner_names_it_exactly(
    session: SessionModel,
    journal_json: Seq<u8>,
    verification: VerificationModel,
    approved_plan_id: Seq<char>,
    approved_evidence_bundle_id: Seq<char>,
    approved_target_manifest_digest: Seq<char>,
)
    ensures
        approval_refusal(
            session,
            journal_json,
            verification,
            approved_plan_id,
            approved_evidence_bundle_id,
            approved_target_manifest_digest,
        ) is None <==> {
            &&& session.journal.phase is PreconditionsVerified
            &&& session.durable_current()
            &&& !session.handoff.mutation_enabled
            &&& session.handoff.owner_acceptance_required
            &&& verification.locked_session_id == session.session_id
            &&& verification.journal_id == session.journal.journal_id@
            &&& verification.journal_digest == digest::fingerprint_of(journal_json)
            &&& approved_plan_id == verification.plan_id
            &&& approved_plan_id == session.journal.plan_id@
            &&& approved_plan_id == session.handoff.plan.plan_id@
            &&& approved_evidence_bundle_id == verification.bundle_id
            &&& approved_target_manifest_digest == verification.target_manifest_digest
            &&& approved_target_manifest_digest == session.journal.baseline_manifest_digest@
            &&& approved_target_manifest_digest == session.handoff.target_identity.manifest_digest@
            &&& text::is_digest_text(verification.bundle_id)
            &&& text::is_digest_text(verification.locked_session_id)
            &&& text::is_digest_text(verification.journal_id)
            &&& text::is_digest_text(verification.plan_id)
            &&& text::is_digest_text(verification.target_manifest_digest)
            &&& text::is_digest_text(verification.journal_digest)
        },
{
}

/// An approval is recorded exactly where it was accepted in this session and for this journal, its
/// binding repeats what was accepted under its own fingerprint, the journal holds just that
/// binding, and the journal moves on durably to approved.
pub proof fn approval_is_recorded_in_its_own_session(
    session: SessionModel,
    accepted: VerificationModel,
    binding: ExactApprovalBinding,
    next: OperationJournal,
    record: OperationJournal,
)
    ensures
        recorded_approval_refusal(session, accepted, binding, next, record) is None <==> {
            &&& accepted.locked_session_id == session.session_id
            &&& accepted.journal_id == session.journal.journal_id@
            &&& binding.schema_version == 1
            &&& binding.integrity is Matches
            &&& binding.plan_id@ == accepted.plan_id
            &&& binding.evidence_bundle_id@ == accepted.bundle_id
            &&& binding.target_manifest_digest@ == accepted.target_manifest_digest
            &&& binding.locked_session_id@ == session.session_id
            &&& binding.preconditions_journal_digest@ == accepted.journal_digest
            &&& next.approval matches Some(kept)
            &&& kept.schema_version == 1
            &&& kept.approval_id@ == binding.approval_id@
            &&& kept.plan_id@ == binding.plan_id@
            &&& kept.evidence_bundle_id@ == binding.evidence_bundle_id@
            &&& kept.target_manifest_digest@ == binding.target_manifest_digest@
            &&& kept.locked_session_id@ == binding.locked_session_id@
            &&& kept.preconditions_journal_digest@ == binding.preconditions_journal_digest@
            &&& next.phase is Approved
            &&& locked_session::advance_refusal(session, next, record) is None
        },
{
}

/// The binding that an approval starts from repeats the verification, and is not sealed yet.
pub proof fn approval_basis_repeats_the_verification(
    binding: ExactApprovalBinding,
    verification: VerificationModel,
)
    requires
        is_approval_basis(binding, verification),
    ensures
        binding.schema_version == 1,
        binding.approval_id@.len() == 0,
        binding.plan_id@ == verification.plan_id,
        binding.evidence_bundle_id@ == verification.bundle_id,
        binding.target_manifest_digest@ == verification.target_manifest_digest,
        binding.locked_session_id@ == verification.locked_session_id,
        binding.preconditions_journal_digest@ == verification.journal_digest,
        !(binding.integrity is Matches),
{
}

/// Each refusal of an approval names something that is wrong.
pub proof fn refused_approval_names_its_reason(
    session: SessionModel,
    journal_json: Seq<u8>,
    verification: VerificationModel,
    approved_plan_id: Seq<char>,
    approved_evidence_bundle_id: Seq<char>,
    approved_target_manifest_digest: Seq<char>,
)
    requires
        approval_refusal(
            session,
            journal_json,
            verification,
            approved_plan_id,
            approved_evidence_bundle_id,
            approved_target_manifest_digest,
        ) is Some,
    ensures
        match approval_refusal(
            session,
            journal_json,
            verification,
            approved_plan_id,
            approved_evidence_bundle_id,
            approved_target_manifest_digest,
        )->Some_0 {
            ExactPlanApprovalError::SessionNotPreconditionsVerified => !(session.journal.phase
                is PreconditionsVerified),
            ExactPlanApprovalError::DurableJournalRequired => session.persisted is None,
            ExactPlanApprovalError::MutationEnabled => session.handoff.mutation_enabled,
            ExactPlanApprovalError::VerificationSessionMismatch => verification.locked_session_id
                != session.session_id,
            ExactPlanApprovalError::VerificationJournalMismatch => verification.journal_id
                != session.journal.journal_id@,
            ExactPlanApprovalError::VerificationPlanMismatch => verification.plan_id
                != session.journal.plan_id@ || verification.plan_id
                != session.handoff.plan.plan_id@,
            ExactPlanApprovalError::VerificationTargetMismatch => {
                ||| verification.target_manifest_digest != session.journal.baseline_manifest_digest@
                ||| verification.target_manifest_digest
                    != session.handoff.target_identity.manifest_digest@
            },
            ExactPlanApprovalError::VerificationJournalStale => verification.journal_digest
                != digest::fingerprint_of(journal_json),
            ExactPlanApprovalError::ApprovedPlanMismatch => approved_plan_id
                != verification.plan_id,
            ExactPlanApprovalError::ApprovedEvidenceMismatch => approved_evidence_bundle_id
                != verification.bundle_id,
            ExactPlanApprovalError::ApprovedTargetMismatch => approved_target_manifest_digest
                != verification.target_manifest_digest,
            ExactPlanApprovalError::OwnerAcceptanceInvariant => {
                !session.handoff.owner_acceptance_required
            },
            ExactPlanApprovalError::InvalidDigestIdentity => {
                ||| !text::is_digest_text(verification.bundle_id)
                ||| !text::is_digest_text(verification.locked_session_id)
                ||| !text::is_digest_text(verification.journal_id)
                ||| !text::is_digest_text(verification.plan_id)
                ||| !text::is_digest_text(verification.target_manifest_digest)
                ||| !text::is_digest_text(verification.journal_digest)
            },
            ExactPlanApprovalError::Session(e) => e is DurableJournalMismatch
                && !session.durable_current(),
            _ => false,
        },
{
}

} // verus!
