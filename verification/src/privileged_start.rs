//! The start of a privileged execution.

use vstd::prelude::*;

use crate::model;
use crate::locked_session;
use crate::json;
use crate::json_reading;
use crate::digest;
use crate::digest::{fingerprint, fingerprint_text};
use crate::json::Parts;
use crate::locked_session::{LockedExecutionSession, LockedSessionError, SessionModel};
use crate::model::{
    same_execution, BindingIntegrity, ExecutionStartBinding, JournalPhase, OperationJournal,
};
use crate::privileged_prepared::PreparedPrivilegedInvocation;
use crate::privileged_protocol::PrivilegedHelperRequest;
use crate::text::same_text;

verus! {

/// Proof that the start of an execution was recorded for a prepared command.
#[derive(Clone, Debug, PartialEq, Eq)]
pub struct PrivilegedExecutionStartReceipt {
    pub schema_version: u32,
    pub receipt_id: String,
    pub execution_id: String,
    pub prepared_id: String,
    pub journal_id: String,
    pub first_plan_step_id: u32,
    pub executing_journal_digest: String,
}

/// What a start receipt is fingerprinted by, in order.
pub open spec fn start_receipt_parts(receipt: PrivilegedExecutionStartReceipt) -> Seq<Seq<char>> {
    Seq::empty()
        .push(json::json_number(receipt.schema_version as int))
        .push(json::json_text(receipt.execution_id@))
        .push(json::json_text(receipt.prepared_id@))
        .push(json::json_text(receipt.journal_id@))
        .push(json::json_number(receipt.first_plan_step_id as int))
        .push(json::json_text(receipt.executing_journal_digest@))
}

/// The JSON form that a receipt is fingerprinted by.
pub open spec fn start_receipt_json(receipt: PrivilegedExecutionStartReceipt) -> Seq<char> {
    json::json_array(start_receipt_parts(receipt))
}

impl PrivilegedExecutionStartReceipt {
    /// The identifier is the fingerprint of the other fields.
    pub open spec fn is_intact(self) -> bool {
        self.receipt_id@ == digest::text_fingerprint(start_receipt_json(self))
    }

    pub fn integrity_matches(&self) -> (result: Result<bool, serde_json::Error>)
        ensures
            result is Ok,
            result->Ok_0 == self.is_intact(),
    {
        Ok(self.intact())
    }

    /// The identifier that the other fields ask for.
    pub fn expected_receipt_id(&self) -> (result: Result<String, serde_json::Error>)
        ensures
            result is Ok,
            result->Ok_0@ == digest::text_fingerprint(start_receipt_json(*self)),
    {
        Ok(self.fingerprint())
    }

    fn fingerprint(&self) -> (id: String)
        ensures
            id@ == digest::text_fingerprint(start_receipt_json(*self)),
    {
        let mut parts = Parts::new();
        parts.push_number(self.schema_version as u64);
        parts.push_text(self.execution_id.as_str());
        parts.push_text(self.prepared_id.as_str());
        parts.push_text(self.journal_id.as_str());
        parts.push_number(self.first_plan_step_id as u64);
        parts.push_text(self.executing_journal_digest.as_str());
        fingerprint_text(parts.array().as_str())
    }

    pub(crate) fn intact(&self) -> (yes: bool)
        ensures
            yes == self.is_intact(),
    {
        same_text(self.receipt_id.as_str(), self.fingerprint().as_str())
    }
}

#[derive(Clone, Copy, Debug, PartialEq, Eq, Structural)]
pub enum PrivilegedExecutionStartError {
    PreparedIntegrityMismatch,
    ExecutionIntegrityMismatch,
    PreparedRequestMismatch,
    RequestExecutionMismatch,
    FirstStepMismatch,
    JournalNotApproved,
    SessionExecutionMismatch,
    Session(LockedSessionError),
    Serialization,
}

/// The prepared command belongs to the request.
pub open spec fn prepared_for(
    prepared: PreparedPrivilegedInvocation,
    request: PrivilegedHelperRequest,
) -> bool {
    &&& prepared.request_id@ == request.request_id@
    &&& prepared.execution_id@ == request.execution_id@
    &&& prepared.plan_step_id == request.plan_step_id
    &&& prepared.live_identity_digest@ == request.fresh_identity_digest@
}

/// Whether the prepared command belongs to the request.
pub(crate) fn is_prepared_for(
    prepared: &PreparedPrivilegedInvocation,
    request: &PrivilegedHelperRequest,
) -> (yes: bool)
    ensures
        yes == prepared_for(*prepared, *request),
{
    same_text(prepared.request_id.as_str(), request.request_id.as_str()) && same_text(
        prepared.execution_id.as_str(),
        request.execution_id.as_str(),
    ) && prepared.plan_step_id == request.plan_step_id && same_text(
        prepared.live_identity_digest.as_str(),
        request.fresh_identity_digest.as_str(),
    )
}

/// What the start of an execution is refused for, if anything.
pub open spec fn start_refusal(
    session: SessionModel,
    execution: ExecutionStartBinding,
    request: PrivilegedHelperRequest,
    prepared: PreparedPrivilegedInvocation,
) -> Option<PrivilegedExecutionStartError> {
    let journal = session.journal;
    if !prepared.is_intact() {
        Some(PrivilegedExecutionStartError::PreparedIntegrityMismatch)
    } else if execution.integrity == BindingIntegrity::Unavailable {
        Some(PrivilegedExecutionStartError::Serialization)
    } else if execution.integrity == BindingIntegrity::Differs {
        Some(PrivilegedExecutionStartError::ExecutionIntegrityMismatch)
    } else if journal.phase != JournalPhase::Approved || journal.mutation_may_have_started
        || journal.execution is Some {
        Some(PrivilegedExecutionStartError::JournalNotApproved)
    } else if !prepared_for(prepared, request) {
        Some(PrivilegedExecutionStartError::PreparedRequestMismatch)
    } else if request.execution_id@ != execution.execution_id@ || request.source_manifest_id@
        != execution.source_manifest_id@ || request.native_manifest_digest@
        != execution.native_manifest_digest@ || request.fresh_identity_digest@
        != execution.fresh_identity_digest@ {
        Some(PrivilegedExecutionStartError::RequestExecutionMismatch)
    } else if !(execution.mutation_step_ids@.len() > 0 && execution.mutation_step_ids@[0]
        == request.plan_step_id) {
        Some(PrivilegedExecutionStartError::FirstStepMismatch)
    } else if journal.journal_id@ != execution.journal_id@ || journal.plan_id@
        != execution.plan_id@ || journal.baseline_manifest_digest@
        != execution.fresh_identity_digest@ || journal.approval is None
        || journal.approval->Some_0.approval_id@ != execution.approval_id@ {
        Some(PrivilegedExecutionStartError::SessionExecutionMismatch)
    } else {
        None
    }
}

/// The start of a prepared command that was accepted for one session and has not been recorded yet.
/// It is handed over, never copied.
#[derive(Debug, PartialEq, Eq)]
pub struct AcceptedStart {
    locked_session_id: String,
    execution_id: String,
    journal_id: String,
    prepared_id: String,
    first_plan_step_id: u32,
}

/// The content of an accepted start.
pub struct AcceptedStartModel {
    pub locked_session_id: Seq<char>,
    pub execution_id: Seq<char>,
    pub journal_id: Seq<char>,
    pub prepared_id: Seq<char>,
    pub first_plan_step_id: u32,
}

impl View for AcceptedStart {
    type V = AcceptedStartModel;

    closed spec fn view(&self) -> AcceptedStartModel {
        AcceptedStartModel {
            locked_session_id: self.locked_session_id@,
            execution_id: self.execution_id@,
            journal_id: self.journal_id@,
            prepared_id: self.prepared_id@,
            first_plan_step_id: self.first_plan_step_id,
        }
    }
}

/// What a session accepts of a start.
pub open spec fn accepted_start(
    session: SessionModel,
    execution: ExecutionStartBinding,
    request: PrivilegedHelperRequest,
    prepared: PreparedPrivilegedInvocation,
) -> AcceptedStartModel {
    AcceptedStartModel {
        locked_session_id: session.session_id,
        execution_id: execution.execution_id@,
        journal_id: execution.journal_id@,
        prepared_id: prepared.prepared_id@,
        first_plan_step_id: request.plan_step_id,
    }
}

/// Why an accepted start is not taken as recorded, if it is not: it was accepted for another session
/// or execution, the journal records another start, or the session cannot make the step.
pub open spec fn recorded_start_refusal(
    session: SessionModel,
    accepted: AcceptedStartModel,
    execution: ExecutionStartBinding,
    next: OperationJournal,
    record: OperationJournal,
) -> Option<PrivilegedExecutionStartError> {
    if accepted.locked_session_id != session.session_id || accepted.execution_id
        != execution.execution_id@ || accepted.journal_id != execution.journal_id@
        || execution.integrity != BindingIntegrity::Matches || !next.mutation_may_have_started
        || !model::execution_options_agree(next.execution, Some(execution)) {
        Some(PrivilegedExecutionStartError::SessionExecutionMismatch)
    } else {
        match locked_session::durable_step_refusal(session, JournalPhase::Executing, next, record) {
            Some(e) => Some(PrivilegedExecutionStartError::Session(e)),
            None => None,
        }
    }
}

/// The receipt of an accepted start, recorded in a journal that reads `journal_json`.
pub open spec fn seals_start(
    receipt: PrivilegedExecutionStartReceipt,
    accepted: AcceptedStartModel,
    journal_json: Seq<u8>,
) -> bool {
    &&& receipt.schema_version == 1
    &&& receipt.is_intact()
    &&& receipt.execution_id@ == accepted.execution_id
    &&& receipt.prepared_id@ == accepted.prepared_id
    &&& receipt.journal_id@ == accepted.journal_id
    &&& receipt.first_plan_step_id == accepted.first_plan_step_id
    &&& receipt.executing_journal_digest@ == digest::fingerprint_of(journal_json)
}

/// Checks a prepared command against the approved session right before its execution is recorded.
/// What was accepted starts with the step of the request.
pub fn validate_start_binding(
    session: &LockedExecutionSession,
    execution: &ExecutionStartBinding,
    request: &PrivilegedHelperRequest,
    prepared: &PreparedPrivilegedInvocation,
) -> (result: Result<AcceptedStart, PrivilegedExecutionStartError>)
    ensures
        ({
            let refusal = start_refusal(session@, *execution, *request, *prepared);
            match result {
                Ok(accepted) => refusal is None && accepted@ == accepted_start(
                    session@,
                    *execution,
                    *request,
                    *prepared,
                ),
                Err(e) => refusal == Some(e),
            }
        }),
{
    if !prepared.intact() {
        return Err(PrivilegedExecutionStartError::PreparedIntegrityMismatch);
    }
    match execution.integrity {
        BindingIntegrity::Matches => {},
        BindingIntegrity::Differs => {
            return Err(PrivilegedExecutionStartError::ExecutionIntegrityMismatch);
        },
        BindingIntegrity::Unavailable => return Err(PrivilegedExecutionStartError::Serialization),
    }
    let journal = session.journal();
    if !matches!(journal.phase, JournalPhase::Approved) || journal.mutation_may_have_started
        || journal.execution.is_some() {
        return Err(PrivilegedExecutionStartError::JournalNotApproved);
    }
    if !is_prepared_for(prepared, request) {
        return Err(PrivilegedExecutionStartError::PreparedRequestMismatch);
    }
    if !same_text(request.execution_id.as_str(), execution.execution_id.as_str()) || !same_text(
        request.source_manifest_id.as_str(),
        execution.source_manifest_id.as_str(),
    ) || !same_text(
        request.native_manifest_digest.as_str(),
        execution.native_manifest_digest.as_str(),
    ) || !same_text(
        request.fresh_identity_digest.as_str(),
        execution.fresh_identity_digest.as_str(),
    ) {
        return Err(PrivilegedExecutionStartError::RequestExecutionMismatch);
    }
    if execution.mutation_step_ids.len() == 0 || execution.mutation_step_ids[0]
        != request.plan_step_id {
        return Err(PrivilegedExecutionStartError::FirstStepMismatch);
    }
    let approved = match &journal.approval {
        Some(approval) => same_text(approval.approval_id.as_str(), execution.approval_id.as_str()),
        None => false,
    };
    if !same_text(journal.journal_id.as_str(), execution.journal_id.as_str()) || !same_text(
        journal.plan_id.as_str(),
        execution.plan_id.as_str(),
    ) || !same_text(
        journal.baseline_manifest_digest.as_str(),
        execution.fresh_identity_digest.as_str(),
    ) || !approved {
        return Err(PrivilegedExecutionStartError::SessionExecutionMismatch);
    }
    Ok(
        AcceptedStart {
            locked_session_id: session.session_id().to_owned(),
            execution_id: execution.execution_id.clone(),
            journal_id: execution.journal_id.clone(),
            prepared_id: prepared.prepared_id.clone(),
            first_plan_step_id: request.plan_step_id,
        },
    )
}

/// Seals the receipt of an execution start, in a session that takes over the journal in which the
/// accepted start was recorded. `record` is what the store holds, `executing_journal_json` the
/// serialised journal. Afterwards the session is executing and its store holds its journal. A
/// refusal changes nothing.
pub fn seal_execution_start(
    session: &mut LockedExecutionSession,
    accepted: AcceptedStart,
    execution: &ExecutionStartBinding,
    next: OperationJournal,
    record: OperationJournal,
    executing_journal_json: &[u8],
) -> (result: Result<PrivilegedExecutionStartReceipt, PrivilegedExecutionStartError>)
    ensures
        match result {
            Ok(receipt) => {
                &&& recorded_start_refusal(old(session)@, accepted@, *execution, next, record)
                    is None
                &&& final(session)@ == locked_session::advanced_session(
                    old(session)@,
                    next,
                    record,
                )
                &&& final(session)@.journal.phase == JournalPhase::Executing
                &&& final(session)@.durable_current()
                &&& seals_start(receipt, accepted@, executing_journal_json@)
            },
            Err(e) => {
                &&& recorded_start_refusal(old(session)@, accepted@, *execution, next, record)
                    == Some(e)
                &&& final(session)@ == old(session)@
            },
        },
{
    let recorded = match &next.execution {
        Some(found) => same_execution(found, execution),
        None => false,
    };
    if !same_text(accepted.locked_session_id.as_str(), session.session_id()) || !same_text(
        accepted.execution_id.as_str(),
        execution.execution_id.as_str(),
    ) || !same_text(accepted.journal_id.as_str(), execution.journal_id.as_str()) || !matches!(
        execution.integrity,
        BindingIntegrity::Matches
    ) || !next.mutation_may_have_started || !recorded {
        return Err(PrivilegedExecutionStartError::SessionExecutionMismatch);
    }
    match session.advance_durable_to(JournalPhase::Executing, next, record) {
        Ok(_) => {},
        Err(e) => return Err(PrivilegedExecutionStartError::Session(e)),
    }
    let mut receipt = PrivilegedExecutionStartReceipt {
        schema_version: 1,
        receipt_id: String::new(),
        execution_id: accepted.execution_id,
        prepared_id: accepted.prepared_id,
        journal_id: accepted.journal_id,
        first_plan_step_id: accepted.first_plan_step_id,
        executing_journal_digest: fingerprint(executing_journal_json),
    };
    let receipt_id = receipt.fingerprint();
    receipt.receipt_id = receipt_id;
    Ok(receipt)
}

/// The two hold the same, apart from their identifiers.
pub open spec fn same_start_receipt(a: PrivilegedExecutionStartReceipt, b: PrivilegedExecutionStartReceipt) -> bool {
    &&& a.schema_version == b.schema_version
    &&& a.execution_id@ == b.execution_id@
    &&& a.prepared_id@ == b.prepared_id@
    &&& a.journal_id@ == b.journal_id@
    &&& a.first_plan_step_id == b.first_plan_step_id
    &&& a.executing_journal_digest@ == b.executing_journal_digest@
}

proof fn lemma_start_receipt_told(a: PrivilegedExecutionStartReceipt, b: PrivilegedExecutionStartReceipt)
    requires
        start_receipt_json(a) == start_receipt_json(b),
    ensures
        same_start_receipt(a, b),
{
    broadcast use crate::json_reading::group_json_reading;

    let p = start_receipt_parts(a);
    let q = start_receipt_parts(b);
    assert(json_reading::are_values(p) && json_reading::are_values(q));
    assert(p[0] == q[0]);
    assert(p[1] == q[1]);
    assert(p[2] == q[2]);
    assert(p[3] == q[3]);
    assert(p[4] == q[4]);
    assert(p[5] == q[5]);
}

/// A start receipt that was changed under its identifier is noticed, short of a SHA-256 collision.
pub proof fn changed_start_receipt_is_detected(a: PrivilegedExecutionStartReceipt, b: PrivilegedExecutionStartReceipt)
    requires
        a.is_intact(),
        b.receipt_id@ == a.receipt_id@,
        !same_start_receipt(a, b),
    ensures
        !b.is_intact() || digest::is_collision(start_receipt_json(a), start_receipt_json(b)),
{
    if b.is_intact() {
        digest::fingerprint_tells_its_text(start_receipt_json(a), start_receipt_json(b));
        if start_receipt_json(a) == start_receipt_json(b) {
            lemma_start_receipt_told(a, b);
        }
    }
}

/// An execution starts exactly where the prepared command and the binding are intact, the journal is
/// approved with nothing started, the prepared command is that of the request, the request that of
/// the execution and its first step, and the execution that of the journal and its approval.
pub proof fn execution_starts_as_it_was_approved(
    session: SessionModel,
    execution: ExecutionStartBinding,
    request: PrivilegedHelperRequest,
    prepared: PreparedPrivilegedInvocation,
)
    ensures
        start_refusal(session, execution, request, prepared) is None <==> {
            &&& prepared.is_intact()
            &&& execution.integrity is Matches
            &&& session.journal.phase is Approved
            &&& !session.journal.mutation_may_have_started
            &&& session.journal.execution is None
            &&& prepared.request_id@ == request.request_id@
            &&& prepared.execution_id@ == execution.execution_id@
            &&& prepared.plan_step_id == request.plan_step_id
            &&& prepared.live_identity_digest@ == execution.fresh_identity_digest@
            &&& request.execution_id@ == execution.execution_id@
            &&& request.source_manifest_id@ == execution.source_manifest_id@
            &&& request.native_manifest_digest@ == execution.native_manifest_digest@
            &&& request.fresh_identity_digest@ == execution.fresh_identity_digest@
            &&& execution.mutation_step_ids@.len() > 0
            &&& execution.mutation_step_ids@[0] == request.plan_step_id
            &&& session.journal.journal_id@ == execution.journal_id@
            &&& session.journal.plan_id@ == execution.plan_id@
            &&& session.journal.baseline_manifest_digest@ == execution.fresh_identity_digest@
            &&& session.journal.approval matches Some(approval)
            &&& approval.approval_id@ == execution.approval_id@
        },
{
}

/// What is accepted of a start names the session, execution, journal, prepared command and step; its
/// receipt repeats that with the fingerprint of the journal.
pub proof fn accepted_start_names_its_chain(
    session: SessionModel,
    execution: ExecutionStartBinding,
    request: PrivilegedHelperRequest,
    prepared: PreparedPrivilegedInvocation,
    receipt: PrivilegedExecutionStartReceipt,
    journal_json: Seq<u8>,
)
    ensures
        ({
            let accepted = accepted_start(session, execution, request, prepared);
            &&& accepted.locked_session_id == session.session_id
            &&& accepted.execution_id == execution.execution_id@
            &&& accepted.journal_id == execution.journal_id@
            &&& accepted.prepared_id == prepared.prepared_id@
            &&& accepted.first_plan_step_id == request.plan_step_id
            &&& seals_start(receipt, accepted, journal_json) ==> {
                &&& receipt.schema_version == 1
                &&& receipt.execution_id@ == execution.execution_id@
                &&& receipt.journal_id@ == execution.journal_id@
                &&& receipt.prepared_id@ == prepared.prepared_id@
                &&& receipt.first_plan_step_id == request.plan_step_id
                &&& receipt.executing_journal_digest@ == digest::fingerprint_of(journal_json)
            }
        }),
{
}

/// An accepted start is recorded exactly where it was accepted in this session for this sound
/// execution, the journal holds just that execution with the mutation flag set, and moves on durably
/// to executing.
pub proof fn accepted_start_is_recorded_in_its_own_session(
    session: SessionModel,
    accepted: AcceptedStartModel,
    execution: ExecutionStartBinding,
    next: OperationJournal,
    record: OperationJournal,
)
    ensures
        recorded_start_refusal(session, accepted, execution, next, record) is None <==> {
            &&& accepted.locked_session_id == session.session_id
            &&& accepted.execution_id == execution.execution_id@
            &&& accepted.journal_id == execution.journal_id@
            &&& execution.integrity is Matches
            &&& next.mutation_may_have_started
            &&& next.execution matches Some(kept)
            &&& kept.schema_version == execution.schema_version
            &&& kept.execution_id@ == execution.execution_id@
            &&& kept.journal_id@ == execution.journal_id@
            &&& kept.plan_id@ == execution.plan_id@
            &&& kept.approval_id@ == execution.approval_id@
            &&& kept.source_manifest_id@ == execution.source_manifest_id@
            &&& kept.native_manifest_digest@ == execution.native_manifest_digest@
            &&& kept.fresh_identity_digest@ == execution.fresh_identity_digest@
            &&& kept.mutation_step_ids@ == execution.mutation_step_ids@
            &&& kept.approved_journal_digest@ == execution.approved_journal_digest@
            &&& next.phase is Executing
            &&& locked_session::advance_refusal(session, next, record) is None
        },
{
}

/// Each refusal of a start names something that is wrong.
pub proof fn refused_start_names_its_reason(
    session: SessionModel,
    execution: ExecutionStartBinding,
    request: PrivilegedHelperRequest,
    prepared: PreparedPrivilegedInvocation,
)
    requires
        start_refusal(session, execution, request, prepared) is Some,
    ensures
        match start_refusal(session, execution, request, prepared)->Some_0 {
            PrivilegedExecutionStartError::PreparedIntegrityMismatch => !prepared.is_intact(),
            PrivilegedExecutionStartError::Serialization => execution.integrity is Unavailable,
            PrivilegedExecutionStartError::ExecutionIntegrityMismatch => execution.integrity
                is Differs,
            PrivilegedExecutionStartError::JournalNotApproved => !(session.journal.phase is Approved)
                || session.journal.mutation_may_have_started || session.journal.execution is Some,
            PrivilegedExecutionStartError::PreparedRequestMismatch => prepared.request_id@
                != request.request_id@ || prepared.execution_id@ != request.execution_id@
                || prepared.plan_step_id != request.plan_step_id || prepared.live_identity_digest@
                != request.fresh_identity_digest@,
            PrivilegedExecutionStartError::RequestExecutionMismatch => request.execution_id@
                != execution.execution_id@ || request.source_manifest_id@
                != execution.source_manifest_id@ || request.native_manifest_digest@
                != execution.native_manifest_digest@ || request.fresh_identity_digest@
                != execution.fresh_identity_digest@,
            PrivilegedExecutionStartError::FirstStepMismatch => execution.mutation_step_ids@.len()
                == 0 || execution.mutation_step_ids@[0] != request.plan_step_id,
            PrivilegedExecutionStartError::SessionExecutionMismatch => {
                ||| session.journal.journal_id@ != execution.journal_id@
                ||| session.journal.plan_id@ != execution.plan_id@
                ||| session.journal.baseline_manifest_digest@ != execution.fresh_identity_digest@
                ||| session.journal.approval is None
                ||| session.journal.approval->Some_0.approval_id@ != execution.approval_id@
            },
            _ => false,
        },
{
}

} // verus!
