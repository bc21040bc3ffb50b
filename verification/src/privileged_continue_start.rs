//! The start of a later step of a privileged execution.

use vstd::prelude::*;

use crate::privileged_start;
use crate::privileged_protocol;
use crate::model;
use crate::locked_session;
use crate::json;
use crate::json_reading;
use crate::digest;
use crate::digest::{fingerprint, fingerprint_text};
use crate::json::Parts;
use crate::locked_session::{LockedExecutionSession, LockedSessionError, SessionModel};
use crate::model::{
    find_step, BindingIntegrity, ExecutionStartBinding, JournalPhase, OperationJournal,
    VerifiedMutationBoundaryBinding,
};
use crate::privileged_prepared::PreparedPrivilegedInvocation;
use crate::privileged_protocol::{
    validate_privileged_helper_request, PrivilegedHelperProtocolError, PrivilegedHelperRequest,
};
use crate::privileged_start::is_prepared_for;
use crate::text::same_text;

verus! {

/// Proof that a later step was bound to the verified boundary that hands over to it.
#[derive(Clone, Debug, PartialEq, Eq)]
pub struct PrivilegedContinuationStartReceipt {
    pub schema_version: u32,
    pub receipt_id: String,
    pub execution_id: String,
    pub verified_boundary_id: String,
    pub prepared_id: String,
    pub journal_id: String,
    pub plan_step_id: u32,
    pub live_identity_digest: String,
    pub executing_journal_digest: String,
}

/// What a continuation receipt is fingerprinted by, in order.
pub open spec fn continuation_receipt_parts(receipt: PrivilegedContinuationStartReceipt) -> Seq<Seq<char>> {
    Seq::empty()
        .push(json::json_number(receipt.schema_version as int))
        .push(json::json_text(receipt.execution_id@))
        .push(json::json_text(receipt.verified_boundary_id@))
        .push(json::json_text(receipt.prepared_id@))
        .push(json::json_text(receipt.journal_id@))
        .push(json::json_number(receipt.plan_step_id as int))
        .push(json::json_text(receipt.live_identity_digest@))
        .push(json::json_text(receipt.executing_journal_digest@))
}

/// The JSON form that a receipt is fingerprinted by.
pub open spec fn continuation_receipt_json(receipt: PrivilegedContinuationStartReceipt) -> Seq<char> {
    json::json_array(continuation_receipt_parts(receipt))
}

impl PrivilegedContinuationStartReceipt {
    /// The identifier is the fingerprint of the other fields.
    pub open spec fn is_intact(self) -> bool {
        self.receipt_id@ == digest::text_fingerprint(continuation_receipt_json(self))
    }

    pub fn integrity_matches(&self) -> (result: Result<bool, serde_json::Error>)
        ensures
            result is Ok,
            result->Ok_0 == self.is_intact(),
    {
        Ok(self.intact())
    }

    /// The identifier that the other fields ask for.
    pub fn expected_receipt_id(&self) -> (result: Result<String, serde_json::Error>)
        ensures
            result is Ok,
            result->Ok_0@ == digest::text_fingerprint(continuation_receipt_json(*self)),
    {
        Ok(self.fingerprint())
    }

    fn fingerprint(&self) -> (id: String)
        ensures
            id@ == digest::text_fingerprint(continuation_receipt_json(*self)),
    {
        let mut parts = Parts::new();
        parts.push_number(self.schema_version as u64);
        parts.push_text(self.execution_id.as_str());
        parts.push_text(self.verified_boundary_id.as_str());
        parts.push_text(self.prepared_id.as_str());
        parts.push_text(self.journal_id.as_str());
        parts.push_number(self.plan_step_id as u64);
        parts.push_text(self.live_identity_digest.as_str());
        parts.push_text(self.executing_journal_digest.as_str());
        fingerprint_text(parts.array().as_str())
    }

    pub(crate) fn intact(&self) -> (yes: bool)
        ensures
            yes == self.is_intact(),
    {
        same_text(self.receipt_id.as_str(), self.fingerprint().as_str())
    }
}

#[derive(Clone, Copy, Debug, PartialEq, Eq, Structural)]
pub enum PrivilegedContinuationStartError {
    Protocol(PrivilegedHelperProtocolError),
    JournalNotExecuting,
    ExecutionBindingInvalid,
    VerifiedBoundaryInvalid,
    StepSequenceMismatch,
    PreparedIntegrityMismatch,
    PreparedRequestMismatch,
    RequestExecutionMismatch,
    IdentityBoundaryMismatch,
    Session(LockedSessionError),
}

/// The request speaks of the execution, and the execution of the journal.
pub open spec fn requests_execution(
    request: PrivilegedHelperRequest,
    execution: ExecutionStartBinding,
    journal: OperationJournal,
) -> bool {
    &&& execution.journal_id@ == journal.journal_id@
    &&& execution.plan_id@ == journal.plan_id@
    &&& request.execution_id@ == execution.execution_id@
    &&& request.source_manifest_id@ == execution.source_manifest_id@
    &&& request.native_manifest_digest@ == execution.native_manifest_digest@
}

/// Whether the request speaks of the execution, and the execution of the journal.
pub(crate) fn is_requested_execution(
    request: &PrivilegedHelperRequest,
    execution: &ExecutionStartBinding,
    journal: &OperationJournal,
) -> (yes: bool)
    ensures
        yes == requests_execution(*request, *execution, *journal),
{
    same_text(execution.journal_id.as_str(), journal.journal_id.as_str()) && same_text(
        execution.plan_id.as_str(),
        journal.plan_id.as_str(),
    ) && same_text(request.execution_id.as_str(), execution.execution_id.as_str()) && same_text(
        request.source_manifest_id.as_str(),
        execution.source_manifest_id.as_str(),
    ) && same_text(
        request.native_manifest_digest.as_str(),
        execution.native_manifest_digest.as_str(),
    )
}

/// A boundary of the execution that is intact and is not its end.
pub open spec fn is_open_boundary(
    boundary: VerifiedMutationBoundaryBinding,
    execution: ExecutionStartBinding,
) -> bool {
    &&& boundary.schema_version == 1
    &&& boundary.integrity == BindingIntegrity::Matches
    &&& boundary.execution_id@ == execution.execution_id@
    &&& boundary.final_step_id is None
    &&& boundary.final_identity_digest is None
}

/// What a continuation is refused for by its boundary and its prepared command, if anything.
pub open spec fn boundary_start_refusal(
    execution: ExecutionStartBinding,
    boundary: VerifiedMutationBoundaryBinding,
    request: PrivilegedHelperRequest,
    prepared: PreparedPrivilegedInvocation,
) -> Option<PrivilegedContinuationStartError> {
    if !is_open_boundary(boundary, execution) {
        Some(PrivilegedContinuationStartError::VerifiedBoundaryInvalid)
    } else {
        match model::step_position(execution.mutation_step_ids@, request.plan_step_id) {
            None => Some(PrivilegedContinuationStartError::StepSequenceMismatch),
            Some(p) => {
                if p == 0 || boundary.completed_step_id != execution.mutation_step_ids@[p - 1]
                    || boundary.next_step_id != request.plan_step_id {
                    Some(PrivilegedContinuationStartError::StepSequenceMismatch)
                } else if request.fresh_identity_digest@ != boundary.fresh_identity_digest@ {
                    Some(PrivilegedContinuationStartError::IdentityBoundaryMismatch)
                } else if !prepared.is_intact() {
                    Some(PrivilegedContinuationStartError::PreparedIntegrityMismatch)
                } else if !privileged_start::prepared_for(prepared, request) {
                    Some(PrivilegedContinuationStartError::PreparedRequestMismatch)
                } else {
                    None
                }
            },
        }
    }
}

/// What a continuation is refused for, if anything.
pub open spec fn continuation_start_refusal(
    journal: OperationJournal,
    request: PrivilegedHelperRequest,
    prepared: PreparedPrivilegedInvocation,
) -> Option<PrivilegedContinuationStartError> {
    if privileged_protocol::request_refusal(request) is Some {
        Some(PrivilegedContinuationStartError::Protocol(privileged_protocol::request_refusal(request)->Some_0))
    } else if journal.phase != JournalPhase::Executing || !journal.mutation_may_have_started {
        Some(PrivilegedContinuationStartError::JournalNotExecuting)
    } else {
        match journal.execution {
            None => Some(PrivilegedContinuationStartError::ExecutionBindingInvalid),
            Some(execution) => {
                if !execution.is_sound() {
                    Some(PrivilegedContinuationStartError::ExecutionBindingInvalid)
                } else if !requests_execution(request, execution, journal) {
                    Some(PrivilegedContinuationStartError::RequestExecutionMismatch)
                } else {
                    match journal.verified_boundary {
                        None => Some(PrivilegedContinuationStartError::VerifiedBoundaryInvalid),
                        Some(boundary) => boundary_start_refusal(
                            execution,
                            boundary,
                            request,
                            prepared,
                        ),
                    }
                }
            },
        }
    }
}

/// The receipt of a continuation.
pub open spec fn is_continuation_receipt(
    receipt: PrivilegedContinuationStartReceipt,
    journal: OperationJournal,
    request: PrivilegedHelperRequest,
    prepared: PreparedPrivilegedInvocation,
    journal_json: Seq<u8>,
) -> bool {
    &&& receipt.schema_version == 1
    &&& receipt.is_intact()
    &&& receipt.execution_id@ == journal.execution->Some_0.execution_id@
    &&& receipt.verified_boundary_id@ == journal.verified_boundary->Some_0.boundary_id@
    &&& receipt.prepared_id@ == prepared.prepared_id@
    &&& receipt.journal_id@ == journal.journal_id@
    &&& receipt.plan_step_id == request.plan_step_id
    &&& receipt.live_identity_digest@ == request.fresh_identity_digest@
    &&& receipt.executing_journal_digest@ == digest::fingerprint_of(journal_json)
}

/// Binds a prepared later step to the boundary that a journal records. `journal_json` is the
/// serialised journal.
pub fn build_continuation_start_receipt(
    journal: &OperationJournal,
    request: &PrivilegedHelperRequest,
    prepared: &PreparedPrivilegedInvocation,
    journal_json: &[u8],
) -> (result: Result<PrivilegedContinuationStartReceipt, PrivilegedContinuationStartError>)
    ensures
        ({
            let refusal = continuation_start_refusal(*journal, *request, *prepared);
            match result {
                Ok(receipt) => refusal is None && is_continuation_receipt(
                    receipt,
                    *journal,
                    *request,
                    *prepared,
                    journal_json@,
                ),
                Err(e) => refusal == Some(e),
            }
        }),
{
    match validate_privileged_helper_request(request) {
        Ok(_) => {},
        Err(e) => return Err(PrivilegedContinuationStartError::Protocol(e)),
    }
    if !matches!(journal.phase, JournalPhase::Executing) || !journal.mutation_may_have_started {
        return Err(PrivilegedContinuationStartError::JournalNotExecuting);
    }
    let execution = match &journal.execution {
        Some(execution) => execution,
        None => return Err(PrivilegedContinuationStartError::ExecutionBindingInvalid),
    };
    if !execution.sound() {
        return Err(PrivilegedContinuationStartError::ExecutionBindingInvalid);
    }
    if !is_requested_execution(request, execution, journal) {
        return Err(PrivilegedContinuationStartError::RequestExecutionMismatch);
    }
    let boundary = match &journal.verified_boundary {
        Some(boundary) => boundary,
        None => return Err(PrivilegedContinuationStartError::VerifiedBoundaryInvalid),
    };
    if boundary.schema_version != 1 || !matches!(boundary.integrity, BindingIntegrity::Matches)
        || !same_text(boundary.execution_id.as_str(), execution.execution_id.as_str())
        || boundary.final_step_id.is_some() || boundary.final_identity_digest.is_some() {
        return Err(PrivilegedContinuationStartError::VerifiedBoundaryInvalid);
    }
    let position: usize = match find_step(&execution.mutation_step_ids, request.plan_step_id) {
        Some(position) => position,
        None => return Err(PrivilegedContinuationStartError::StepSequenceMismatch),
    };
    if position == 0 || boundary.completed_step_id != execution.mutation_step_ids[position - 1]
        || boundary.next_step_id != request.plan_step_id {
        return Err(PrivilegedContinuationStartError::StepSequenceMismatch);
    }
    if !same_text(
        request.fresh_identity_digest.as_str(),
        boundary.fresh_identity_digest.as_str(),
    ) {
        return Err(PrivilegedContinuationStartError::IdentityBoundaryMismatch);
    }
    if !prepared.intact() {
        return Err(PrivilegedContinuationStartError::PreparedIntegrityMismatch);
    }
    if !is_prepared_for(prepared, request) {
        return Err(PrivilegedContinuationStartError::PreparedRequestMismatch);
    }
    let mut receipt = PrivilegedContinuationStartReceipt {
        schema_version: 1,
        receipt_id: String::new(),
        execution_id: execution.execution_id.clone(),
        verified_boundary_id: boundary.boundary_id.clone(),
        prepared_id: prepared.prepared_id.clone(),
        journal_id: journal.journal_id.clone(),
        plan_step_id: request.plan_step_id,
        live_identity_digest: request.fresh_identity_digest.clone(),
        executing_journal_digest: fingerprint(journal_json),
    };
    let receipt_id = receipt.fingerprint();
    receipt.receipt_id = receipt_id;
    Ok(receipt)
}

/// What a continuation of a session is refused for, if anything.
pub open spec fn session_continuation_refusal(
    session: SessionModel,
    request: PrivilegedHelperRequest,
    prepared: PreparedPrivilegedInvocation,
) -> Option<PrivilegedContinuationStartError> {
    match locked_session::durable_refusal(session) {
        Some(e) => Some(PrivilegedContinuationStartError::Session(e)),
        None => continuation_start_refusal(session.journal, request, prepared),
    }
}

/// Binds a prepared later step to the boundary that the durable journal of a session records. No
/// journal transition takes place: the record already authorises exactly one next step.
pub fn bind_prepared_privileged_continuation(
    session: &LockedExecutionSession,
    request: &PrivilegedHelperRequest,
    prepared: &PreparedPrivilegedInvocation,
    journal_json: &[u8],
) -> (result: Result<PrivilegedContinuationStartReceipt, PrivilegedContinuationStartError>)
    ensures
        ({
            let refusal = session_continuation_refusal(session@, *request, *prepared);
            match result {
                Ok(receipt) => refusal is None && is_continuation_receipt(
                    receipt,
                    session@.journal,
                    *request,
                    *prepared,
                    journal_json@,
                ),
                Err(e) => refusal == Some(e),
            }
        }),
{
    match session.require_current_durable_journal() {
        Ok(_) => {},
        Err(e) => return Err(PrivilegedContinuationStartError::Session(e)),
    }
    build_continuation_start_receipt(session.journal(), request, prepared, journal_json)
}

/// A continuation starts exactly the step after the completed one, from the state that was verified
/// at the boundary between them.
pub proof fn continuation_follows_its_boundary(
    journal: OperationJournal,
    request: PrivilegedHelperRequest,
    prepared: PreparedPrivilegedInvocation,
)
    requires
        continuation_start_refusal(journal, request, prepared) is None,
    ensures
        ({
            let execution = journal.execution->Some_0;
            let boundary = journal.verified_boundary->Some_0;
            &&& model::adjacent(
                execution.mutation_step_ids@,
                boundary.completed_step_id,
                request.plan_step_id,
            )
            &&& privileged_protocol::durable_identity(journal, execution, request.plan_step_id) == Some(
                request.fresh_identity_digest@,
            )
        }),
{
    let ids = journal.execution->Some_0.mutation_step_ids@;
    ids.index_of_first_ensures(request.plan_step_id);
    let p = model::step_position(ids, request.plan_step_id)->Some_0;
    assert(ids[p - 1] == journal.verified_boundary->Some_0.completed_step_id && ids[p - 1 + 1]
        == request.plan_step_id);
}

/// The two hold the same, apart from their identifiers.
pub open spec fn same_continuation_receipt(a: PrivilegedContinuationStartReceipt, b: PrivilegedContinuationStartReceipt) -> bool {
    &&& a.schema_version == b.schema_version
    &&& a.execution_id@ == b.execution_id@
    &&& a.verified_boundary_id@ == b.verified_boundary_id@
    &&& a.prepared_id@ == b.prepared_id@
    &&& a.journal_id@ == b.journal_id@
    &&& a.plan_step_id == b.plan_step_id
    &&& a.live_identity_digest@ == b.live_identity_digest@
    &&& a.executing_journal_digest@ == b.executing_journal_digest@
}

proof fn lemma_continuation_receipt_told(a: PrivilegedContinuationStartReceipt, b: PrivilegedContinuationStartReceipt)
    requires
        continuation_receipt_json(a) == continuation_receipt_json(b),
    ensures
        same_continuation_receipt(a, b),
{
    broadcast use crate::json_reading::group_json_reading;

    let p = continuation_receipt_parts(a);
    let q = continuation_receipt_parts(b);
    assert(json_reading::are_values(p) && json_reading::are_values(q));
    assert(p[0] == q[0]);
    assert(p[1] == q[1]);
    assert(p[2] == q[2]);
    assert(p[3] == q[3]);
    assert(p[4] == q[4]);
    assert(p[5] == q[5]);
    assert(p[6] == q[6]);
    assert(p[7] == q[7]);
}

/// A continuation receipt that was changed under its identifier is noticed, short of a SHA-256 collision.
pub proof fn changed_continuation_receipt_is_detected(a: PrivilegedContinuationStartReceipt, b: PrivilegedContinuationStartReceipt)
    requires
        a.is_intact(),
        b.receipt_id@ == a.receipt_id@,
        !same_continuation_receipt(a, b),
    ensures
        !b.is_intact() || digest::is_collision(continuation_receipt_json(a), continuation_receipt_json(b)),
{
    if b.is_intact() {
        digest::fingerprint_tells_its_text(continuation_receipt_json(a), continuation_receipt_json(b));
        if continuation_receipt_json(a) == continuation_receipt_json(b) {
            lemma_continuation_receipt_told(a, b);
        }
    }
}

/// A later step starts exactly where the session is durable, the request is valid, the journal is in
/// the middle of a sound execution that is its own and the request's, the journal hands this very
/// state to this very step across a boundary, and the prepared command is intact and that of the
/// request.
pub proof fn later_step_starts_behind_its_boundary(
    session: SessionModel,
    request: PrivilegedHelperRequest,
    prepared: PreparedPrivilegedInvocation,
)
    ensures
        session_continuation_refusal(session, request, prepared) is None <==> {
            &&& session.durable_current()
            &&& privileged_protocol::request_refusal(request) is None
            &&& session.journal.phase is Executing
            &&& session.journal.mutation_may_have_started
            &&& session.journal.execution matches Some(execution)
            &&& execution.schema_version == 1
            &&& execution.integrity is Matches
            &&& execution.journal_id@ == session.journal.journal_id@
            &&& execution.plan_id@ == session.journal.plan_id@
            &&& request.execution_id@ == execution.execution_id@
            &&& request.source_manifest_id@ == execution.source_manifest_id@
            &&& request.native_manifest_digest@ == execution.native_manifest_digest@
            &&& exists|p: int|
                p > 0 && privileged_protocol::hands_state_at(
                    session.journal,
                    execution,
                    request.plan_step_id,
                    request.fresh_identity_digest@,
                    p,
                )
            &&& prepared.is_intact()
            &&& prepared.request_id@ == request.request_id@
            &&& prepared.execution_id@ == request.execution_id@
            &&& prepared.plan_step_id == request.plan_step_id
            &&& prepared.live_identity_digest@ == request.fresh_identity_digest@
        },
{
    if session.journal.execution is Some {
        let execution = session.journal.execution->Some_0;
        let ids = execution.mutation_step_ids@;
        privileged_protocol::step_position_is_the_first_place(ids, request.plan_step_id);
        let position = model::step_position(ids, request.plan_step_id);
        if session_continuation_refusal(session, request, prepared) is None {
            assert(privileged_protocol::hands_state_at(
                session.journal,
                execution,
                request.plan_step_id,
                request.fresh_identity_digest@,
                position->Some_0,
            ));
        }
        assert forall|p: int|
            p > 0 && #[trigger] privileged_protocol::hands_state_at(
                session.journal,
                execution,
                request.plan_step_id,
                request.fresh_identity_digest@,
                p,
            ) implies position == Some(p) by {
            assert(ids[p] == request.plan_step_id);
            let r = position->Some_0;
            if r < p {
                assert(ids[r] != request.plan_step_id);
            }
        }
    }
}

/// The receipt of a later step names its execution, boundary, prepared command, journal, step and
/// state, and has the fingerprint of the journal.
pub proof fn later_start_is_named_by_its_receipt(
    receipt: PrivilegedContinuationStartReceipt,
    journal: OperationJournal,
    request: PrivilegedHelperRequest,
    prepared: PreparedPrivilegedInvocation,
    journal_json: Seq<u8>,
)
    requires
        continuation_start_refusal(journal, request, prepared) is None,
        is_continuation_receipt(receipt, journal, request, prepared, journal_json),
    ensures
        receipt.schema_version == 1,
        receipt.execution_id@ == request.execution_id@,
        receipt.verified_boundary_id@ == journal.verified_boundary->Some_0.boundary_id@,
        receipt.prepared_id@ == prepared.prepared_id@,
        receipt.journal_id@ == journal.journal_id@,
        receipt.plan_step_id == journal.verified_boundary->Some_0.next_step_id,
        receipt.live_identity_digest@ == journal.verified_boundary->Some_0.fresh_identity_digest@,
        receipt.executing_journal_digest@ == digest::fingerprint_of(journal_json),
{
}

/// Each refusal of a later start names something that is wrong.
pub proof fn refused_later_start_names_its_reason(
    journal: OperationJournal,
    request: PrivilegedHelperRequest,
    prepared: PreparedPrivilegedInvocation,
)
    ensures
        continuation_start_refusal(journal, request, prepared) matches Some(e) ==> match e {
            PrivilegedContinuationStartError::Protocol(fault) => {
                privileged_protocol::request_refusal(request) == Some(fault)
            },
            PrivilegedContinuationStartError::JournalNotExecuting => !(journal.phase is Executing)
                || !journal.mutation_may_have_started,
            PrivilegedContinuationStartError::ExecutionBindingInvalid => journal.execution is None
                || journal.execution->Some_0.schema_version != 1 || !(
            journal.execution->Some_0.integrity is Matches),
            PrivilegedContinuationStartError::RequestExecutionMismatch => {
                let execution = journal.execution->Some_0;
                ||| execution.journal_id@ != journal.journal_id@
                ||| execution.plan_id@ != journal.plan_id@
                ||| request.execution_id@ != execution.execution_id@
                ||| request.source_manifest_id@ != execution.source_manifest_id@
                ||| request.native_manifest_digest@ != execution.native_manifest_digest@
            },
            PrivilegedContinuationStartError::VerifiedBoundaryInvalid => journal.verified_boundary
                is None || {
                let boundary = journal.verified_boundary->Some_0;
                ||| boundary.schema_version != 1
                ||| !(boundary.integrity is Matches)
                ||| boundary.execution_id@ != journal.execution->Some_0.execution_id@
                ||| boundary.final_step_id is Some
                ||| boundary.final_identity_digest is Some
            },
            PrivilegedContinuationStartError::StepSequenceMismatch => !exists|k: int|
                {
                    let ids = journal.execution->Some_0.mutation_step_ids@;
                    let boundary = journal.verified_boundary->Some_0;
                    &&& 0 < k < ids.len()
                    &&& #[trigger] journal.execution->Some_0.mutation_step_ids@[k]
                        == request.plan_step_id
                    &&& forall|q: int| 0 <= q < k ==> #[trigger] ids[q] != request.plan_step_id
                    &&& boundary.completed_step_id == ids[k - 1]
                    &&& boundary.next_step_id == request.plan_step_id
                },
            PrivilegedContinuationStartError::IdentityBoundaryMismatch => {
                request.fresh_identity_digest@
                    != journal.verified_boundary->Some_0.fresh_identity_digest@
            },
            PrivilegedContinuationStartError::PreparedIntegrityMismatch => !prepared.is_intact(),
            PrivilegedContinuationStartError::PreparedRequestMismatch => {
                ||| prepared.request_id@ != request.request_id@
                ||| prepared.execution_id@ != request.execution_id@
                ||| prepared.plan_step_id != request.plan_step_id
                ||| prepared.live_identity_digest@ != request.fresh_identity_digest@
            },
            _ => false,
        },
{
    if journal.execution is Some {
        let ids = journal.execution->Some_0.mutation_step_ids@;
        privileged_protocol::step_position_is_the_first_place(ids, request.plan_step_id);
        let position = model::step_position(ids, request.plan_step_id);
        assert forall|k: int|
            0 < k < ids.len() && #[trigger] ids[k] == request.plan_step_id && (forall|q: int|
                0 <= q < k ==> #[trigger] ids[q] != request.plan_step_id) implies position == Some(
            k,
        ) by {
            let r = position->Some_0;
            if r < k {
                assert(ids[r] != request.plan_step_id);
            }
        }
    }
}

} // verus!
