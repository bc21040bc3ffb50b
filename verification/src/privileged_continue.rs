//! What a finished mutation means for the durable journal.

use vstd::prelude::*;

use crate::privileged_verify;
use crate::privileged_protocol;
use crate::model;
use crate::locked_session;
use crate::locked_session::{LockedExecutionSession, LockedSessionError};
use crate::model::{find_step, ExecutionStartBinding, JournalPhase, OperationJournal};
use crate::privileged_protocol::{
    starts_from_durable_identity, validate_privileged_helper_request,
    PrivilegedHelperProtocolError, PrivilegedHelperRequest,
};
use crate::privileged_result::{PrivilegedProcessReceipt, PrivilegedRuntimeDisposition};
use crate::privileged_verify::PrivilegedLayerVerificationReceipt;
use crate::text::same_text;

verus! {

/// The only durable action that a finished mutation allows.
#[derive(Clone, Copy, Debug, PartialEq, Eq, Structural)]
pub enum PrivilegedDurableDisposition {
    Continue { next_step_id: u32 },
    Complete,
    RecoveryRequired,
}

#[derive(Clone, Copy, Debug, PartialEq, Eq, Structural)]
pub enum PrivilegedDurableTransitionError {
    JournalNotExecuting,
    ExecutionBindingInvalid,
    Protocol(PrivilegedHelperProtocolError),
    ProcessReceiptIntegrityMismatch,
    RuntimeBindingMismatch,
    StepSequenceMismatch,
    IdentityChainMismatch,
    VerificationReceiptMissing,
    VerificationReceiptIntegrityMismatch,
    VerificationBindingMismatch,
    Durable(LockedSessionError),
}

/// What a journal is refused for as one in the middle of an execution, if anything.
pub open spec fn executing_refusal(journal: OperationJournal) -> Option<
    PrivilegedDurableTransitionError,
> {
    if journal.phase != JournalPhase::Executing || !journal.mutation_may_have_started {
        Some(PrivilegedDurableTransitionError::JournalNotExecuting)
    } else if journal.execution is None || !journal.execution->Some_0.is_sound() {
        Some(PrivilegedDurableTransitionError::ExecutionBindingInvalid)
    } else {
        None
    }
}

fn execution_for_journal(journal: &OperationJournal) -> (result: Result<
    &ExecutionStartBinding,
    PrivilegedDurableTransitionError,
>)
    ensures
        match result {
            Ok(execution) => executing_refusal(*journal) is None && journal.execution == Some(
                *execution,
            ),
            Err(e) => executing_refusal(*journal) == Some(e),
        },
{
    if !matches!(journal.phase, JournalPhase::Executing) || !journal.mutation_may_have_started {
        return Err(PrivilegedDurableTransitionError::JournalNotExecuting);
    }
    match &journal.execution {
        None => Err(PrivilegedDurableTransitionError::ExecutionBindingInvalid),
        Some(execution) => {
            if !execution.sound() {
                Err(PrivilegedDurableTransitionError::ExecutionBindingInvalid)
            } else {
                Ok(execution)
            }
        },
    }
}

/// Request and process belong to the execution.
pub open spec fn is_bound_runtime(
    execution: ExecutionStartBinding,
    request: PrivilegedHelperRequest,
    process: PrivilegedProcessReceipt,
) -> bool {
    &&& process.execution_id@ == execution.execution_id@
    &&& request.execution_id@ == execution.execution_id@
    &&& request.source_manifest_id@ == execution.source_manifest_id@
    &&& request.native_manifest_digest@ == execution.native_manifest_digest@
    &&& process.plan_step_id == request.plan_step_id
    &&& process.mutation_may_have_started
}

/// What a verification receipt is refused for, if anything.
pub open spec fn verification_refusal(
    execution: ExecutionStartBinding,
    request: PrivilegedHelperRequest,
    process: PrivilegedProcessReceipt,
    verification: Option<PrivilegedLayerVerificationReceipt>,
) -> Option<PrivilegedDurableTransitionError> {
    match verification {
        None => Some(PrivilegedDurableTransitionError::VerificationReceiptMissing),
        Some(v) => {
            if v.schema_version != 1 || !v.is_intact() {
                Some(PrivilegedDurableTransitionError::VerificationReceiptIntegrityMismatch)
            } else if !v.expected_state_verified || v.execution_id@ != execution.execution_id@
                || v.process_receipt_id@ != process.receipt_id@ || v.request_id@
                != request.request_id@ || v.plan_step_id != request.plan_step_id
                || v.before_identity_digest@ != request.fresh_identity_digest@ {
                Some(PrivilegedDurableTransitionError::VerificationBindingMismatch)
            } else {
                None
            }
        },
    }
}

/// What follows a step in the order of an execution.
pub open spec fn following_disposition(
    execution: ExecutionStartBinding,
    plan_step_id: u32,
) -> PrivilegedDurableDisposition {
    let ids = execution.mutation_step_ids@;
    let p = model::step_position(ids, plan_step_id)->Some_0;
    if p + 1 < ids.len() {
        PrivilegedDurableDisposition::Continue { next_step_id: ids[p + 1] }
    } else {
        PrivilegedDurableDisposition::Complete
    }
}

/// What a durable transition owes: the action that is allowed, or a refusal.
pub open spec fn durable_transition(
    journal: OperationJournal,
    request: PrivilegedHelperRequest,
    process: PrivilegedProcessReceipt,
    verification: Option<PrivilegedLayerVerificationReceipt>,
) -> Result<PrivilegedDurableDisposition, PrivilegedDurableTransitionError> {
    let execution = journal.execution->Some_0;
    if privileged_protocol::request_refusal(request) is Some {
        Err(PrivilegedDurableTransitionError::Protocol(privileged_protocol::request_refusal(request)->Some_0))
    } else if executing_refusal(journal) is Some {
        Err(executing_refusal(journal)->Some_0)
    } else if process.schema_version != 1 || !process.is_intact() {
        Err(PrivilegedDurableTransitionError::ProcessReceiptIntegrityMismatch)
    } else if !is_bound_runtime(execution, request, process) {
        Err(PrivilegedDurableTransitionError::RuntimeBindingMismatch)
    } else if model::step_position(execution.mutation_step_ids@, request.plan_step_id) is None {
        Err(PrivilegedDurableTransitionError::StepSequenceMismatch)
    } else if privileged_protocol::durable_identity(journal, execution, request.plan_step_id) != Some(
        request.fresh_identity_digest@,
    ) {
        Err(PrivilegedDurableTransitionError::IdentityChainMismatch)
    } else if process.disposition == PrivilegedRuntimeDisposition::RecoveryRequired {
        Ok(PrivilegedDurableDisposition::RecoveryRequired)
    } else {
        match verification_refusal(execution, request, process, verification) {
            Some(e) => Err(e),
            None => Ok(following_disposition(execution, request.plan_step_id)),
        }
    }
}

/// Turns the receipts of a finished mutation into the only durable action that they allow. A
/// process that asks for recovery never allows to continue. A successful one still needs the
/// receipt of its verification.
pub fn classify_privileged_durable_transition(
    journal: &OperationJournal,
    request: &PrivilegedHelperRequest,
    process: &PrivilegedProcessReceipt,
    verification: &Option<PrivilegedLayerVerificationReceipt>,
) -> (result: Result<PrivilegedDurableDisposition, PrivilegedDurableTransitionError>)
    ensures
        result == durable_transition(*journal, *request, *process, *verification),
{
    match validate_privileged_helper_request(request) {
        Ok(_) => {},
        Err(e) => return Err(PrivilegedDurableTransitionError::Protocol(e)),
    }
    let execution = match execution_for_journal(journal) {
        Ok(execution) => execution,
        Err(e) => return Err(e),
    };
    if process.schema_version != 1 || !process.intact() {
        return Err(PrivilegedDurableTransitionError::ProcessReceiptIntegrityMismatch);
    }
    if !same_text(process.execution_id.as_str(), execution.execution_id.as_str()) || !same_text(
        request.execution_id.as_str(),
        execution.execution_id.as_str(),
    ) || !same_text(request.source_manifest_id.as_str(), execution.source_manifest_id.as_str())
        || !same_text(
        request.native_manifest_digest.as_str(),
        execution.native_manifest_digest.as_str(),
    ) || process.plan_step_id != request.plan_step_id || !process.mutation_may_have_started {
        return Err(PrivilegedDurableTransitionError::RuntimeBindingMismatch);
    }
    let position: usize = match find_step(&execution.mutation_step_ids, request.plan_step_id) {
        Some(position) => position,
        None => return Err(PrivilegedDurableTransitionError::StepSequenceMismatch),
    };
    if !starts_from_durable_identity(
        journal,
        execution,
        request.plan_step_id,
        request.fresh_identity_digest.as_str(),
    ) {
        return Err(PrivilegedDurableTransitionError::IdentityChainMismatch);
    }
    if matches!(process.disposition, PrivilegedRuntimeDisposition::RecoveryRequired) {
        return Ok(PrivilegedDurableDisposition::RecoveryRequired);
    }
    match verification {
        None => return Err(PrivilegedDurableTransitionError::VerificationReceiptMissing),
        Some(v) => {
            if v.schema_version != 1 || !v.intact() {
                return Err(PrivilegedDurableTransitionError::VerificationReceiptIntegrityMismatch);
            }
            if !v.expected_state_verified || !same_text(
                v.execution_id.as_str(),
                execution.execution_id.as_str(),
            ) || !same_text(v.process_receipt_id.as_str(), process.receipt_id.as_str())
                || !same_text(v.request_id.as_str(), request.request_id.as_str()) || v.plan_step_id
                != request.plan_step_id || !same_text(
                v.before_identity_digest.as_str(),
                request.fresh_identity_digest.as_str(),
            ) {
                return Err(PrivilegedDurableTransitionError::VerificationBindingMismatch);
            }
        },
    }
    if execution.mutation_step_ids.len() - position > 1 {
        Ok(
            PrivilegedDurableDisposition::Continue {
                next_step_id: execution.mutation_step_ids[position + 1],
            },
        )
    } else {
        Ok(PrivilegedDurableDisposition::Complete)
    }
}

/// One write to the durable journal.
#[derive(Clone, Debug, PartialEq, Eq)]
pub enum DurableWrite {
    Interrupted { reason: String },
    VerificationStarted,
    VerificationPassedContinue {
        completed_step_id: u32,
        next_step_id: u32,
        fresh_identity_digest: String,
    },
    VerifiedCompleted { final_step_id: u32, fresh_identity_digest: String },
    Completed,
}

/// The content of one write.
pub enum DurableWriteModel {
    Interrupted { reason: Seq<char> },
    VerificationStarted,
    VerificationPassedContinue {
        completed_step_id: u32,
        next_step_id: u32,
        fresh_identity_digest: Seq<char>,
    },
    VerifiedCompleted { final_step_id: u32, fresh_identity_digest: Seq<char> },
    Completed,
}

impl View for DurableWrite {
    type V = DurableWriteModel;

    open spec fn view(&self) -> DurableWriteModel {
        match *self {
            DurableWrite::Interrupted { reason } => {
                DurableWriteModel::Interrupted { reason: reason@ }
            },
            DurableWrite::VerificationStarted => DurableWriteModel::VerificationStarted,
            DurableWrite::VerificationPassedContinue {
                completed_step_id,
                next_step_id,
                fresh_identity_digest,
            } => DurableWriteModel::VerificationPassedContinue {
                completed_step_id,
                next_step_id,
                fresh_identity_digest: fresh_identity_digest@,
            },
            DurableWrite::VerifiedCompleted { final_step_id, fresh_identity_digest } => {
                DurableWriteModel::VerifiedCompleted {
                    final_step_id,
                    fresh_identity_digest: fresh_identity_digest@,
                }
            },
            DurableWrite::Completed => DurableWriteModel::Completed,
        }
    }
}

/// The contents of writes.
pub open spec fn write_models(writes: Seq<DurableWrite>) -> Seq<DurableWriteModel> {
    writes.map_values(|w: DurableWrite| w@)
}

/// The writes for one durable action, in order. Success is recorded in two writes, so that an
/// interruption between them cannot authorise a blind repetition.
pub open spec fn writes_for(
    journal: OperationJournal,
    request: PrivilegedHelperRequest,
    verification: Option<PrivilegedLayerVerificationReceipt>,
    disposition: PrivilegedDurableDisposition,
) -> Seq<DurableWriteModel> {
    match disposition {
        PrivilegedDurableDisposition::RecoveryRequired => seq![
            DurableWriteModel::Interrupted {
                reason: "privileged storage process reported a recovery-required outcome"@,
            },
        ],
        PrivilegedDurableDisposition::Continue { next_step_id } => seq![
            DurableWriteModel::VerificationStarted,
            DurableWriteModel::VerificationPassedContinue {
                completed_step_id: request.plan_step_id,
                next_step_id,
                fresh_identity_digest: verification->Some_0.fresh_identity_digest@,
            },
        ],
        PrivilegedDurableDisposition::Complete => seq![
            DurableWriteModel::VerificationStarted,
            if journal.execution->Some_0.mutation_step_ids@.len() == 1 {
                DurableWriteModel::Completed
            } else {
                DurableWriteModel::VerifiedCompleted {
                    final_step_id: request.plan_step_id,
                    fresh_identity_digest: verification->Some_0.fresh_identity_digest@,
                }
            },
        ],
    }
}

/// The writes after a refused transition: a mutation that may have started is marked for
/// reconciliation.
pub open spec fn writes_after_refusal(journal: OperationJournal) -> Seq<DurableWriteModel> {
    if journal.mutation_may_have_started && (journal.phase == JournalPhase::Executing
        || journal.phase == JournalPhase::Verifying) {
        seq![
            DurableWriteModel::Interrupted {
                reason: "privileged runtime or verification binding was rejected; reconciliation required"@,
            },
        ]
    } else {
        Seq::empty()
    }
}

/// A durable transition as it is to be carried out: the writes, in order, and what is reported
/// once they are done.
#[derive(Debug, PartialEq, Eq)]
pub struct DurableTransitionPlan {
    pub writes: Vec<DurableWrite>,
    pub outcome: Result<PrivilegedDurableDisposition, PrivilegedDurableTransitionError>,
}

/// Plans the durable writes after a finished mutation. Without a current durable record nothing is
/// written.
pub fn plan_privileged_durable_transition(
    session: &LockedExecutionSession,
    request: &PrivilegedHelperRequest,
    process: &PrivilegedProcessReceipt,
    verification: &Option<PrivilegedLayerVerificationReceipt>,
) -> (plan: DurableTransitionPlan)
    ensures
        match locked_session::durable_refusal(session@) {
            Some(e) => plan.writes@.len() == 0 && plan.outcome == Result::<
                PrivilegedDurableDisposition,
                PrivilegedDurableTransitionError,
            >::Err(PrivilegedDurableTransitionError::Durable(e)),
            None => {
                let journal = session@.journal;
                let owed = durable_transition(journal, *request, *process, *verification);
                &&& plan.outcome == owed
                &&& write_models(plan.writes@) == match owed {
                    Ok(disposition) => writes_for(journal, *request, *verification, disposition),
                    Err(_) => writes_after_refusal(journal),
                }
            },
        },
{
    let mut writes: Vec<DurableWrite> = Vec::new();
    match session.require_current_durable_journal() {
        Ok(_) => {},
        Err(e) => {
            return DurableTransitionPlan {
                writes,
                outcome: Err(PrivilegedDurableTransitionError::Durable(e)),
            };
        },
    }
    let journal = session.journal();
    let outcome = classify_privileged_durable_transition(journal, request, process, verification);
    let ghost owed = match outcome {
        Ok(disposition) => writes_for(*journal, *request, *verification, disposition),
        Err(_) => writes_after_refusal(*journal),
    };
    match outcome {
        Err(_) => {
            if journal.mutation_may_have_started && matches!(
                journal.phase,
                JournalPhase::Executing | JournalPhase::Verifying
            ) {
                writes.push(
                    DurableWrite::Interrupted {
                        reason: "privileged runtime or verification binding was rejected; reconciliation required".to_owned(),
                    },
                );
            }
        },
        Ok(PrivilegedDurableDisposition::RecoveryRequired) => {
            writes.push(
                DurableWrite::Interrupted {
                    reason: "privileged storage process reported a recovery-required outcome".to_owned(),
                },
            );
        },
        Ok(PrivilegedDurableDisposition::Continue { next_step_id }) => {
            writes.push(DurableWrite::VerificationStarted);
            match verification {
                Some(v) => {
                    writes.push(
                        DurableWrite::VerificationPassedContinue {
                            completed_step_id: request.plan_step_id,
                            next_step_id,
                            fresh_identity_digest: v.fresh_identity_digest.clone(),
                        },
                    );
                },
                None => {},
            }
        },
        Ok(PrivilegedDurableDisposition::Complete) => {
            writes.push(DurableWrite::VerificationStarted);
            match (&journal.execution, verification) {
                (Some(execution), Some(v)) => {
                    if execution.mutation_step_ids.len() == 1 {
                        writes.push(DurableWrite::Completed);
                    } else {
                        writes.push(
                            DurableWrite::VerifiedCompleted {
                                final_step_id: request.plan_step_id,
                                fresh_identity_digest: v.fresh_identity_digest.clone(),
                            },
                        );
                    }
                },
                _ => {},
            }
        },
    }
    assert(write_models(writes@) =~= owed);
    DurableTransitionPlan { writes, outcome }
}

/// An execution goes on only to the neighbour of a step whose exact state was verified.
pub proof fn only_verified_steps_continue(
    journal: OperationJournal,
    request: PrivilegedHelperRequest,
    process: PrivilegedProcessReceipt,
    verification: Option<PrivilegedLayerVerificationReceipt>,
    next_step_id: u32,
)
    requires
        durable_transition(journal, request, process, verification) == Result::<
            PrivilegedDurableDisposition,
            PrivilegedDurableTransitionError,
        >::Ok(PrivilegedDurableDisposition::Continue { next_step_id }),
    ensures
        model::adjacent(
            journal.execution->Some_0.mutation_step_ids@,
            request.plan_step_id,
            next_step_id,
        ),
        verification is Some,
        verification->Some_0.is_intact(),
        verification->Some_0.expected_state_verified,
        verification->Some_0.plan_step_id == request.plan_step_id,
        process.disposition == PrivilegedRuntimeDisposition::RediscoveryRequired,
{
    let ids = journal.execution->Some_0.mutation_step_ids@;
    ids.index_of_first_ensures(request.plan_step_id);
    let p = model::step_position(ids, request.plan_step_id)->Some_0;
    assert(ids[p] == request.plan_step_id && ids[p + 1] == next_step_id);
}

/// A process that asks for recovery allows neither continuation nor completion.
pub proof fn recovery_never_continues(
    journal: OperationJournal,
    request: PrivilegedHelperRequest,
    process: PrivilegedProcessReceipt,
    verification: Option<PrivilegedLayerVerificationReceipt>,
)
    requires
        process.disposition == PrivilegedRuntimeDisposition::RecoveryRequired,
    ensures
        match durable_transition(journal, request, process, verification) {
            Ok(disposition) => disposition == PrivilegedDurableDisposition::RecoveryRequired,
            Err(_) => true,
        },
{
}

/// What was verified for the first step of an execution, or for the step that a boundary hands over
/// to, is accepted: the receipts of one step fit together.
pub proof fn verified_step_is_accepted(
    journal: OperationJournal,
    request: PrivilegedHelperRequest,
    process: PrivilegedProcessReceipt,
    before: crate::model::TargetIdentityManifest,
    fresh: crate::model::TargetIdentityManifest,
    receipt: PrivilegedLayerVerificationReceipt,
)
    requires
        executing_refusal(journal) is None,
        process.schema_version == 1,
        is_bound_runtime(journal.execution->Some_0, request, process),
        model::step_position(
            journal.execution->Some_0.mutation_step_ids@,
            request.plan_step_id,
        ) is Some,
        privileged_protocol::durable_identity(journal, journal.execution->Some_0, request.plan_step_id) == Some(
            request.fresh_identity_digest@,
        ),
        privileged_verify::layer_refusal(request, process, before, fresh) is None,
        privileged_verify::is_verification_receipt(receipt, request, process, before, fresh),
    ensures
        durable_transition(journal, request, process, Some(receipt)) == Result::<
            PrivilegedDurableDisposition,
            PrivilegedDurableTransitionError,
        >::Ok(following_disposition(journal.execution->Some_0, request.plan_step_id)),
{
}

/// A transition is allowed exactly where the request is valid, the journal is in the middle of a
/// sound execution, the process left an intact receipt for this step of it and may have mutated,
/// the request starts from the state that the journal hands to this step, and, where the process
/// succeeded, an intact verification of just that process, request, step and state says so.
pub proof fn transition_needs_a_verified_step(
    journal: OperationJournal,
    request: PrivilegedHelperRequest,
    process: PrivilegedProcessReceipt,
    verification: Option<PrivilegedLayerVerificationReceipt>,
)
    ensures
        durable_transition(journal, request, process, verification) is Ok <==> {
            &&& privileged_protocol::request_refusal(request) is None
            &&& journal.phase is Executing
            &&& journal.mutation_may_have_started
            &&& journal.execution matches Some(execution)
            &&& execution.schema_version == 1
            &&& execution.integrity is Matches
            &&& process.schema_version == 1
            &&& process.is_intact()
            &&& process.mutation_may_have_started
            &&& process.execution_id@ == execution.execution_id@
            &&& process.plan_step_id == request.plan_step_id
            &&& request.execution_id@ == execution.execution_id@
            &&& request.source_manifest_id@ == execution.source_manifest_id@
            &&& request.native_manifest_digest@ == execution.native_manifest_digest@
            &&& exists|p: int|
                privileged_protocol::hands_state_at(
                    journal,
                    execution,
                    request.plan_step_id,
                    request.fresh_identity_digest@,
                    p,
                )
            &&& process.disposition is RecoveryRequired || {
                &&& verification matches Some(v)
                &&& v.schema_version == 1
                &&& v.is_intact()
                &&& v.expected_state_verified
                &&& v.execution_id@ == execution.execution_id@
                &&& v.process_receipt_id@ == process.receipt_id@
                &&& v.request_id@ == request.request_id@
                &&& v.plan_step_id == request.plan_step_id
                &&& v.before_identity_digest@ == request.fresh_identity_digest@
            }
        },
{
    if journal.execution is Some {
        let execution = journal.execution->Some_0;
        privileged_protocol::durable_identity_is_the_handed_state(
            journal,
            execution,
            request.plan_step_id,
            request.fresh_identity_digest@,
        );
    }
}

/// An allowed transition leads to recovery exactly where the process asks for it. Otherwise it goes
/// on with the step behind this one, or completes where this one is the last.
pub proof fn transition_leads_to_the_next_step(
    journal: OperationJournal,
    request: PrivilegedHelperRequest,
    process: PrivilegedProcessReceipt,
    verification: Option<PrivilegedLayerVerificationReceipt>,
    p: int,
)
    requires
        durable_transition(journal, request, process, verification) is Ok,
        privileged_protocol::hands_state_at(
            journal,
            journal.execution->Some_0,
            request.plan_step_id,
            request.fresh_identity_digest@,
            p,
        ),
    ensures
        ({
            let owed = durable_transition(journal, request, process, verification)->Ok_0;
            let ids = journal.execution->Some_0.mutation_step_ids@;
            &&& owed is RecoveryRequired <==> process.disposition is RecoveryRequired
            &&& !(owed is RecoveryRequired) && p + 1 < ids.len() ==> owed is Continue
                && owed->next_step_id == ids[p + 1]
            &&& !(owed is RecoveryRequired) && p + 1 == ids.len() ==> owed is Complete
        }),
{
    let ids = journal.execution->Some_0.mutation_step_ids@;
    privileged_protocol::step_position_is_the_first_place(ids, request.plan_step_id);
    let r = model::step_position(ids, request.plan_step_id)->Some_0;
    assert(ids[p] == request.plan_step_id);
    if r < p {
        assert(ids[r] != request.plan_step_id);
    }
}

/// Recovery is recorded as an interruption. Success is recorded as a verification that started, and
/// then as the passage to the next step with the fresh state, or as the end: of a single step as
/// such, of several with the last step and the fresh state.
pub proof fn transition_is_written_before_it_counts(
    journal: OperationJournal,
    request: PrivilegedHelperRequest,
    verification: PrivilegedLayerVerificationReceipt,
    next_step_id: u32,
)
    ensures
        ({
            let writes = writes_for(
                journal,
                request,
                Some(verification),
                PrivilegedDurableDisposition::RecoveryRequired,
            );
            writes.len() == 1 && writes[0] is Interrupted && writes[0]->reason
                == "privileged storage process reported a recovery-required outcome"@
        }),
        ({
            let writes = writes_for(
                journal,
                request,
                Some(verification),
                PrivilegedDurableDisposition::Continue { next_step_id },
            );
            &&& writes.len() == 2
            &&& writes[0] is VerificationStarted
            &&& writes[1] is VerificationPassedContinue
            &&& writes[1]->completed_step_id == request.plan_step_id
            &&& writes[1]->next_step_id == next_step_id
            &&& writes[1]->VerificationPassedContinue_fresh_identity_digest
                == verification.fresh_identity_digest@
        }),
        ({
            let writes = writes_for(
                journal,
                request,
                Some(verification),
                PrivilegedDurableDisposition::Complete,
            );
            &&& writes.len() == 2
            &&& writes[0] is VerificationStarted
            &&& journal.execution->Some_0.mutation_step_ids@.len() == 1 ==> writes[1] is Completed
            &&& journal.execution->Some_0.mutation_step_ids@.len() != 1 ==> {
                &&& writes[1] is VerifiedCompleted
                &&& writes[1]->final_step_id == request.plan_step_id
                &&& writes[1]->VerifiedCompleted_fresh_identity_digest
                    == verification.fresh_identity_digest@
            }
        }),
        ({
            let writes = writes_after_refusal(journal);
            let started = journal.mutation_may_have_started && (journal.phase is Executing
                || journal.phase is Verifying);
            &&& started ==> writes.len() == 1 && writes[0] is Interrupted && writes[0]->reason
                == "privileged runtime or verification binding was rejected; reconciliation required"@
            &&& !started ==> writes.len() == 0
        }),
{
}

/// Each refusal of a transition names something that is wrong.
pub proof fn refused_transition_names_its_reason(
    journal: OperationJournal,
    request: PrivilegedHelperRequest,
    process: PrivilegedProcessReceipt,
    verification: Option<PrivilegedLayerVerificationReceipt>,
)
    ensures
        durable_transition(journal, request, process, verification) matches Err(e) ==> match e {
            PrivilegedDurableTransitionError::Protocol(fault) => {
                privileged_protocol::request_refusal(request) == Some(fault)
            },
            PrivilegedDurableTransitionError::JournalNotExecuting => !(journal.phase is Executing)
                || !journal.mutation_may_have_started,
            PrivilegedDurableTransitionError::ExecutionBindingInvalid => journal.execution is None
                || journal.execution->Some_0.schema_version != 1 || !(
            journal.execution->Some_0.integrity is Matches),
            PrivilegedDurableTransitionError::ProcessReceiptIntegrityMismatch => {
                process.schema_version != 1 || !process.is_intact()
            },
            PrivilegedDurableTransitionError::RuntimeBindingMismatch => {
                let execution = journal.execution->Some_0;
                ||| process.execution_id@ != execution.execution_id@
                ||| request.execution_id@ != execution.execution_id@
                ||| request.source_manifest_id@ != execution.source_manifest_id@
                ||| request.native_manifest_digest@ != execution.native_manifest_digest@
                ||| process.plan_step_id != request.plan_step_id
                ||| !process.mutation_may_have_started
            },
            PrivilegedDurableTransitionError::StepSequenceMismatch => {
                !journal.execution->Some_0.mutation_step_ids@.contains(request.plan_step_id)
            },
            PrivilegedDurableTransitionError::IdentityChainMismatch => !exists|p: int|
                privileged_protocol::hands_state_at(
                    journal,
                    journal.execution->Some_0,
                    request.plan_step_id,
                    request.fresh_identity_digest@,
                    p,
                ),
            PrivilegedDurableTransitionError::VerificationReceiptMissing => verification is None,
            PrivilegedDurableTransitionError::VerificationReceiptIntegrityMismatch => {
                verification is Some && (verification->Some_0.schema_version != 1
                    || !verification->Some_0.is_intact())
            },
            PrivilegedDurableTransitionError::VerificationBindingMismatch => verification is Some && {
                let v = verification->Some_0;
                ||| !v.expected_state_verified
                ||| v.execution_id@ != journal.execution->Some_0.execution_id@
                ||| v.process_receipt_id@ != process.receipt_id@
                ||| v.request_id@ != request.request_id@
                ||| v.plan_step_id != request.plan_step_id
                ||| v.before_identity_digest@ != request.fresh_identity_digest@
            },
            _ => false,
        },
{
    if journal.execution is Some {
        let execution = journal.execution->Some_0;
        privileged_protocol::durable_identity_is_the_handed_state(
            journal,
            execution,
            request.plan_step_id,
            request.fresh_identity_digest@,
        );
        privileged_protocol::step_position_is_the_first_place(execution.mutation_step_ids@, request.plan_step_id);
    }
}

} // verus!
