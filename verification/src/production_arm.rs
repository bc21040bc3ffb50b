//! Arming one production mutation.

use vstd::prelude::*;

use crate::privileged_protocol;
use crate::privileged_continue_start;
use crate::model;
use crate::locked_session;
use crate::json;
use crate::json_reading;
use crate::digest;
use crate::digest::{fingerprint, fingerprint_text};
use crate::json::Parts;
use crate::locked_session::{LockedExecutionSession, LockedSessionError, SessionModel};
use crate::model::{find_step, ExecutionStartBinding, JournalPhase, OperationJournal};
use crate::privileged_continue_start::is_requested_execution;
use crate::privileged_permit::PrivilegedLaunchPermit;
use crate::privileged_protocol::{
    boundary_hands_over, validate_privileged_helper_request, PrivilegedHelperProtocolError,
    PrivilegedHelperRequest,
};
use crate::text::same_text;

verus! {

/// Whether this build can arm production mutations at all.
pub const PRODUCTION_MUTATION_COMPILED: bool = false;

/// The phrase that confirms a production mutation.
pub const PRODUCTION_MUTATION_ARM_CONFIRMATION: &'static str =
    "I_UNDERSTAND_THIS_WILL_MODIFY_STORAGE";

/// What an arm allows.
pub open spec fn arm_scope() -> Seq<char> {
    "single_privileged_descriptor_launch"@
}

/// The arm of exactly one launch.
#[derive(Clone, Debug, PartialEq, Eq)]
pub struct ProductionMutationArm {
    pub schema_version: u32,
    pub arm_id: String,
    pub execution_id: String,
    pub journal_id: String,
    pub journal_digest: String,
    pub request_id: String,
    pub permit_id: String,
    pub launch_id: String,
    pub plan_step_id: u32,
    pub target: String,
    pub resolved_device: String,
    pub target_identity_digest: String,
    pub scope: String,
}

/// What an arm is fingerprinted by, in order.
pub open spec fn arm_parts(arm: ProductionMutationArm) -> Seq<Seq<char>> {
    Seq::empty()
        .push(json::json_number(arm.schema_version as int))
        .push(json::json_text(arm.execution_id@))
        .push(json::json_text(arm.journal_id@))
        .push(json::json_text(arm.journal_digest@))
        .push(json::json_text(arm.request_id@))
        .push(json::json_text(arm.permit_id@))
        .push(json::json_text(arm.launch_id@))
        .push(json::json_number(arm.plan_step_id as int))
        .push(json::json_text(arm.target@))
        .push(json::json_text(arm.resolved_device@))
        .push(json::json_text(arm.target_identity_digest@))
        .push(json::json_text(arm.scope@))
}

/// The JSON form that an arm is fingerprinted by.
pub open spec fn arm_json(arm: ProductionMutationArm) -> Seq<char> {
    json::json_array(arm_parts(arm))
}

impl ProductionMutationArm {
    /// The identifier is the fingerprint of the other fields.
    pub open spec fn is_intact(self) -> bool {
        self.arm_id@ == digest::text_fingerprint(arm_json(self))
    }

    pub fn integrity_matches(&self) -> (result: Result<bool, serde_json::Error>)
        ensures
            result is Ok,
            result->Ok_0 == self.is_intact(),
    {
        Ok(same_text(self.arm_id.as_str(), self.fingerprint().as_str()))
    }

    /// The identifier that the other fields ask for.
    pub fn expected_arm_id(&self) -> (result: Result<String, serde_json::Error>)
        ensures
            result is Ok,
            result->Ok_0@ == digest::text_fingerprint(arm_json(*self)),
    {
        Ok(self.fingerprint())
    }

    fn fingerprint(&self) -> (id: String)
        ensures
            id@ == digest::text_fingerprint(arm_json(*self)),
    {
        let mut parts = Parts::new();
        parts.push_number(self.schema_version as u64);
        parts.push_text(self.execution_id.as_str());
        parts.push_text(self.journal_id.as_str());
        parts.push_text(self.journal_digest.as_str());
        parts.push_text(self.request_id.as_str());
        parts.push_text(self.permit_id.as_str());
        parts.push_text(self.launch_id.as_str());
        parts.push_number(self.plan_step_id as u64);
        parts.push_text(self.target.as_str());
        parts.push_text(self.resolved_device.as_str());
        parts.push_text(self.target_identity_digest.as_str());
        parts.push_text(self.scope.as_str());
        fingerprint_text(parts.array().as_str())
    }
}

#[derive(Clone, Copy, Debug, PartialEq, Eq, Structural)]
pub enum ProductionMutationArmError {
    FeatureDisabled,
    RootRequired,
    ConfirmationMismatch,
    JournalNotExecuting,
    ExecutionBindingInvalid,
    Protocol(PrivilegedHelperProtocolError),
    PermitIntegrityMismatch,
    BindingMismatch,
    StepSequenceMismatch,
    IdentityBoundaryMismatch,
    Session(LockedSessionError),
}

/// Journal, execution, request and permit all name each other.
pub open spec fn is_armed_chain(
    journal: OperationJournal,
    execution: ExecutionStartBinding,
    request: PrivilegedHelperRequest,
    permit: PrivilegedLaunchPermit,
) -> bool {
    &&& privileged_continue_start::requests_execution(request, execution, journal)
    &&& request.target@ == journal.target@
    &&& permit.execution_id@ == execution.execution_id@
    &&& permit.plan_step_id == request.plan_step_id
    &&& !permit.mutation_enabled
    &&& !permit.process_spawned
}

/// What the position of a step is refused for, if anything: the first step has no boundary behind
/// it, a later one the boundary that hands over to it.
pub open spec fn position_refusal(
    journal: OperationJournal,
    execution: ExecutionStartBinding,
    request: PrivilegedHelperRequest,
) -> Option<ProductionMutationArmError> {
    match model::step_position(execution.mutation_step_ids@, request.plan_step_id) {
        None => Some(ProductionMutationArmError::StepSequenceMismatch),
        Some(p) => {
            if p == 0 {
                if journal.verified_boundary is Some {
                    Some(ProductionMutationArmError::StepSequenceMismatch)
                } else if request.fresh_identity_digest@ != execution.fresh_identity_digest@ {
                    Some(ProductionMutationArmError::IdentityBoundaryMismatch)
                } else {
                    None
                }
            } else {
                match journal.verified_boundary {
                    None => Some(ProductionMutationArmError::StepSequenceMismatch),
                    Some(boundary) => {
                        if !privileged_protocol::hands_over(boundary, execution, p) {
                            Some(ProductionMutationArmError::StepSequenceMismatch)
                        } else if request.fresh_identity_digest@
                            != boundary.fresh_identity_digest@ {
                            Some(ProductionMutationArmError::IdentityBoundaryMismatch)
                        } else {
                            None
                        }
                    },
                }
            }
        },
    }
}

fn check_position(
    journal: &OperationJournal,
    execution: &ExecutionStartBinding,
    request: &PrivilegedHelperRequest,
) -> (refusal: Option<ProductionMutationArmError>)
    ensures
        refusal == position_refusal(*journal, *execution, *request),
{
    let position: usize = match find_step(&execution.mutation_step_ids, request.plan_step_id) {
        Some(position) => position,
        None => return Some(ProductionMutationArmError::StepSequenceMismatch),
    };
    if position == 0 {
        if journal.verified_boundary.is_some() {
            return Some(ProductionMutationArmError::StepSequenceMismatch);
        }
        if !same_text(
            request.fresh_identity_digest.as_str(),
            execution.fresh_identity_digest.as_str(),
        ) {
            return Some(ProductionMutationArmError::IdentityBoundaryMismatch);
        }
        return None;
    }
    match &journal.verified_boundary {
        None => Some(ProductionMutationArmError::StepSequenceMismatch),
        Some(boundary) => {
            if !boundary_hands_over(boundary, execution, position) {
                Some(ProductionMutationArmError::StepSequenceMismatch)
            } else if !same_text(
                request.fresh_identity_digest.as_str(),
                boundary.fresh_identity_digest.as_str(),
            ) {
                Some(ProductionMutationArmError::IdentityBoundaryMismatch)
            } else {
                None
            }
        },
    }
}

/// What an arm is refused for, if anything.
pub open spec fn arm_refusal(
    journal: OperationJournal,
    request: PrivilegedHelperRequest,
    permit: PrivilegedLaunchPermit,
    confirmation: Seq<char>,
    effective_uid: u32,
    feature_compiled: bool,
) -> Option<ProductionMutationArmError> {
    let execution = journal.execution->Some_0;
    if !feature_compiled {
        Some(ProductionMutationArmError::FeatureDisabled)
    } else if effective_uid != 0 {
        Some(ProductionMutationArmError::RootRequired)
    } else if confirmation != PRODUCTION_MUTATION_ARM_CONFIRMATION@ {
        Some(ProductionMutationArmError::ConfirmationMismatch)
    } else if privileged_protocol::request_refusal(request) is Some {
        Some(ProductionMutationArmError::Protocol(privileged_protocol::request_refusal(request)->Some_0))
    } else if journal.phase != JournalPhase::Executing || !journal.mutation_may_have_started {
        Some(ProductionMutationArmError::JournalNotExecuting)
    } else if journal.execution is None || !execution.is_sound() {
        Some(ProductionMutationArmError::ExecutionBindingInvalid)
    } else if !permit.is_intact() {
        Some(ProductionMutationArmError::PermitIntegrityMismatch)
    } else if !is_armed_chain(journal, execution, request, permit) {
        Some(ProductionMutationArmError::BindingMismatch)
    } else {
        position_refusal(journal, execution, request)
    }
}

/// The arm of one permitted step.
pub open spec fn arms(
    arm: ProductionMutationArm,
    journal: OperationJournal,
    request: PrivilegedHelperRequest,
    permit: PrivilegedLaunchPermit,
    journal_json: Seq<u8>,
) -> bool {
    &&& arm.schema_version == 1
    &&& arm.is_intact()
    &&& arm.execution_id@ == journal.execution->Some_0.execution_id@
    &&& arm.journal_id@ == journal.journal_id@
    &&& arm.journal_digest@ == digest::fingerprint_of(journal_json)
    &&& arm.request_id@ == request.request_id@
    &&& arm.permit_id@ == permit.permit_id@
    &&& arm.launch_id@ == permit.launch_id@
    &&& arm.plan_step_id == request.plan_step_id
    &&& arm.target@ == request.target@
    &&& arm.resolved_device@ == request.resolved_device@
    &&& arm.target_identity_digest@ == request.fresh_identity_digest@
    &&& arm.scope@ == arm_scope()
}

/// Arms one permitted step of an executing journal. `journal_json` is the serialised journal.
pub fn build_production_mutation_arm(
    journal: &OperationJournal,
    request: &PrivilegedHelperRequest,
    permit: &PrivilegedLaunchPermit,
    confirmation: &str,
    effective_uid: u32,
    feature_compiled: bool,
    journal_json: &[u8],
) -> (result: Result<ProductionMutationArm, ProductionMutationArmError>)
    ensures
        ({
            let refusal = arm_refusal(
                *journal,
                *request,
                *permit,
                confirmation@,
                effective_uid,
                feature_compiled,
            );
            match result {
                Ok(arm) => refusal is None && arms(
                    arm,
                    *journal,
                    *request,
                    *permit,
                    journal_json@,
                ),
                Err(e) => refusal == Some(e),
            }
        }),
{
    if !feature_compiled {
        return Err(ProductionMutationArmError::FeatureDisabled);
    }
    if effective_uid != 0 {
        return Err(ProductionMutationArmError::RootRequired);
    }
    if !same_text(confirmation, PRODUCTION_MUTATION_ARM_CONFIRMATION) {
        return Err(ProductionMutationArmError::ConfirmationMismatch);
    }
    match validate_privileged_helper_request(request) {
        Ok(_) => {},
        Err(e) => return Err(ProductionMutationArmError::Protocol(e)),
    }
    if !matches!(journal.phase, JournalPhase::Executing) || !journal.mutation_may_have_started {
        return Err(ProductionMutationArmError::JournalNotExecuting);
    }
    let execution = match &journal.execution {
        Some(execution) => execution,
        None => return Err(ProductionMutationArmError::ExecutionBindingInvalid),
    };
    if !execution.sound() {
        return Err(ProductionMutationArmError::ExecutionBindingInvalid);
    }
    if !permit.intact() {
        return Err(ProductionMutationArmError::PermitIntegrityMismatch);
    }
    if !is_requested_execution(request, execution, journal) || !same_text(
        request.target.as_str(),
        journal.target.as_str(),
    ) || !same_text(permit.execution_id.as_str(), execution.execution_id.as_str())
        || permit.plan_step_id != request.plan_step_id || permit.mutation_enabled
        || permit.process_spawned {
        return Err(ProductionMutationArmError::BindingMismatch);
    }
    match check_position(journal, execution, request) {
        Some(e) => return Err(e),
        None => {},
    }
    let mut arm = ProductionMutationArm {
        schema_version: 1,
        arm_id: String::new(),
        execution_id: execution.execution_id.clone(),
        journal_id: journal.journal_id.clone(),
        journal_digest: fingerprint(journal_json),
        request_id: request.request_id.clone(),
        permit_id: permit.permit_id.clone(),
        launch_id: permit.launch_id.clone(),
        plan_step_id: request.plan_step_id,
        target: request.target.clone(),
        resolved_device: request.resolved_device.clone(),
        target_identity_digest: request.fresh_identity_digest.clone(),
        scope: "single_privileged_descriptor_launch".to_owned(),
    };
    let arm_id = arm.fingerprint();
    arm.arm_id = arm_id;
    Ok(arm)
}

/// What arming a session is refused for, if anything.
pub open spec fn session_arm_refusal(
    session: SessionModel,
    request: PrivilegedHelperRequest,
    permit: PrivilegedLaunchPermit,
    confirmation: Seq<char>,
    effective_uid: u32,
) -> Option<ProductionMutationArmError> {
    match locked_session::durable_refusal(session) {
        Some(e) => Some(ProductionMutationArmError::Session(e)),
        None => arm_refusal(
            session.journal,
            request,
            permit,
            confirmation,
            effective_uid,
            PRODUCTION_MUTATION_COMPILED,
        ),
    }
}

/// Arms one permitted step of a session whose durable record is current.
pub fn arm_production_mutation(
    session: &LockedExecutionSession,
    request: &PrivilegedHelperRequest,
    permit: &PrivilegedLaunchPermit,
    confirmation: &str,
    effective_uid: u32,
    journal_json: &[u8],
) -> (result: Result<ProductionMutationArm, ProductionMutationArmError>)
    ensures
        ({
            let refusal = session_arm_refusal(
                session@,
                *request,
                *permit,
                confirmation@,
                effective_uid,
            );
            match result {
                Ok(arm) => refusal is None && arms(
                    arm,
                    session@.journal,
                    *request,
                    *permit,
                    journal_json@,
                ),
                Err(e) => refusal == Some(e),
            }
        }),
{
    match session.require_current_durable_journal() {
        Ok(_) => {},
        Err(e) => return Err(ProductionMutationArmError::Session(e)),
    }
    build_production_mutation_arm(
        session.journal(),
        request,
        permit,
        confirmation,
        effective_uid,
        PRODUCTION_MUTATION_COMPILED,
        journal_json,
    )
}

/// An armed step starts from exactly the identity that the journal authorises for it.
pub proof fn armed_step_starts_from_the_durable_identity(
    journal: OperationJournal,
    request: PrivilegedHelperRequest,
    permit: PrivilegedLaunchPermit,
    confirmation: Seq<char>,
    effective_uid: u32,
    feature_compiled: bool,
)
    requires
        arm_refusal(
            journal,
            request,
            permit,
            confirmation,
            effective_uid,
            feature_compiled,
        ) is None,
    ensures
        effective_uid == 0,
        confirmation == PRODUCTION_MUTATION_ARM_CONFIRMATION@,
        privileged_protocol::durable_identity(journal, journal.execution->Some_0, request.plan_step_id) == Some(
            request.fresh_identity_digest@,
        ),
{
}

/// This build never arms anything.
pub proof fn nothing_is_ever_armed(
    session: SessionModel,
    request: PrivilegedHelperRequest,
    permit: PrivilegedLaunchPermit,
    confirmation: Seq<char>,
    effective_uid: u32,
)
    ensures
        session_arm_refusal(session, request, permit, confirmation, effective_uid) is Some,
{
}

/// The two hold the same, apart from their identifiers.
pub open spec fn same_arm(a: ProductionMutationArm, b: ProductionMutationArm) -> bool {
    &&& a.schema_version == b.schema_version
    &&& a.execution_id@ == b.execution_id@
    &&& a.journal_id@ == b.journal_id@
    &&& a.journal_digest@ == b.journal_digest@
    &&& a.request_id@ == b.request_id@
    &&& a.permit_id@ == b.permit_id@
    &&& a.launch_id@ == b.launch_id@
    &&& a.plan_step_id == b.plan_step_id
    &&& a.target@ == b.target@
    &&& a.resolved_device@ == b.resolved_device@
    &&& a.target_identity_digest@ == b.target_identity_digest@
    &&& a.scope@ == b.scope@
}

proof fn lemma_arm_told(a: ProductionMutationArm, b: ProductionMutationArm)
    requires
        arm_json(a) == arm_json(b),
    ensures
        same_arm(a, b),
{
    broadcast use crate::json_reading::group_json_reading;

    let p = arm_parts(a);
    let q = arm_parts(b);
    assert(json_reading::are_values(p) && json_reading::are_values(q));
    assert(p[0] == q[0]);
    assert(p[1] == q[1]);
    assert(p[2] == q[2]);
    assert(p[3] == q[3]);
    assert(p[4] == q[4]);
    assert(p[5] == q[5]);
    assert(p[6] == q[6]);
    assert(p[7] == q[7]);
    assert(p[8] == q[8]);
    assert(p[9] == q[9]);
    assert(p[10] == q[10]);
    assert(p[11] == q[11]);
}

/// An arm that was changed under its identifier is noticed, short of a SHA-256 collision.
pub proof fn changed_arm_is_detected(a: ProductionMutationArm, b: ProductionMutationArm)
    requires
        a.is_intact(),
        b.arm_id@ == a.arm_id@,
        !same_arm(a, b),
    ensures
        !b.is_intact() || digest::is_collision(arm_json(a), arm_json(b)),
{
    if b.is_intact() {
        digest::fingerprint_tells_its_text(arm_json(a), arm_json(b));
        if arm_json(a) == arm_json(b) {
            lemma_arm_told(a, b);
        }
    }
}

/// A step is armed exactly where the feature is compiled in, the superuser confirms in the exact
/// words, the request is valid, the journal is in the middle of a sound execution that is its own
/// and the request's, request and journal are about one target, the permit is intact, unused and for
/// this step, and the journal hands this very state to this very step.
pub proof fn step_is_armed_by_the_superuser_alone(
    journal: OperationJournal,
    request: PrivilegedHelperRequest,
    permit: PrivilegedLaunchPermit,
    confirmation: Seq<char>,
    effective_uid: u32,
    feature_compiled: bool,
)
    ensures
        arm_refusal(journal, request, permit, confirmation, effective_uid, feature_compiled) is None
            <==> {
            &&& feature_compiled
            &&& effective_uid == 0
            &&& confirmation == "I_UNDERSTAND_THIS_WILL_MODIFY_STORAGE"@
            &&& privileged_protocol::request_refusal(request) is None
            &&& journal.phase is Executing
            &&& journal.mutation_may_have_started
            &&& journal.execution matches Some(execution)
            &&& execution.schema_version == 1
            &&& execution.integrity is Matches
            &&& execution.journal_id@ == journal.journal_id@
            &&& execution.plan_id@ == journal.plan_id@
            &&& request.execution_id@ == execution.execution_id@
            &&& request.source_manifest_id@ == execution.source_manifest_id@
            &&& request.native_manifest_digest@ == execution.native_manifest_digest@
            &&& request.target@ == journal.target@
            &&& permit.is_intact()
            &&& permit.execution_id@ == execution.execution_id@
            &&& permit.plan_step_id == request.plan_step_id
            &&& !permit.mutation_enabled
            &&& !permit.process_spawned
            &&& exists|p: int|
                privileged_protocol::hands_state_at(
                    journal,
                    execution,
                    request.plan_step_id,
                    request.fresh_identity_digest@,
                    p,
                )
        },
{
    if journal.execution is Some {
        let execution = journal.execution->Some_0;
        privileged_protocol::durable_identity_is_the_handed_state(
            journal,
            execution,
            request.plan_step_id,
            request.fresh_identity_digest@,
        );
    }
}

/// A session is armed only where it is durable, and then as its journal is.
pub proof fn session_is_armed_where_its_journal_is_durable(
    session: SessionModel,
    request: PrivilegedHelperRequest,
    permit: PrivilegedLaunchPermit,
    confirmation: Seq<char>,
    effective_uid: u32,
)
    ensures
        session_arm_refusal(session, request, permit, confirmation, effective_uid) is None ==> {
            &&& session.durable_current()
            &&& arm_refusal(
                session.journal,
                request,
                permit,
                confirmation,
                effective_uid,
                true,
            ) is None
        },
        session.persisted is None ==> session_arm_refusal(
            session,
            request,
            permit,
            confirmation,
            effective_uid,
        ) == Some(ProductionMutationArmError::Session(LockedSessionError::DurableJournalRequired)),
{
}

/// An arm names the execution, journal, request, permit, launch, step, target, device and state that
/// it is for, and allows one launch.
pub proof fn arm_names_its_one_launch(
    arm: ProductionMutationArm,
    journal: OperationJournal,
    request: PrivilegedHelperRequest,
    permit: PrivilegedLaunchPermit,
    journal_json: Seq<u8>,
)
    requires
        arms(arm, journal, request, permit, journal_json),
    ensures
        arm.schema_version == 1,
        arm.execution_id@ == journal.execution->Some_0.execution_id@,
        arm.journal_id@ == journal.journal_id@,
        arm.journal_digest@ == digest::fingerprint_of(journal_json),
        arm.request_id@ == request.request_id@,
        arm.permit_id@ == permit.permit_id@,
        arm.launch_id@ == permit.launch_id@,
        arm.plan_step_id == request.plan_step_id,
        arm.target@ == request.target@,
        arm.resolved_device@ == request.resolved_device@,
        arm.target_identity_digest@ == request.fresh_identity_digest@,
        arm.scope@ == "single_privileged_descriptor_launch"@,
{
}

/// Each refusal to arm names something that is wrong.
pub proof fn refused_arm_names_its_reason(
    journal: OperationJournal,
    request: PrivilegedHelperRequest,
    permit: PrivilegedLaunchPermit,
    confirmation: Seq<char>,
    effective_uid: u32,
    feature_compiled: bool,
)
    requires
        arm_refusal(journal, request, permit, confirmation, effective_uid, feature_compiled) is Some,
    ensures
        match arm_refusal(
            journal,
            request,
            permit,
            confirmation,
            effective_uid,
            feature_compiled,
        )->Some_0 {
            ProductionMutationArmError::FeatureDisabled => !feature_compiled,
            ProductionMutationArmError::RootRequired => effective_uid != 0,
            ProductionMutationArmError::ConfirmationMismatch => confirmation
                != "I_UNDERSTAND_THIS_WILL_MODIFY_STORAGE"@,
            ProductionMutationArmError::Protocol(e) => privileged_protocol::request_refusal(request)
                == Some(e),
            ProductionMutationArmError::JournalNotExecuting => !(journal.phase is Executing)
                || !journal.mutation_may_have_started,
            ProductionMutationArmError::ExecutionBindingInvalid => journal.execution is None
                || journal.execution->Some_0.schema_version != 1 || !(
            journal.execution->Some_0.integrity is Matches),
            ProductionMutationArmError::PermitIntegrityMismatch => !permit.is_intact(),
            ProductionMutationArmError::BindingMismatch => {
                let execution = journal.execution->Some_0;
                ||| execution.journal_id@ != journal.journal_id@
                ||| execution.plan_id@ != journal.plan_id@
                ||| request.execution_id@ != execution.execution_id@
                ||| request.source_manifest_id@ != execution.source_manifest_id@
                ||| request.native_manifest_digest@ != execution.native_manifest_digest@
                ||| request.target@ != journal.target@
                ||| permit.execution_id@ != execution.execution_id@
                ||| permit.plan_step_id != request.plan_step_id
                ||| permit.mutation_enabled
                ||| permit.process_spawned
            },
            ProductionMutationArmError::IdentityBoundaryMismatch => {
                let execution = journal.execution->Some_0;
                ||| journal.verified_boundary is None && request.fresh_identity_digest@
                    != execution.fresh_identity_digest@
                ||| journal.verified_boundary is Some && request.fresh_identity_digest@
                    != journal.verified_boundary->Some_0.fresh_identity_digest@
            },
            ProductionMutationArmError::StepSequenceMismatch => !exists|p: int|
                privileged_protocol::hands_state_at(
                    journal,
                    journal.execution->Some_0,
                    request.plan_step_id,
                    request.fresh_identity_digest@,
                    p,
                ),
            _ => false,
        },
{
    if journal.execution is Some {
        privileged_protocol::durable_identity_is_the_handed_state(
            journal,
            journal.execution->Some_0,
            request.plan_step_id,
            request.fresh_identity_digest@,
        );
    }
}

} // verus!
