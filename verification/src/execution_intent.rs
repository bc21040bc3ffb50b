//! Freezing an approved plan into a non-executable intent.

use vstd::prelude::*;
use vstd::string::*;

use crate::reading;
use crate::text;
use crate::native_operation;
use crate::model;
use crate::json;
use crate::json_reading;
use crate::graph;
use crate::digest;
use crate::approval::{ApprovalModel, ExactPlanApproval};
use crate::digest::{fingerprint, fingerprint_text};
use crate::graph::{check_graph, Graph, GraphFault, GraphNode, NodeModel};
use crate::json::{numbers_literal, texts_literal, Parts};
use crate::locked_session::{LockedExecutionSession, LockedSessionError, SessionModel};
use crate::model::{
    find_lvm, find_mount, find_partition, FilesystemDecisionState, FilesystemGrowthDecision,
    FrozenExecutionHandoff, JournalPhase, Lookup, LvmIdentityKind, Operation,
    PartitionGeometryIdentity, PlanStep, Reversibility, TargetIdentityManifest,
};
use crate::native_operation::reversibility_text;
use crate::preconditions::VerificationModel;
use crate::text::{contains_control, copy_ids, copy_opt, opt_is, push_decimal, same_opt, same_text};
use crate::MUTATION_ENABLED;

verus! {

#[derive(Clone, Copy, Debug, PartialEq, Eq, Structural)]
pub enum ExecutionIntentManifestStatus {
    FrozenNonExecutable,
}

#[derive(Clone, Copy, Debug, PartialEq, Eq, Structural)]
pub enum FrozenIntentRole {
    PreExecutionEvidence,
    MutationCandidate,
    Verification,
}

#[derive(Clone, Debug, PartialEq, Eq)]
pub enum FrozenIntentAction {
    RevalidateSnapshot,
    BackupLvmMetadata { vg_uuid: String },
    BackupPartitionTableMetadata { disk: String, table_label: String, table_id: Option<String> },
    ExtendPartition {
        partition: String,
        start_sector: u64,
        old_size_sectors: u64,
        new_size_sectors: u64,
        sector_size_bytes: u64,
    },
    ExtendLogicalVolume { lv_uuid: String, additional_extents: u64, expected_lv_size_bytes: u64 },
    GrowFilesystem { fs_type: String, mountpoint: String },
    RediscoverAndVerify,
}

#[derive(Clone, Debug, PartialEq, Eq)]
pub struct FrozenIntentStep {
    pub plan_step_id: u32,
    pub depends_on: Vec<u32>,
    pub reversibility: Reversibility,
    pub role: FrozenIntentRole,
    pub action: FrozenIntentAction,
}

#[derive(Clone, Copy, Debug, PartialEq, Eq, Structural)]
pub struct VerificationBarrierSpec {
    pub after_plan_step_id: u32,
    pub before_next_mutation: bool,
    pub require_fresh_target_identity: bool,
    pub require_fresh_capabilities: bool,
    pub require_expected_state_check: bool,
    pub stop_on_mismatch: bool,
}

/// An approved plan in its frozen, non-executable form.
#[derive(Clone, Debug, PartialEq, Eq)]
pub struct FrozenExecutionIntentManifest {
    schema_version: u32,
    manifest_id: String,
    approval_id: String,
    approved_journal_id: String,
    approved_journal_digest: String,
    plan_id: String,
    evidence_bundle_id: String,
    target_manifest_digest: String,
    locked_session_id: String,
    status: ExecutionIntentManifestStatus,
    mutation_enabled: bool,
    owner_acceptance_required: bool,
    steps: Vec<FrozenIntentStep>,
    verification_barriers: Vec<VerificationBarrierSpec>,
    blockers: Vec<String>,
    future_gates: Vec<String>,
}

/// The content of a frozen intent.
pub struct IntentModel {
    pub schema_version: u32,
    pub manifest_id: Seq<char>,
    pub approval_id: Seq<char>,
    pub approved_journal_id: Seq<char>,
    pub approved_journal_digest: Seq<char>,
    pub plan_id: Seq<char>,
    pub evidence_bundle_id: Seq<char>,
    pub target_manifest_digest: Seq<char>,
    pub locked_session_id: Seq<char>,
    pub status: ExecutionIntentManifestStatus,
    pub mutation_enabled: bool,
    pub owner_acceptance_required: bool,
    pub steps: Seq<FrozenIntentStep>,
    pub verification_barriers: Seq<VerificationBarrierSpec>,
    pub blockers: Seq<Seq<char>>,
    pub future_gates: Seq<Seq<char>>,
}

impl View for FrozenExecutionIntentManifest {
    type V = IntentModel;

    closed spec fn view(&self) -> IntentModel {
        IntentModel {
            schema_version: self.schema_version,
            manifest_id: self.manifest_id@,
            approval_id: self.approval_id@,
            approved_journal_id: self.approved_journal_id@,
            approved_journal_digest: self.approved_journal_digest@,
            plan_id: self.plan_id@,
            evidence_bundle_id: self.evidence_bundle_id@,
            target_manifest_digest: self.target_manifest_digest@,
            locked_session_id: self.locked_session_id@,
            status: self.status,
            mutation_enabled: self.mutation_enabled,
            owner_acceptance_required: self.owner_acceptance_required,
            steps: self.steps@,
            verification_barriers: self.verification_barriers@,
            blockers: text::texts(self.blockers@),
            future_gates: text::texts(self.future_gates@),
        }
    }
}

impl FrozenExecutionIntentManifest {
    pub fn manifest_id(&self) -> (value: &str)
        ensures
            value@ == self@.manifest_id,
    {
        self.manifest_id.as_str()
    }

    pub fn approval_id(&self) -> (value: &str)
        ensures
            value@ == self@.approval_id,
    {
        self.approval_id.as_str()
    }

    pub fn approved_journal_id(&self) -> (value: &str)
        ensures
            value@ == self@.approved_journal_id,
    {
        self.approved_journal_id.as_str()
    }

    pub fn approved_journal_digest(&self) -> (value: &str)
        ensures
            value@ == self@.approved_journal_digest,
    {
        self.approved_journal_digest.as_str()
    }

    pub fn plan_id(&self) -> (value: &str)
        ensures
            value@ == self@.plan_id,
    {
        self.plan_id.as_str()
    }

    pub fn evidence_bundle_id(&self) -> (value: &str)
        ensures
            value@ == self@.evidence_bundle_id,
    {
        self.evidence_bundle_id.as_str()
    }

    pub fn target_manifest_digest(&self) -> (value: &str)
        ensures
            value@ == self@.target_manifest_digest,
    {
        self.target_manifest_digest.as_str()
    }

    pub fn locked_session_id(&self) -> (value: &str)
        ensures
            value@ == self@.locked_session_id,
    {
        self.locked_session_id.as_str()
    }

    pub fn status(&self) -> (value: ExecutionIntentManifestStatus)
        ensures
            value == self@.status,
    {
        self.status
    }

    pub fn mutation_enabled(&self) -> (value: bool)
        ensures
            value == self@.mutation_enabled,
    {
        self.mutation_enabled
    }

    pub fn owner_acceptance_required(&self) -> (value: bool)
        ensures
            value == self@.owner_acceptance_required,
    {
        self.owner_acceptance_required
    }

    pub fn steps(&self) -> (value: &[FrozenIntentStep])
        ensures
            value@ == self@.steps,
    {
        self.steps.as_slice()
    }

    pub fn verification_barriers(&self) -> (value: &[VerificationBarrierSpec])
        ensures
            value@ == self@.verification_barriers,
    {
        self.verification_barriers.as_slice()
    }

    pub fn blockers(&self) -> (value: &[String])
        ensures
            text::texts(value@) == self@.blockers,
    {
        self.blockers.as_slice()
    }

    pub fn future_gates(&self) -> (value: &[String])
        ensures
            text::texts(value@) == self@.future_gates,
    {
        self.future_gates.as_slice()
    }

    fn compute_manifest_id(&self) -> (id: String)
        ensures
            id@ == digest::text_fingerprint(intent_json(self@)),
            text::is_digest_text(id@),
    {
        let ghost steps = self.steps@.map_values(|s: FrozenIntentStep| intent_step_json(s));
        let mut step_parts = Parts::new();
        let mut i: usize = 0;
        while i < self.steps.len()
            invariant
                i <= self.steps@.len(),
                steps == self.steps@.map_values(|s: FrozenIntentStep| intent_step_json(s)),
                step_parts@ == steps.take(i as int),
            decreases self.steps@.len() - i,
        {
            step_parts.push(intent_step_literal(&self.steps[i]));
            assert(steps.take(i + 1) =~= steps.take(i as int).push(steps[i as int]));
            i += 1;
        }
        assert(steps.take(steps.len() as int) =~= steps);
        let ghost barriers = self.verification_barriers@.map_values(
            |b: VerificationBarrierSpec| intent_barrier_json(b),
        );
        let mut barrier_parts = Parts::new();
        let mut k: usize = 0;
        while k < self.verification_barriers.len()
            invariant
                k <= self.verification_barriers@.len(),
                barriers == self.verification_barriers@.map_values(
                    |b: VerificationBarrierSpec| intent_barrier_json(b),
                ),
                barrier_parts@ == barriers.take(k as int),
            decreases self.verification_barriers@.len() - k,
        {
            barrier_parts.push(intent_barrier_literal(&self.verification_barriers[k]));
            assert(barriers.take(k + 1) =~= barriers.take(k as int).push(barriers[k as int]));
            k += 1;
        }
        assert(barriers.take(barriers.len() as int) =~= barriers);
        let mut parts = Parts::new();
        parts.push_number(self.schema_version as u64);
        parts.push_text(self.approval_id.as_str());
        parts.push_text(self.approved_journal_id.as_str());
        parts.push_text(self.approved_journal_digest.as_str());
        parts.push_text(self.plan_id.as_str());
        parts.push_text(self.evidence_bundle_id.as_str());
        parts.push_text(self.target_manifest_digest.as_str());
        parts.push_text(self.locked_session_id.as_str());
        parts.push_text("frozen_non_executable");
        parts.push_bool(self.mutation_enabled);
        parts.push_bool(self.owner_acceptance_required);
        parts.push(step_parts.array());
        parts.push(barrier_parts.array());
        parts.push(texts_literal(&self.blockers));
        parts.push(texts_literal(&self.future_gates));
        fingerprint_text(parts.array().as_str())
    }
}

#[derive(Debug)]
pub enum ExecutionIntentError {
    SessionNotApproved,
    MutationEnabled,
    MutationMayHaveStarted,
    ApprovalBindingMismatch,
    OwnerAcceptanceInvariant,
    ZeroStepId,
    DuplicateStepId(u32),
    UnknownDependency { step_id: u32, dependency: u32 },
    SelfDependency(u32),
    DependencyCycle,
    UnsupportedOperation,
    FrozenIdentityMismatch(String),
    Serialization(serde_json::Error),
    Session(LockedSessionError),
}

pub open spec fn role_name(role: FrozenIntentRole) -> Seq<char> {
    match role {
        FrozenIntentRole::PreExecutionEvidence => "pre_execution_evidence"@,
        FrozenIntentRole::MutationCandidate => "mutation_candidate"@,
        FrozenIntentRole::Verification => "verification"@,
    }
}

/// Different variants have different names.
pub proof fn lemma_role_name_told(a: FrozenIntentRole, b: FrozenIntentRole)
    requires
        role_name(a) == role_name(b),
    ensures
        a == b,
{
    reveal_strlit("pre_execution_evidence");
    reveal_strlit("mutation_candidate");
    reveal_strlit("verification");
    assert("pre_execution_evidence"@.len() == 22);
    assert("mutation_candidate"@.len() == 18);
    assert("verification"@.len() == 12);
    assert(role_name(a).len() == role_name(b).len());
}

pub(crate) fn role_text(role: FrozenIntentRole) -> (name: &'static str)
    ensures
        name@ == role_name(role),
{
    match role {
        FrozenIntentRole::PreExecutionEvidence => "pre_execution_evidence",
        FrozenIntentRole::MutationCandidate => "mutation_candidate",
        FrozenIntentRole::Verification => "verification",
    }
}

/// The members of a frozen action, in order.
pub open spec fn action_parts(action: FrozenIntentAction) -> Seq<Seq<char>> {
    match action {
        FrozenIntentAction::RevalidateSnapshot => Seq::empty().push(json::json_field("action"@, json::json_text("revalidate_snapshot"@))),
        FrozenIntentAction::BackupLvmMetadata { vg_uuid } => Seq::empty()
                .push(json::json_field("action"@, json::json_text("backup_lvm_metadata"@)))
                .push(json::json_field("vg_uuid"@, json::json_text(vg_uuid@))),
        FrozenIntentAction::BackupPartitionTableMetadata { disk, table_label, table_id } => {
            Seq::empty()
                    .push(json::json_field("action"@, json::json_text("backup_partition_table_metadata"@)))
                    .push(json::json_field("disk"@, json::json_text(disk@)))
                    .push(json::json_field("table_label"@, json::json_text(table_label@)))
                    .push(json::json_field("table_id"@, json::json_opt_text(text::opt_text(table_id))))
        },
        FrozenIntentAction::ExtendPartition {
            partition,
            start_sector,
            old_size_sectors,
            new_size_sectors,
            sector_size_bytes,
        } => Seq::empty()
                .push(json::json_field("action"@, json::json_text("extend_partition"@)))
                .push(json::json_field("partition"@, json::json_text(partition@)))
                .push(json::json_field("start_sector"@, json::json_number(start_sector as int)))
                .push(json::json_field("old_size_sectors"@, json::json_number(old_size_sectors as int)))
                .push(json::json_field("new_size_sectors"@, json::json_number(new_size_sectors as int)))
                .push(json::json_field("sector_size_bytes"@, json::json_number(sector_size_bytes as int))),
        FrozenIntentAction::ExtendLogicalVolume {
            lv_uuid,
            additional_extents,
            expected_lv_size_bytes,
        } => Seq::empty()
                .push(json::json_field("action"@, json::json_text("extend_logical_volume"@)))
                .push(json::json_field("lv_uuid"@, json::json_text(lv_uuid@)))
                .push(json::json_field("additional_extents"@, json::json_number(additional_extents as int)))
                .push(json::json_field("expected_lv_size_bytes"@, json::json_number(expected_lv_size_bytes as int))),
        FrozenIntentAction::GrowFilesystem { fs_type, mountpoint } => Seq::empty()
                .push(json::json_field("action"@, json::json_text("grow_filesystem"@)))
                .push(json::json_field("fs_type"@, json::json_text(fs_type@)))
                .push(json::json_field("mountpoint"@, json::json_text(mountpoint@))),
        FrozenIntentAction::RediscoverAndVerify => Seq::empty().push(json::json_field("action"@, json::json_text("rediscover_and_verify"@))),
    }
}

/// The JSON form of a frozen action, tagged with its name.
pub open spec fn action_json(action: FrozenIntentAction) -> Seq<char> {
    json::json_object(action_parts(action))
}

fn action_literal(action: &FrozenIntentAction) -> (text: String)
    ensures
        text@ == action_json(*action),
{
    let mut parts = Parts::new();
    match action {
        FrozenIntentAction::RevalidateSnapshot => {
            parts.field_text("action", "revalidate_snapshot");
        },
        FrozenIntentAction::BackupLvmMetadata { vg_uuid } => {
            parts.field_text("action", "backup_lvm_metadata");
            parts.field_text("vg_uuid", vg_uuid.as_str());
        },
        FrozenIntentAction::BackupPartitionTableMetadata { disk, table_label, table_id } => {
            parts.field_text("action", "backup_partition_table_metadata");
            parts.field_text("disk", disk.as_str());
            parts.field_text("table_label", table_label.as_str());
            parts.field_opt_text("table_id", table_id);
        },
        FrozenIntentAction::ExtendPartition {
            partition,
            start_sector,
            old_size_sectors,
            new_size_sectors,
            sector_size_bytes,
        } => {
            parts.field_text("action", "extend_partition");
            parts.field_text("partition", partition.as_str());
            parts.field_number("start_sector", *start_sector);
            parts.field_number("old_size_sectors", *old_size_sectors);
            parts.field_number("new_size_sectors", *new_size_sectors);
            parts.field_number("sector_size_bytes", *sector_size_bytes);
        },
        FrozenIntentAction::ExtendLogicalVolume {
            lv_uuid,
            additional_extents,
            expected_lv_size_bytes,
        } => {
            parts.field_text("action", "extend_logical_volume");
            parts.field_text("lv_uuid", lv_uuid.as_str());
            parts.field_number("additional_extents", *additional_extents);
            parts.field_number("expected_lv_size_bytes", *expected_lv_size_bytes);
        },
        FrozenIntentAction::GrowFilesystem { fs_type, mountpoint } => {
            parts.field_text("action", "grow_filesystem");
            parts.field_text("fs_type", fs_type.as_str());
            parts.field_text("mountpoint", mountpoint.as_str());
        },
        FrozenIntentAction::RediscoverAndVerify => {
            parts.field_text("action", "rediscover_and_verify");
        },
    }
    parts.object()
}

/// What a frozen step is fingerprinted by, in order.
pub open spec fn intent_step_parts(step: FrozenIntentStep) -> Seq<Seq<char>> {
    Seq::empty()
        .push(json::json_field("plan_step_id"@, json::json_number(step.plan_step_id as int)))
        .push(json::json_field("depends_on"@, json::json_numbers(step.depends_on@)))
        .push(json::json_field("reversibility"@, json::json_text(native_operation::reversibility_name(step.reversibility))))
        .push(json::json_field("role"@, json::json_text(role_name(step.role))))
        .push(json::json_field("action"@, action_json(step.action)))
}

/// The JSON form of a frozen step.
pub open spec fn intent_step_json(step: FrozenIntentStep) -> Seq<char> {
    json::json_object(intent_step_parts(step))
}

fn intent_step_literal(step: &FrozenIntentStep) -> (text: String)
    ensures
        text@ == intent_step_json(*step),
{
    let mut parts = Parts::new();
    parts.field_number("plan_step_id", step.plan_step_id as u64);
    parts.field("depends_on", numbers_literal(&step.depends_on));
    parts.field_text("reversibility", reversibility_text(step.reversibility));
    parts.field_text("role", role_text(step.role));
    parts.field("action", action_literal(&step.action));
    parts.object()
}

/// What a barrier is fingerprinted by, in order.
pub open spec fn intent_barrier_parts(barrier: VerificationBarrierSpec) -> Seq<Seq<char>> {
    Seq::empty()
        .push(json::json_field("after_plan_step_id"@, json::json_number(barrier.after_plan_step_id as int)))
        .push(json::json_field("before_next_mutation"@, json::json_bool(barrier.before_next_mutation)))
        .push(json::json_field("require_fresh_target_identity"@, json::json_bool(barrier.require_fresh_target_identity)))
        .push(json::json_field("require_fresh_capabilities"@, json::json_bool(barrier.require_fresh_capabilities)))
        .push(json::json_field("require_expected_state_check"@, json::json_bool(barrier.require_expected_state_check)))
        .push(json::json_field("stop_on_mismatch"@, json::json_bool(barrier.stop_on_mismatch)))
}

/// The JSON form of a barrier of the intent.
pub open spec fn intent_barrier_json(barrier: VerificationBarrierSpec) -> Seq<char> {
    json::json_object(intent_barrier_parts(barrier))
}

fn intent_barrier_literal(barrier: &VerificationBarrierSpec) -> (text: String)
    ensures
        text@ == intent_barrier_json(*barrier),
{
    let mut parts = Parts::new();
    parts.field_number("after_plan_step_id", barrier.after_plan_step_id as u64);
    parts.field_bool("before_next_mutation", barrier.before_next_mutation);
    parts.field_bool("require_fresh_target_identity", barrier.require_fresh_target_identity);
    parts.field_bool("require_fresh_capabilities", barrier.require_fresh_capabilities);
    parts.field_bool("require_expected_state_check", barrier.require_expected_state_check);
    parts.field_bool("stop_on_mismatch", barrier.stop_on_mismatch);
    parts.object()
}

/// What a frozen intent is fingerprinted by, in order.
pub open spec fn intent_parts(intent: IntentModel) -> Seq<Seq<char>> {
    Seq::empty()
        .push(json::json_number(intent.schema_version as int))
        .push(json::json_text(intent.approval_id))
        .push(json::json_text(intent.approved_journal_id))
        .push(json::json_text(intent.approved_journal_digest))
        .push(json::json_text(intent.plan_id))
        .push(json::json_text(intent.evidence_bundle_id))
        .push(json::json_text(intent.target_manifest_digest))
        .push(json::json_text(intent.locked_session_id))
        .push(json::json_text("frozen_non_executable"@))
        .push(json::json_bool(intent.mutation_enabled))
        .push(json::json_bool(intent.owner_acceptance_required))
        .push(json::json_array(intent.steps.map_values(|s: FrozenIntentStep| intent_step_json(s))))
        .push(json::json_array(intent.verification_barriers.map_values(|b: VerificationBarrierSpec| intent_barrier_json(b))))
        .push(json::json_texts(intent.blockers))
        .push(json::json_texts(intent.future_gates))
}

/// The JSON array over which a frozen intent is fingerprinted: every field but the identifier.
pub open spec fn intent_json(intent: IntentModel) -> Seq<char> {
    json::json_array(intent_parts(intent))
}

/// The dependency graph of plan steps.
pub open spec fn plan_graph(steps: Seq<PlanStep>) -> Seq<NodeModel> {
    steps.map_values(|s: PlanStep| NodeModel { id: s.id, deps: s.depends_on@ })
}

/// `e` reports `fault`.
pub open spec fn reports_graph_fault(e: ExecutionIntentError, fault: GraphFault) -> bool {
    match fault {
        GraphFault::ZeroStepId => e is ZeroStepId,
        GraphFault::DuplicateStepId(id) => e == ExecutionIntentError::DuplicateStepId(id),
        GraphFault::SelfDependency(id) => e == ExecutionIntentError::SelfDependency(id),
        GraphFault::UnknownDependency { step_id, dependency } => e
            == (ExecutionIntentError::UnknownDependency { step_id, dependency }),
        GraphFault::DependencyCycle => e is DependencyCycle,
    }
}

/// Checks the dependencies of plan steps.
pub fn validate_dependency_graph(steps: &Vec<PlanStep>) -> (result: Result<(), ExecutionIntentError>)
    ensures
        match result {
            Ok(_) => graph::graph_fault(plan_graph(steps@)) is None,
            Err(e) => graph::graph_fault(plan_graph(steps@)) is Some && reports_graph_fault(
                e,
                graph::graph_fault(plan_graph(steps@))->Some_0,
            ),
        },
{
    let mut graph = Graph { nodes: Vec::new() };
    let mut i: usize = 0;
    while i < steps.len()
        invariant
            i <= steps.len(),
            graph@ == plan_graph(steps@).take(i as int),
        decreases steps.len() - i,
    {
        let ghost before = graph@;
        graph.nodes.push(
            GraphNode { id: steps[i].id, depends_on: copy_ids(&steps[i].depends_on) },
        );
        assert(graph@ =~= before.push(plan_graph(steps@)[i as int]));
        assert(plan_graph(steps@).take(i + 1) =~= before.push(plan_graph(steps@)[i as int]));
        i += 1;
    }
    assert(plan_graph(steps@).take(steps@.len() as int) =~= plan_graph(steps@));
    match check_graph(&graph) {
        None => Ok(()),
        Some(GraphFault::ZeroStepId) => Err(ExecutionIntentError::ZeroStepId),
        Some(GraphFault::DuplicateStepId(id)) => Err(ExecutionIntentError::DuplicateStepId(id)),
        Some(GraphFault::SelfDependency(id)) => Err(ExecutionIntentError::SelfDependency(id)),
        Some(GraphFault::UnknownDependency { step_id, dependency }) => {
            Err(ExecutionIntentError::UnknownDependency { step_id, dependency })
        },
        Some(GraphFault::DependencyCycle) => Err(ExecutionIntentError::DependencyCycle),
    }
}

/// One partition of `identity` carries exactly this table.
pub open spec fn has_partition_table(
    partitions: Seq<PartitionGeometryIdentity>,
    disk: Seq<char>,
    table_label: Seq<char>,
    table_id: Option<Seq<char>>,
) -> bool {
    exists|i: int|
        0 <= i < partitions.len() && text::opt_text((#[trigger] partitions[i]).disk) == Some(disk)
            && text::opt_text(partitions[i].table_label) == Some(table_label) && text::opt_text(
            partitions[i].table_id,
        ) == table_id
}

fn finds_partition_table(
    partitions: &Vec<PartitionGeometryIdentity>,
    disk: &str,
    table_label: &str,
    table_id: &Option<String>,
) -> (found: bool)
    ensures
        found == has_partition_table(partitions@, disk@, table_label@, text::opt_text(*table_id)),
{
    let mut i: usize = 0;
    while i < partitions.len()
        invariant
            i <= partitions.len(),
            forall|j: int|
                0 <= j < i ==> !(text::opt_text((#[trigger] partitions@[j]).disk) == Some(disk@)
                    && text::opt_text(partitions@[j].table_label) == Some(table_label@) && text::opt_text(
                    partitions@[j].table_id,
                ) == text::opt_text(*table_id)),
        decreases partitions.len() - i,
    {
        let entry = &partitions[i];
        if opt_is(&entry.disk, disk) && opt_is(&entry.table_label, table_label) && same_opt(
            &entry.table_id,
            table_id,
        ) {
            assert(text::opt_text(partitions@[i as int].disk) == Some(disk@));
            return true;
        }
        i += 1;
    }
    false
}

/// Why a plan step does not agree with the frozen target, if it does not.
pub open spec fn semantics_fault(
    operation: Operation,
    identity: TargetIdentityManifest,
    decision: FilesystemGrowthDecision,
) -> Option<Seq<char>> {
    match operation {
        Operation::RevalidateSnapshot => None,
        Operation::RediscoverAndVerify => None,
        Operation::BackupLvmMetadata { vg_uuid } => {
            if model::lvm_with(identity.lvm@, LvmIdentityKind::VolumeGroup, vg_uuid@).len() == 1 {
                None
            } else {
                Some("volume-group backup identity is not unique"@)
            }
        },
        Operation::BackupPartitionTableMetadata { disk, table_label, table_id } => {
            if has_partition_table(
                identity.partitions@,
                disk@,
                table_label@,
                text::opt_text(table_id),
            ) {
                None
            } else {
                Some("partition-table backup identity is absent"@)
            }
        },
        Operation::ExtendPartition {
            partition,
            start_sector,
            old_size_sectors,
            new_size_sectors,
            sector_size_bytes,
        } => {
            let found = model::partitions_named(identity.partitions@, partition@);
            if partition@.len() == 0 || text::has_control_char(partition@) {
                Some("partition path is empty or contains a control character"@)
            } else if !(sector_size_bytes == 512 || sector_size_bytes == 4096) || new_size_sectors
                <= old_size_sectors || old_size_sectors * sector_size_bytes > u64::MAX
                || new_size_sectors * sector_size_bytes > u64::MAX {
                Some("partition growth geometry is invalid"@)
            } else if found.len() != 1 {
                Some("partition identity is not unique"@)
            } else if found[0].start_sector != Some(start_sector) || found[0].size_sectors != Some(
                old_size_sectors,
            ) || found[0].sector_size_bytes != Some(sector_size_bytes) {
                Some("partition geometry changed"@)
            } else {
                None
            }
        },
        Operation::ExtendLogicalVolume { lv_uuid, additional_extents, expected_lv_size_bytes } => {
            let found = model::lvm_with(identity.lvm@, LvmIdentityKind::LogicalVolume, lv_uuid@);
            if lv_uuid@.len() == 0 || additional_extents == 0 || expected_lv_size_bytes == 0 {
                Some("logical-volume growth values are invalid"@)
            } else if found.len() != 1 {
                Some("logical-volume identity is not unique"@)
            } else if expected_lv_size_bytes <= found[0].size_bytes {
                Some("logical-volume expected size does not grow"@)
            } else {
                None
            }
        },
        Operation::GrowFilesystem { fs_type, mountpoint } => {
            if fs_type@.len() == 0 || mountpoint@.len() == 0 {
                Some("filesystem growth identity is empty"@)
            } else {
                match identity.filesystem {
                    None => Some("filesystem identity is absent"@),
                    Some(filesystem) => {
                        if decision.target@ != identity.target@ || filesystem.fs_type@ != fs_type@
                            || text::opt_text(decision.device) != Some(filesystem.device@) || text::opt_text(
                            decision.fs_type,
                        ) != Some(fs_type@) || text::opt_text(decision.mountpoint) != Some(mountpoint@)
                            || decision.state != FilesystemDecisionState::ReadyOnlineGrow {
                            Some("filesystem decision no longer matches approved intent"@)
                        } else if model::mounts_on(identity.mounts@, mountpoint@, fs_type@).len() != 1 {
                            Some("filesystem mount identity is not unique"@)
                        } else {
                            None
                        }
                    },
                }
            }
        },
    }
}

/// The message of a refused plan step.
pub open spec fn step_message(id: u32, detail: Seq<char>) -> Seq<char> {
    "plan step "@ + text::decimal_text(id as nat) + ": "@ + detail
}

fn mismatch(id: u32, detail: &str) -> (e: ExecutionIntentError)
    ensures
        e matches ExecutionIntentError::FrozenIdentityMismatch(m) && m@ == step_message(
            id,
            detail@,
        ),
{
    let mut message = "plan step ".to_owned();
    push_decimal(&mut message, id as u64);
    message.append(": ");
    message.append(detail);
    ExecutionIntentError::FrozenIdentityMismatch(message)
}

/// Checks one plan step against the frozen target identity and filesystem decision.
pub fn validate_step_semantics(
    step: &PlanStep,
    identity: &TargetIdentityManifest,
    decision: &FilesystemGrowthDecision,
) -> (result: Result<(), ExecutionIntentError>)
    ensures
        match result {
            Ok(_) => semantics_fault(step.operation, *identity, *decision) is None,
            Err(e) => {
                &&& semantics_fault(step.operation, *identity, *decision) is Some
                &&& e matches ExecutionIntentError::FrozenIdentityMismatch(m)
                &&& m@ == step_message(
                    step.id,
                    semantics_fault(step.operation, *identity, *decision)->Some_0,
                )
            },
        },
{
    match &step.operation {
        Operation::RevalidateSnapshot => Ok(()),
        Operation::RediscoverAndVerify => Ok(()),
        Operation::BackupLvmMetadata { vg_uuid } => {
            match find_lvm(&identity.lvm, LvmIdentityKind::VolumeGroup, vg_uuid.as_str()) {
                Lookup::Unique(_) => Ok(()),
                _ => Err(mismatch(step.id, "volume-group backup identity is not unique")),
            }
        },
        Operation::BackupPartitionTableMetadata { disk, table_label, table_id } => {
            if finds_partition_table(
                &identity.partitions,
                disk.as_str(),
                table_label.as_str(),
                table_id,
            ) {
                Ok(())
            } else {
                Err(mismatch(step.id, "partition-table backup identity is absent"))
            }
        },
        Operation::ExtendPartition {
            partition,
            start_sector,
            old_size_sectors,
            new_size_sectors,
            sector_size_bytes,
        } => {
            if partition.as_str().is_empty() || contains_control(partition.as_str()) {
                return Err(
                    mismatch(step.id, "partition path is empty or contains a control character"),
                );
            }
            if !(*sector_size_bytes == 512 || *sector_size_bytes == 4096) || *new_size_sectors
                <= *old_size_sectors || old_size_sectors.checked_mul(*sector_size_bytes).is_none()
                || new_size_sectors.checked_mul(*sector_size_bytes).is_none() {
                return Err(mismatch(step.id, "partition growth geometry is invalid"));
            }
            match find_partition(&identity.partitions, partition.as_str()) {
                Lookup::Unique(i) => {
                    let entry = &identity.partitions[i];
                    if entry.start_sector != Some(*start_sector) || entry.size_sectors != Some(
                        *old_size_sectors,
                    ) || entry.sector_size_bytes != Some(*sector_size_bytes) {
                        return Err(mismatch(step.id, "partition geometry changed"));
                    }
                    Ok(())
                },
                _ => Err(mismatch(step.id, "partition identity is not unique")),
            }
        },
        Operation::ExtendLogicalVolume { lv_uuid, additional_extents, expected_lv_size_bytes } => {
            if lv_uuid.as_str().is_empty() || *additional_extents == 0 || *expected_lv_size_bytes
                == 0 {
                return Err(mismatch(step.id, "logical-volume growth values are invalid"));
            }
            match find_lvm(&identity.lvm, LvmIdentityKind::LogicalVolume, lv_uuid.as_str()) {
                Lookup::Unique(i) => {
                    if *expected_lv_size_bytes <= identity.lvm[i].size_bytes {
                        return Err(mismatch(step.id, "logical-volume expected size does not grow"));
                    }
                    Ok(())
                },
                _ => Err(mismatch(step.id, "logical-volume identity is not unique")),
            }
        },
        Operation::GrowFilesystem { fs_type, mountpoint } => {
            if fs_type.as_str().is_empty() || mountpoint.as_str().is_empty() {
                return Err(mismatch(step.id, "filesystem growth identity is empty"));
            }
            match &identity.filesystem {
                None => Err(mismatch(step.id, "filesystem identity is absent")),
                Some(filesystem) => {
                    if !same_text(decision.target.as_str(), identity.target.as_str()) || !same_text(
                        filesystem.fs_type.as_str(),
                        fs_type.as_str(),
                    ) || !opt_is(&decision.device, filesystem.device.as_str()) || !opt_is(
                        &decision.fs_type,
                        fs_type.as_str(),
                    ) || !opt_is(&decision.mountpoint, mountpoint.as_str()) || decision.state
                        != FilesystemDecisionState::ReadyOnlineGrow {
                        return Err(
                            mismatch(
                                step.id,
                                "filesystem decision no longer matches approved intent",
                            ),
                        );
                    }
                    match find_mount(&identity.mounts, mountpoint.as_str(), fs_type.as_str()) {
                        Lookup::Unique(_) => Ok(()),
                        _ => Err(mismatch(step.id, "filesystem mount identity is not unique")),
                    }
                },
            }
        },
    }
}

/// The role that an operation plays in the frozen intent.
pub open spec fn role_of(operation: Operation) -> FrozenIntentRole {
    match operation {
        Operation::RevalidateSnapshot => FrozenIntentRole::PreExecutionEvidence,
        Operation::BackupLvmMetadata { .. } => FrozenIntentRole::PreExecutionEvidence,
        Operation::BackupPartitionTableMetadata { .. } => FrozenIntentRole::PreExecutionEvidence,
        Operation::ExtendPartition { .. } => FrozenIntentRole::MutationCandidate,
        Operation::ExtendLogicalVolume { .. } => FrozenIntentRole::MutationCandidate,
        Operation::GrowFilesystem { .. } => FrozenIntentRole::MutationCandidate,
        Operation::RediscoverAndVerify => FrozenIntentRole::Verification,
    }
}

/// The frozen form of an operation.
pub open spec fn action_of(operation: Operation) -> FrozenIntentAction {
    match operation {
        Operation::RevalidateSnapshot => FrozenIntentAction::RevalidateSnapshot,
        Operation::BackupLvmMetadata { vg_uuid } => FrozenIntentAction::BackupLvmMetadata {
            vg_uuid,
        },
        Operation::BackupPartitionTableMetadata { disk, table_label, table_id } => {
            FrozenIntentAction::BackupPartitionTableMetadata { disk, table_label, table_id }
        },
        Operation::ExtendPartition {
            partition,
            start_sector,
            old_size_sectors,
            new_size_sectors,
            sector_size_bytes,
        } => FrozenIntentAction::ExtendPartition {
            partition,
            start_sector,
            old_size_sectors,
            new_size_sectors,
            sector_size_bytes,
        },
        Operation::ExtendLogicalVolume { lv_uuid, additional_extents, expected_lv_size_bytes } => {
            FrozenIntentAction::ExtendLogicalVolume {
                lv_uuid,
                additional_extents,
                expected_lv_size_bytes,
            }
        },
        Operation::GrowFilesystem { fs_type, mountpoint } => FrozenIntentAction::GrowFilesystem {
            fs_type,
            mountpoint,
        },
        Operation::RediscoverAndVerify => FrozenIntentAction::RediscoverAndVerify,
    }
}

/// `frozen` is the exact frozen form of a plan step.
pub open spec fn freezes_to(step: PlanStep, frozen: FrozenIntentStep) -> bool {
    &&& frozen.plan_step_id == step.id
    &&& frozen.depends_on@ == step.depends_on@
    &&& frozen.reversibility == step.reversibility
    &&& frozen.role == role_of(step.operation)
    &&& frozen.action == action_of(step.operation)
}

/// Freezes one plan step.
pub fn translate_step(step: &PlanStep) -> (frozen: FrozenIntentStep)
    ensures
        freezes_to(*step, frozen),
{
    let (role, action) = match &step.operation {
        Operation::RevalidateSnapshot => (
            FrozenIntentRole::PreExecutionEvidence,
            FrozenIntentAction::RevalidateSnapshot,
        ),
        Operation::BackupLvmMetadata { vg_uuid } => (
            FrozenIntentRole::PreExecutionEvidence,
            FrozenIntentAction::BackupLvmMetadata { vg_uuid: vg_uuid.clone() },
        ),
        Operation::BackupPartitionTableMetadata { disk, table_label, table_id } => (
            FrozenIntentRole::PreExecutionEvidence,
            FrozenIntentAction::BackupPartitionTableMetadata {
                disk: disk.clone(),
                table_label: table_label.clone(),
                table_id: copy_opt(table_id),
            },
        ),
        Operation::ExtendPartition {
            partition,
            start_sector,
            old_size_sectors,
            new_size_sectors,
            sector_size_bytes,
        } => (
            FrozenIntentRole::MutationCandidate,
            FrozenIntentAction::ExtendPartition {
                partition: partition.clone(),
                start_sector: *start_sector,
                old_size_sectors: *old_size_sectors,
                new_size_sectors: *new_size_sectors,
                sector_size_bytes: *sector_size_bytes,
            },
        ),
        Operation::ExtendLogicalVolume { lv_uuid, additional_extents, expected_lv_size_bytes } => (
            FrozenIntentRole::MutationCandidate,
            FrozenIntentAction::ExtendLogicalVolume {
                lv_uuid: lv_uuid.clone(),
                additional_extents: *additional_extents,
                expected_lv_size_bytes: *expected_lv_size_bytes,
            },
        ),
        Operation::GrowFilesystem { fs_type, mountpoint } => (
            FrozenIntentRole::MutationCandidate,
            FrozenIntentAction::GrowFilesystem {
                fs_type: fs_type.clone(),
                mountpoint: mountpoint.clone(),
            },
        ),
        Operation::RediscoverAndVerify => (
            FrozenIntentRole::Verification,
            FrozenIntentAction::RediscoverAndVerify,
        ),
    };
    FrozenIntentStep {
        plan_step_id: step.id,
        depends_on: copy_ids(&step.depends_on),
        reversibility: step.reversibility,
        role,
        action,
    }
}

/// The gates that stay open after an intent is frozen.
pub open spec fn intent_gates() -> Seq<Seq<char>> {
    seq![
        "explicit owner acceptance for mutation-capable rollout"@,
        "reviewed semantic-to-argv compiler"@,
        "minimal executable allowlist"@,
        "privileged-helper protocol"@,
        "per-layer rediscovery implementation"@,
        "interruption and recovery semantics"@,
        "disposable write matrix"@,
    ]
}

/// The barrier after one mutation: every requirement is switched on.
pub open spec fn closed_barrier(id: u32) -> VerificationBarrierSpec {
    VerificationBarrierSpec {
        after_plan_step_id: id,
        before_next_mutation: true,
        require_fresh_target_identity: true,
        require_fresh_capabilities: true,
        require_expected_state_check: true,
        stop_on_mismatch: true,
    }
}

/// One closed barrier for each mutation of a plan, in order.
pub open spec fn plan_barriers(steps: Seq<PlanStep>) -> Seq<VerificationBarrierSpec>
    decreases steps.len(),
{
    if steps.len() == 0 {
        Seq::empty()
    } else if role_of(steps.last().operation) == FrozenIntentRole::MutationCandidate {
        plan_barriers(steps.drop_last()).push(closed_barrier(steps.last().id))
    } else {
        plan_barriers(steps.drop_last())
    }
}

/// Each plan step is frozen in place.
pub open spec fn all_freeze_to(steps: Seq<PlanStep>, frozen: Seq<FrozenIntentStep>) -> bool {
    &&& frozen.len() == steps.len()
    &&& forall|i: int|
        #![trigger frozen[i]]
        #![trigger steps[i]]
        0 <= i < steps.len() ==> freezes_to(steps[i], frozen[i])
}

/// The approval belongs to exactly this session and its recorded approval.
pub open spec fn approval_is_for(session: SessionModel, approval: ApprovalModel) -> bool {
    let handoff = session.handoff;
    let made = approval.binding;
    match session.journal.approval {
        None => false,
        Some(recorded) => {
            &&& approval.journal_id == session.journal.journal_id@
            &&& made.locked_session_id@ == session.session_id
            &&& made.plan_id@ == handoff.plan.plan_id@
            &&& made.evidence_bundle_id@ == recorded.evidence_bundle_id@
            &&& made.target_manifest_digest@ == handoff.target_identity.manifest_digest@
            &&& recorded.approval_id@ == made.approval_id@
            &&& recorded.plan_id@ == made.plan_id@
            &&& recorded.target_manifest_digest@ == made.target_manifest_digest@
            &&& recorded.locked_session_id@ == made.locked_session_id@
            &&& recorded.preconditions_journal_digest@ == made.preconditions_journal_digest@
        },
    }
}

/// The first step that does not agree with the frozen target, with what is wrong.
pub open spec fn first_semantics_fault(handoff: FrozenExecutionHandoff) -> Option<Seq<char>> {
    let steps = handoff.plan.steps@;
    text::first_some(
        steps.len() as int,
        |i: int|
            match semantics_fault(
                steps[i].operation,
                handoff.target_identity,
                handoff.filesystem_decision,
            ) {
                Some(detail) => Some(step_message(steps[i].id, detail)),
                None => None,
            },
    )
}

/// What stands in the way of freezing an intent.
pub enum IntentObstacle {
    SessionNotApproved,
    MutationEnabled,
    MutationMayHaveStarted,
    Session(LockedSessionError),
    ApprovalBindingMismatch,
    OwnerAcceptanceInvariant,
    Graph(GraphFault),
    Semantics(Seq<char>),
}

/// The first obstacle, if there is one.
pub open spec fn intent_obstacle(session: SessionModel, approval: ApprovalModel) -> Option<
    IntentObstacle,
> {
    let handoff = session.handoff;
    if session.journal.phase != JournalPhase::Approved {
        Some(IntentObstacle::SessionNotApproved)
    } else if handoff.mutation_enabled || approval.mutation_enabled {
        Some(IntentObstacle::MutationEnabled)
    } else if session.journal.mutation_may_have_started {
        Some(IntentObstacle::MutationMayHaveStarted)
    } else if session.persisted is None {
        Some(IntentObstacle::Session(LockedSessionError::DurableJournalRequired))
    } else if !session.durable_current() {
        Some(IntentObstacle::Session(LockedSessionError::DurableJournalMismatch))
    } else if !approval_is_for(session, approval) {
        Some(IntentObstacle::ApprovalBindingMismatch)
    } else if !approval.owner_acceptance_required || !handoff.owner_acceptance_required {
        Some(IntentObstacle::OwnerAcceptanceInvariant)
    } else if graph::graph_fault(plan_graph(handoff.plan.steps@)) is Some {
        Some(IntentObstacle::Graph(graph::graph_fault(plan_graph(handoff.plan.steps@))->Some_0))
    } else if first_semantics_fault(handoff) is Some {
        Some(IntentObstacle::Semantics(first_semantics_fault(handoff)->Some_0))
    } else {
        None
    }
}

/// `e` reports `obstacle`.
pub open spec fn reports_obstacle(e: ExecutionIntentError, obstacle: IntentObstacle) -> bool {
    match obstacle {
        IntentObstacle::SessionNotApproved => e is SessionNotApproved,
        IntentObstacle::MutationEnabled => e is MutationEnabled,
        IntentObstacle::MutationMayHaveStarted => e is MutationMayHaveStarted,
        IntentObstacle::Session(cause) => e == ExecutionIntentError::Session(cause),
        IntentObstacle::ApprovalBindingMismatch => e is ApprovalBindingMismatch,
        IntentObstacle::OwnerAcceptanceInvariant => e is OwnerAcceptanceInvariant,
        IntentObstacle::Graph(fault) => reports_graph_fault(e, fault),
        IntentObstacle::Semantics(message) => {
            e matches ExecutionIntentError::FrozenIdentityMismatch(m) && m@ == message
        },
    }
}

/// `intent` is the frozen form of the approved plan of a session.
pub open spec fn is_frozen_intent(
    intent: IntentModel,
    session: SessionModel,
    approval: ApprovalModel,
    journal_json: Seq<u8>,
) -> bool {
    let steps = session.handoff.plan.steps@;
    &&& intent.schema_version == 1
    &&& is_intact_intent(intent)
    &&& text::is_digest_text(intent.manifest_id)
    &&& intent.approval_id == approval.binding.approval_id@
    &&& intent.approved_journal_id == session.journal.journal_id@
    &&& intent.approved_journal_digest == digest::fingerprint_of(journal_json)
    &&& intent.plan_id == approval.binding.plan_id@
    &&& intent.evidence_bundle_id == approval.binding.evidence_bundle_id@
    &&& intent.target_manifest_digest == approval.binding.target_manifest_digest@
    &&& intent.locked_session_id == approval.binding.locked_session_id@
    &&& intent.status == ExecutionIntentManifestStatus::FrozenNonExecutable
    &&& !intent.mutation_enabled
    &&& intent.owner_acceptance_required
    &&& all_freeze_to(steps, intent.steps)
    &&& intent.verification_barriers == plan_barriers(steps)
    &&& intent.blockers.len() == 0
    &&& intent.future_gates == intent_gates()
}

fn approval_matches(session: &LockedExecutionSession, approval: &ExactPlanApproval) -> (yes: bool)
    ensures
        yes == approval_is_for(session@, approval@),
{
    let handoff = session.handoff();
    match &session.journal().approval {
        None => false,
        Some(recorded) => same_text(approval.journal_id(), session.journal().journal_id.as_str())
            && same_text(approval.locked_session_id(), session.session_id()) && same_text(
            approval.plan_id(),
            handoff.plan.plan_id.as_str(),
        ) && same_text(approval.evidence_bundle_id(), recorded.evidence_bundle_id.as_str())
            && same_text(
            approval.target_manifest_digest(),
            handoff.target_identity.manifest_digest.as_str(),
        ) && same_text(recorded.approval_id.as_str(), approval.approval_id()) && same_text(
            recorded.plan_id.as_str(),
            approval.plan_id(),
        ) && same_text(recorded.target_manifest_digest.as_str(), approval.target_manifest_digest())
            && same_text(recorded.locked_session_id.as_str(), approval.locked_session_id())
            && same_text(
            recorded.preconditions_journal_digest.as_str(),
            approval.preconditions_journal_digest(),
        ),
    }
}

/// Freezes the approved plan of a session whose serialised journal is `journal_json`.
pub fn freeze_execution_intent(
    session: &LockedExecutionSession,
    journal_json: &[u8],
    approval: &ExactPlanApproval,
) -> (result: Result<FrozenExecutionIntentManifest, ExecutionIntentError>)
    ensures
        match result {
            Ok(intent) => intent_obstacle(session@, approval@) is None && is_frozen_intent(
                intent@,
                session@,
                approval@,
                journal_json@,
            ),
            Err(e) => intent_obstacle(session@, approval@) is Some && reports_obstacle(
                e,
                intent_obstacle(session@, approval@)->Some_0,
            ),
        },
{
    let handoff = session.handoff();
    if session.journal().phase != JournalPhase::Approved {
        return Err(ExecutionIntentError::SessionNotApproved);
    }
    if MUTATION_ENABLED || session.mutation_enabled() || handoff.mutation_enabled
        || approval.mutation_enabled() {
        return Err(ExecutionIntentError::MutationEnabled);
    }
    if session.journal().mutation_may_have_started {
        return Err(ExecutionIntentError::MutationMayHaveStarted);
    }
    match session.require_current_durable_journal() {
        Ok(_) => {},
        Err(e) => return Err(ExecutionIntentError::Session(e)),
    }
    if !approval_matches(session, approval) {
        return Err(ExecutionIntentError::ApprovalBindingMismatch);
    }
    if !approval.owner_acceptance_required() || !handoff.owner_acceptance_required {
        return Err(ExecutionIntentError::OwnerAcceptanceInvariant);
    }
    match validate_dependency_graph(&handoff.plan.steps) {
        Ok(_) => {},
        Err(e) => return Err(e),
    }
    let plan_steps = &handoff.plan.steps;
    let ghost on_step = |i: int|
        match semantics_fault(
            plan_steps@[i].operation,
            handoff.target_identity,
            handoff.filesystem_decision,
        ) {
            Some(detail) => Some(step_message(plan_steps@[i].id, detail)),
            None => None,
        };
    let mut steps: Vec<FrozenIntentStep> = Vec::new();
    let mut barriers: Vec<VerificationBarrierSpec> = Vec::new();
    let mut i: usize = 0;
    while i < plan_steps.len()
        invariant
            i <= plan_steps@.len(),
            on_step == (|i: int|
                match semantics_fault(
                    plan_steps@[i].operation,
                    handoff.target_identity,
                    handoff.filesystem_decision,
                ) {
                    Some(detail) => Some(step_message(plan_steps@[i].id, detail)),
                    None => None,
                }),
            *handoff == session@.handoff,
            *plan_steps == handoff.plan.steps,
            intent_obstacle(session@, approval@) is None || intent_obstacle(session@, approval@)
                == Some(IntentObstacle::Semantics(first_semantics_fault(*handoff)->Some_0)),
            first_semantics_fault(*handoff) == text::first_some(plan_steps@.len() as int, on_step),
            first_semantics_fault(*handoff) is Some ==> intent_obstacle(session@, approval@)
                is Some,
            text::first_some(i as int, on_step) is None,
            steps@.len() == i,
            forall|j: int|
                #![trigger steps@[j]]
                0 <= j < i ==> freezes_to(plan_steps@[j], steps@[j]),
            barriers@ == plan_barriers(plan_steps@.take(i as int)),
        decreases plan_steps@.len() - i,
    {
        let step = &plan_steps[i];
        match validate_step_semantics(
            step,
            &handoff.target_identity,
            &handoff.filesystem_decision,
        ) {
            Ok(_) => {},
            Err(e) => {
                proof {
                    text::lemma_first_some_stays(i + 1, plan_steps@.len() as int, on_step);
                }
                return Err(e);
            },
        }
        let frozen = translate_step(step);
        proof {
            assert(plan_steps@.take(i + 1).drop_last() =~= plan_steps@.take(i as int));
            assert(plan_steps@.take(i + 1).last() == *step);
        }
        if frozen.role == FrozenIntentRole::MutationCandidate {
            barriers.push(
                VerificationBarrierSpec {
                    after_plan_step_id: step.id,
                    before_next_mutation: true,
                    require_fresh_target_identity: true,
                    require_fresh_capabilities: true,
                    require_expected_state_check: true,
                    stop_on_mismatch: true,
                },
            );
        }
        steps.push(frozen);
        i += 1;
    }
    assert(plan_steps@.take(plan_steps@.len() as int) =~= plan_steps@);
    let mut intent = FrozenExecutionIntentManifest {
        schema_version: 1,
        manifest_id: String::new(),
        approval_id: approval.approval_id().to_owned(),
        approved_journal_id: session.journal().journal_id.clone(),
        approved_journal_digest: fingerprint(journal_json),
        plan_id: approval.plan_id().to_owned(),
        evidence_bundle_id: approval.evidence_bundle_id().to_owned(),
        target_manifest_digest: approval.target_manifest_digest().to_owned(),
        locked_session_id: approval.locked_session_id().to_owned(),
        status: ExecutionIntentManifestStatus::FrozenNonExecutable,
        mutation_enabled: false,
        owner_acceptance_required: true,
        steps,
        verification_barriers: barriers,
        blockers: Vec::new(),
        future_gates: vec![
            "explicit owner acceptance for mutation-capable rollout".to_owned(),
            "reviewed semantic-to-argv compiler".to_owned(),
            "minimal executable allowlist".to_owned(),
            "privileged-helper protocol".to_owned(),
            "per-layer rediscovery implementation".to_owned(),
            "interruption and recovery semantics".to_owned(),
            "disposable write matrix".to_owned(),
        ],
    };
    assert(intent@.future_gates =~= intent_gates());
    intent.manifest_id = intent.compute_manifest_id();
    Ok(intent)
}

/// Once an approval is recorded, only the plan itself can stand in the way of freezing it.
pub proof fn recorded_approval_leaves_only_the_plan(
    session: SessionModel,
    approval: ApprovalModel,
    verification: VerificationModel,
)
    requires
        session.journal.phase == JournalPhase::Approved,
        !session.journal.mutation_may_have_started,
        session.durable_current(),
        !session.handoff.mutation_enabled,
        session.handoff.owner_acceptance_required,
        verification.locked_session_id == session.session_id,
        verification.plan_id == session.handoff.plan.plan_id@,
        verification.target_manifest_digest == session.handoff.target_identity.manifest_digest@,
        approval == (ApprovalModel {
            binding: approval.binding,
            journal_id: session.journal.journal_id@,
            owner_acceptance_required: true,
            mutation_enabled: false,
        }),
        approval.binding.plan_id@ == verification.plan_id,
        approval.binding.evidence_bundle_id@ == verification.bundle_id,
        approval.binding.target_manifest_digest@ == verification.target_manifest_digest,
        approval.binding.locked_session_id@ == verification.locked_session_id,
        session.journal.approval == Some(approval.binding),
    ensures
        match intent_obstacle(session, approval) {
            None => graph::graph_fault(plan_graph(session.handoff.plan.steps@)) is None
                && first_semantics_fault(session.handoff) is None,
            Some(obstacle) => obstacle is Graph || obstacle is Semantics,
        },
{
}

/// The two hold the same.
pub open spec fn same_action(a: FrozenIntentAction, b: FrozenIntentAction) -> bool {
    match (a, b) {
        (FrozenIntentAction::RevalidateSnapshot, FrozenIntentAction::RevalidateSnapshot) => true,
        (
            FrozenIntentAction::BackupLvmMetadata { vg_uuid: x0 },
            FrozenIntentAction::BackupLvmMetadata { vg_uuid: y0 },
        ) => x0@ == y0@,
        (
            FrozenIntentAction::BackupPartitionTableMetadata { disk: x0, table_label: x1, table_id: x2 },
            FrozenIntentAction::BackupPartitionTableMetadata { disk: y0, table_label: y1, table_id: y2 },
        ) => x0@ == y0@ && x1@ == y1@ && text::opt_text(x2) == text::opt_text(y2),
        (
            FrozenIntentAction::ExtendPartition { partition: x0, start_sector: x1, old_size_sectors: x2, new_size_sectors: x3, sector_size_bytes: x4 },
            FrozenIntentAction::ExtendPartition { partition: y0, start_sector: y1, old_size_sectors: y2, new_size_sectors: y3, sector_size_bytes: y4 },
        ) => x0@ == y0@ && x1 == y1 && x2 == y2 && x3 == y3 && x4 == y4,
        (
            FrozenIntentAction::ExtendLogicalVolume { lv_uuid: x0, additional_extents: x1, expected_lv_size_bytes: x2 },
            FrozenIntentAction::ExtendLogicalVolume { lv_uuid: y0, additional_extents: y1, expected_lv_size_bytes: y2 },
        ) => x0@ == y0@ && x1 == y1 && x2 == y2,
        (
            FrozenIntentAction::GrowFilesystem { fs_type: x0, mountpoint: x1 },
            FrozenIntentAction::GrowFilesystem { fs_type: y0, mountpoint: y1 },
        ) => x0@ == y0@ && x1@ == y1@,
        (FrozenIntentAction::RediscoverAndVerify, FrozenIntentAction::RediscoverAndVerify) => true,
        _ => false,
    }
}

/// The form is one value.
proof fn lemma_action_value(x: FrozenIntentAction)
    ensures
        json_reading::is_value(action_json(x)),
{
    broadcast use crate::json_reading::group_json_reading;

    assert(json_reading::are_values(action_parts(x)));
}

proof fn lemma_action_tag(x: FrozenIntentAction)
    ensures
        action_parts(x).len() > 0,
        action_parts(x)[0] == json::json_field(
            "action"@,
            json::json_text(native_operation::recorded_operation_name(native_operation::native_kind_of(x))),
        ),
{
}

/// The form tells all of it.
proof fn lemma_action_told(a: FrozenIntentAction, b: FrozenIntentAction)
    requires
        action_json(a) == action_json(b),
    ensures
        same_action(a, b),
{
    broadcast use crate::json_reading::group_json_reading;

    let p = action_parts(a);
    let q = action_parts(b);
    assert(json_reading::are_values(p) && json_reading::are_values(q));
    lemma_action_tag(a);
    lemma_action_tag(b);
    assert(p[0] == q[0]);
    native_operation::lemma_recorded_operation_name_told(
        native_operation::native_kind_of(a),
        native_operation::native_kind_of(b),
    );
    assert(p.len() == q.len());
    if p.len() > 1 {
        assert(p[1] == q[1]);
    }
    if p.len() > 2 {
        assert(p[2] == q[2]);
    }
    if p.len() > 3 {
        assert(p[3] == q[3]);
    }
    if p.len() > 4 {
        assert(p[4] == q[4]);
    }
    if p.len() > 5 {
        assert(p[5] == q[5]);
    }
}

/// The two hold the same.
pub open spec fn same_intent_step(a: FrozenIntentStep, b: FrozenIntentStep) -> bool {
    &&& a.plan_step_id == b.plan_step_id
    &&& a.depends_on@ == b.depends_on@
    &&& a.reversibility == b.reversibility
    &&& a.role == b.role
    &&& same_action(a.action, b.action)
}

/// The form is one value.
pub proof fn lemma_intent_step_value(x: FrozenIntentStep)
    ensures
        json_reading::is_value(intent_step_json(x)),
{
    broadcast use crate::json_reading::group_json_reading;

    lemma_action_value(x.action);
    assert(json_reading::are_values(intent_step_parts(x)));
}

proof fn lemma_intent_step_told(a: FrozenIntentStep, b: FrozenIntentStep)
    requires
        intent_step_json(a) == intent_step_json(b),
    ensures
        same_intent_step(a, b),
{
    broadcast use crate::json_reading::group_json_reading;

    lemma_action_value(a.action);
    lemma_action_value(b.action);
    let p = intent_step_parts(a);
    let q = intent_step_parts(b);
    assert(json_reading::are_values(p) && json_reading::are_values(q));
    assert(p[0] == q[0]);
    assert(p[1] == q[1]);
    assert(p[2] == q[2]);
    assert(p[3] == q[3]);
    assert(p[4] == q[4]);
    native_operation::lemma_reversibility_name_told(a.reversibility, b.reversibility);
    lemma_role_name_told(a.role, b.role);
    lemma_action_told(a.action, b.action);
}

/// The form is one value.
pub proof fn lemma_intent_barrier_value(x: VerificationBarrierSpec)
    ensures
        json_reading::is_value(intent_barrier_json(x)),
{
    broadcast use crate::json_reading::group_json_reading;

    assert(json_reading::are_values(intent_barrier_parts(x)));
}

proof fn lemma_intent_barrier_told(a: VerificationBarrierSpec, b: VerificationBarrierSpec)
    requires
        intent_barrier_json(a) == intent_barrier_json(b),
    ensures
        a == b,
{
    broadcast use crate::json_reading::group_json_reading;

    let p = intent_barrier_parts(a);
    let q = intent_barrier_parts(b);
    assert(json_reading::are_values(p) && json_reading::are_values(q));
    assert(p[0] == q[0]);
    assert(p[1] == q[1]);
    assert(p[2] == q[2]);
    assert(p[3] == q[3]);
    assert(p[4] == q[4]);
    assert(p[5] == q[5]);
}

/// The identifier is the fingerprint of the other fields.
pub open spec fn is_intact_intent(intent: IntentModel) -> bool {
    intent.manifest_id == digest::text_fingerprint(intent_json(intent))
}

/// The two hold the same, apart from their identifiers.
pub open spec fn same_intent(a: IntentModel, b: IntentModel) -> bool {
    &&& a.schema_version == b.schema_version
    &&& a.approval_id == b.approval_id
    &&& a.approved_journal_id == b.approved_journal_id
    &&& a.approved_journal_digest == b.approved_journal_digest
    &&& a.plan_id == b.plan_id
    &&& a.evidence_bundle_id == b.evidence_bundle_id
    &&& a.target_manifest_digest == b.target_manifest_digest
    &&& a.locked_session_id == b.locked_session_id
    &&& a.status == b.status
    &&& a.mutation_enabled == b.mutation_enabled
    &&& a.owner_acceptance_required == b.owner_acceptance_required
    &&& a.steps.len() == b.steps.len()
    &&& forall|i: int| 0 <= i < a.steps.len() ==> same_intent_step(#[trigger] a.steps[i], b.steps[i])
    &&& a.verification_barriers == b.verification_barriers
    &&& a.blockers == b.blockers
    &&& a.future_gates == b.future_gates
}

proof fn lemma_intent_told(a: IntentModel, b: IntentModel)
    requires
        intent_json(a) == intent_json(b),
    ensures
        same_intent(a, b),
{
    broadcast use crate::json_reading::group_json_reading;

    let write_step = |s: FrozenIntentStep| intent_step_json(s);
    let write_barrier = |b: VerificationBarrierSpec| intent_barrier_json(b);
    assert forall|s: FrozenIntentStep| json_reading::is_value(#[trigger] write_step(s)) by {
        lemma_intent_step_value(s);
    }
    assert forall|x: VerificationBarrierSpec| json_reading::is_value(
        #[trigger] write_barrier(x),
    ) by {
        lemma_intent_barrier_value(x);
    }
    json_reading::list_is_value(a.steps, write_step);
    json_reading::list_is_value(b.steps, write_step);
    json_reading::list_is_value(a.verification_barriers, write_barrier);
    json_reading::list_is_value(b.verification_barriers, write_barrier);
    let p = intent_parts(a);
    let q = intent_parts(b);
    assert(json_reading::are_values(p) && json_reading::are_values(q));
    assert(p[0] == q[0]);
    assert(p[1] == q[1]);
    assert(p[2] == q[2]);
    assert(p[3] == q[3]);
    assert(p[4] == q[4]);
    assert(p[5] == q[5]);
    assert(p[6] == q[6]);
    assert(p[7] == q[7]);
    assert(p[8] == q[8]);
    assert(p[9] == q[9]);
    assert(p[10] == q[10]);
    assert(p[11] == q[11]);
    assert(p[12] == q[12]);
    assert(p[13] == q[13]);
    assert(p[14] == q[14]);
    json_reading::list_tells_its_items(a.steps, b.steps, write_step);
    json_reading::list_tells_its_items(
        a.verification_barriers,
        b.verification_barriers,
        write_barrier,
    );
    assert forall|i: int| 0 <= i < a.steps.len() implies same_intent_step(
        #[trigger] a.steps[i],
        b.steps[i],
    ) by {
        assert(write_step(a.steps[i]) == write_step(b.steps[i]));
        lemma_intent_step_told(a.steps[i], b.steps[i]);
    }
    assert forall|i: int| 0 <= i < a.verification_barriers.len() implies a.verification_barriers[i]
        == b.verification_barriers[i] by {
        assert(write_barrier(a.verification_barriers[i]) == write_barrier(
            b.verification_barriers[i],
        ));
        lemma_intent_barrier_told(a.verification_barriers[i], b.verification_barriers[i]);
    }
    assert(a.verification_barriers =~= b.verification_barriers);
}

/// A frozen intent that was changed under its identifier is noticed, short of a SHA-256 collision.
pub proof fn changed_intent_is_detected(a: IntentModel, b: IntentModel)
    requires
        is_intact_intent(a),
        b.manifest_id == a.manifest_id,
        !same_intent(a, b),
    ensures
        !is_intact_intent(b) || digest::is_collision(intent_json(a), intent_json(b)),
{
    if is_intact_intent(b) {
        digest::fingerprint_tells_its_text(intent_json(a), intent_json(b));
        if intent_json(a) == intent_json(b) {
            lemma_intent_told(a, b);
        }
    }
}

/// A frozen step says what its plan step says: the same number, dependencies and reversibility,
/// and the same operation value by value. What grows a partition, a logical volume or a filesystem
/// is a mutation, what rediscovers is a verification, and everything else is evidence.
pub proof fn frozen_step_says_what_its_plan_step_says(step: PlanStep, frozen: FrozenIntentStep)
    requires
        freezes_to(step, frozen),
    ensures
        frozen.plan_step_id == step.id,
        frozen.depends_on@ == step.depends_on@,
        frozen.reversibility == step.reversibility,
        frozen.role is MutationCandidate <==> step.operation is ExtendPartition
            || step.operation is ExtendLogicalVolume || step.operation is GrowFilesystem,
        frozen.role is Verification <==> step.operation is RediscoverAndVerify,
        frozen.role is PreExecutionEvidence <==> step.operation is RevalidateSnapshot
            || step.operation is BackupLvmMetadata
            || step.operation is BackupPartitionTableMetadata,
        step.operation is RevalidateSnapshot <==> frozen.action is RevalidateSnapshot,
        step.operation is RediscoverAndVerify <==> frozen.action is RediscoverAndVerify,
        step.operation is BackupLvmMetadata <==> frozen.action is BackupLvmMetadata,
        step.operation is BackupLvmMetadata ==> frozen.action->BackupLvmMetadata_vg_uuid@
            == step.operation->BackupLvmMetadata_vg_uuid@,
        step.operation is BackupPartitionTableMetadata
            <==> frozen.action is BackupPartitionTableMetadata,
        step.operation is BackupPartitionTableMetadata ==> {
            &&& frozen.action->BackupPartitionTableMetadata_disk@
                == step.operation->BackupPartitionTableMetadata_disk@
            &&& frozen.action->BackupPartitionTableMetadata_table_label@
                == step.operation->BackupPartitionTableMetadata_table_label@
            &&& reading::read_alike(
                frozen.action->BackupPartitionTableMetadata_table_id,
                step.operation->BackupPartitionTableMetadata_table_id,
            )
        },
        step.operation is ExtendPartition <==> frozen.action is ExtendPartition,
        step.operation is ExtendPartition ==> {
            &&& frozen.action->ExtendPartition_partition@
                == step.operation->ExtendPartition_partition@
            &&& frozen.action->ExtendPartition_start_sector
                == step.operation->ExtendPartition_start_sector
            &&& frozen.action->ExtendPartition_old_size_sectors
                == step.operation->ExtendPartition_old_size_sectors
            &&& frozen.action->ExtendPartition_new_size_sectors
                == step.operation->ExtendPartition_new_size_sectors
            &&& frozen.action->ExtendPartition_sector_size_bytes
                == step.operation->ExtendPartition_sector_size_bytes
        },
        step.operation is ExtendLogicalVolume <==> frozen.action is ExtendLogicalVolume,
        step.operation is ExtendLogicalVolume ==> {
            &&& frozen.action->ExtendLogicalVolume_lv_uuid@
                == step.operation->ExtendLogicalVolume_lv_uuid@
            &&& frozen.action->ExtendLogicalVolume_additional_extents
                == step.operation->ExtendLogicalVolume_additional_extents
            &&& frozen.action->ExtendLogicalVolume_expected_lv_size_bytes
                == step.operation->ExtendLogicalVolume_expected_lv_size_bytes
        },
        step.operation is GrowFilesystem <==> frozen.action is GrowFilesystem,
        step.operation is GrowFilesystem ==> {
            &&& frozen.action->GrowFilesystem_fs_type@ == step.operation->GrowFilesystem_fs_type@
            &&& frozen.action->GrowFilesystem_mountpoint@
                == step.operation->GrowFilesystem_mountpoint@
        },
{
}

/// Plan steps that freeze to the same step are the same, value by value: freezing loses nothing.
pub proof fn freezing_loses_nothing(
    a: PlanStep,
    b: PlanStep,
    frozen_a: FrozenIntentStep,
    frozen_b: FrozenIntentStep,
)
    requires
        freezes_to(a, frozen_a),
        freezes_to(b, frozen_b),
        frozen_a.plan_step_id == frozen_b.plan_step_id,
        frozen_a.depends_on@ == frozen_b.depends_on@,
        frozen_a.reversibility == frozen_b.reversibility,
        frozen_a.action == frozen_b.action,
    ensures
        a.id == b.id,
        a.depends_on@ == b.depends_on@,
        a.reversibility == b.reversibility,
        a.operation == b.operation,
{
}

/// The operation changes storage.
pub open spec fn plans_a_mutation(step: PlanStep) -> bool {
    step.operation is ExtendPartition || step.operation is ExtendLogicalVolume
        || step.operation is GrowFilesystem
}

/// Behind each mutation of a plan stands one barrier with its number, in the order of the plan, and
/// there are no others. Every barrier demands everything that it can.
pub proof fn every_planned_mutation_has_a_closed_barrier(steps: Seq<PlanStep>)
    ensures
        plan_barriers(steps).map_values(|b: VerificationBarrierSpec| b.after_plan_step_id)
            == steps.filter(|s: PlanStep| plans_a_mutation(s)).map_values(|s: PlanStep| s.id),
        forall|i: int|
            0 <= i < plan_barriers(steps).len() ==> {
                &&& (#[trigger] plan_barriers(steps)[i]).before_next_mutation
                &&& plan_barriers(steps)[i].require_fresh_target_identity
                &&& plan_barriers(steps)[i].require_fresh_capabilities
                &&& plan_barriers(steps)[i].require_expected_state_check
                &&& plan_barriers(steps)[i].stop_on_mismatch
            },
    decreases steps.len(),
{
    reveal(Seq::filter);
    let number = |b: VerificationBarrierSpec| b.after_plan_step_id;
    let id = |s: PlanStep| s.id;
    let mutates = |s: PlanStep| plans_a_mutation(s);
    if steps.len() > 0 {
        let before = steps.drop_last();
        every_planned_mutation_has_a_closed_barrier(before);
        assert(plan_barriers(before).map_values(number) =~= before.filter(mutates).map_values(id));
        if plans_a_mutation(steps.last()) {
            assert(plan_barriers(steps).map_values(number) =~= plan_barriers(before).map_values(
                number,
            ).push(steps.last().id));
            assert(steps.filter(mutates) =~= before.filter(mutates).push(steps.last()));
            assert(steps.filter(mutates).map_values(id) =~= before.filter(mutates).map_values(
                id,
            ).push(steps.last().id));
        } else {
            assert(steps.filter(mutates) =~= before.filter(mutates));
        }
    }
    assert(plan_barriers(steps).map_values(number) =~= steps.filter(mutates).map_values(id));
}

/// A frozen intent freezes the plan step by step, in order, names the approval, journal, plan,
/// evidence, target and session that it came from, and cannot be executed.
pub proof fn frozen_intent_is_the_approved_plan(
    intent: IntentModel,
    session: SessionModel,
    approval: ApprovalModel,
    journal_json: Seq<u8>,
    i: int,
)
    requires
        is_frozen_intent(intent, session, approval, journal_json),
    ensures
        intent.steps.len() == session.handoff.plan.steps@.len(),
        0 <= i < intent.steps.len() ==> freezes_to(
            session.handoff.plan.steps@[i],
            intent.steps[i],
        ),
        intent.verification_barriers == plan_barriers(session.handoff.plan.steps@),
        intent.schema_version == 1,
        intent.status is FrozenNonExecutable,
        !intent.mutation_enabled,
        intent.owner_acceptance_required,
        intent.blockers.len() == 0,
        intent.future_gates.len() == 7,
        intent.approval_id == approval.binding.approval_id@,
        intent.plan_id == approval.binding.plan_id@,
        intent.evidence_bundle_id == approval.binding.evidence_bundle_id@,
        intent.target_manifest_digest == approval.binding.target_manifest_digest@,
        intent.locked_session_id == approval.binding.locked_session_id@,
        intent.approved_journal_id == session.journal.journal_id@,
        intent.approved_journal_digest == digest::fingerprint_of(journal_json),
{
}

/// A backup of volume-group metadata agrees with the target exactly where the group is the only
/// one of its UUID; one of a partition table exactly where some partition carries that table. What
/// only looks always agrees.
pub proof fn planned_evidence_agrees_with_the_target(
    identity: TargetIdentityManifest,
    decision: FilesystemGrowthDecision,
    vg_uuid: String,
    disk: String,
    table_label: String,
    table_id: Option<String>,
)
    ensures
        semantics_fault(Operation::RevalidateSnapshot, identity, decision) is None,
        semantics_fault(Operation::RediscoverAndVerify, identity, decision) is None,
        semantics_fault(Operation::BackupLvmMetadata { vg_uuid }, identity, decision) is None
            <==> exists|i: int|
            reading::only_volume_at(identity.lvm@, LvmIdentityKind::VolumeGroup, vg_uuid@, i),
        semantics_fault(
            Operation::BackupPartitionTableMetadata { disk, table_label, table_id },
            identity,
            decision,
        ) is None <==> exists|i: int|
            {
                &&& 0 <= i < identity.partitions@.len()
                &&& reading::reads((#[trigger] identity.partitions@[i]).disk, disk@)
                &&& reading::reads(identity.partitions@[i].table_label, table_label@)
                &&& reading::read_alike(identity.partitions@[i].table_id, table_id)
            },
{
    reading::found_volume_is_the_only_one(identity.lvm@, LvmIdentityKind::VolumeGroup, vg_uuid@);
}

/// The growth of a partition agrees with the target exactly where its path is a plain one, its
/// sectors are of a known size, it grows within what a byte count can hold, and the partition is
/// the only one of its path with just that geometry.
pub proof fn planned_partition_growth_agrees_with_the_target(
    partition: String,
    start_sector: u64,
    old_size_sectors: u64,
    new_size_sectors: u64,
    sector_size_bytes: u64,
    identity: TargetIdentityManifest,
    decision: FilesystemGrowthDecision,
)
    ensures
        ({
            let fault = semantics_fault(
                Operation::ExtendPartition {
                    partition,
                    start_sector,
                    old_size_sectors,
                    new_size_sectors,
                    sector_size_bytes,
                },
                identity,
                decision,
            );
            let plain_path = partition@.len() > 0 && !text::has_control_char(partition@);
            let grows = {
                &&& sector_size_bytes == 512 || sector_size_bytes == 4096
                &&& old_size_sectors < new_size_sectors
                &&& new_size_sectors * sector_size_bytes <= 0xffff_ffff_ffff_ffff
            };
            &&& fault is None <==> {
                &&& plain_path
                &&& grows
                &&& exists|i: int|
                    {
                        &&& #[trigger] reading::only_partition_at(identity.partitions@, partition@, i)
                        &&& identity.partitions@[i].start_sector == Some(start_sector)
                        &&& identity.partitions@[i].size_sectors == Some(old_size_sectors)
                        &&& identity.partitions@[i].sector_size_bytes == Some(sector_size_bytes)
                    }
            }
            &&& !plain_path ==> fault == Some(
                "partition path is empty or contains a control character"@,
            )
            &&& plain_path && !grows ==> fault == Some("partition growth geometry is invalid"@)
            &&& plain_path && grows && !(exists|i: int|
                reading::only_partition_at(identity.partitions@, partition@, i)) ==> fault == Some(
                "partition identity is not unique"@,
            )
            &&& plain_path && grows && (exists|i: int|
                reading::only_partition_at(identity.partitions@, partition@, i)) && fault is Some ==> fault
                == Some("partition geometry changed"@)
        }),
{
    reading::found_partition_is_the_only_one(identity.partitions@, partition@);
    assert(old_size_sectors < new_size_sectors ==> old_size_sectors * sector_size_bytes
        <= new_size_sectors * sector_size_bytes) by (nonlinear_arith)
        requires
            0 <= sector_size_bytes,
    ;
    if exists|i: int| reading::only_partition_at(identity.partitions@, partition@, i) {
        let i = choose|i: int| reading::only_partition_at(identity.partitions@, partition@, i);
        assert(reading::only_partition_at(identity.partitions@, partition@, i));
    }
}

/// The growth of a logical volume agrees with the target exactly where it names a volume and adds
/// something, and that volume is the only one of its UUID and smaller than expected afterwards.
pub proof fn planned_volume_growth_agrees_with_the_target(
    lv_uuid: String,
    additional_extents: u64,
    expected_lv_size_bytes: u64,
    identity: TargetIdentityManifest,
    decision: FilesystemGrowthDecision,
)
    ensures
        ({
            let fault = semantics_fault(
                Operation::ExtendLogicalVolume {
                    lv_uuid,
                    additional_extents,
                    expected_lv_size_bytes,
                },
                identity,
                decision,
            );
            let kind = LvmIdentityKind::LogicalVolume;
            let says_something = lv_uuid@.len() > 0 && additional_extents > 0
                && expected_lv_size_bytes > 0;
            &&& fault is None <==> {
                &&& says_something
                &&& exists|i: int|
                    {
                        &&& #[trigger] reading::only_volume_at(identity.lvm@, kind, lv_uuid@, i)
                        &&& identity.lvm@[i].size_bytes < expected_lv_size_bytes
                    }
            }
            &&& !says_something ==> fault == Some("logical-volume growth values are invalid"@)
            &&& says_something && !(exists|i: int|
                reading::only_volume_at(identity.lvm@, kind, lv_uuid@, i)) ==> fault == Some(
                "logical-volume identity is not unique"@,
            )
            &&& says_something && (exists|i: int|
                reading::only_volume_at(identity.lvm@, kind, lv_uuid@, i)) && fault is Some ==> fault
                == Some("logical-volume expected size does not grow"@)
        }),
{
    let kind = LvmIdentityKind::LogicalVolume;
    reading::found_volume_is_the_only_one(identity.lvm@, kind, lv_uuid@);
    if exists|i: int| reading::only_volume_at(identity.lvm@, kind, lv_uuid@, i) {
        let i = choose|i: int| reading::only_volume_at(identity.lvm@, kind, lv_uuid@, i);
        assert(reading::only_volume_at(identity.lvm@, kind, lv_uuid@, i));
    }
}

/// The growth of a filesystem agrees with the target exactly where the filesystem is there, the
/// decision allows it to grow online just as planned, and it is mounted once where planned.
pub proof fn planned_filesystem_growth_agrees_with_the_target(
    fs_type: String,
    mountpoint: String,
    identity: TargetIdentityManifest,
    decision: FilesystemGrowthDecision,
)
    ensures
        ({
            let fault = semantics_fault(
                Operation::GrowFilesystem { fs_type, mountpoint },
                identity,
                decision,
            );
            let says_something = fs_type@.len() > 0 && mountpoint@.len() > 0;
            &&& fault is None <==> {
                &&& says_something
                &&& identity.filesystem matches Some(filesystem)
                &&& filesystem.fs_type@ == fs_type@
                &&& decision.target@ == identity.target@
                &&& reading::reads(decision.device, filesystem.device@)
                &&& reading::reads(decision.fs_type, fs_type@)
                &&& reading::reads(decision.mountpoint, mountpoint@)
                &&& decision.state is ReadyOnlineGrow
                &&& exists|i: int| reading::only_mount_at(identity.mounts@, mountpoint@, fs_type@, i)
            }
            &&& !says_something ==> fault == Some("filesystem growth identity is empty"@)
            &&& says_something && identity.filesystem is None ==> fault == Some(
                "filesystem identity is absent"@,
            )
            &&& says_something && identity.filesystem is Some && !(decision.state is ReadyOnlineGrow)
                ==> fault == Some("filesystem decision no longer matches approved intent"@)
        }),
{
    reading::found_mount_is_the_only_one(identity.mounts@, mountpoint@, fs_type@);
}

/// An intent is frozen exactly where the session is approved and durable, nothing has started or
/// may start, the approval is the recorded one for this session, the owner still has to accept, the
/// graph of the plan is sound, and every step agrees with the target.
pub proof fn intent_is_frozen_where_everything_agrees(
    session: SessionModel,
    approval: ApprovalModel,
)
    ensures
        intent_obstacle(session, approval) is None <==> {
            &&& session.journal.phase is Approved
            &&& !session.handoff.mutation_enabled
            &&& !approval.mutation_enabled
            &&& !session.journal.mutation_may_have_started
            &&& session.durable_current()
            &&& session.journal.approval matches Some(recorded)
            &&& approval.journal_id == session.journal.journal_id@
            &&& approval.binding.locked_session_id@ == session.session_id
            &&& approval.binding.plan_id@ == session.handoff.plan.plan_id@
            &&& approval.binding.target_manifest_digest@
                == session.handoff.target_identity.manifest_digest@
            &&& approval.binding.evidence_bundle_id@ == recorded.evidence_bundle_id@
            &&& approval.binding.approval_id@ == recorded.approval_id@
            &&& approval.binding.plan_id@ == recorded.plan_id@
            &&& approval.binding.target_manifest_digest@ == recorded.target_manifest_digest@
            &&& approval.binding.locked_session_id@ == recorded.locked_session_id@
            &&& approval.binding.preconditions_journal_digest@
                == recorded.preconditions_journal_digest@
            &&& approval.owner_acceptance_required
            &&& session.handoff.owner_acceptance_required
            &&& graph::graph_fault(plan_graph(session.handoff.plan.steps@)) is None
            &&& forall|i: int|
                0 <= i < session.handoff.plan.steps@.len() ==> semantics_fault(
                    (#[trigger] session.handoff.plan.steps@[i]).operation,
                    session.handoff.target_identity,
                    session.handoff.filesystem_decision,
                ) is None
        },
{
    first_faulty_step_is_reported(session.handoff);
}

/// What is reported of the steps of a plan is the first one that does not agree with the target, by
/// its number and what is wrong with it.
pub proof fn first_faulty_step_is_reported(handoff: FrozenExecutionHandoff)
    ensures
        first_semantics_fault(handoff) is None <==> forall|i: int|
            0 <= i < handoff.plan.steps@.len() ==> semantics_fault(
                (#[trigger] handoff.plan.steps@[i]).operation,
                handoff.target_identity,
                handoff.filesystem_decision,
            ) is None,
        first_semantics_fault(handoff) matches Some(message) ==> exists|i: int, s: Seq<char>|
            {
                let steps = handoff.plan.steps@;
                let fault = semantics_fault(
                    steps[i].operation,
                    handoff.target_identity,
                    handoff.filesystem_decision,
                );
                &&& 0 <= i < steps.len()
                &&& #[trigger] reading::spells(s, handoff.plan.steps@[i].id as int)
                &&& fault is Some
                &&& message == "plan step "@ + s + ": "@ + fault->Some_0
                &&& forall|j: int|
                    0 <= j < i ==> semantics_fault(
                        (#[trigger] steps[j]).operation,
                        handoff.target_identity,
                        handoff.filesystem_decision,
                    ) is None
            },
{
    let steps = handoff.plan.steps@;
    let at = |i: int|
        match semantics_fault(
            steps[i].operation,
            handoff.target_identity,
            handoff.filesystem_decision,
        ) {
            Some(detail) => Some(step_message(steps[i].id, detail)),
            None => None,
        };
    reading::report_is_the_first_one(steps.len() as int, at);
    assert(first_semantics_fault(handoff) == text::first_some(steps.len() as int, at));
    if first_semantics_fault(handoff) is None {
        assert forall|i: int| 0 <= i < steps.len() implies semantics_fault(
            (#[trigger] steps[i]).operation,
            handoff.target_identity,
            handoff.filesystem_decision,
        ) is None by {
            assert(at(i) is None);
        }
    } else {
        let i = choose|i: int| reading::is_first_report(steps.len() as int, at, i);
        reading::written_number_is_read_back(steps[i].id as nat);
        assert(reading::spells(text::decimal_text(steps[i].id as nat), handoff.plan.steps@[i].id as int));
        assert forall|j: int| 0 <= j < i implies semantics_fault(
            (#[trigger] steps[j]).operation,
            handoff.target_identity,
            handoff.filesystem_decision,
        ) is None by {
            assert(at(j) is None);
        }
    }
}

/// Each obstacle is reported as the error of its own kind, with what it names.
pub proof fn obstacle_is_reported_as_its_own_error(
    e: ExecutionIntentError,
    obstacle: IntentObstacle,
)
    requires
        reports_obstacle(e, obstacle),
    ensures
        obstacle is SessionNotApproved <==> e is SessionNotApproved,
        obstacle is MutationEnabled <==> e is MutationEnabled,
        obstacle is MutationMayHaveStarted <==> e is MutationMayHaveStarted,
        obstacle is ApprovalBindingMismatch <==> e is ApprovalBindingMismatch,
        obstacle is OwnerAcceptanceInvariant <==> e is OwnerAcceptanceInvariant,
        obstacle is Semantics <==> e is FrozenIdentityMismatch,
        obstacle matches IntentObstacle::Semantics(message) ==> {
            e matches ExecutionIntentError::FrozenIdentityMismatch(m) && m@ == message
        },
        obstacle matches IntentObstacle::Session(cause) ==> e == ExecutionIntentError::Session(
            cause,
        ),
        obstacle == IntentObstacle::Graph(GraphFault::ZeroStepId) ==> e is ZeroStepId,
        obstacle == IntentObstacle::Graph(GraphFault::DependencyCycle) ==> e is DependencyCycle,
        obstacle matches IntentObstacle::Graph(GraphFault::DuplicateStepId(id)) ==> e
            == ExecutionIntentError::DuplicateStepId(id),
        obstacle matches IntentObstacle::Graph(GraphFault::SelfDependency(id)) ==> e
            == ExecutionIntentError::SelfDependency(id),
        obstacle matches IntentObstacle::Graph(
            GraphFault::UnknownDependency { step_id, dependency },
        ) ==> e == (ExecutionIntentError::UnknownDependency { step_id, dependency }),
{
}

/// Each obstacle to freezing names something that is wrong.
pub proof fn obstacle_names_its_reason(session: SessionModel, approval: ApprovalModel)
    requires
        intent_obstacle(session, approval) is Some,
    ensures
        match intent_obstacle(session, approval)->Some_0 {
            IntentObstacle::SessionNotApproved => !(session.journal.phase is Approved),
            IntentObstacle::MutationEnabled => session.handoff.mutation_enabled
                || approval.mutation_enabled,
            IntentObstacle::MutationMayHaveStarted => session.journal.mutation_may_have_started,
            IntentObstacle::Session(e) => {
                ||| e is DurableJournalRequired && session.persisted is None
                ||| e is DurableJournalMismatch && session.persisted is Some
                    && !session.durable_current()
            },
            IntentObstacle::ApprovalBindingMismatch => session.journal.approval is None || {
                let recorded = session.journal.approval->Some_0;
                ||| approval.journal_id != session.journal.journal_id@
                ||| approval.binding.locked_session_id@ != session.session_id
                ||| approval.binding.plan_id@ != session.handoff.plan.plan_id@
                ||| approval.binding.evidence_bundle_id@ != recorded.evidence_bundle_id@
                ||| approval.binding.target_manifest_digest@
                    != session.handoff.target_identity.manifest_digest@
                ||| approval.binding.approval_id@ != recorded.approval_id@
                ||| approval.binding.plan_id@ != recorded.plan_id@
                ||| approval.binding.target_manifest_digest@ != recorded.target_manifest_digest@
                ||| approval.binding.locked_session_id@ != recorded.locked_session_id@
                ||| approval.binding.preconditions_journal_digest@
                    != recorded.preconditions_journal_digest@
            },
            IntentObstacle::OwnerAcceptanceInvariant => !approval.owner_acceptance_required
                || !session.handoff.owner_acceptance_required,
            IntentObstacle::Graph(fault) => graph::graph_fault(
                plan_graph(session.handoff.plan.steps@),
            ) == Some(fault),
            IntentObstacle::Semantics(message) => first_semantics_fault(session.handoff) == Some(
                message,
            ),
        },
{
}

} // verus!
