//! Typed, non-executable payloads of the native backend and the rules of a compiled manifest.

use vstd::prelude::*;
use vstd::string::*;

use crate::reading;
use crate::text;
use crate::model;
use crate::json;
use crate::json_reading;
use crate::graph;
use crate::execution_intent;
use crate::digest;
use crate::approval::ApprovalModel;
use crate::digest::fingerprint_text;
use crate::execution_intent::{
    role_text, FrozenExecutionIntentManifest, FrozenIntentAction, FrozenIntentRole,
    FrozenIntentStep, IntentModel, VerificationBarrierSpec,
};
use crate::graph::{check_graph, Graph, GraphFault, GraphNode, NodeModel};
use crate::json::{numbers_literal, Parts};
use crate::locked_session::SessionModel;
use crate::model::{Operation, PlanStep, Reversibility};
use crate::text::{copy_ids, copy_opt};

verus! {

/// Operation classes of the native backend.
#[derive(Clone, Copy, Debug, PartialEq, Eq, Structural)]
pub enum NativeOperationKind {
    RevalidateSnapshot,
    BackupLvmMetadata,
    BackupPartitionTableMetadata,
    ExtendPartition,
    ResizePhysicalVolume,
    ExtendLogicalVolume,
    GrowFilesystem,
    RediscoverAndVerify,
}

/// The operation classes that a frozen intent can name.
pub const NATIVE_OPERATION_ALLOWLIST: [NativeOperationKind; 7] = [
    NativeOperationKind::RevalidateSnapshot,
    NativeOperationKind::BackupLvmMetadata,
    NativeOperationKind::BackupPartitionTableMetadata,
    NativeOperationKind::ExtendPartition,
    NativeOperationKind::ExtendLogicalVolume,
    NativeOperationKind::GrowFilesystem,
    NativeOperationKind::RediscoverAndVerify,
];

impl NativeOperationKind {
    /// The classes that change storage.
    pub open spec fn mutates(self) -> bool {
        self is ExtendPartition || self is ResizePhysicalVolume || self is ExtendLogicalVolume
            || self is GrowFilesystem
    }

    pub fn is_mutation_candidate(self) -> (yes: bool)
        ensures
            yes == self.mutates(),
    {
        matches!(
            self,
            NativeOperationKind::ExtendPartition
                | NativeOperationKind::ResizePhysicalVolume
                | NativeOperationKind::ExtendLogicalVolume
                | NativeOperationKind::GrowFilesystem
        )
    }
}

/// The class of a frozen action.
pub open spec fn native_kind_of(action: FrozenIntentAction) -> NativeOperationKind {
    match action {
        FrozenIntentAction::RevalidateSnapshot => NativeOperationKind::RevalidateSnapshot,
        FrozenIntentAction::BackupLvmMetadata { .. } => NativeOperationKind::BackupLvmMetadata,
        FrozenIntentAction::BackupPartitionTableMetadata { .. } => {
            NativeOperationKind::BackupPartitionTableMetadata
        },
        FrozenIntentAction::ExtendPartition { .. } => NativeOperationKind::ExtendPartition,
        FrozenIntentAction::ExtendLogicalVolume { .. } => NativeOperationKind::ExtendLogicalVolume,
        FrozenIntentAction::GrowFilesystem { .. } => NativeOperationKind::GrowFilesystem,
        FrozenIntentAction::RediscoverAndVerify => NativeOperationKind::RediscoverAndVerify,
    }
}

/// Classifies a frozen action. There is deliberately no fallback arm.
pub fn classify_frozen_intent_action(action: &FrozenIntentAction) -> (kind: NativeOperationKind)
    ensures
        kind == native_kind_of(*action),
{
    match action {
        FrozenIntentAction::RevalidateSnapshot => NativeOperationKind::RevalidateSnapshot,
        FrozenIntentAction::BackupLvmMetadata { .. } => NativeOperationKind::BackupLvmMetadata,
        FrozenIntentAction::BackupPartitionTableMetadata { .. } => {
            NativeOperationKind::BackupPartitionTableMetadata
        },
        FrozenIntentAction::ExtendPartition { .. } => NativeOperationKind::ExtendPartition,
        FrozenIntentAction::ExtendLogicalVolume { .. } => NativeOperationKind::ExtendLogicalVolume,
        FrozenIntentAction::GrowFilesystem { .. } => NativeOperationKind::GrowFilesystem,
        FrozenIntentAction::RediscoverAndVerify => NativeOperationKind::RediscoverAndVerify,
    }
}

/// The exact payload of a native operation.
#[derive(Debug, PartialEq, Eq)]
pub enum NativeOperationSpec {
    RevalidateSnapshot,
    BackupLvmMetadata { vg_uuid: String },
    BackupPartitionTableMetadata { disk: String, table_label: String, table_id: Option<String> },
    ExtendPartition {
        partition: String,
        start_sector: u64,
        old_size_sectors: u64,
        new_size_sectors: u64,
        sector_size_bytes: u64,
    },
    ResizePhysicalVolume { pv_uuid: String, expected_pv_size_bytes: u64 },
    ExtendLogicalVolume { lv_uuid: String, additional_extents: u64, expected_lv_size_bytes: u64 },
    GrowFilesystem { fs_type: String, mountpoint: Option<String> },
    RediscoverAndVerify,
}

impl Clone for NativeOperationSpec {
    fn clone(&self) -> (copy: Self)
        ensures
            copy == *self,
    {
        match self {
            NativeOperationSpec::RevalidateSnapshot => NativeOperationSpec::RevalidateSnapshot,
            NativeOperationSpec::BackupLvmMetadata { vg_uuid } => {
                NativeOperationSpec::BackupLvmMetadata { vg_uuid: vg_uuid.clone() }
            },
            NativeOperationSpec::BackupPartitionTableMetadata { disk, table_label, table_id } => {
                NativeOperationSpec::BackupPartitionTableMetadata {
                    disk: disk.clone(),
                    table_label: table_label.clone(),
                    table_id: copy_opt(table_id),
                }
            },
            NativeOperationSpec::ExtendPartition {
                partition,
                start_sector,
                old_size_sectors,
                new_size_sectors,
                sector_size_bytes,
            } => NativeOperationSpec::ExtendPartition {
                partition: partition.clone(),
                start_sector: *start_sector,
                old_size_sectors: *old_size_sectors,
                new_size_sectors: *new_size_sectors,
                sector_size_bytes: *sector_size_bytes,
            },
            NativeOperationSpec::ResizePhysicalVolume { pv_uuid, expected_pv_size_bytes } => {
                NativeOperationSpec::ResizePhysicalVolume {
                    pv_uuid: pv_uuid.clone(),
                    expected_pv_size_bytes: *expected_pv_size_bytes,
                }
            },
            NativeOperationSpec::ExtendLogicalVolume {
                lv_uuid,
                additional_extents,
                expected_lv_size_bytes,
            } => NativeOperationSpec::ExtendLogicalVolume {
                lv_uuid: lv_uuid.clone(),
                additional_extents: *additional_extents,
                expected_lv_size_bytes: *expected_lv_size_bytes,
            },
            NativeOperationSpec::GrowFilesystem { fs_type, mountpoint } => {
                NativeOperationSpec::GrowFilesystem {
                    fs_type: fs_type.clone(),
                    mountpoint: copy_opt(mountpoint),
                }
            },
            NativeOperationSpec::RediscoverAndVerify => NativeOperationSpec::RediscoverAndVerify,
        }
    }
}

/// The payload of a frozen action: the same values, nothing added and nothing lost.
pub open spec fn native_spec_of(action: FrozenIntentAction) -> NativeOperationSpec {
    match action {
        FrozenIntentAction::RevalidateSnapshot => NativeOperationSpec::RevalidateSnapshot,
        FrozenIntentAction::BackupLvmMetadata { vg_uuid } => {
            NativeOperationSpec::BackupLvmMetadata { vg_uuid }
        },
        FrozenIntentAction::BackupPartitionTableMetadata { disk, table_label, table_id } => {
            NativeOperationSpec::BackupPartitionTableMetadata { disk, table_label, table_id }
        },
        FrozenIntentAction::ExtendPartition {
            partition,
            start_sector,
            old_size_sectors,
            new_size_sectors,
            sector_size_bytes,
        } => NativeOperationSpec::ExtendPartition {
            partition,
            start_sector,
            old_size_sectors,
            new_size_sectors,
            sector_size_bytes,
        },
        FrozenIntentAction::ExtendLogicalVolume {
            lv_uuid,
            additional_extents,
            expected_lv_size_bytes,
        } => NativeOperationSpec::ExtendLogicalVolume {
            lv_uuid,
            additional_extents,
            expected_lv_size_bytes,
        },
        FrozenIntentAction::GrowFilesystem { fs_type, mountpoint } => {
            NativeOperationSpec::GrowFilesystem { fs_type, mountpoint: Some(mountpoint) }
        },
        FrozenIntentAction::RediscoverAndVerify => NativeOperationSpec::RediscoverAndVerify,
    }
}

/// Builds the non-executable payload of a frozen action.
pub fn build_native_operation_spec(action: &FrozenIntentAction) -> (spec: NativeOperationSpec)
    ensures
        spec == native_spec_of(*action),
{
    match action {
        FrozenIntentAction::RevalidateSnapshot => NativeOperationSpec::RevalidateSnapshot,
        FrozenIntentAction::BackupLvmMetadata { vg_uuid } => {
            NativeOperationSpec::BackupLvmMetadata { vg_uuid: vg_uuid.clone() }
        },
        FrozenIntentAction::BackupPartitionTableMetadata { disk, table_label, table_id } => {
            NativeOperationSpec::BackupPartitionTableMetadata {
                disk: disk.clone(),
                table_label: table_label.clone(),
                table_id: copy_opt(table_id),
            }
        },
        FrozenIntentAction::ExtendPartition {
            partition,
            start_sector,
            old_size_sectors,
            new_size_sectors,
            sector_size_bytes,
        } => NativeOperationSpec::ExtendPartition {
            partition: partition.clone(),
            start_sector: *start_sector,
            old_size_sectors: *old_size_sectors,
            new_size_sectors: *new_size_sectors,
            sector_size_bytes: *sector_size_bytes,
        },
        FrozenIntentAction::ExtendLogicalVolume {
            lv_uuid,
            additional_extents,
            expected_lv_size_bytes,
        } => NativeOperationSpec::ExtendLogicalVolume {
            lv_uuid: lv_uuid.clone(),
            additional_extents: *additional_extents,
            expected_lv_size_bytes: *expected_lv_size_bytes,
        },
        FrozenIntentAction::GrowFilesystem { fs_type, mountpoint } => {
            NativeOperationSpec::GrowFilesystem {
                fs_type: fs_type.clone(),
                mountpoint: Some(mountpoint.clone()),
            }
        },
        FrozenIntentAction::RediscoverAndVerify => NativeOperationSpec::RediscoverAndVerify,
    }
}

#[derive(Clone, Debug, PartialEq, Eq)]
pub struct NativeCompiledStep {
    pub plan_step_id: u32,
    pub depends_on: Vec<u32>,
    pub reversibility: Reversibility,
    pub role: FrozenIntentRole,
    pub operation: NativeOperationSpec,
}

/// `native` is the exact compilation of the frozen step.
pub open spec fn compiles_to(step: FrozenIntentStep, native: NativeCompiledStep) -> bool {
    &&& native.plan_step_id == step.plan_step_id
    &&& native.depends_on@ == step.depends_on@
    &&& native.reversibility == step.reversibility
    &&& native.role == step.role
    &&& native.operation == native_spec_of(step.action)
}

/// Compiles one frozen step.
pub fn compile_native_step(step: &FrozenIntentStep) -> (native: NativeCompiledStep)
    ensures
        compiles_to(*step, native),
{
    NativeCompiledStep {
        plan_step_id: step.plan_step_id,
        depends_on: copy_ids(&step.depends_on),
        reversibility: step.reversibility,
        role: step.role,
        operation: build_native_operation_spec(&step.action),
    }
}

/// Each frozen step is compiled in place.
pub open spec fn all_compile_to(
    steps: Seq<FrozenIntentStep>,
    natives: Seq<NativeCompiledStep>,
) -> bool {
    &&& natives.len() == steps.len()
    &&& forall|i: int|
        #![trigger natives[i]]
        #![trigger steps[i]]
        0 <= i < steps.len() ==> compiles_to(steps[i], natives[i])
}

/// Compiles frozen steps in their order.
pub fn compile_native_steps(steps: &[FrozenIntentStep]) -> (natives: Vec<NativeCompiledStep>)
    ensures
        all_compile_to(steps@, natives@),
{
    let mut natives: Vec<NativeCompiledStep> = Vec::new();
    let mut i: usize = 0;
    while i < steps.len()
        invariant
            i <= steps@.len(),
            natives@.len() == i,
            forall|j: int|
                #![trigger natives@[j]]
                0 <= j < i ==> compiles_to(steps@[j], natives@[j]),
        decreases steps@.len() - i,
    {
        natives.push(compile_native_step(&steps[i]));
        i += 1;
    }
    natives
}

#[derive(Clone, Copy, Debug, PartialEq, Eq, Structural)]
pub struct NativeVerificationBarrier {
    pub after_plan_step_id: u32,
    pub before_next_mutation: bool,
    pub require_fresh_target_identity: bool,
    pub require_fresh_capabilities: bool,
    pub require_expected_state_check: bool,
    pub stop_on_mismatch: bool,
}

impl NativeVerificationBarrier {
    /// Every requirement of the barrier is switched on.
    pub open spec fn fails_closed(self) -> bool {
        &&& self.before_next_mutation
        &&& self.require_fresh_target_identity
        &&& self.require_fresh_capabilities
        &&& self.require_expected_state_check
        &&& self.stop_on_mismatch
    }
}

/// The same barrier in the native manifest.
pub open spec fn native_barrier_of(barrier: VerificationBarrierSpec) -> NativeVerificationBarrier {
    NativeVerificationBarrier {
        after_plan_step_id: barrier.after_plan_step_id,
        before_next_mutation: barrier.before_next_mutation,
        require_fresh_target_identity: barrier.require_fresh_target_identity,
        require_fresh_capabilities: barrier.require_fresh_capabilities,
        require_expected_state_check: barrier.require_expected_state_check,
        stop_on_mismatch: barrier.stop_on_mismatch,
    }
}

/// Compiles one verification barrier.
pub fn compile_native_verification_barrier(barrier: &VerificationBarrierSpec) -> (native:
    NativeVerificationBarrier)
    ensures
        native == native_barrier_of(*barrier),
{
    NativeVerificationBarrier {
        after_plan_step_id: barrier.after_plan_step_id,
        before_next_mutation: barrier.before_next_mutation,
        require_fresh_target_identity: barrier.require_fresh_target_identity,
        require_fresh_capabilities: barrier.require_fresh_capabilities,
        require_expected_state_check: barrier.require_expected_state_check,
        stop_on_mismatch: barrier.stop_on_mismatch,
    }
}

/// Compiles verification barriers in their order.
pub fn compile_native_verification_barriers(barriers: &[VerificationBarrierSpec]) -> (natives: Vec<
    NativeVerificationBarrier,
>)
    ensures
        natives@ == barriers@.map_values(|b: VerificationBarrierSpec| native_barrier_of(b)),
{
    let mut natives: Vec<NativeVerificationBarrier> = Vec::new();
    let ghost all = barriers@.map_values(|b: VerificationBarrierSpec| native_barrier_of(b));
    let mut i: usize = 0;
    while i < barriers.len()
        invariant
            i <= barriers@.len(),
            all == barriers@.map_values(|b: VerificationBarrierSpec| native_barrier_of(b)),
            natives@ == all.take(i as int),
        decreases barriers@.len() - i,
    {
        natives.push(compile_native_verification_barrier(&barriers[i]));
        assert(all.take(i + 1) =~= all.take(i as int).push(all[i as int]));
        i += 1;
    }
    assert(all.take(all.len() as int) =~= all);
    natives
}

#[derive(Clone, Debug, PartialEq, Eq)]
pub struct NativeCompiledManifest {
    pub source_manifest_id: String,
    pub steps: Vec<NativeCompiledStep>,
    pub verification_barriers: Vec<NativeVerificationBarrier>,
}

/// Combines compiled steps and barriers without reordering either.
pub fn compile_native_manifest_parts(
    source_manifest_id: &str,
    steps: &[FrozenIntentStep],
    verification_barriers: &[VerificationBarrierSpec],
) -> (manifest: NativeCompiledManifest)
    ensures
        manifest.source_manifest_id@ == source_manifest_id@,
        all_compile_to(steps@, manifest.steps@),
        manifest.verification_barriers@ == verification_barriers@.map_values(
            |b: VerificationBarrierSpec| native_barrier_of(b),
        ),
{
    NativeCompiledManifest {
        source_manifest_id: source_manifest_id.to_owned(),
        steps: compile_native_steps(steps),
        verification_barriers: compile_native_verification_barriers(verification_barriers),
    }
}

/// Compiles a frozen manifest and binds the result to its identifier.
pub fn compile_native_manifest(manifest: &FrozenExecutionIntentManifest) -> (native:
    NativeCompiledManifest)
    ensures
        native.source_manifest_id@ == manifest@.manifest_id,
        all_compile_to(manifest@.steps, native.steps@),
        native.verification_barriers@ == manifest@.verification_barriers.map_values(
            |b: VerificationBarrierSpec| native_barrier_of(b),
        ),
{
    compile_native_manifest_parts(
        manifest.manifest_id(),
        manifest.steps(),
        manifest.verification_barriers(),
    )
}

#[derive(Clone, Copy, Debug, PartialEq, Eq, Structural)]
pub enum NativeManifestValidationError {
    ZeroStepId,
    DuplicateStepId(u32),
    UnknownDependency { step_id: u32, dependency: u32 },
    SelfDependency(u32),
    DependencyCycle,
    MissingVerificationBarrier(u32),
    DuplicateVerificationBarrier(u32),
    UnexpectedVerificationBarrier(u32),
    UnsafeVerificationBarrier(u32),
}

/// The operations that change storage.
pub open spec fn changes_storage(operation: NativeOperationSpec) -> bool {
    operation is ExtendPartition || operation is ResizePhysicalVolume
        || operation is ExtendLogicalVolume || operation is GrowFilesystem
}

fn is_mutation_operation(operation: &NativeOperationSpec) -> (yes: bool)
    ensures
        yes == changes_storage(*operation),
{
    matches!(
        operation,
        NativeOperationSpec::ExtendPartition { .. }
            | NativeOperationSpec::ResizePhysicalVolume { .. }
            | NativeOperationSpec::ExtendLogicalVolume { .. }
            | NativeOperationSpec::GrowFilesystem { .. }
    )
}

/// The dependency graph of compiled steps.
pub open spec fn native_graph(steps: Seq<NativeCompiledStep>) -> Seq<NodeModel> {
    steps.map_values(
        |s: NativeCompiledStep| NodeModel { id: s.plan_step_id, deps: s.depends_on@ },
    )
}

pub open spec fn native_graph_error(fault: GraphFault) -> NativeManifestValidationError {
    match fault {
        GraphFault::ZeroStepId => NativeManifestValidationError::ZeroStepId,
        GraphFault::DuplicateStepId(id) => NativeManifestValidationError::DuplicateStepId(id),
        GraphFault::SelfDependency(id) => NativeManifestValidationError::SelfDependency(id),
        GraphFault::UnknownDependency { step_id, dependency } => {
            NativeManifestValidationError::UnknownDependency { step_id, dependency }
        },
        GraphFault::DependencyCycle => NativeManifestValidationError::DependencyCycle,
    }
}

/// What one barrier is refused for, if anything.
pub open spec fn barrier_fault(
    steps: Seq<NativeCompiledStep>,
    barrier: NativeVerificationBarrier,
) -> Option<NativeManifestValidationError> {
    let id = barrier.after_plan_step_id;
    if !(exists|i: int|
        0 <= i < steps.len() && (#[trigger] steps[i]).plan_step_id == id && changes_storage(
            steps[i].operation,
        )) {
        Some(NativeManifestValidationError::UnexpectedVerificationBarrier(id))
    } else if !barrier.fails_closed() {
        Some(NativeManifestValidationError::UnsafeVerificationBarrier(id))
    } else {
        None
    }
}

/// The barriers that stand after one step.
pub open spec fn barriers_after(barriers: Seq<NativeVerificationBarrier>, id: u32) -> Seq<
    NativeVerificationBarrier,
> {
    barriers.filter(|b: NativeVerificationBarrier| b.after_plan_step_id == id)
}

/// What one step is refused for: a mutation has exactly one barrier.
pub open spec fn guard_fault(
    barriers: Seq<NativeVerificationBarrier>,
    step: NativeCompiledStep,
) -> Option<NativeManifestValidationError> {
    let id = step.plan_step_id;
    if !changes_storage(step.operation) {
        None
    } else if barriers_after(barriers, id).len() == 0 {
        Some(NativeManifestValidationError::MissingVerificationBarrier(id))
    } else if barriers_after(barriers, id).len() > 1 {
        Some(NativeManifestValidationError::DuplicateVerificationBarrier(id))
    } else {
        None
    }
}

/// What a compiled manifest is refused for, if anything: its graph first, then its barriers,
/// then mutations without exactly one barrier, each in order.
pub open spec fn native_manifest_fault(manifest: NativeCompiledManifest) -> Option<
    NativeManifestValidationError,
> {
    let steps = manifest.steps@;
    let barriers = manifest.verification_barriers@;
    match graph::graph_fault(native_graph(steps)) {
        Some(fault) => Some(native_graph_error(fault)),
        None => {
            let on_barriers = text::first_some(
                barriers.len() as int,
                |i: int| barrier_fault(steps, barriers[i]),
            );
            if on_barriers is Some {
                on_barriers
            } else {
                text::first_some(steps.len() as int, |i: int| guard_fault(barriers, steps[i]))
            }
        },
    }
}

fn validate_native_dependency_graph(steps: &Vec<NativeCompiledStep>) -> (result: Result<
    (),
    NativeManifestValidationError,
>)
    ensures
        match result {
            Ok(_) => graph::graph_fault(native_graph(steps@)) is None,
            Err(e) => graph::graph_fault(native_graph(steps@)) is Some && e == native_graph_error(
                graph::graph_fault(native_graph(steps@))->Some_0,
            ),
        },
{
    let mut graph = Graph { nodes: Vec::new() };
    let mut i: usize = 0;
    while i < steps.len()
        invariant
            i <= steps.len(),
            graph@ == native_graph(steps@).take(i as int),
        decreases steps.len() - i,
    {
        let ghost before = graph@;
        graph.nodes.push(
            GraphNode { id: steps[i].plan_step_id, depends_on: copy_ids(&steps[i].depends_on) },
        );
        assert(graph@ =~= before.push(native_graph(steps@)[i as int]));
        assert(native_graph(steps@).take(i + 1) =~= before.push(native_graph(steps@)[i as int]));
        i += 1;
    }
    assert(native_graph(steps@).take(steps@.len() as int) =~= native_graph(steps@));
    match check_graph(&graph) {
        None => Ok(()),
        Some(GraphFault::ZeroStepId) => Err(NativeManifestValidationError::ZeroStepId),
        Some(GraphFault::DuplicateStepId(id)) => {
            Err(NativeManifestValidationError::DuplicateStepId(id))
        },
        Some(GraphFault::SelfDependency(id)) => {
            Err(NativeManifestValidationError::SelfDependency(id))
        },
        Some(GraphFault::UnknownDependency { step_id, dependency }) => {
            Err(NativeManifestValidationError::UnknownDependency { step_id, dependency })
        },
        Some(GraphFault::DependencyCycle) => Err(NativeManifestValidationError::DependencyCycle),
    }
}

fn check_barrier(steps: &Vec<NativeCompiledStep>, barrier: &NativeVerificationBarrier) -> (fault:
    Option<NativeManifestValidationError>)
    ensures
        fault == barrier_fault(steps@, *barrier),
{
    let id: u32 = barrier.after_plan_step_id;
    let mut i: usize = 0;
    while i < steps.len()
        invariant
            i <= steps.len(),
            id == barrier.after_plan_step_id,
            forall|j: int|
                0 <= j < i ==> !((#[trigger] steps@[j]).plan_step_id == id && changes_storage(
                    steps@[j].operation,
                )),
        decreases steps.len() - i,
    {
        if steps[i].plan_step_id == id && is_mutation_operation(&steps[i].operation) {
            assert(steps@[i as int].plan_step_id == id);
            if barrier.before_next_mutation && barrier.require_fresh_target_identity
                && barrier.require_fresh_capabilities && barrier.require_expected_state_check
                && barrier.stop_on_mismatch {
                return None;
            }
            return Some(NativeManifestValidationError::UnsafeVerificationBarrier(id));
        }
        i += 1;
    }
    Some(NativeManifestValidationError::UnexpectedVerificationBarrier(id))
}

fn count_barriers(barriers: &Vec<NativeVerificationBarrier>, id: u32) -> (count: usize)
    ensures
        count == barriers_after(barriers@, id).len(),
{
    let ghost keep = |b: NativeVerificationBarrier| b.after_plan_step_id == id;
    let mut count: usize = 0;
    let mut i: usize = 0;
    proof {
        reveal(Seq::filter);
    }
    while i < barriers.len()
        invariant
            i <= barriers.len(),
            count <= i,
            keep == (|b: NativeVerificationBarrier| b.after_plan_step_id == id),
            count == barriers@.take(i as int).filter(keep).len(),
        decreases barriers.len() - i,
    {
        proof {
            model::lemma_filter_next(barriers@, i as int, keep);
        }
        if barriers[i].after_plan_step_id == id {
            count += 1;
        }
        i += 1;
    }
    assert(barriers@.take(barriers@.len() as int) =~= barriers@);
    count
}

/// Validates a compiled manifest. Every mutation step is guarded by exactly one barrier that
/// fails closed, and no barrier stands anywhere else.
pub fn validate_native_manifest(manifest: &NativeCompiledManifest) -> (result: Result<
    (),
    NativeManifestValidationError,
>)
    ensures
        match result {
            Ok(_) => native_manifest_fault(*manifest) is None,
            Err(e) => native_manifest_fault(*manifest) == Some(e),
        },
{
    let ghost steps = manifest.steps@;
    let ghost barriers = manifest.verification_barriers@;
    match validate_native_dependency_graph(&manifest.steps) {
        Ok(_) => {},
        Err(e) => return Err(e),
    }
    let ghost on_barrier = |i: int| barrier_fault(steps, barriers[i]);
    let ghost on_step = |i: int| guard_fault(barriers, steps[i]);
    let mut i: usize = 0;
    while i < manifest.verification_barriers.len()
        invariant
            i <= barriers.len(),
            steps == manifest.steps@,
            barriers == manifest.verification_barriers@,
            graph::graph_fault(native_graph(steps)) is None,
            on_barrier == (|i: int| barrier_fault(steps, barriers[i])),
            text::first_some(i as int, on_barrier) is None,
        decreases barriers.len() - i,
    {
        match check_barrier(&manifest.steps, &manifest.verification_barriers[i]) {
            Some(e) => {
                proof {
                    assert(text::first_some(i + 1, on_barrier) == Some(e));
                    text::lemma_first_some_stays(i + 1, barriers.len() as int, on_barrier);
                }
                return Err(e);
            },
            None => {},
        }
        i += 1;
    }
    let mut k: usize = 0;
    while k < manifest.steps.len()
        invariant
            k <= steps.len(),
            steps == manifest.steps@,
            barriers == manifest.verification_barriers@,
            graph::graph_fault(native_graph(steps)) is None,
            on_barrier == (|i: int| barrier_fault(steps, barriers[i])),
            text::first_some(barriers.len() as int, on_barrier) is None,
            on_step == (|i: int| guard_fault(barriers, steps[i])),
            text::first_some(k as int, on_step) is None,
        decreases steps.len() - k,
    {
        let step = &manifest.steps[k];
        if is_mutation_operation(&step.operation) {
            let id: u32 = step.plan_step_id;
            let count: usize = count_barriers(&manifest.verification_barriers, id);
            if count != 1 {
                let e = if count == 0 {
                    NativeManifestValidationError::MissingVerificationBarrier(id)
                } else {
                    NativeManifestValidationError::DuplicateVerificationBarrier(id)
                };
                proof {
                    assert(text::first_some(k + 1, on_step) == Some(e));
                    text::lemma_first_some_stays(k + 1, steps.len() as int, on_step);
                }
                return Err(e);
            }
        }
        k += 1;
    }
    Ok(())
}

pub open spec fn reversibility_name(reversibility: Reversibility) -> Seq<char> {
    match reversibility {
        Reversibility::NotApplicable => "not_applicable"@,
        Reversibility::Reversible => "reversible"@,
        Reversibility::Irreversible => "irreversible"@,
    }
}

/// Different variants have different names.
pub proof fn lemma_reversibility_name_told(a: Reversibility, b: Reversibility)
    requires
        reversibility_name(a) == reversibility_name(b),
    ensures
        a == b,
{
    reveal_strlit("not_applicable");
    reveal_strlit("reversible");
    reveal_strlit("irreversible");
    assert("not_applicable"@.len() == 14);
    assert("reversible"@.len() == 10);
    assert("irreversible"@.len() == 12);
    assert(reversibility_name(a).len() == reversibility_name(b).len());
}

pub(crate) fn reversibility_text(reversibility: Reversibility) -> (name: &'static str)
    ensures
        name@ == reversibility_name(reversibility),
{
    match reversibility {
        Reversibility::NotApplicable => "not_applicable",
        Reversibility::Reversible => "reversible",
        Reversibility::Irreversible => "irreversible",
    }
}

/// The members of a native payload, in order.
pub open spec fn operation_parts(operation: NativeOperationSpec) -> Seq<Seq<char>> {
    match operation {
        NativeOperationSpec::RevalidateSnapshot => Seq::empty().push(json::json_field("operation"@, json::json_text("revalidate_snapshot"@))),
        NativeOperationSpec::BackupLvmMetadata { vg_uuid } => Seq::empty()
                .push(json::json_field("operation"@, json::json_text("backup_lvm_metadata"@)))
                .push(json::json_field("vg_uuid"@, json::json_text(vg_uuid@))),
        NativeOperationSpec::BackupPartitionTableMetadata { disk, table_label, table_id } => {
            Seq::empty()
                    .push(json::json_field("operation"@, json::json_text("backup_partition_table_metadata"@)))
                    .push(json::json_field("disk"@, json::json_text(disk@)))
                    .push(json::json_field("table_label"@, json::json_text(table_label@)))
                    .push(json::json_field("table_id"@, json::json_opt_text(text::opt_text(table_id))))
        },
        NativeOperationSpec::ExtendPartition {
            partition,
            start_sector,
            old_size_sectors,
            new_size_sectors,
            sector_size_bytes,
        } => Seq::empty()
                .push(json::json_field("operation"@, json::json_text("extend_partition"@)))
                .push(json::json_field("partition"@, json::json_text(partition@)))
                .push(json::json_field("start_sector"@, json::json_number(start_sector as int)))
                .push(json::json_field("old_size_sectors"@, json::json_number(old_size_sectors as int)))
                .push(json::json_field("new_size_sectors"@, json::json_number(new_size_sectors as int)))
                .push(json::json_field("sector_size_bytes"@, json::json_number(sector_size_bytes as int))),
        NativeOperationSpec::ResizePhysicalVolume { pv_uuid, expected_pv_size_bytes } => {
            Seq::empty()
                    .push(json::json_field("operation"@, json::json_text("resize_physical_volume"@)))
                    .push(json::json_field("pv_uuid"@, json::json_text(pv_uuid@)))
                    .push(json::json_field("expected_pv_size_bytes"@, json::json_number(expected_pv_size_bytes as int)))
        },
        NativeOperationSpec::ExtendLogicalVolume {
            lv_uuid,
            additional_extents,
            expected_lv_size_bytes,
        } => Seq::empty()
                .push(json::json_field("operation"@, json::json_text("extend_logical_volume"@)))
                .push(json::json_field("lv_uuid"@, json::json_text(lv_uuid@)))
                .push(json::json_field("additional_extents"@, json::json_number(additional_extents as int)))
                .push(json::json_field("expected_lv_size_bytes"@, json::json_number(expected_lv_size_bytes as int))),
        NativeOperationSpec::GrowFilesystem { fs_type, mountpoint } => Seq::empty()
                .push(json::json_field("operation"@, json::json_text("grow_filesystem"@)))
                .push(json::json_field("fs_type"@, json::json_text(fs_type@)))
                .push(json::json_field("mountpoint"@, json::json_opt_text(text::opt_text(mountpoint)))),
        NativeOperationSpec::RediscoverAndVerify => Seq::empty().push(json::json_field("operation"@, json::json_text("rediscover_and_verify"@))),
    }
}

/// The JSON form of a native payload, tagged with its operation.
pub open spec fn operation_json(operation: NativeOperationSpec) -> Seq<char> {
    json::json_object(operation_parts(operation))
}

/// Writes the JSON form of a native payload.
pub(crate) fn operation_literal(operation: &NativeOperationSpec) -> (text: String)
    ensures
        text@ == operation_json(*operation),
{
    let mut parts = Parts::new();
    match operation {
        NativeOperationSpec::RevalidateSnapshot => {
            parts.field_text("operation", "revalidate_snapshot");
        },
        NativeOperationSpec::BackupLvmMetadata { vg_uuid } => {
            parts.field_text("operation", "backup_lvm_metadata");
            parts.field_text("vg_uuid", vg_uuid.as_str());
        },
        NativeOperationSpec::BackupPartitionTableMetadata { disk, table_label, table_id } => {
            parts.field_text("operation", "backup_partition_table_metadata");
            parts.field_text("disk", disk.as_str());
            parts.field_text("table_label", table_label.as_str());
            parts.field_opt_text("table_id", table_id);
        },
        NativeOperationSpec::ExtendPartition {
            partition,
            start_sector,
            old_size_sectors,
            new_size_sectors,
            sector_size_bytes,
        } => {
            parts.field_text("operation", "extend_partition");
            parts.field_text("partition", partition.as_str());
            parts.field_number("start_sector", *start_sector);
            parts.field_number("old_size_sectors", *old_size_sectors);
            parts.field_number("new_size_sectors", *new_size_sectors);
            parts.field_number("sector_size_bytes", *sector_size_bytes);
        },
        NativeOperationSpec::ResizePhysicalVolume { pv_uuid, expected_pv_size_bytes } => {
            parts.field_text("operation", "resize_physical_volume");
            parts.field_text("pv_uuid", pv_uuid.as_str());
            parts.field_number("expected_pv_size_bytes", *expected_pv_size_bytes);
        },
        NativeOperationSpec::ExtendLogicalVolume {
            lv_uuid,
            additional_extents,
            expected_lv_size_bytes,
        } => {
            parts.field_text("operation", "extend_logical_volume");
            parts.field_text("lv_uuid", lv_uuid.as_str());
            parts.field_number("additional_extents", *additional_extents);
            parts.field_number("expected_lv_size_bytes", *expected_lv_size_bytes);
        },
        NativeOperationSpec::GrowFilesystem { fs_type, mountpoint } => {
            parts.field_text("operation", "grow_filesystem");
            parts.field_text("fs_type", fs_type.as_str());
            parts.field_opt_text("mountpoint", mountpoint);
        },
        NativeOperationSpec::RediscoverAndVerify => {
            parts.field_text("operation", "rediscover_and_verify");
        },
    }
    parts.object()
}

/// What a native step is fingerprinted by, in order.
pub open spec fn native_step_parts(step: NativeCompiledStep) -> Seq<Seq<char>> {
    Seq::empty()
        .push(json::json_field("plan_step_id"@, json::json_number(step.plan_step_id as int)))
        .push(json::json_field("depends_on"@, json::json_numbers(step.depends_on@)))
        .push(json::json_field("reversibility"@, json::json_text(reversibility_name(step.reversibility))))
        .push(json::json_field("role"@, json::json_text(execution_intent::role_name(step.role))))
        .push(json::json_field("operation"@, operation_json(step.operation)))
}

/// The JSON form of a compiled step.
pub open spec fn native_step_json(step: NativeCompiledStep) -> Seq<char> {
    json::json_object(native_step_parts(step))
}

/// What a native barrier is fingerprinted by, in order.
pub open spec fn native_barrier_parts(barrier: NativeVerificationBarrier) -> Seq<Seq<char>> {
    Seq::empty()
        .push(json::json_field("after_plan_step_id"@, json::json_number(barrier.after_plan_step_id as int)))
        .push(json::json_field("before_next_mutation"@, json::json_bool(barrier.before_next_mutation)))
        .push(json::json_field("require_fresh_target_identity"@, json::json_bool(barrier.require_fresh_target_identity)))
        .push(json::json_field("require_fresh_capabilities"@, json::json_bool(barrier.require_fresh_capabilities)))
        .push(json::json_field("require_expected_state_check"@, json::json_bool(barrier.require_expected_state_check)))
        .push(json::json_field("stop_on_mismatch"@, json::json_bool(barrier.stop_on_mismatch)))
}

/// The JSON form of a barrier.
pub open spec fn native_barrier_json(barrier: NativeVerificationBarrier) -> Seq<char> {
    json::json_object(native_barrier_parts(barrier))
}

/// What a native manifest is fingerprinted by, in order.
pub open spec fn native_manifest_parts(manifest: NativeCompiledManifest) -> Seq<Seq<char>> {
    Seq::empty()
        .push(json::json_field("source_manifest_id"@, json::json_text(manifest.source_manifest_id@)))
        .push(json::json_field("steps"@, json::json_array(manifest.steps@.map_values(|s: NativeCompiledStep| native_step_json(s)))))
        .push(json::json_field("verification_barriers"@, json::json_array(manifest.verification_barriers@.map_values(|b: NativeVerificationBarrier| native_barrier_json(b)))))
}

/// The JSON form of a compiled manifest.
pub open spec fn native_manifest_json(manifest: NativeCompiledManifest) -> Seq<char> {
    json::json_object(native_manifest_parts(manifest))
}

fn native_step_literal(step: &NativeCompiledStep) -> (text: String)
    ensures
        text@ == native_step_json(*step),
{
    let mut parts = Parts::new();
    parts.field_number("plan_step_id", step.plan_step_id as u64);
    parts.field("depends_on", numbers_literal(&step.depends_on));
    parts.field_text("reversibility", reversibility_text(step.reversibility));
    parts.field_text("role", role_text(step.role));
    parts.field("operation", operation_literal(&step.operation));
    parts.object()
}

fn native_barrier_literal(barrier: &NativeVerificationBarrier) -> (text: String)
    ensures
        text@ == native_barrier_json(*barrier),
{
    let mut parts = Parts::new();
    parts.field_number("after_plan_step_id", barrier.after_plan_step_id as u64);
    parts.field_bool("before_next_mutation", barrier.before_next_mutation);
    parts.field_bool("require_fresh_target_identity", barrier.require_fresh_target_identity);
    parts.field_bool("require_fresh_capabilities", barrier.require_fresh_capabilities);
    parts.field_bool("require_expected_state_check", barrier.require_expected_state_check);
    parts.field_bool("stop_on_mismatch", barrier.stop_on_mismatch);
    parts.object()
}

fn native_manifest_literal(manifest: &NativeCompiledManifest) -> (text: String)
    ensures
        text@ == native_manifest_json(*manifest),
{
    let ghost steps = manifest.steps@.map_values(|s: NativeCompiledStep| native_step_json(s));
    let mut step_parts = Parts::new();
    let mut i: usize = 0;
    while i < manifest.steps.len()
        invariant
            i <= manifest.steps@.len(),
            steps == manifest.steps@.map_values(|s: NativeCompiledStep| native_step_json(s)),
            step_parts@ == steps.take(i as int),
        decreases manifest.steps@.len() - i,
    {
        step_parts.push(native_step_literal(&manifest.steps[i]));
        assert(steps.take(i + 1) =~= steps.take(i as int).push(steps[i as int]));
        i += 1;
    }
    assert(steps.take(steps.len() as int) =~= steps);
    let ghost barriers = manifest.verification_barriers@.map_values(
        |b: NativeVerificationBarrier| native_barrier_json(b),
    );
    let mut barrier_parts = Parts::new();
    let mut k: usize = 0;
    while k < manifest.verification_barriers.len()
        invariant
            k <= manifest.verification_barriers@.len(),
            barriers == manifest.verification_barriers@.map_values(
                |b: NativeVerificationBarrier| native_barrier_json(b),
            ),
            barrier_parts@ == barriers.take(k as int),
        decreases manifest.verification_barriers@.len() - k,
    {
        barrier_parts.push(native_barrier_literal(&manifest.verification_barriers[k]));
        assert(barriers.take(k + 1) =~= barriers.take(k as int).push(barriers[k as int]));
        k += 1;
    }
    assert(barriers.take(barriers.len() as int) =~= barriers);
    let mut parts = Parts::new();
    parts.field_text("source_manifest_id", manifest.source_manifest_id.as_str());
    parts.field("steps", step_parts.array());
    parts.field("verification_barriers", barrier_parts.array());
    parts.object()
}

/// A compiled manifest that passed validation, together with its fingerprint.
#[derive(Debug, PartialEq, Eq)]
pub struct ValidatedNativeManifest {
    manifest: NativeCompiledManifest,
    digest: String,
}

impl ValidatedNativeManifest {
    /// The validated manifest.
    pub closed spec fn source(&self) -> NativeCompiledManifest {
        self.manifest
    }

    /// The fingerprint of the validated manifest.
    pub closed spec fn digest_text(&self) -> Seq<char> {
        self.digest@
    }

    #[verifier::type_invariant]
    spec fn is_bound(&self) -> bool {
        &&& native_manifest_fault(self.manifest) is None
        &&& self.digest@ == digest::text_fingerprint(native_manifest_json(self.manifest))
        &&& text::is_digest_text(self.digest@)
    }

    pub fn manifest(&self) -> (manifest: &NativeCompiledManifest)
        ensures
            *manifest == self.source(),
            native_manifest_fault(*manifest) is None,
    {
        proof {
            use_type_invariant(&*self);
        }
        &self.manifest
    }

    pub fn digest(&self) -> (digest: &str)
        ensures
            digest@ == self.digest_text(),
            digest@ == digest::text_fingerprint(native_manifest_json(self.source())),
            text::is_digest_text(digest@),
    {
        proof {
            use_type_invariant(&*self);
        }
        self.digest.as_str()
    }
}

/// Validates a compiled manifest and binds it to its fingerprint.
pub fn validate_and_bind_native_manifest(manifest: NativeCompiledManifest) -> (result: Result<
    ValidatedNativeManifest,
    NativeManifestValidationError,
>)
    ensures
        match result {
            Ok(validated) => native_manifest_fault(manifest) is None && validated.source()
                == manifest && validated.digest_text() == digest::text_fingerprint(
                native_manifest_json(manifest),
            ),
            Err(e) => native_manifest_fault(manifest) == Some(e),
        },
{
    match validate_native_manifest(&manifest) {
        Ok(_) => {},
        Err(e) => return Err(e),
    }
    let digest = fingerprint_text(native_manifest_literal(&manifest).as_str());
    Ok(ValidatedNativeManifest { manifest, digest })
}

/// Every mutation of a valid manifest is followed by exactly one barrier, and that barrier fails
/// closed.
pub proof fn valid_manifest_guards_every_mutation(manifest: NativeCompiledManifest, i: int)
    requires
        native_manifest_fault(manifest) is None,
        0 <= i < manifest.steps@.len(),
        changes_storage(manifest.steps@[i].operation),
    ensures
        ({
            let guards = barriers_after(
                manifest.verification_barriers@,
                manifest.steps@[i].plan_step_id,
            );
            guards.len() == 1 && guards[0].fails_closed()
        }),
{
    let steps = manifest.steps@;
    let barriers = manifest.verification_barriers@;
    let on_barrier = |i: int| barrier_fault(steps, barriers[i]);
    let on_step = |i: int| guard_fault(barriers, steps[i]);
    text::lemma_first_some_none(steps.len() as int, on_step, i);
    assert(on_step(i) is None);
    let id = steps[i].plan_step_id;
    let keep = |b: NativeVerificationBarrier| b.after_plan_step_id == id;
    let guards = barriers.filter(keep);
    assert(guards.len() == 1);
    let k = model::lemma_filter_from(barriers, keep, 0);
    text::lemma_first_some_none(barriers.len() as int, on_barrier, k);
    assert(on_barrier(k) is None);
}

/// The class of a native operation.
pub open spec fn operation_kind(operation: NativeOperationSpec) -> NativeOperationKind {
    match operation {
        NativeOperationSpec::RevalidateSnapshot => NativeOperationKind::RevalidateSnapshot,
        NativeOperationSpec::BackupLvmMetadata { .. } => NativeOperationKind::BackupLvmMetadata,
        NativeOperationSpec::BackupPartitionTableMetadata { .. } => {
            NativeOperationKind::BackupPartitionTableMetadata
        },
        NativeOperationSpec::ExtendPartition { .. } => NativeOperationKind::ExtendPartition,
        NativeOperationSpec::ResizePhysicalVolume { .. } => {
            NativeOperationKind::ResizePhysicalVolume
        },
        NativeOperationSpec::ExtendLogicalVolume { .. } => NativeOperationKind::ExtendLogicalVolume,
        NativeOperationSpec::GrowFilesystem { .. } => NativeOperationKind::GrowFilesystem,
        NativeOperationSpec::RediscoverAndVerify => NativeOperationKind::RediscoverAndVerify,
    }
}

/// Classifies a native operation.
pub fn kind_of_operation(operation: &NativeOperationSpec) -> (kind: NativeOperationKind)
    ensures
        kind == operation_kind(*operation),
{
    match operation {
        NativeOperationSpec::RevalidateSnapshot => NativeOperationKind::RevalidateSnapshot,
        NativeOperationSpec::BackupLvmMetadata { .. } => NativeOperationKind::BackupLvmMetadata,
        NativeOperationSpec::BackupPartitionTableMetadata { .. } => {
            NativeOperationKind::BackupPartitionTableMetadata
        },
        NativeOperationSpec::ExtendPartition { .. } => NativeOperationKind::ExtendPartition,
        NativeOperationSpec::ResizePhysicalVolume { .. } => {
            NativeOperationKind::ResizePhysicalVolume
        },
        NativeOperationSpec::ExtendLogicalVolume { .. } => NativeOperationKind::ExtendLogicalVolume,
        NativeOperationSpec::GrowFilesystem { .. } => NativeOperationKind::GrowFilesystem,
        NativeOperationSpec::RediscoverAndVerify => NativeOperationKind::RediscoverAndVerify,
    }
}

/// The steps of a manifest that are meant to change storage, in order.
pub open spec fn mutation_steps(steps: Seq<NativeCompiledStep>) -> Seq<NativeCompiledStep> {
    steps.filter(|s: NativeCompiledStep| s.role == FrozenIntentRole::MutationCandidate)
}

/// The numbers of steps.
pub open spec fn step_ids(steps: Seq<NativeCompiledStep>) -> Seq<u32> {
    steps.map_values(|s: NativeCompiledStep| s.plan_step_id)
}

/// Where the steps that are meant to change storage stand.
pub(crate) fn mutation_positions(steps: &Vec<NativeCompiledStep>) -> (positions: Vec<usize>)
    ensures
        positions@.len() == mutation_steps(steps@).len(),
        forall|k: int|
            #![trigger positions@[k]]
            #![trigger mutation_steps(steps@)[k]]
            0 <= k < positions@.len() ==> positions@[k] < steps@.len() && mutation_steps(
                steps@,
            )[k] == steps@[positions@[k] as int],
{
    let ghost keep = |s: NativeCompiledStep| s.role == FrozenIntentRole::MutationCandidate;
    let mut positions: Vec<usize> = Vec::new();
    let mut i: usize = 0;
    proof {
        reveal(Seq::filter);
    }
    while i < steps.len()
        invariant
            i <= steps@.len(),
            keep == (|s: NativeCompiledStep| s.role == FrozenIntentRole::MutationCandidate),
            positions@.len() == steps@.take(i as int).filter(keep).len(),
            forall|k: int|
                #![trigger positions@[k]]
                0 <= k < positions@.len() ==> positions@[k] < steps@.len() && steps@.take(
                    i as int,
                ).filter(keep)[k] == steps@[positions@[k] as int],
        decreases steps@.len() - i,
    {
        proof {
            model::lemma_filter_next(steps@, i as int, keep);
        }
        if matches!(steps[i].role, FrozenIntentRole::MutationCandidate) {
            positions.push(i);
        }
        i += 1;
    }
    assert(steps@.take(steps@.len() as int) =~= steps@);
    positions
}

/// The first step with one number.
pub open spec fn step_index(steps: Seq<NativeCompiledStep>, id: u32) -> Option<int> {
    text::first_some(
        steps.len() as int,
        |i: int|
            if steps[i].plan_step_id == id {
                Some(i)
            } else {
                None
            },
    )
}

/// Looks up a step by its number.
pub(crate) fn find_native_step(steps: &Vec<NativeCompiledStep>, id: u32) -> (index: Option<usize>)
    ensures
        match index {
            Some(i) => i < steps@.len() && steps@[i as int].plan_step_id == id && step_index(
                steps@,
                id,
            ) == Some(i as int),
            None => step_index(steps@, id) is None,
        },
{
    let ghost at = |i: int|
        if steps@[i].plan_step_id == id {
            Some(i)
        } else {
            None
        };
    let mut i: usize = 0;
    while i < steps.len()
        invariant
            i <= steps@.len(),
            at == (|i: int|
                if steps@[i].plan_step_id == id {
                    Some(i)
                } else {
                    None
                }),
            text::first_some(i as int, at) is None,
        decreases steps@.len() - i,
    {
        if steps[i].plan_step_id == id {
            proof {
                assert(text::first_some(i + 1, at) == Some(i as int));
                text::lemma_first_some_stays(i + 1, steps@.len() as int, at);
            }
            return Some(i);
        }
        i += 1;
    }
    None
}

/// The steps of a valid manifest have numbers other than zero, and no two share one.
pub proof fn valid_manifest_numbers_its_steps(manifest: NativeCompiledManifest, i: int, j: int)
    requires
        native_manifest_fault(manifest) is None,
        0 <= i < manifest.steps@.len(),
        0 <= j < manifest.steps@.len(),
    ensures
        manifest.steps@[i].plan_step_id != 0,
        i != j ==> manifest.steps@[i].plan_step_id != manifest.steps@[j].plan_step_id,
{
    let nodes = native_graph(manifest.steps@);
    let ids = graph::node_ids(nodes);
    graph::valid_ids_are_distinct(ids, i, j);
    assert(ids[i] == manifest.steps@[i].plan_step_id);
    assert(ids[j] == manifest.steps@[j].plan_step_id);
}

/// Where no position reports anything, nothing is reported.
proof fn lemma_all_quiet<E>(n: int, at: spec_fn(int) -> Option<E>)
    requires
        forall|i: int| 0 <= i < n ==> (#[trigger] at(i)) is None,
    ensures
        text::first_some(n, at) is None,
    decreases n,
{
    if n > 0 {
        lemma_all_quiet(n - 1, at);
    }
}

/// Each barrier of a plan stands behind a mutation of it.
proof fn lemma_barrier_follows_mutation(steps: Seq<PlanStep>, k: int) -> (j: int)
    requires
        0 <= k < execution_intent::plan_barriers(steps).len(),
    ensures
        0 <= j < steps.len(),
        execution_intent::role_of(steps[j].operation) == FrozenIntentRole::MutationCandidate,
        execution_intent::plan_barriers(steps)[k] == execution_intent::closed_barrier(steps[j].id),
    decreases steps.len(),
{
    let last = steps.len() - 1;
    if execution_intent::role_of(steps.last().operation) == FrozenIntentRole::MutationCandidate && k
        == execution_intent::plan_barriers(steps).len() - 1 {
        last
    } else {
        lemma_barrier_follows_mutation(steps.drop_last(), k)
    }
}

/// The native form of the barriers of a plan.
spec fn native_plan_barriers(steps: Seq<PlanStep>) -> Seq<NativeVerificationBarrier> {
    execution_intent::plan_barriers(steps).map_values(|b: VerificationBarrierSpec| native_barrier_of(b))
}

/// A number that no step has stands before no barrier; the number of a mutation, where no two
/// steps share one, stands before exactly one.
proof fn lemma_barrier_count(steps: Seq<PlanStep>, id: u32)
    requires
        forall|i: int, j: int| 0 <= i < j < steps.len() ==> steps[i].id != steps[j].id,
    ensures
        (forall|i: int| 0 <= i < steps.len() ==> (#[trigger] steps[i]).id != id) ==> barriers_after(
            native_plan_barriers(steps),
            id,
        ).len() == 0,
        forall|j: int|
            0 <= j < steps.len() && (#[trigger] steps[j]).id == id && execution_intent::role_of(steps[j].operation)
                == FrozenIntentRole::MutationCandidate ==> barriers_after(
                native_plan_barriers(steps),
                id,
            ).len() == 1,
    decreases steps.len(),
{
    reveal(Seq::filter);
    let barriers = native_plan_barriers(steps);
    if steps.len() == 0 {
        assert(barriers =~= Seq::empty());
    } else {
        let fewer = steps.drop_last();
        lemma_barrier_count(fewer, id);
        assert forall|i: int| 0 <= i < fewer.len() implies fewer[i] == steps[i] by {}
        if execution_intent::role_of(steps.last().operation) == FrozenIntentRole::MutationCandidate {
            assert(barriers =~= native_plan_barriers(fewer).push(
                native_barrier_of(execution_intent::closed_barrier(steps.last().id)),
            ));
            assert(barriers.drop_last() =~= native_plan_barriers(fewer));
        }
        if steps.last().id == id {
            assert forall|i: int| 0 <= i < fewer.len() implies (#[trigger] fewer[i]).id != id by {
                assert(steps[i].id != steps[steps.len() - 1].id);
            }
        }
        assert forall|j: int|
            0 <= j < steps.len() && (#[trigger] steps[j]).id == id && execution_intent::role_of(steps[j].operation)
                == FrozenIntentRole::MutationCandidate implies barriers_after(barriers, id).len()
            == 1 by {
            if j < fewer.len() {
                assert(fewer[j].id == id);
                assert(steps[j].id != steps[steps.len() - 1].id);
            }
        }
    }
}

/// The compiled form of a frozen intent is always valid: what freezing let through, validation
/// lets through too.
pub proof fn frozen_intent_compiles_validly(
    session: SessionModel,
    approval: ApprovalModel,
    journal_json: Seq<u8>,
    intent: IntentModel,
    native: NativeCompiledManifest,
)
    requires
        execution_intent::intent_obstacle(session, approval) is None,
        execution_intent::is_frozen_intent(intent, session, approval, journal_json),
        all_compile_to(intent.steps, native.steps@),
        native.verification_barriers@ == intent.verification_barriers.map_values(
            |b: VerificationBarrierSpec| native_barrier_of(b),
        ),
    ensures
        native_manifest_fault(native) is None,
{
    let plan = session.handoff.plan.steps@;
    let steps = native.steps@;
    let barriers = native.verification_barriers@;
    assert forall|i: int| 0 <= i < plan.len() implies (#[trigger] steps[i]).plan_step_id
        == plan[i].id && steps[i].depends_on@ == plan[i].depends_on@ && (changes_storage(
        steps[i].operation,
    ) <==> execution_intent::role_of(plan[i].operation) == FrozenIntentRole::MutationCandidate) by {
        assert(execution_intent::freezes_to(plan[i], intent.steps[i]));
        assert(compiles_to(intent.steps[i], steps[i]));
    }
    assert(native_graph(steps) =~= execution_intent::plan_graph(plan)) by {
        assert forall|i: int| 0 <= i < plan.len() implies native_graph(steps)[i] == execution_intent::plan_graph(
            plan,
        )[i] by {
            assert(steps[i].depends_on@ == plan[i].depends_on@);
        }
    }
    let on_barrier = |i: int| barrier_fault(steps, barriers[i]);
    assert forall|k: int| 0 <= k < barriers.len() implies (#[trigger] on_barrier(k)) is None by {
        let j = lemma_barrier_follows_mutation(plan, k);
        assert(changes_storage(steps[j].operation));
        assert(barriers[k] == native_barrier_of(execution_intent::closed_barrier(plan[j].id)));
    }
    lemma_all_quiet(barriers.len() as int, on_barrier);
    let ids = graph::node_ids(execution_intent::plan_graph(plan));
    assert forall|i: int, j: int| 0 <= i < j < plan.len() implies plan[i].id != plan[j].id by {
        graph::valid_ids_are_distinct(ids, i, j);
        assert(ids[i] == plan[i].id && ids[j] == plan[j].id);
    }
    let on_step = |i: int| guard_fault(barriers, steps[i]);
    assert forall|i: int| 0 <= i < steps.len() implies (#[trigger] on_step(i)) is None by {
        lemma_barrier_count(plan, plan[i].id);
        assert(barriers == native_plan_barriers(plan));
        assert(steps[i].plan_step_id == plan[i].id);
    }
    lemma_all_quiet(steps.len() as int, on_step);
}

/// The name under which an operation is recorded.
pub open spec fn recorded_operation_name(kind: NativeOperationKind) -> Seq<char> {
    match kind {
        NativeOperationKind::RevalidateSnapshot => "revalidate_snapshot"@,
        NativeOperationKind::BackupLvmMetadata => "backup_lvm_metadata"@,
        NativeOperationKind::BackupPartitionTableMetadata => "backup_partition_table_metadata"@,
        NativeOperationKind::ExtendPartition => "extend_partition"@,
        NativeOperationKind::ResizePhysicalVolume => "resize_physical_volume"@,
        NativeOperationKind::ExtendLogicalVolume => "extend_logical_volume"@,
        NativeOperationKind::GrowFilesystem => "grow_filesystem"@,
        NativeOperationKind::RediscoverAndVerify => "rediscover_and_verify"@,
    }
}

/// Different variants have different names.
pub proof fn lemma_recorded_operation_name_told(a: NativeOperationKind, b: NativeOperationKind)
    requires
        recorded_operation_name(a) == recorded_operation_name(b),
    ensures
        a == b,
{
    reveal_strlit("revalidate_snapshot");
    reveal_strlit("backup_lvm_metadata");
    reveal_strlit("backup_partition_table_metadata");
    reveal_strlit("extend_partition");
    reveal_strlit("resize_physical_volume");
    reveal_strlit("extend_logical_volume");
    reveal_strlit("grow_filesystem");
    reveal_strlit("rediscover_and_verify");
    assert("revalidate_snapshot"@.len() == 19);
    assert("backup_lvm_metadata"@.len() == 19);
    assert("backup_partition_table_metadata"@.len() == 31);
    assert("extend_partition"@.len() == 16);
    assert("resize_physical_volume"@.len() == 22);
    assert("extend_logical_volume"@.len() == 21);
    assert("grow_filesystem"@.len() == 15);
    assert("rediscover_and_verify"@.len() == 21);
    assert(recorded_operation_name(a).len() == recorded_operation_name(b).len());
    assert("revalidate_snapshot"@[0] == 'r');
    assert("backup_lvm_metadata"@[0] == 'b');
    assert("backup_partition_table_metadata"@[0] == 'b');
    assert("extend_partition"@[0] == 'e');
    assert("resize_physical_volume"@[0] == 'r');
    assert("extend_logical_volume"@[0] == 'e');
    assert("grow_filesystem"@[0] == 'g');
    assert("rediscover_and_verify"@[0] == 'r');
    assert(recorded_operation_name(a)[0] == recorded_operation_name(b)[0]);
}

/// The two hold the same.
pub open spec fn same_operation(a: NativeOperationSpec, b: NativeOperationSpec) -> bool {
    match (a, b) {
        (NativeOperationSpec::RevalidateSnapshot, NativeOperationSpec::RevalidateSnapshot) => true,
        (
            NativeOperationSpec::BackupLvmMetadata { vg_uuid: x0 },
            NativeOperationSpec::BackupLvmMetadata { vg_uuid: y0 },
        ) => x0@ == y0@,
        (
            NativeOperationSpec::BackupPartitionTableMetadata { disk: x0, table_label: x1, table_id: x2 },
            NativeOperationSpec::BackupPartitionTableMetadata { disk: y0, table_label: y1, table_id: y2 },
        ) => x0@ == y0@ && x1@ == y1@ && text::opt_text(x2) == text::opt_text(y2),
        (
            NativeOperationSpec::ExtendPartition { partition: x0, start_sector: x1, old_size_sectors: x2, new_size_sectors: x3, sector_size_bytes: x4 },
            NativeOperationSpec::ExtendPartition { partition: y0, start_sector: y1, old_size_sectors: y2, new_size_sectors: y3, sector_size_bytes: y4 },
        ) => x0@ == y0@ && x1 == y1 && x2 == y2 && x3 == y3 && x4 == y4,
        (
            NativeOperationSpec::ResizePhysicalVolume { pv_uuid: x0, expected_pv_size_bytes: x1 },
            NativeOperationSpec::ResizePhysicalVolume { pv_uuid: y0, expected_pv_size_bytes: y1 },
        ) => x0@ == y0@ && x1 == y1,
        (
            NativeOperationSpec::ExtendLogicalVolume { lv_uuid: x0, additional_extents: x1, expected_lv_size_bytes: x2 },
            NativeOperationSpec::ExtendLogicalVolume { lv_uuid: y0, additional_extents: y1, expected_lv_size_bytes: y2 },
        ) => x0@ == y0@ && x1 == y1 && x2 == y2,
        (
            NativeOperationSpec::GrowFilesystem { fs_type: x0, mountpoint: x1 },
            NativeOperationSpec::GrowFilesystem { fs_type: y0, mountpoint: y1 },
        ) => x0@ == y0@ && text::opt_text(x1) == text::opt_text(y1),
        (NativeOperationSpec::RediscoverAndVerify, NativeOperationSpec::RediscoverAndVerify) => true,
        _ => false,
    }
}

/// The form is one value.
pub proof fn lemma_operation_value(x: NativeOperationSpec)
    ensures
        json_reading::is_value(operation_json(x)),
{
    broadcast use crate::json_reading::group_json_reading;

    assert(json_reading::are_values(operation_parts(x)));
}

proof fn lemma_operation_tag(x: NativeOperationSpec)
    ensures
        operation_parts(x).len() > 0,
        operation_parts(x)[0] == json::json_field(
            "operation"@,
            json::json_text(recorded_operation_name(operation_kind(x))),
        ),
{
}

/// The form tells all of it.
pub proof fn lemma_operation_told(a: NativeOperationSpec, b: NativeOperationSpec)
    requires
        operation_json(a) == operation_json(b),
    ensures
        same_operation(a, b),
{
    broadcast use crate::json_reading::group_json_reading;

    let p = operation_parts(a);
    let q = operation_parts(b);
    assert(json_reading::are_values(p) && json_reading::are_values(q));
    lemma_operation_tag(a);
    lemma_operation_tag(b);
    assert(p[0] == q[0]);
    lemma_recorded_operation_name_told(operation_kind(a), operation_kind(b));
    assert(p.len() == q.len());
    if p.len() > 1 {
        assert(p[1] == q[1]);
    }
    if p.len() > 2 {
        assert(p[2] == q[2]);
    }
    if p.len() > 3 {
        assert(p[3] == q[3]);
    }
    if p.len() > 4 {
        assert(p[4] == q[4]);
    }
    if p.len() > 5 {
        assert(p[5] == q[5]);
    }
}

/// The two hold the same.
pub open spec fn same_native_step(a: NativeCompiledStep, b: NativeCompiledStep) -> bool {
    &&& a.plan_step_id == b.plan_step_id
    &&& a.depends_on@ == b.depends_on@
    &&& a.reversibility == b.reversibility
    &&& a.role == b.role
    &&& same_operation(a.operation, b.operation)
}

/// The form is one value.
pub proof fn lemma_native_step_value(x: NativeCompiledStep)
    ensures
        json_reading::is_value(native_step_json(x)),
{
    broadcast use crate::json_reading::group_json_reading;

    lemma_operation_value(x.operation);
    assert(json_reading::are_values(native_step_parts(x)));
}

proof fn lemma_native_step_told(a: NativeCompiledStep, b: NativeCompiledStep)
    requires
        native_step_json(a) == native_step_json(b),
    ensures
        same_native_step(a, b),
{
    broadcast use crate::json_reading::group_json_reading;

    lemma_operation_value(a.operation);
    lemma_operation_value(b.operation);
    let p = native_step_parts(a);
    let q = native_step_parts(b);
    assert(json_reading::are_values(p) && json_reading::are_values(q));
    assert(p[0] == q[0]);
    assert(p[1] == q[1]);
    assert(p[2] == q[2]);
    assert(p[3] == q[3]);
    assert(p[4] == q[4]);
    lemma_reversibility_name_told(a.reversibility, b.reversibility);
    execution_intent::lemma_role_name_told(a.role, b.role);
    lemma_operation_told(a.operation, b.operation);
}

/// The form is one value.
pub proof fn lemma_native_barrier_value(x: NativeVerificationBarrier)
    ensures
        json_reading::is_value(native_barrier_json(x)),
{
    broadcast use crate::json_reading::group_json_reading;

    assert(json_reading::are_values(native_barrier_parts(x)));
}

proof fn lemma_native_barrier_told(a: NativeVerificationBarrier, b: NativeVerificationBarrier)
    requires
        native_barrier_json(a) == native_barrier_json(b),
    ensures
        a == b,
{
    broadcast use crate::json_reading::group_json_reading;

    let p = native_barrier_parts(a);
    let q = native_barrier_parts(b);
    assert(json_reading::are_values(p) && json_reading::are_values(q));
    assert(p[0] == q[0]);
    assert(p[1] == q[1]);
    assert(p[2] == q[2]);
    assert(p[3] == q[3]);
    assert(p[4] == q[4]);
    assert(p[5] == q[5]);
}

/// The two hold the same.
pub open spec fn same_native_manifest(a: NativeCompiledManifest, b: NativeCompiledManifest) -> bool {
    &&& a.source_manifest_id@ == b.source_manifest_id@
    &&& a.steps@.len() == b.steps@.len()
    &&& forall|i: int|
        0 <= i < a.steps@.len() ==> same_native_step(#[trigger] a.steps@[i], b.steps@[i])
    &&& a.verification_barriers@ == b.verification_barriers@
}

proof fn lemma_native_manifest_told(a: NativeCompiledManifest, b: NativeCompiledManifest)
    requires
        native_manifest_json(a) == native_manifest_json(b),
    ensures
        same_native_manifest(a, b),
{
    broadcast use crate::json_reading::group_json_reading;

    let write_step = |s: NativeCompiledStep| native_step_json(s);
    let write_barrier = |b: NativeVerificationBarrier| native_barrier_json(b);
    assert forall|s: NativeCompiledStep| json_reading::is_value(#[trigger] write_step(s)) by {
        lemma_native_step_value(s);
    }
    assert forall|x: NativeVerificationBarrier| json_reading::is_value(
        #[trigger] write_barrier(x),
    ) by {
        lemma_native_barrier_value(x);
    }
    json_reading::list_is_value(a.steps@, write_step);
    json_reading::list_is_value(b.steps@, write_step);
    json_reading::list_is_value(a.verification_barriers@, write_barrier);
    json_reading::list_is_value(b.verification_barriers@, write_barrier);
    let p = native_manifest_parts(a);
    let q = native_manifest_parts(b);
    assert(json_reading::are_values(p) && json_reading::are_values(q));
    assert(p[0] == q[0]);
    assert(p[1] == q[1]);
    assert(p[2] == q[2]);
    json_reading::list_tells_its_items(a.steps@, b.steps@, write_step);
    json_reading::list_tells_its_items(
        a.verification_barriers@,
        b.verification_barriers@,
        write_barrier,
    );
    assert forall|i: int| 0 <= i < a.steps@.len() implies same_native_step(
        #[trigger] a.steps@[i],
        b.steps@[i],
    ) by {
        assert(write_step(a.steps@[i]) == write_step(b.steps@[i]));
        lemma_native_step_told(a.steps@[i], b.steps@[i]);
    }
    assert forall|i: int| 0 <= i < a.verification_barriers@.len() implies a.verification_barriers@[i]
        == b.verification_barriers@[i] by {
        assert(write_barrier(a.verification_barriers@[i]) == write_barrier(
            b.verification_barriers@[i],
        ));
        lemma_native_barrier_told(a.verification_barriers@[i], b.verification_barriers@[i]);
    }
    assert(a.verification_barriers@ =~= b.verification_barriers@);
}

/// Manifests that hold different things have different digests, short of a SHA-256 collision.
pub proof fn changed_native_manifest_is_detected(
    a: NativeCompiledManifest,
    b: NativeCompiledManifest,
)
    requires
        !same_native_manifest(a, b),
    ensures
        digest::text_fingerprint(native_manifest_json(a)) != digest::text_fingerprint(
            native_manifest_json(b),
        ) || digest::is_collision(native_manifest_json(a), native_manifest_json(b)),
{
    if digest::text_fingerprint(native_manifest_json(a)) == digest::text_fingerprint(
        native_manifest_json(b),
    ) {
        digest::fingerprint_tells_its_text(native_manifest_json(a), native_manifest_json(b));
        if native_manifest_json(a) == native_manifest_json(b) {
            lemma_native_manifest_told(a, b);
        }
    }
}

/// The native form of a frozen action is of the same class and carries the same values.
pub proof fn native_form_says_what_the_action_says(action: FrozenIntentAction)
    ensures
        ({
            let native = native_spec_of(action);
            let kind = native_kind_of(action);
            &&& operation_kind(native) == kind
            &&& action is RevalidateSnapshot <==> native is RevalidateSnapshot
            &&& action is RevalidateSnapshot <==> kind is RevalidateSnapshot
            &&& action is RediscoverAndVerify <==> native is RediscoverAndVerify
            &&& action is RediscoverAndVerify <==> kind is RediscoverAndVerify
            &&& action is BackupLvmMetadata <==> native is BackupLvmMetadata
            &&& action is BackupLvmMetadata <==> kind is BackupLvmMetadata
            &&& action is BackupLvmMetadata ==> native->BackupLvmMetadata_vg_uuid@
                == action->BackupLvmMetadata_vg_uuid@
            &&& action is BackupPartitionTableMetadata <==> native is BackupPartitionTableMetadata
            &&& action is BackupPartitionTableMetadata <==> kind is BackupPartitionTableMetadata
            &&& action is BackupPartitionTableMetadata ==> {
                &&& native->BackupPartitionTableMetadata_disk@
                    == action->BackupPartitionTableMetadata_disk@
                &&& native->BackupPartitionTableMetadata_table_label@
                    == action->BackupPartitionTableMetadata_table_label@
                &&& reading::read_alike(
                    native->BackupPartitionTableMetadata_table_id,
                    action->BackupPartitionTableMetadata_table_id,
                )
            }
            &&& action is ExtendPartition <==> native is ExtendPartition
            &&& action is ExtendPartition <==> kind is ExtendPartition
            &&& action is ExtendPartition ==> {
                &&& native->ExtendPartition_partition@ == action->ExtendPartition_partition@
                &&& native->ExtendPartition_start_sector == action->ExtendPartition_start_sector
                &&& native->ExtendPartition_old_size_sectors
                    == action->ExtendPartition_old_size_sectors
                &&& native->ExtendPartition_new_size_sectors
                    == action->ExtendPartition_new_size_sectors
                &&& native->ExtendPartition_sector_size_bytes
                    == action->ExtendPartition_sector_size_bytes
            }
            &&& action is ExtendLogicalVolume <==> native is ExtendLogicalVolume
            &&& action is ExtendLogicalVolume <==> kind is ExtendLogicalVolume
            &&& action is ExtendLogicalVolume ==> {
                &&& native->ExtendLogicalVolume_lv_uuid@ == action->ExtendLogicalVolume_lv_uuid@
                &&& native->ExtendLogicalVolume_additional_extents
                    == action->ExtendLogicalVolume_additional_extents
                &&& native->ExtendLogicalVolume_expected_lv_size_bytes
                    == action->ExtendLogicalVolume_expected_lv_size_bytes
            }
            &&& action is GrowFilesystem <==> native is GrowFilesystem
            &&& action is GrowFilesystem <==> kind is GrowFilesystem
            &&& action is GrowFilesystem ==> {
                &&& native->GrowFilesystem_fs_type@ == action->GrowFilesystem_fs_type@
                &&& reading::reads(native->GrowFilesystem_mountpoint, action->GrowFilesystem_mountpoint@)
            }
            &&& !(native is ResizePhysicalVolume)
        }),
{
}

/// An operation changes storage exactly where its class does, and these are the four that make
/// something larger.
pub proof fn only_growth_changes_storage(operation: NativeOperationSpec)
    ensures
        changes_storage(operation) <==> operation_kind(operation).mutates(),
        changes_storage(operation) <==> !(operation is RevalidateSnapshot
            || operation is BackupLvmMetadata || operation is BackupPartitionTableMetadata
            || operation is RediscoverAndVerify),
        operation_kind(operation) is ResizePhysicalVolume <==> operation is ResizePhysicalVolume,
{
}

/// A plan step that was frozen and compiled is the same step: the same number, dependencies,
/// reversibility and values.
pub proof fn compiled_step_says_what_its_plan_step_says(
    step: PlanStep,
    frozen: FrozenIntentStep,
    native: NativeCompiledStep,
)
    requires
        execution_intent::freezes_to(step, frozen),
        compiles_to(frozen, native),
    ensures
        native.plan_step_id == step.id,
        native.depends_on@ == step.depends_on@,
        native.reversibility == step.reversibility,
        native.role is MutationCandidate <==> changes_storage(native.operation),
        native.role is Verification <==> native.operation is RediscoverAndVerify,
        match step.operation {
            Operation::RevalidateSnapshot => native.operation is RevalidateSnapshot,
            Operation::BackupLvmMetadata { vg_uuid } => {
                &&& native.operation is BackupLvmMetadata
                &&& native.operation->BackupLvmMetadata_vg_uuid@ == vg_uuid@
            },
            Operation::BackupPartitionTableMetadata { disk, table_label, table_id } => {
                &&& native.operation is BackupPartitionTableMetadata
                &&& native.operation->BackupPartitionTableMetadata_disk@ == disk@
                &&& native.operation->BackupPartitionTableMetadata_table_label@ == table_label@
                &&& reading::read_alike(native.operation->BackupPartitionTableMetadata_table_id, table_id)
            },
            Operation::ExtendPartition {
                partition,
                start_sector,
                old_size_sectors,
                new_size_sectors,
                sector_size_bytes,
            } => {
                &&& native.operation is ExtendPartition
                &&& native.operation->ExtendPartition_partition@ == partition@
                &&& native.operation->ExtendPartition_start_sector == start_sector
                &&& native.operation->ExtendPartition_old_size_sectors == old_size_sectors
                &&& native.operation->ExtendPartition_new_size_sectors == new_size_sectors
                &&& native.operation->ExtendPartition_sector_size_bytes == sector_size_bytes
            },
            Operation::ExtendLogicalVolume {
                lv_uuid,
                additional_extents,
                expected_lv_size_bytes,
            } => {
                &&& native.operation is ExtendLogicalVolume
                &&& native.operation->ExtendLogicalVolume_lv_uuid@ == lv_uuid@
                &&& native.operation->ExtendLogicalVolume_additional_extents == additional_extents
                &&& native.operation->ExtendLogicalVolume_expected_lv_size_bytes
                    == expected_lv_size_bytes
            },
            Operation::GrowFilesystem { fs_type, mountpoint } => {
                &&& native.operation is GrowFilesystem
                &&& native.operation->GrowFilesystem_fs_type@ == fs_type@
                &&& reading::reads(native.operation->GrowFilesystem_mountpoint, mountpoint@)
            },
            Operation::RediscoverAndVerify => native.operation is RediscoverAndVerify,
        },
{
}

/// A native barrier stands after the same step and demands the same as the barrier it came from.
pub proof fn native_barrier_demands_the_same(barrier: VerificationBarrierSpec)
    ensures
        ({
            let native = native_barrier_of(barrier);
            &&& native.after_plan_step_id == barrier.after_plan_step_id
            &&& native.before_next_mutation == barrier.before_next_mutation
            &&& native.require_fresh_target_identity == barrier.require_fresh_target_identity
            &&& native.require_fresh_capabilities == barrier.require_fresh_capabilities
            &&& native.require_expected_state_check == barrier.require_expected_state_check
            &&& native.stop_on_mismatch == barrier.stop_on_mismatch
        }),
{
}

/// The barrier at `b` is the only one after the step with this number.
pub open spec fn only_barrier_at(
    barriers: Seq<NativeVerificationBarrier>,
    id: u32,
    b: int,
) -> bool {
    &&& 0 <= b < barriers.len()
    &&& forall|c: int|
        0 <= c < barriers.len() ==> ((#[trigger] barriers[c]).after_plan_step_id == id <==> c == b)
}

/// A manifest is valid exactly where its graph is, every barrier stands after a step that changes
/// storage and demands all five things, and every such step has one barrier of its own.
pub proof fn manifest_is_valid_where_every_mutation_is_guarded(manifest: NativeCompiledManifest)
    ensures
        native_manifest_fault(manifest) is None <==> {
            let steps = manifest.steps@;
            let barriers = manifest.verification_barriers@;
            &&& graph::graph_fault(native_graph(steps)) is None
            &&& forall|b: int|
                0 <= b < barriers.len() ==> {
                    &&& exists|i: int|
                        0 <= i < steps.len() && (#[trigger] steps[i]).plan_step_id == (
                        #[trigger] barriers[b]).after_plan_step_id && changes_storage(
                            steps[i].operation,
                        )
                    &&& barriers[b].before_next_mutation
                    &&& barriers[b].require_fresh_target_identity
                    &&& barriers[b].require_fresh_capabilities
                    &&& barriers[b].require_expected_state_check
                    &&& barriers[b].stop_on_mismatch
                }
            &&& forall|i: int|
                0 <= i < steps.len() && changes_storage((#[trigger] steps[i]).operation)
                    ==> exists|b: int| only_barrier_at(barriers, steps[i].plan_step_id, b)
        },
{
    let steps = manifest.steps@;
    let barriers = manifest.verification_barriers@;
    let on_barrier = |i: int| barrier_fault(steps, barriers[i]);
    let on_step = |i: int| guard_fault(barriers, steps[i]);
    reading::report_is_the_first_one(barriers.len() as int, on_barrier);
    reading::report_is_the_first_one(steps.len() as int, on_step);
    assert forall|i: int| 0 <= i < steps.len() implies (guard_fault(barriers, #[trigger] steps[i])
        is None <==> (changes_storage(steps[i].operation) ==> exists|b: int|
        only_barrier_at(barriers, steps[i].plan_step_id, b))) by {
        lemma_only_barrier(barriers, steps[i].plan_step_id);
    }
    assert((forall|i: int| 0 <= i < barriers.len() ==> #[trigger] on_barrier(i) is None) <==> (
    forall|b: int| 0 <= b < barriers.len() ==> barrier_fault(steps, #[trigger] barriers[b]) is None))
        by {
        if forall|i: int| 0 <= i < barriers.len() ==> #[trigger] on_barrier(i) is None {
            assert forall|b: int| 0 <= b < barriers.len() implies barrier_fault(
                steps,
                #[trigger] barriers[b],
            ) is None by {
                assert(on_barrier(b) is None);
            }
        }
    }
    assert((forall|i: int| 0 <= i < steps.len() ==> #[trigger] on_step(i) is None) <==> (forall|
        i: int,
    |
        0 <= i < steps.len() ==> guard_fault(barriers, #[trigger] steps[i]) is None)) by {
        if forall|i: int| 0 <= i < steps.len() ==> #[trigger] on_step(i) is None {
            assert forall|i: int| 0 <= i < steps.len() implies guard_fault(
                barriers,
                #[trigger] steps[i],
            ) is None by {
                assert(on_step(i) is None);
            }
        }
    }
}

proof fn lemma_only_barrier(barriers: Seq<NativeVerificationBarrier>, id: u32)
    ensures
        barriers_after(barriers, id).len() == 1 <==> exists|b: int|
            only_barrier_at(barriers, id, b),
{
    let keep = |b: NativeVerificationBarrier| b.after_plan_step_id == id;
    reading::lemma_one_kept(barriers, keep);
    reading::lemma_same_search(barriers, keep);
    assert forall|b: int| #[trigger] only_barrier_at(barriers, id, b) <==> reading::only_kept_at(
        barriers,
        keep,
        b,
    ) by {
        assert(forall|c: int|
            0 <= c < barriers.len() ==> (keep(#[trigger] barriers[c])
                <==> barriers[c].after_plan_step_id == id));
    }
    if exists|b: int| reading::only_kept_at(barriers, keep, b) {
        let b = choose|b: int| reading::only_kept_at(barriers, keep, b);
        assert(only_barrier_at(barriers, id, b));
    }
}

/// The mutations of a manifest are its steps in that role, all of them and in order.
pub proof fn mutations_are_the_steps_in_that_role(steps: Seq<NativeCompiledStep>, step: NativeCompiledStep)
    ensures
        mutation_steps(Seq::empty()).len() == 0,
        step.role is MutationCandidate ==> mutation_steps(steps.push(step)) == mutation_steps(
            steps,
        ).push(step),
        !(step.role is MutationCandidate) ==> mutation_steps(steps.push(step)) == mutation_steps(
            steps,
        ),
        step_ids(steps).len() == steps.len(),
        forall|i: int| 0 <= i < steps.len() ==> step_ids(steps)[i] == (#[trigger] steps[i]).plan_step_id,
{
    reveal(Seq::filter);
    assert(steps.push(step).drop_last() =~= steps);
}

/// The step that is looked up is the first with its number.
pub proof fn looked_up_step_is_the_first(steps: Seq<NativeCompiledStep>, id: u32)
    ensures
        step_index(steps, id) is None <==> forall|i: int|
            0 <= i < steps.len() ==> (#[trigger] steps[i]).plan_step_id != id,
        step_index(steps, id) matches Some(i) ==> {
            &&& 0 <= i < steps.len()
            &&& steps[i].plan_step_id == id
            &&& forall|j: int| 0 <= j < i ==> (#[trigger] steps[j]).plan_step_id != id
        },
{
    let at = |i: int|
        if steps[i].plan_step_id == id {
            Some(i)
        } else {
            None
        };
    reading::report_is_the_first_one(steps.len() as int, at);
    assert(step_index(steps, id) == text::first_some(steps.len() as int, at));
    if step_index(steps, id) is None {
        assert forall|i: int| 0 <= i < steps.len() implies (#[trigger] steps[i]).plan_step_id != id by {
            assert(at(i) is None);
        }
    } else {
        let i = choose|i: int| reading::is_first_report(steps.len() as int, at, i);
        assert(at(i) == Some(i));
        assert forall|j: int| 0 <= j < i implies (#[trigger] steps[j]).plan_step_id != id by {
            assert(at(j) is None);
        }
    }
}

/// Each class is recorded under its own name.
pub proof fn class_is_recorded_under_its_name(operation: NativeOperationSpec)
    ensures
        ({
            let name = recorded_operation_name(operation_kind(operation));
            &&& operation is RevalidateSnapshot ==> name == "revalidate_snapshot"@
            &&& operation is BackupLvmMetadata ==> name == "backup_lvm_metadata"@
            &&& operation is BackupPartitionTableMetadata ==> name
                == "backup_partition_table_metadata"@
            &&& operation is ExtendPartition ==> name == "extend_partition"@
            &&& operation is ResizePhysicalVolume ==> name == "resize_physical_volume"@
            &&& operation is ExtendLogicalVolume ==> name == "extend_logical_volume"@
            &&& operation is GrowFilesystem ==> name == "grow_filesystem"@
            &&& operation is RediscoverAndVerify ==> name == "rediscover_and_verify"@
        }),
{
}

/// Each refusal of a manifest names a fault of its graph, or a barrier or a step by its number with
/// what is wrong there.
pub proof fn refused_manifest_names_its_reason(manifest: NativeCompiledManifest)
    ensures
        native_manifest_fault(manifest) matches Some(e) ==> {
            let steps = manifest.steps@;
            let barriers = manifest.verification_barriers@;
            match e {
                NativeManifestValidationError::UnexpectedVerificationBarrier(id) => exists|b: int|
                    {
                        &&& 0 <= b < barriers.len()
                        &&& (#[trigger] barriers[b]).after_plan_step_id == id
                        &&& forall|i: int|
                            0 <= i < steps.len() && (#[trigger] steps[i]).plan_step_id == id
                                ==> !changes_storage(steps[i].operation)
                    },
                NativeManifestValidationError::UnsafeVerificationBarrier(id) => exists|b: int|
                    {
                        &&& 0 <= b < barriers.len()
                        &&& (#[trigger] barriers[b]).after_plan_step_id == id
                        &&& !(barriers[b].before_next_mutation
                            && barriers[b].require_fresh_target_identity
                            && barriers[b].require_fresh_capabilities
                            && barriers[b].require_expected_state_check
                            && barriers[b].stop_on_mismatch)
                    },
                NativeManifestValidationError::MissingVerificationBarrier(id) => {
                    &&& exists|i: int|
                        0 <= i < steps.len() && (#[trigger] steps[i]).plan_step_id == id
                            && changes_storage(steps[i].operation)
                    &&& forall|b: int|
                        0 <= b < barriers.len() ==> (#[trigger] barriers[b]).after_plan_step_id
                            != id
                },
                NativeManifestValidationError::DuplicateVerificationBarrier(id) => {
                    &&& exists|i: int|
                        0 <= i < steps.len() && (#[trigger] steps[i]).plan_step_id == id
                            && changes_storage(steps[i].operation)
                    &&& !exists|b: int| only_barrier_at(barriers, id, b)
                },
                NativeManifestValidationError::ZeroStepId => graph::graph_fault(native_graph(steps))
                    == Some(GraphFault::ZeroStepId),
                NativeManifestValidationError::DuplicateStepId(id) => graph::graph_fault(
                    native_graph(steps),
                ) == Some(GraphFault::DuplicateStepId(id)),
                NativeManifestValidationError::SelfDependency(id) => graph::graph_fault(
                    native_graph(steps),
                ) == Some(GraphFault::SelfDependency(id)),
                NativeManifestValidationError::UnknownDependency { step_id, dependency } => {
                    graph::graph_fault(native_graph(steps)) == Some(
                        GraphFault::UnknownDependency { step_id, dependency },
                    )
                },
                NativeManifestValidationError::DependencyCycle => graph::graph_fault(
                    native_graph(steps),
                ) == Some(GraphFault::DependencyCycle),
            }
        },
{
    let steps = manifest.steps@;
    let barriers = manifest.verification_barriers@;
    let on_barrier = |i: int| barrier_fault(steps, barriers[i]);
    let on_step = |i: int| guard_fault(barriers, steps[i]);
    reading::report_is_the_first_one(barriers.len() as int, on_barrier);
    reading::report_is_the_first_one(steps.len() as int, on_step);
    if graph::graph_fault(native_graph(steps)) is None {
        let first = text::first_some(barriers.len() as int, on_barrier);
        if first is Some {
            let b = choose|b: int| reading::is_first_report(barriers.len() as int, on_barrier, b);
            assert(barrier_fault(steps, barriers[b]) == first);
        } else if text::first_some(steps.len() as int, on_step) is Some {
            let i = choose|i: int| reading::is_first_report(steps.len() as int, on_step, i);
            let id = steps[i].plan_step_id;
            assert(guard_fault(barriers, steps[i]) is Some);
            lemma_only_barrier(barriers, id);
            let keep = |b: NativeVerificationBarrier| b.after_plan_step_id == id;
            reading::lemma_same_search(barriers, keep);
            reading::lemma_none_kept(barriers, keep);
            if barriers_after(barriers, id).len() == 0 {
                assert forall|b: int| 0 <= b < barriers.len() implies (
                #[trigger] barriers[b]).after_plan_step_id != id by {
                    assert(!keep(barriers[b]));
                }
            }
        }
    }
}

} // verus!
