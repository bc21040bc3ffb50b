//! The values that the planner hands over, as far as the executor reads them.

use vstd::prelude::*;

use crate::text;
use crate::text::{copy_opt, copy_texts, opt_is, same_opt, same_text, same_texts};

verus! {

/// How far an operation has come, as its journal records it.
#[derive(Clone, Copy, Debug, PartialEq, Eq, Structural)]
pub enum JournalPhase {
    Planned,
    HostLockHeld,
    IdentityRevalidated,
    PreconditionsVerified,
    Approved,
    Executing,
    Verifying,
    Completed,
    Aborted,
    RecoveryRequired,
}

/// Whether a plan step can be undone.
#[derive(Clone, Copy, Debug, PartialEq, Eq, Structural)]
pub enum Reversibility {
    NotApplicable,
    Reversible,
    Irreversible,
}

#[derive(Clone, Copy, Debug, PartialEq, Eq, Structural)]
pub enum LvmIdentityKind {
    PhysicalVolume,
    VolumeGroup,
    LogicalVolume,
}

#[derive(Clone, Copy, Debug, PartialEq, Eq, Structural)]
pub enum NodeKind {
    Disk,
    Partition,
    Loop,
    Other,
}

/// Whether the layers between target and disk form a supported profile.
#[derive(Clone, Copy, Debug, PartialEq, Eq, Structural)]
pub enum LayerRouteStatus {
    SupportedProfile,
    Unsupported,
}

#[derive(Clone, Copy, Debug, PartialEq, Eq, Structural)]
pub enum FilesystemDecisionState {
    ReadyOnlineGrow,
    ReadOnlyHealthCheckRequired,
    OfflineHealthCheckRequired,
    AdapterRequired,
    Blocked,
}

#[derive(Clone, Copy, Debug, PartialEq, Eq, Structural)]
pub enum FilesystemCheckKind {
    XfsMountedScrubNoModify,
    Ext4OfflineE2fsckNoModify,
}

#[derive(Clone, Copy, Debug, PartialEq, Eq, Structural)]
pub enum ExecutionHandoffStatus {
    Ready,
    Blocked,
}

/// What the planner's own fingerprint check says of a binding.
#[derive(Clone, Copy, Debug, PartialEq, Eq, Structural)]
pub enum BindingIntegrity {
    /// The identifier is the fingerprint of the other fields.
    Matches,
    /// The identifier is not the fingerprint of the other fields.
    Differs,
    /// The fingerprint could not be computed.
    Unavailable,
}

#[derive(Clone, Debug, PartialEq, Eq)]
pub struct DeviceIdentity {
    pub kind: NodeKind,
    pub path: String,
    pub kernel_name: Option<String>,
    pub parent_kernel_name: Option<String>,
    pub size_bytes: u64,
    pub start_512_sector: Option<u64>,
    pub logical_sector_bytes: Option<u64>,
    pub uuid: Option<String>,
    pub partition_uuid: Option<String>,
    pub model: Option<String>,
    pub serial: Option<String>,
    pub filesystem_type: Option<String>,
}

#[derive(Clone, Debug, PartialEq, Eq)]
pub struct PartitionGeometryIdentity {
    pub partition: String,
    pub disk: Option<String>,
    pub table_label: Option<String>,
    pub table_id: Option<String>,
    pub sector_size_bytes: Option<u64>,
    pub start_sector: Option<u64>,
    pub size_sectors: Option<u64>,
    pub record_uuid: Option<String>,
}

#[derive(Clone, Debug, PartialEq, Eq)]
pub struct LvmIdentity {
    pub kind: LvmIdentityKind,
    pub name: String,
    pub uuid: Option<String>,
    pub size_bytes: u64,
    pub free_bytes: Option<u64>,
    pub pe_start_bytes: Option<u64>,
    pub extent_size_bytes: Option<u64>,
    pub free_extent_count: Option<u64>,
    pub pv_count: Option<u64>,
    pub lv_count: Option<u64>,
    pub attributes: Option<String>,
    pub layout: Option<String>,
    pub role: Option<String>,
}

#[derive(Clone, Debug, PartialEq, Eq)]
pub struct FilesystemIdentity {
    pub device: String,
    pub fs_type: String,
    pub fs_version: Option<String>,
    pub uuid: Option<String>,
    pub backing_device_size_bytes: u64,
    pub observed_filesystem_size_bytes: Option<u64>,
}

#[derive(Clone, Debug, PartialEq, Eq)]
pub struct MountIdentity {
    pub target: String,
    pub source: Option<String>,
    pub fs_type: Option<String>,
    pub options: Vec<String>,
}

/// Everything that identifies a storage target at one moment.
#[derive(Clone, Debug, PartialEq, Eq)]
pub struct TargetIdentityManifest {
    pub schema_version: u32,
    pub target: String,
    pub manifest_digest: String,
    pub resolved_device: String,
    pub route_status: LayerRouteStatus,
    pub route_issue_codes: Vec<String>,
    pub devices: Vec<DeviceIdentity>,
    pub partitions: Vec<PartitionGeometryIdentity>,
    pub lvm: Vec<LvmIdentity>,
    pub filesystem: Option<FilesystemIdentity>,
    pub mounts: Vec<MountIdentity>,
}

/// A change between a frozen and a fresh target identity.
#[derive(Clone, Debug, PartialEq, Eq)]
pub struct IdentityChange {
    pub code: String,
    pub message: String,
}

/// The planner's comparison of a frozen with a fresh target identity.
#[derive(Clone, Debug, PartialEq, Eq)]
pub struct IdentityRevalidation {
    pub matches: bool,
    pub fresh_digest: Option<String>,
    pub changes: Vec<IdentityChange>,
}

/// An operation of an approved plan.
#[derive(Clone, Debug, PartialEq, Eq)]
pub enum Operation {
    RevalidateSnapshot,
    BackupLvmMetadata { vg_uuid: String },
    BackupPartitionTableMetadata { disk: String, table_label: String, table_id: Option<String> },
    ExtendPartition {
        partition: String,
        start_sector: u64,
        old_size_sectors: u64,
        new_size_sectors: u64,
        sector_size_bytes: u64,
    },
    ExtendLogicalVolume { lv_uuid: String, additional_extents: u64, expected_lv_size_bytes: u64 },
    GrowFilesystem { fs_type: String, mountpoint: String },
    RediscoverAndVerify,
}

#[derive(Clone, Debug, PartialEq, Eq)]
pub struct PlanStep {
    pub id: u32,
    pub depends_on: Vec<u32>,
    pub operation: Operation,
    pub reversibility: Reversibility,
}

#[derive(Clone, Debug, PartialEq, Eq)]
pub struct ReadOnlyFilesystemCheck {
    pub kind: FilesystemCheckKind,
    pub tool: String,
    pub args: Vec<String>,
    pub requires_mounted: bool,
    pub requires_unmounted: bool,
    pub run_automatically_on_refresh: bool,
}

/// What the planner decided about growing the filesystem of a target.
#[derive(Clone, Debug, PartialEq, Eq)]
pub struct FilesystemGrowthDecision {
    pub target: String,
    pub device: Option<String>,
    pub mountpoint: Option<String>,
    pub fs_type: Option<String>,
    pub state: FilesystemDecisionState,
    pub metadata_state: Option<String>,
    pub read_only_check: Option<ReadOnlyFilesystemCheck>,
    pub reasons: Vec<String>,
    pub required_actions: Vec<String>,
}

/// The content of a health check.
pub struct CheckModel {
    pub kind: FilesystemCheckKind,
    pub tool: Seq<char>,
    pub args: Seq<Seq<char>>,
    pub requires_mounted: bool,
    pub requires_unmounted: bool,
    pub run_automatically_on_refresh: bool,
}

impl View for ReadOnlyFilesystemCheck {
    type V = CheckModel;

    open spec fn view(&self) -> CheckModel {
        CheckModel {
            kind: self.kind,
            tool: self.tool@,
            args: text::texts(self.args@),
            requires_mounted: self.requires_mounted,
            requires_unmounted: self.requires_unmounted,
            run_automatically_on_refresh: self.run_automatically_on_refresh,
        }
    }
}

pub open spec fn check_model(check: Option<ReadOnlyFilesystemCheck>) -> Option<CheckModel> {
    match check {
        Some(c) => Some(c@),
        None => None,
    }
}

/// The content of a filesystem decision.
pub struct DecisionModel {
    pub target: Seq<char>,
    pub device: Option<Seq<char>>,
    pub mountpoint: Option<Seq<char>>,
    pub fs_type: Option<Seq<char>>,
    pub state: FilesystemDecisionState,
    pub metadata_state: Option<Seq<char>>,
    pub read_only_check: Option<CheckModel>,
    pub reasons: Seq<Seq<char>>,
    pub required_actions: Seq<Seq<char>>,
}

impl View for FilesystemGrowthDecision {
    type V = DecisionModel;

    open spec fn view(&self) -> DecisionModel {
        DecisionModel {
            target: self.target@,
            device: text::opt_text(self.device),
            mountpoint: text::opt_text(self.mountpoint),
            fs_type: text::opt_text(self.fs_type),
            state: self.state,
            metadata_state: text::opt_text(self.metadata_state),
            read_only_check: check_model(self.read_only_check),
            reasons: text::texts(self.reasons@),
            required_actions: text::texts(self.required_actions@),
        }
    }
}

pub fn copy_decision(a: &FilesystemGrowthDecision) -> (copy: FilesystemGrowthDecision)
    ensures
        copy@ == a@,
{
    FilesystemGrowthDecision {
        target: a.target.clone(),
        device: copy_opt(&a.device),
        mountpoint: copy_opt(&a.mountpoint),
        fs_type: copy_opt(&a.fs_type),
        state: a.state,
        metadata_state: copy_opt(&a.metadata_state),
        read_only_check: match &a.read_only_check {
            Some(c) => Some(
                ReadOnlyFilesystemCheck {
                    kind: c.kind,
                    tool: c.tool.clone(),
                    args: copy_texts(&c.args),
                    requires_mounted: c.requires_mounted,
                    requires_unmounted: c.requires_unmounted,
                    run_automatically_on_refresh: c.run_automatically_on_refresh,
                },
            ),
            None => None,
        },
        reasons: copy_texts(&a.reasons),
        required_actions: copy_texts(&a.required_actions),
    }
}

/// The exact plan of a handoff.
#[derive(Clone, Debug, PartialEq, Eq)]
pub struct FrozenPlan {
    pub plan_id: String,
    pub target: String,
    pub steps: Vec<PlanStep>,
}

/// What the planner froze for execution.
#[derive(Clone, Debug, PartialEq, Eq)]
pub struct FrozenExecutionHandoff {
    pub handoff_id: String,
    pub status: ExecutionHandoffStatus,
    pub mutation_enabled: bool,
    pub owner_acceptance_required: bool,
    pub plan: FrozenPlan,
    pub target_identity: TargetIdentityManifest,
    pub filesystem_decision: FilesystemGrowthDecision,
}

#[derive(Clone, Debug, PartialEq, Eq)]
pub struct ExactApprovalBinding {
    pub schema_version: u32,
    pub approval_id: String,
    pub plan_id: String,
    pub evidence_bundle_id: String,
    pub target_manifest_digest: String,
    pub locked_session_id: String,
    pub preconditions_journal_digest: String,
    pub integrity: BindingIntegrity,
}

#[derive(Clone, Debug, PartialEq, Eq)]
pub struct ExecutionStartBinding {
    pub schema_version: u32,
    pub execution_id: String,
    pub journal_id: String,
    pub plan_id: String,
    pub approval_id: String,
    pub source_manifest_id: String,
    pub native_manifest_digest: String,
    pub fresh_identity_digest: String,
    pub mutation_step_ids: Vec<u32>,
    pub approved_journal_digest: String,
    pub integrity: BindingIntegrity,
}

#[derive(Clone, Debug, PartialEq, Eq)]
pub struct VerifiedMutationBoundaryBinding {
    pub schema_version: u32,
    pub boundary_id: String,
    pub execution_id: String,
    pub completed_step_id: u32,
    pub next_step_id: u32,
    pub fresh_identity_digest: String,
    pub final_step_id: Option<u32>,
    pub final_identity_digest: Option<String>,
    pub integrity: BindingIntegrity,
}

#[derive(Clone, Debug, PartialEq, Eq)]
pub struct JournalEvent {
    pub sequence: u64,
    pub from: JournalPhase,
    pub to: JournalPhase,
    pub code: String,
}

/// The record of one operation on one target.
#[derive(Clone, Debug, PartialEq, Eq)]
pub struct OperationJournal {
    pub schema_version: u32,
    pub journal_id: String,
    pub plan_id: String,
    pub target: String,
    pub baseline_manifest_digest: String,
    pub phase: JournalPhase,
    pub mutation_may_have_started: bool,
    pub approval: Option<ExactApprovalBinding>,
    pub execution: Option<ExecutionStartBinding>,
    pub verified_boundary: Option<VerifiedMutationBoundaryBinding>,
    pub events: Vec<JournalEvent>,
}

impl ExecutionStartBinding {
    /// A binding of the supported schema whose fingerprint matches.
    pub open spec fn is_sound(&self) -> bool {
        self.schema_version == 1 && self.integrity == BindingIntegrity::Matches
    }

    pub fn sound(&self) -> (yes: bool)
        ensures
            yes == self.is_sound(),
    {
        self.schema_version == 1 && self.integrity == BindingIntegrity::Matches
    }
}

/// The position of the first occurrence of a step in an ordered list of steps.
pub open spec fn step_position(ids: Seq<u32>, id: u32) -> Option<int> {
    ids.index_of_first(id)
}

/// Two steps stand next to each other, in this order.
pub open spec fn adjacent(ids: Seq<u32>, first: u32, second: u32) -> bool {
    exists|i: int| 0 <= i < ids.len() - 1 && #[trigger] ids[i] == first && ids[i + 1] == second
}

/// Looks up a step in an ordered list of steps.
pub fn find_step(ids: &Vec<u32>, id: u32) -> (position: Option<usize>)
    ensures
        match position {
            Some(p) => p < ids@.len() && ids@[p as int] == id && step_position(ids@, id) == Some(
                p as int,
            ) && forall|j: int| 0 <= j < p ==> ids@[j] != id,
            None => step_position(ids@, id) is None,
        },
{
    let mut i: usize = 0;
    while i < ids.len()
        invariant
            i <= ids.len(),
            forall|j: int| 0 <= j < i ==> ids@[j] != id,
        decreases ids.len() - i,
    {
        if ids[i] == id {
            proof {
                ids@.index_of_first_ensures(id);
                assert(ids@[i as int] == id);
            }
            return Some(i);
        }
        i += 1;
    }
    proof {
        ids@.index_of_first_ensures(id);
    }
    None
}

/// Whether two steps stand next to each other, in this order.
pub fn steps_adjacent(ids: &Vec<u32>, first: u32, second: u32) -> (yes: bool)
    ensures
        yes == adjacent(ids@, first, second),
{
    let mut i: usize = 0;
    while i < ids.len()
        invariant
            i <= ids.len(),
            forall|j: int|
                0 <= j < i && j < ids@.len() - 1 ==> !(#[trigger] ids@[j] == first && ids@[j + 1]
                    == second),
        decreases ids.len() - i,
    {
        if ids.len() - i > 1 && ids[i] == first && ids[i + 1] == second {
            assert(ids@[i as int] == first && ids@[i + 1] == second);
            return true;
        }
        i += 1;
    }
    false
}

/// How many entries of a list answer to a search.
#[derive(Clone, Copy, Debug, PartialEq, Eq, Structural)]
pub enum Lookup {
    Missing,
    Unique(usize),
    Ambiguous,
}

/// `found` reports the entries of `items` that answer to a search, of which `answers` lists all.
pub open spec fn lookup_of<T>(items: Seq<T>, answers: Seq<T>, found: Lookup) -> bool {
    match found {
        Lookup::Missing => answers.len() == 0,
        Lookup::Unique(i) => i < items.len() && answers == seq![items[i as int]],
        Lookup::Ambiguous => answers.len() > 1,
    }
}

/// One more entry either joins the answers or leaves them as they are.
pub proof fn lemma_filter_next<T>(items: Seq<T>, n: int, keep: spec_fn(T) -> bool)
    requires
        0 <= n < items.len(),
    ensures
        items.take(n + 1).filter(keep) == if keep(items[n]) {
            items.take(n).filter(keep).push(items[n])
        } else {
            items.take(n).filter(keep)
        },
{
    reveal(Seq::filter);
    assert(items.take(n + 1).drop_last() =~= items.take(n));
    assert(items.take(n + 1).last() == items[n]);
}

/// What a search finds is an entry of the list that answers to it.
pub proof fn lemma_filter_from<T>(items: Seq<T>, keep: spec_fn(T) -> bool, i: int) -> (k: int)
    requires
        0 <= i < items.filter(keep).len(),
    ensures
        0 <= k < items.len(),
        items[k] == items.filter(keep)[i],
        keep(items[k]),
    decreases items.len(),
{
    reveal(Seq::filter);
    let rest = items.drop_last().filter(keep);
    if keep(items.last()) && i == rest.len() {
        items.len() - 1
    } else {
        lemma_filter_from(items.drop_last(), keep, i)
    }
}

/// The volumes of one kind with one UUID.
pub open spec fn lvm_with(items: Seq<LvmIdentity>, kind: LvmIdentityKind, uuid: Seq<char>) -> Seq<
    LvmIdentity,
> {
    items.filter(|e: LvmIdentity| e.kind == kind && text::opt_text(e.uuid) == Some(uuid))
}

pub fn find_lvm(items: &Vec<LvmIdentity>, kind: LvmIdentityKind, uuid: &str) -> (found: Lookup)
    ensures
        lookup_of(items@, lvm_with(items@, kind, uuid@), found),
{
    let ghost keep = |e: LvmIdentity| e.kind == kind && text::opt_text(e.uuid) == Some(uuid@);
    let mut found = Lookup::Missing;
    let mut i: usize = 0;
    proof {
        reveal(Seq::filter);
    }
    while i < items.len()
        invariant
            i <= items.len(),
            keep == (|e: LvmIdentity| e.kind == kind && text::opt_text(e.uuid) == Some(uuid@)),
            lookup_of(items@, items@.take(i as int).filter(keep), found),
        decreases items.len() - i,
    {
        proof {
            lemma_filter_next(items@, i as int, keep);
        }
        if items[i].kind == kind && opt_is(&items[i].uuid, uuid) {
            found = match found {
                Lookup::Missing => Lookup::Unique(i),
                _ => Lookup::Ambiguous,
            };
            assert(lookup_of(items@, items@.take(i + 1).filter(keep), found)) by {
                if found is Unique {
                    assert(items@.take(i + 1).filter(keep) =~= seq![items@[i as int]]);
                }
            }
        }
        i += 1;
    }
    assert(items@.take(items@.len() as int) =~= items@);
    found
}

/// The partitions with one path.
pub open spec fn partitions_named(items: Seq<PartitionGeometryIdentity>, name: Seq<char>) -> Seq<
    PartitionGeometryIdentity,
> {
    items.filter(|e: PartitionGeometryIdentity| e.partition@ == name)
}

pub fn find_partition(items: &Vec<PartitionGeometryIdentity>, name: &str) -> (found: Lookup)
    ensures
        lookup_of(items@, partitions_named(items@, name@), found),
{
    let ghost keep = |e: PartitionGeometryIdentity| e.partition@ == name@;
    let mut found = Lookup::Missing;
    let mut i: usize = 0;
    proof {
        reveal(Seq::filter);
    }
    while i < items.len()
        invariant
            i <= items.len(),
            keep == (|e: PartitionGeometryIdentity| e.partition@ == name@),
            lookup_of(items@, items@.take(i as int).filter(keep), found),
        decreases items.len() - i,
    {
        proof {
            lemma_filter_next(items@, i as int, keep);
        }
        if same_text(items[i].partition.as_str(), name) {
            found = match found {
                Lookup::Missing => Lookup::Unique(i),
                _ => Lookup::Ambiguous,
            };
            assert(lookup_of(items@, items@.take(i + 1).filter(keep), found)) by {
                if found is Unique {
                    assert(items@.take(i + 1).filter(keep) =~= seq![items@[i as int]]);
                }
            }
        }
        i += 1;
    }
    assert(items@.take(items@.len() as int) =~= items@);
    found
}

/// The devices with one path.
pub open spec fn devices_at(items: Seq<DeviceIdentity>, path: Seq<char>) -> Seq<DeviceIdentity> {
    items.filter(|e: DeviceIdentity| e.path@ == path)
}

pub fn find_device(items: &Vec<DeviceIdentity>, path: &str) -> (found: Lookup)
    ensures
        lookup_of(items@, devices_at(items@, path@), found),
{
    let ghost keep = |e: DeviceIdentity| e.path@ == path@;
    let mut found = Lookup::Missing;
    let mut i: usize = 0;
    proof {
        reveal(Seq::filter);
    }
    while i < items.len()
        invariant
            i <= items.len(),
            keep == (|e: DeviceIdentity| e.path@ == path@),
            lookup_of(items@, items@.take(i as int).filter(keep), found),
        decreases items.len() - i,
    {
        proof {
            lemma_filter_next(items@, i as int, keep);
        }
        if same_text(items[i].path.as_str(), path) {
            found = match found {
                Lookup::Missing => Lookup::Unique(i),
                _ => Lookup::Ambiguous,
            };
            assert(lookup_of(items@, items@.take(i + 1).filter(keep), found)) by {
                if found is Unique {
                    assert(items@.take(i + 1).filter(keep) =~= seq![items@[i as int]]);
                }
            }
        }
        i += 1;
    }
    assert(items@.take(items@.len() as int) =~= items@);
    found
}

/// The mounts of one filesystem type on one mountpoint.
pub open spec fn mounts_on(items: Seq<MountIdentity>, target: Seq<char>, fs_type: Seq<char>) -> Seq<
    MountIdentity,
> {
    items.filter(|e: MountIdentity| e.target@ == target && text::opt_text(e.fs_type) == Some(fs_type))
}

pub fn find_mount(items: &Vec<MountIdentity>, target: &str, fs_type: &str) -> (found: Lookup)
    ensures
        lookup_of(items@, mounts_on(items@, target@, fs_type@), found),
{
    let ghost keep = |e: MountIdentity|
        e.target@ == target@ && text::opt_text(e.fs_type) == Some(fs_type@);
    let mut found = Lookup::Missing;
    let mut i: usize = 0;
    proof {
        reveal(Seq::filter);
    }
    while i < items.len()
        invariant
            i <= items.len(),
            keep == (|e: MountIdentity|
                e.target@ == target@ && text::opt_text(e.fs_type) == Some(fs_type@)),
            lookup_of(items@, items@.take(i as int).filter(keep), found),
        decreases items.len() - i,
    {
        proof {
            lemma_filter_next(items@, i as int, keep);
        }
        if same_text(items[i].target.as_str(), target) && opt_is(&items[i].fs_type, fs_type) {
            found = match found {
                Lookup::Missing => Lookup::Unique(i),
                _ => Lookup::Ambiguous,
            };
            assert(lookup_of(items@, items@.take(i + 1).filter(keep), found)) by {
                if found is Unique {
                    assert(items@.take(i + 1).filter(keep) =~= seq![items@[i as int]]);
                }
            }
        }
        i += 1;
    }
    assert(items@.take(items@.len() as int) =~= items@);
    found
}

/// Two mounts agree in every respect.
pub open spec fn mounts_agree(a: MountIdentity, b: MountIdentity) -> bool {
    &&& a.target@ == b.target@
    &&& text::opt_text(a.source) == text::opt_text(b.source)
    &&& text::opt_text(a.fs_type) == text::opt_text(b.fs_type)
    &&& text::texts(a.options@) == text::texts(b.options@)
}

pub fn same_mount(a: &MountIdentity, b: &MountIdentity) -> (same: bool)
    ensures
        same == mounts_agree(*a, *b),
{
    same_text(a.target.as_str(), b.target.as_str()) && same_opt(&a.source, &b.source) && same_opt(
        &a.fs_type,
        &b.fs_type,
    ) && same_texts(&a.options, &b.options)
}
pub fn copy_approval(a: &ExactApprovalBinding) -> (copy: ExactApprovalBinding)
    ensures
        copy == *a,
{
    ExactApprovalBinding {
        schema_version: a.schema_version,
        approval_id: a.approval_id.clone(),
        plan_id: a.plan_id.clone(),
        evidence_bundle_id: a.evidence_bundle_id.clone(),
        target_manifest_digest: a.target_manifest_digest.clone(),
        locked_session_id: a.locked_session_id.clone(),
        preconditions_journal_digest: a.preconditions_journal_digest.clone(),
        integrity: a.integrity,
    }
}

/// Two approvals bind the same.
pub open spec fn approvals_agree(a: ExactApprovalBinding, b: ExactApprovalBinding) -> bool {
    &&& a.schema_version == b.schema_version
    &&& a.approval_id@ == b.approval_id@
    &&& a.plan_id@ == b.plan_id@
    &&& a.evidence_bundle_id@ == b.evidence_bundle_id@
    &&& a.target_manifest_digest@ == b.target_manifest_digest@
    &&& a.locked_session_id@ == b.locked_session_id@
    &&& a.preconditions_journal_digest@ == b.preconditions_journal_digest@
}

pub open spec fn approval_options_agree(
    a: Option<ExactApprovalBinding>,
    b: Option<ExactApprovalBinding>,
) -> bool {
    match (a, b) {
        (Some(x), Some(y)) => approvals_agree(x, y),
        (None, None) => true,
        _ => false,
    }
}

pub fn same_approval_option(
    a: &Option<ExactApprovalBinding>,
    b: &Option<ExactApprovalBinding>,
) -> (same: bool)
    ensures
        same == approval_options_agree(*a, *b),
{
    match (a, b) {
        (Some(x), Some(y)) => x.schema_version == y.schema_version && same_text(
            x.approval_id.as_str(),
            y.approval_id.as_str(),
        ) && same_text(x.plan_id.as_str(), y.plan_id.as_str()) && same_text(
            x.evidence_bundle_id.as_str(),
            y.evidence_bundle_id.as_str(),
        ) && same_text(x.target_manifest_digest.as_str(), y.target_manifest_digest.as_str())
            && same_text(x.locked_session_id.as_str(), y.locked_session_id.as_str()) && same_text(
            x.preconditions_journal_digest.as_str(),
            y.preconditions_journal_digest.as_str(),
        ),
        (None, None) => true,
        _ => false,
    }
}

/// Two execution starts bind the same.
pub open spec fn execution_options_agree(
    a: Option<ExecutionStartBinding>,
    b: Option<ExecutionStartBinding>,
) -> bool {
    match (a, b) {
        (Some(x), Some(y)) => {
            &&& x.schema_version == y.schema_version
            &&& x.execution_id@ == y.execution_id@
            &&& x.journal_id@ == y.journal_id@
            &&& x.plan_id@ == y.plan_id@
            &&& x.approval_id@ == y.approval_id@
            &&& x.source_manifest_id@ == y.source_manifest_id@
            &&& x.native_manifest_digest@ == y.native_manifest_digest@
            &&& x.fresh_identity_digest@ == y.fresh_identity_digest@
            &&& x.mutation_step_ids@ == y.mutation_step_ids@
            &&& x.approved_journal_digest@ == y.approved_journal_digest@
        },
        (None, None) => true,
        _ => false,
    }
}

/// Compares two lists of step numbers.
pub fn same_ids(a: &Vec<u32>, b: &Vec<u32>) -> (same: bool)
    ensures
        same == (a@ == b@),
{
    if a.len() != b.len() {
        return false;
    }
    let mut i: usize = 0;
    while i < a.len()
        invariant
            i <= a.len(),
            a.len() == b.len(),
            forall|j: int| 0 <= j < i ==> a@[j] == b@[j],
        decreases a.len() - i,
    {
        if a[i] != b[i] {
            assert(a@[i as int] != b@[i as int]);
            return false;
        }
        i += 1;
    }
    assert(a@ =~= b@);
    true
}

/// Compares two execution starts.
pub fn same_execution(a: &ExecutionStartBinding, b: &ExecutionStartBinding) -> (same: bool)
    ensures
        same == execution_options_agree(Some(*a), Some(*b)),
{
    a.schema_version == b.schema_version && same_text(
        a.execution_id.as_str(),
        b.execution_id.as_str(),
    ) && same_text(a.journal_id.as_str(), b.journal_id.as_str()) && same_text(
        a.plan_id.as_str(),
        b.plan_id.as_str(),
    ) && same_text(a.approval_id.as_str(), b.approval_id.as_str()) && same_text(
        a.source_manifest_id.as_str(),
        b.source_manifest_id.as_str(),
    ) && same_text(a.native_manifest_digest.as_str(), b.native_manifest_digest.as_str())
        && same_text(a.fresh_identity_digest.as_str(), b.fresh_identity_digest.as_str())
        && same_ids(&a.mutation_step_ids, &b.mutation_step_ids) && same_text(
        a.approved_journal_digest.as_str(),
        b.approved_journal_digest.as_str(),
    )
}

pub fn same_execution_option(
    a: &Option<ExecutionStartBinding>,
    b: &Option<ExecutionStartBinding>,
) -> (same: bool)
    ensures
        same == execution_options_agree(*a, *b),
{
    match (a, b) {
        (Some(x), Some(y)) => same_execution(x, y),
        (None, None) => true,
        _ => false,
    }
}

/// Two verified boundaries bind the same.
pub open spec fn boundary_options_agree(
    a: Option<VerifiedMutationBoundaryBinding>,
    b: Option<VerifiedMutationBoundaryBinding>,
) -> bool {
    match (a, b) {
        (Some(x), Some(y)) => {
            &&& x.schema_version == y.schema_version
            &&& x.boundary_id@ == y.boundary_id@
            &&& x.execution_id@ == y.execution_id@
            &&& x.completed_step_id == y.completed_step_id
            &&& x.next_step_id == y.next_step_id
            &&& x.fresh_identity_digest@ == y.fresh_identity_digest@
            &&& x.final_step_id == y.final_step_id
            &&& text::opt_text(x.final_identity_digest) == text::opt_text(y.final_identity_digest)
        },
        (None, None) => true,
        _ => false,
    }
}

pub fn same_boundary_option(
    a: &Option<VerifiedMutationBoundaryBinding>,
    b: &Option<VerifiedMutationBoundaryBinding>,
) -> (same: bool)
    ensures
        same == boundary_options_agree(*a, *b),
{
    match (a, b) {
        (Some(x), Some(y)) => x.schema_version == y.schema_version && same_text(
            x.boundary_id.as_str(),
            y.boundary_id.as_str(),
        ) && same_text(x.execution_id.as_str(), y.execution_id.as_str()) && x.completed_step_id
            == y.completed_step_id && x.next_step_id == y.next_step_id && same_text(
            x.fresh_identity_digest.as_str(),
            y.fresh_identity_digest.as_str(),
        ) && x.final_step_id == y.final_step_id && same_opt(
            &x.final_identity_digest,
            &y.final_identity_digest,
        ),
        (None, None) => true,
        _ => false,
    }
}

/// Two event lists record the same.
pub open spec fn events_agree(a: Seq<JournalEvent>, b: Seq<JournalEvent>) -> bool {
    &&& a.len() == b.len()
    &&& forall|i: int|
        #![trigger a[i]]
        #![trigger b[i]]
        0 <= i < a.len() ==> a[i].sequence == b[i].sequence && a[i].from == b[i].from && a[i].to
            == b[i].to && a[i].code@ == b[i].code@
}

pub fn same_events(a: &Vec<JournalEvent>, b: &Vec<JournalEvent>) -> (same: bool)
    ensures
        same == events_agree(a@, b@),
{
    if a.len() != b.len() {
        return false;
    }
    let mut i: usize = 0;
    while i < a.len()
        invariant
            i <= a.len(),
            a.len() == b.len(),
            forall|j: int|
                #![trigger a@[j]]
                #![trigger b@[j]]
                0 <= j < i ==> a@[j].sequence == b@[j].sequence && a@[j].from == b@[j].from
                    && a@[j].to == b@[j].to && a@[j].code@ == b@[j].code@,
        decreases a.len() - i,
    {
        let x = &a[i];
        let y = &b[i];
        if !(x.sequence == y.sequence && x.from == y.from && x.to == y.to && same_text(
            x.code.as_str(),
            y.code.as_str(),
        )) {
            assert(a@[i as int].sequence != b@[i as int].sequence || a@[i as int].from
                != b@[i as int].from || a@[i as int].to != b@[i as int].to || a@[i as int].code@
                != b@[i as int].code@);
            return false;
        }
        i += 1;
    }
    true
}

/// The first event that records one phase change.
pub open spec fn first_transition(
    events: Seq<JournalEvent>,
    from: JournalPhase,
    to: JournalPhase,
) -> Option<int> {
    text::first_some(
        events.len() as int,
        |i: int|
            if events[i].from == from && events[i].to == to {
                Some(i)
            } else {
                None
            },
    )
}

/// A recorded phase change is found.
pub proof fn lemma_transition_found(
    events: Seq<JournalEvent>,
    from: JournalPhase,
    to: JournalPhase,
    i: int,
)
    requires
        0 <= i < events.len(),
        events[i].from == from,
        events[i].to == to,
    ensures
        first_transition(events, from, to) is Some,
{
    let at = |i: int|
        if events[i].from == from && events[i].to == to {
            Some(i)
        } else {
            None
        };
    if first_transition(events, from, to) is None {
        text::lemma_first_some_none(events.len() as int, at, i);
        assert(at(i) == Some(i));
    }
}

/// Looks up the first event that records one phase change.
pub fn find_transition(events: &Vec<JournalEvent>, from: JournalPhase, to: JournalPhase) -> (index:
    Option<usize>)
    ensures
        match index {
            Some(i) => i < events@.len() && first_transition(events@, from, to) == Some(i as int),
            None => first_transition(events@, from, to) is None,
        },
{
    let ghost at = |i: int|
        if events@[i].from == from && events@[i].to == to {
            Some(i)
        } else {
            None
        };
    let mut i: usize = 0;
    while i < events.len()
        invariant
            i <= events@.len(),
            at == (|i: int|
                if events@[i].from == from && events@[i].to == to {
                    Some(i)
                } else {
                    None
                }),
            text::first_some(i as int, at) is None,
        decreases events@.len() - i,
    {
        if events[i].from == from && events[i].to == to {
            proof {
                assert(text::first_some(i + 1, at) == Some(i as int));
                text::lemma_first_some_stays(i + 1, events@.len() as int, at);
            }
            return Some(i);
        }
        i += 1;
    }
    None
}

/// The content of a decision is what its fields read.
pub proof fn decision_content_is_what_its_fields_read(decision: FilesystemGrowthDecision)
    ensures
        decision@.target == decision.target@,
        decision@.device is Some <==> decision.device is Some,
        decision@.device is Some ==> decision@.device->Some_0 == decision.device->Some_0@,
        decision@.mountpoint is Some <==> decision.mountpoint is Some,
        decision@.mountpoint is Some ==> decision@.mountpoint->Some_0
            == decision.mountpoint->Some_0@,
        decision@.fs_type is Some <==> decision.fs_type is Some,
        decision@.fs_type is Some ==> decision@.fs_type->Some_0 == decision.fs_type->Some_0@,
        decision@.metadata_state is Some <==> decision.metadata_state is Some,
        decision@.metadata_state is Some ==> decision@.metadata_state->Some_0
            == decision.metadata_state->Some_0@,
        decision@.state == decision.state,
        decision@.reasons.len() == decision.reasons@.len(),
        forall|i: int|
            0 <= i < decision.reasons@.len() ==> decision@.reasons[i] == (
            #[trigger] decision.reasons@[i])@,
        decision@.required_actions.len() == decision.required_actions@.len(),
        forall|i: int|
            0 <= i < decision.required_actions@.len() ==> decision@.required_actions[i] == (
            #[trigger] decision.required_actions@[i])@,
        decision@.read_only_check is Some <==> decision.read_only_check is Some,
        decision.read_only_check matches Some(check) ==> {
            let told = decision@.read_only_check->Some_0;
            &&& told.kind == check.kind
            &&& told.tool == check.tool@
            &&& told.requires_mounted == check.requires_mounted
            &&& told.requires_unmounted == check.requires_unmounted
            &&& told.run_automatically_on_refresh == check.run_automatically_on_refresh
            &&& told.args.len() == check.args@.len()
            &&& forall|i: int|
                0 <= i < check.args@.len() ==> told.args[i] == (#[trigger] check.args@[i])@
        },
{
}

/// A lookup is unique exactly where there is one answer, and then points to it; without an answer it
/// is missing, and with several it is ambiguous.
pub proof fn lookup_tells_how_many_answers_there_are<T>(
    items: Seq<T>,
    answers: Seq<T>,
    found: Lookup,
)
    requires
        lookup_of(items, answers, found),
    ensures
        found is Missing <==> answers.len() == 0,
        found is Unique <==> answers.len() == 1,
        found is Ambiguous <==> answers.len() >= 2,
        found matches Lookup::Unique(i) ==> i < items.len() && items[i as int] == answers[0],
{
}

} // verus!
