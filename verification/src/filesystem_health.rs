//! Explicit read-only filesystem health checks.

use vstd::prelude::*;
use vstd::string::*;

use crate::text;
use crate::json;
use crate::json_reading;
use crate::disposable_exec;
use crate::digest;
use crate::digest::{fingerprint, fingerprint_text};
use crate::disposable_exec::{exact_safe_system_tool_path, stderr_summary, ToolFileProbe};
use crate::json::{texts_literal, Parts};
use crate::locked_session::{LockedExecutionSession, SessionModel};
use crate::model::{
    CheckModel, DecisionModel, FilesystemCheckKind, FilesystemDecisionState,
    FilesystemGrowthDecision, JournalPhase, ReadOnlyFilesystemCheck,
};
use crate::text::{copy_texts, opt_is, same_opt, same_text, same_texts};
use crate::MUTATION_ENABLED;

verus! {

/// Proof that one exact health check ran in one session.
#[derive(Clone, Debug, PartialEq, Eq)]
pub struct ExplicitFilesystemHealthReceipt {
    schema_version: u32,
    receipt_id: String,
    locked_session_id: String,
    handoff_id: String,
    plan_id: String,
    target_manifest_digest: String,
    kind: FilesystemCheckKind,
    tool: String,
    args: Vec<String>,
    stdout_digest: String,
    stderr_digest: String,
}

/// The content of a health receipt.
pub struct HealthReceiptModel {
    pub schema_version: u32,
    pub receipt_id: Seq<char>,
    pub locked_session_id: Seq<char>,
    pub handoff_id: Seq<char>,
    pub plan_id: Seq<char>,
    pub target_manifest_digest: Seq<char>,
    pub kind: FilesystemCheckKind,
    pub tool: Seq<char>,
    pub args: Seq<Seq<char>>,
    pub stdout_digest: Seq<char>,
    pub stderr_digest: Seq<char>,
}

impl View for ExplicitFilesystemHealthReceipt {
    type V = HealthReceiptModel;

    closed spec fn view(&self) -> HealthReceiptModel {
        HealthReceiptModel {
            schema_version: self.schema_version,
            receipt_id: self.receipt_id@,
            locked_session_id: self.locked_session_id@,
            handoff_id: self.handoff_id@,
            plan_id: self.plan_id@,
            target_manifest_digest: self.target_manifest_digest@,
            kind: self.kind,
            tool: self.tool@,
            args: text::texts(self.args@),
            stdout_digest: self.stdout_digest@,
            stderr_digest: self.stderr_digest@,
        }
    }
}

pub open spec fn check_kind_name(kind: FilesystemCheckKind) -> Seq<char> {
    match kind {
        FilesystemCheckKind::XfsMountedScrubNoModify => "xfs_mounted_scrub_no_modify"@,
        FilesystemCheckKind::Ext4OfflineE2fsckNoModify => "ext4_offline_e2fsck_no_modify"@,
    }
}

/// Different variants have different names.
pub proof fn lemma_check_kind_name_told(a: FilesystemCheckKind, b: FilesystemCheckKind)
    requires
        check_kind_name(a) == check_kind_name(b),
    ensures
        a == b,
{
    reveal_strlit("xfs_mounted_scrub_no_modify");
    reveal_strlit("ext4_offline_e2fsck_no_modify");
    assert("xfs_mounted_scrub_no_modify"@.len() == 27);
    assert("ext4_offline_e2fsck_no_modify"@.len() == 29);
    assert(check_kind_name(a).len() == check_kind_name(b).len());
}

pub(crate) fn check_kind_text(kind: FilesystemCheckKind) -> (name: &'static str)
    ensures
        name@ == check_kind_name(kind),
{
    match kind {
        FilesystemCheckKind::XfsMountedScrubNoModify => "xfs_mounted_scrub_no_modify",
        FilesystemCheckKind::Ext4OfflineE2fsckNoModify => "ext4_offline_e2fsck_no_modify",
    }
}

/// What a health receipt is fingerprinted by, in order.
pub open spec fn health_receipt_parts(receipt: HealthReceiptModel) -> Seq<Seq<char>> {
    Seq::empty()
        .push(json::json_number(receipt.schema_version as int))
        .push(json::json_text(receipt.locked_session_id))
        .push(json::json_text(receipt.handoff_id))
        .push(json::json_text(receipt.plan_id))
        .push(json::json_text(receipt.target_manifest_digest))
        .push(json::json_text(check_kind_name(receipt.kind)))
        .push(json::json_text(receipt.tool))
        .push(json::json_texts(receipt.args))
        .push(json::json_text(receipt.stdout_digest))
        .push(json::json_text(receipt.stderr_digest))
}

/// The JSON array over which a health receipt is fingerprinted.
pub open spec fn health_receipt_json(receipt: HealthReceiptModel) -> Seq<char> {
    json::json_array(health_receipt_parts(receipt))
}

impl ExplicitFilesystemHealthReceipt {
    pub fn schema_version(&self) -> (value: u32)
        ensures
            value == self@.schema_version,
    {
        self.schema_version
    }

    pub fn receipt_id(&self) -> (value: &str)
        ensures
            value@ == self@.receipt_id,
    {
        self.receipt_id.as_str()
    }

    pub fn locked_session_id(&self) -> (value: &str)
        ensures
            value@ == self@.locked_session_id,
    {
        self.locked_session_id.as_str()
    }

    pub fn handoff_id(&self) -> (value: &str)
        ensures
            value@ == self@.handoff_id,
    {
        self.handoff_id.as_str()
    }

    pub fn plan_id(&self) -> (value: &str)
        ensures
            value@ == self@.plan_id,
    {
        self.plan_id.as_str()
    }

    pub fn target_manifest_digest(&self) -> (value: &str)
        ensures
            value@ == self@.target_manifest_digest,
    {
        self.target_manifest_digest.as_str()
    }

    pub fn kind(&self) -> (value: FilesystemCheckKind)
        ensures
            value == self@.kind,
    {
        self.kind
    }

    pub fn tool(&self) -> (value: &str)
        ensures
            value@ == self@.tool,
    {
        self.tool.as_str()
    }

    pub fn args(&self) -> (value: &[String])
        ensures
            text::texts(value@) == self@.args,
    {
        self.args.as_slice()
    }

    /// Whether the identifier is the fingerprint of the other fields.
    pub fn integrity_matches(&self) -> (result: Result<bool, serde_json::Error>)
        ensures
            result is Ok,
            result->Ok_0 == is_intact_health_receipt(self@),
    {
        Ok(same_text(self.receipt_id.as_str(), self.expected_receipt_id().as_str()))
    }

    fn expected_receipt_id(&self) -> (id: String)
        ensures
            id@ == digest::text_fingerprint(health_receipt_json(self@)),
    {
        let mut parts = Parts::new();
        parts.push_number(self.schema_version as u64);
        parts.push_text(self.locked_session_id.as_str());
        parts.push_text(self.handoff_id.as_str());
        parts.push_text(self.plan_id.as_str());
        parts.push_text(self.target_manifest_digest.as_str());
        parts.push_text(check_kind_text(self.kind));
        parts.push_text(self.tool.as_str());
        parts.push(texts_literal(&self.args));
        parts.push_text(self.stdout_digest.as_str());
        parts.push_text(self.stderr_digest.as_str());
        fingerprint_text(parts.array().as_str())
    }
}

#[derive(Debug, PartialEq, Eq)]
pub enum ExplicitFilesystemHealthError {
    SessionNotRevalidated,
    MutationEnabled,
    TargetIdentityMismatch,
    CapabilityInventoryMismatch,
    UnsupportedCheck,
    UnsafeToolPath,
    CommandFailed { status: Option<i32>, stderr: String },
    Io(String),
}

/// The content of a refusal.
pub enum HealthFault {
    SessionNotRevalidated,
    MutationEnabled,
    TargetIdentityMismatch,
    CapabilityInventoryMismatch,
    UnsupportedCheck,
    UnsafeToolPath,
    CommandFailed { status: Option<i32>, stderr: Seq<char> },
    Io(Seq<char>),
}

impl View for ExplicitFilesystemHealthError {
    type V = HealthFault;

    open spec fn view(&self) -> HealthFault {
        match *self {
            ExplicitFilesystemHealthError::SessionNotRevalidated => {
                HealthFault::SessionNotRevalidated
            },
            ExplicitFilesystemHealthError::MutationEnabled => HealthFault::MutationEnabled,
            ExplicitFilesystemHealthError::TargetIdentityMismatch => {
                HealthFault::TargetIdentityMismatch
            },
            ExplicitFilesystemHealthError::CapabilityInventoryMismatch => {
                HealthFault::CapabilityInventoryMismatch
            },
            ExplicitFilesystemHealthError::UnsupportedCheck => HealthFault::UnsupportedCheck,
            ExplicitFilesystemHealthError::UnsafeToolPath => HealthFault::UnsafeToolPath,
            ExplicitFilesystemHealthError::CommandFailed { status, stderr } => {
                HealthFault::CommandFailed { status, stderr: stderr@ }
            },
            ExplicitFilesystemHealthError::Io(s) => HealthFault::Io(s@),
        }
    }
}

/// A mount of the fresh snapshot: its source, and where that leads on disk, if anywhere.
#[derive(Clone, Debug, PartialEq, Eq)]
pub struct MountProbe {
    pub source: Option<String>,
    pub canonical_source: Option<String>,
}

/// The two health checks that may run: a mounted XFS scrub and an offline ext4 check, neither of
/// which modifies anything.
pub open spec fn is_supported_check(decision: DecisionModel) -> bool {
    match decision.read_only_check {
        None => false,
        Some(check) => {
            ||| {
                &&& decision.state == FilesystemDecisionState::ReadOnlyHealthCheckRequired
                &&& check.kind == FilesystemCheckKind::XfsMountedScrubNoModify
                &&& check.tool == "xfs_scrub"@
                &&& decision.mountpoint is Some
                &&& check.requires_mounted
                &&& !check.requires_unmounted
                &&& !check.run_automatically_on_refresh
            }
            ||| {
                &&& decision.state == FilesystemDecisionState::OfflineHealthCheckRequired
                &&& check.kind == FilesystemCheckKind::Ext4OfflineE2fsckNoModify
                &&& check.tool == "e2fsck"@
                &&& decision.mountpoint is None
                &&& !check.requires_mounted
                &&& check.requires_unmounted
                &&& !check.run_automatically_on_refresh
            }
        },
    }
}

/// Some mount uses the device, by name or by where its source leads.
pub open spec fn is_mounted(
    mounts: Seq<MountProbe>,
    device: Seq<char>,
    canonical_device: Option<Seq<char>>,
) -> bool {
    exists|i: int|
        0 <= i < mounts.len() && (#[trigger] mounts[i]).source is Some && (text::opt_text(
            mounts[i].source,
        ) == Some(device) || text::opt_text(mounts[i].canonical_source) == canonical_device)
}

fn finds_mounted(mounts: &Vec<MountProbe>, device: &str, canonical_device: &Option<String>) -> (found:
    bool)
    ensures
        found == is_mounted(mounts@, device@, text::opt_text(*canonical_device)),
{
    let mut i: usize = 0;
    while i < mounts.len()
        invariant
            i <= mounts@.len(),
            forall|j: int|
                0 <= j < i ==> !((#[trigger] mounts@[j]).source is Some && (text::opt_text(
                    mounts@[j].source,
                ) == Some(device@) || text::opt_text(mounts@[j].canonical_source) == text::opt_text(
                    *canonical_device,
                ))),
        decreases mounts@.len() - i,
    {
        let probe = &mounts[i];
        if probe.source.is_some() && (opt_is(&probe.source, device) || same_opt(
            &probe.canonical_source,
            canonical_device,
        )) {
            assert(mounts@[i as int].source is Some);
            return true;
        }
        i += 1;
    }
    false
}

/// Why a health check may not run, if it may not.
pub open spec fn health_check_refusal(
    session: SessionModel,
    identity_matches: bool,
    capabilities_match: bool,
    decision: DecisionModel,
    tool_path: Seq<char>,
    tool: ToolFileProbe,
    canonical_device: Option<Seq<char>>,
    mounts: Seq<MountProbe>,
) -> Option<HealthFault> {
    if session.journal.phase != JournalPhase::IdentityRevalidated {
        Some(HealthFault::SessionNotRevalidated)
    } else if session.handoff.mutation_enabled {
        Some(HealthFault::MutationEnabled)
    } else if !identity_matches {
        Some(HealthFault::TargetIdentityMismatch)
    } else if !capabilities_match {
        Some(HealthFault::CapabilityInventoryMismatch)
    } else if !is_supported_check(decision) {
        Some(HealthFault::UnsupportedCheck)
    } else {
        let check = decision.read_only_check->Some_0;
        let verdict = disposable_exec::tool_verdict(tool_path, check.tool, tool);
        if verdict is Err {
            Some(HealthFault::Io(verdict->Err_0))
        } else if !verdict->Ok_0 {
            Some(HealthFault::UnsafeToolPath)
        } else if check.requires_unmounted && (check.args.len() == 0 || is_mounted(
            mounts,
            check.args.last(),
            canonical_device,
        )) {
            Some(HealthFault::UnsupportedCheck)
        } else {
            None
        }
    }
}

/// Decides whether the pending health check may run now. `identity_matches` and
/// `capabilities_match` are the planner's fresh comparisons, `tool` is what the file system says of
/// `tool_path`, and `canonical_device` is where the checked device leads on disk.
pub fn admit_health_check(
    session: &LockedExecutionSession,
    identity_matches: bool,
    capabilities_match: bool,
    decision: &FilesystemGrowthDecision,
    tool_path: &str,
    tool: &ToolFileProbe,
    canonical_device: &Option<String>,
    mounts: &Vec<MountProbe>,
) -> (result: Result<(), ExplicitFilesystemHealthError>)
    ensures
        ({
            let refusal = health_check_refusal(
                session@,
                identity_matches,
                capabilities_match,
                decision@,
                tool_path@,
                *tool,
                text::opt_text(*canonical_device),
                mounts@,
            );
            match result {
                Ok(_) => refusal is None,
                Err(e) => refusal == Some(e@),
            }
        }),
{
    if session.journal().phase != JournalPhase::IdentityRevalidated {
        return Err(ExplicitFilesystemHealthError::SessionNotRevalidated);
    }
    if MUTATION_ENABLED || session.mutation_enabled() || session.handoff().mutation_enabled {
        return Err(ExplicitFilesystemHealthError::MutationEnabled);
    }
    if !identity_matches {
        return Err(ExplicitFilesystemHealthError::TargetIdentityMismatch);
    }
    if !capabilities_match {
        return Err(ExplicitFilesystemHealthError::CapabilityInventoryMismatch);
    }
    match &decision.read_only_check {
        None => Err(ExplicitFilesystemHealthError::UnsupportedCheck),
        Some(check) => {
            let scrub = decision.state == FilesystemDecisionState::ReadOnlyHealthCheckRequired
                && check.kind == FilesystemCheckKind::XfsMountedScrubNoModify && same_text(
                check.tool.as_str(),
                "xfs_scrub",
            ) && decision.mountpoint.is_some() && check.requires_mounted
                && !check.requires_unmounted && !check.run_automatically_on_refresh;
            let offline = decision.state == FilesystemDecisionState::OfflineHealthCheckRequired
                && check.kind == FilesystemCheckKind::Ext4OfflineE2fsckNoModify && same_text(
                check.tool.as_str(),
                "e2fsck",
            ) && decision.mountpoint.is_none() && !check.requires_mounted
                && check.requires_unmounted && !check.run_automatically_on_refresh;
            if !scrub && !offline {
                return Err(ExplicitFilesystemHealthError::UnsupportedCheck);
            }
            match exact_safe_system_tool_path(tool_path, check.tool.as_str(), tool) {
                Err(reason) => return Err(ExplicitFilesystemHealthError::Io(reason)),
                Ok(safe) => {
                    if !safe {
                        return Err(ExplicitFilesystemHealthError::UnsafeToolPath);
                    }
                },
            }
            if check.requires_unmounted {
                let count: usize = check.args.len();
                if count == 0 {
                    return Err(ExplicitFilesystemHealthError::UnsupportedCheck);
                }
                let device = check.args[count - 1].as_str();
                assert(check@.args.last() == device@);
                if finds_mounted(mounts, device, canonical_device) {
                    return Err(ExplicitFilesystemHealthError::UnsupportedCheck);
                }
            }
            Ok(())
        },
    }
}

/// The receipt of a check that ran.
pub open spec fn health_receipt_of(
    session: SessionModel,
    check: CheckModel,
    stdout: Seq<u8>,
    stderr: Seq<u8>,
) -> HealthReceiptModel {
    let draft = HealthReceiptModel {
        schema_version: 1,
        receipt_id: Seq::empty(),
        locked_session_id: session.session_id,
        handoff_id: session.handoff.handoff_id@,
        plan_id: session.handoff.plan.plan_id@,
        target_manifest_digest: session.handoff.target_identity.manifest_digest@,
        kind: check.kind,
        tool: check.tool,
        args: check.args,
        stdout_digest: digest::fingerprint_of(stdout),
        stderr_digest: digest::fingerprint_of(stderr),
    };
    HealthReceiptModel { receipt_id: digest::text_fingerprint(health_receipt_json(draft)), ..draft }
}

/// Judges the run of an admitted health check.
pub fn seal_health_receipt(
    session: &LockedExecutionSession,
    check: &ReadOnlyFilesystemCheck,
    success: bool,
    status: Option<i32>,
    stdout: &[u8],
    stderr: &[u8],
) -> (result: Result<ExplicitFilesystemHealthReceipt, ExplicitFilesystemHealthError>)
    ensures
        match result {
            Ok(receipt) => success && receipt@ == health_receipt_of(
                session@,
                check@,
                stdout@,
                stderr@,
            ),
            Err(e) => !success && e@ == (HealthFault::CommandFailed {
                status,
                stderr: text::lossy_text_of(disposable_exec::summary_bytes(stderr@)),
            }),
        },
{
    if !success {
        return Err(
            ExplicitFilesystemHealthError::CommandFailed { status, stderr: stderr_summary(stderr) },
        );
    }
    let handoff = session.handoff();
    let mut receipt = ExplicitFilesystemHealthReceipt {
        schema_version: 1,
        receipt_id: String::new(),
        locked_session_id: session.session_id().to_owned(),
        handoff_id: handoff.handoff_id.clone(),
        plan_id: handoff.plan.plan_id.clone(),
        target_manifest_digest: handoff.target_identity.manifest_digest.clone(),
        kind: check.kind,
        tool: check.tool.clone(),
        args: copy_texts(&check.args),
        stdout_digest: fingerprint(stdout),
        stderr_digest: fingerprint(stderr),
    };
    receipt.receipt_id = receipt.expected_receipt_id();
    Ok(receipt)
}

/// A sound receipt of exactly this check in exactly this session.
pub open spec fn receipt_is_for(
    receipt: HealthReceiptModel,
    session: SessionModel,
    check: CheckModel,
) -> bool {
    &&& receipt.schema_version == 1
    &&& is_intact_health_receipt(receipt)
    &&& receipt.locked_session_id == session.session_id
    &&& receipt.handoff_id == session.handoff.handoff_id@
    &&& receipt.plan_id == session.handoff.plan.plan_id@
    &&& receipt.target_manifest_digest == session.handoff.target_identity.manifest_digest@
    &&& receipt.kind == check.kind
    &&& receipt.tool == check.tool
    &&& receipt.args == check.args
}

/// Whether a receipt is sound and belongs to exactly this check in exactly this session.
pub fn receipt_matches_exact_check(
    receipt: &ExplicitFilesystemHealthReceipt,
    session: &LockedExecutionSession,
    check: &ReadOnlyFilesystemCheck,
) -> (yes: bool)
    ensures
        yes == receipt_is_for(receipt@, session@, check@),
{
    let handoff = session.handoff();
    receipt.schema_version == 1 && same_text(
        receipt.receipt_id.as_str(),
        receipt.expected_receipt_id().as_str(),
    ) && same_text(receipt.locked_session_id.as_str(), session.session_id()) && same_text(
        receipt.handoff_id.as_str(),
        handoff.handoff_id.as_str(),
    ) && same_text(receipt.plan_id.as_str(), handoff.plan.plan_id.as_str()) && same_text(
        receipt.target_manifest_digest.as_str(),
        handoff.target_identity.manifest_digest.as_str(),
    ) && receipt.kind == check.kind && same_text(receipt.tool.as_str(), check.tool.as_str())
        && same_texts(&receipt.args, &check.args)
}

/// The receipt of a run is accepted for the check that ran, in the session in which it ran.
pub proof fn health_receipt_is_accepted(
    session: SessionModel,
    check: CheckModel,
    stdout: Seq<u8>,
    stderr: Seq<u8>,
)
    ensures
        receipt_is_for(health_receipt_of(session, check, stdout, stderr), session, check),
{
}

/// The identifier is the fingerprint of the other fields.
pub open spec fn is_intact_health_receipt(receipt: HealthReceiptModel) -> bool {
    receipt.receipt_id == digest::text_fingerprint(health_receipt_json(receipt))
}

/// The two hold the same, apart from their identifiers.
pub open spec fn same_health_receipt(a: HealthReceiptModel, b: HealthReceiptModel) -> bool {
    &&& a.schema_version == b.schema_version
    &&& a.locked_session_id == b.locked_session_id
    &&& a.handoff_id == b.handoff_id
    &&& a.plan_id == b.plan_id
    &&& a.target_manifest_digest == b.target_manifest_digest
    &&& a.kind == b.kind
    &&& a.tool == b.tool
    &&& a.args == b.args
    &&& a.stdout_digest == b.stdout_digest
    &&& a.stderr_digest == b.stderr_digest
}

proof fn lemma_health_receipt_told(a: HealthReceiptModel, b: HealthReceiptModel)
    requires
        health_receipt_json(a) == health_receipt_json(b),
    ensures
        same_health_receipt(a, b),
{
    broadcast use crate::json_reading::group_json_reading;

    let p = health_receipt_parts(a);
    let q = health_receipt_parts(b);
    assert(json_reading::are_values(p) && json_reading::are_values(q));
    assert(p[0] == q[0]);
    assert(p[1] == q[1]);
    assert(p[2] == q[2]);
    assert(p[3] == q[3]);
    assert(p[4] == q[4]);
    assert(p[5] == q[5]);
    assert(p[6] == q[6]);
    assert(p[7] == q[7]);
    assert(p[8] == q[8]);
    assert(p[9] == q[9]);
    lemma_check_kind_name_told(a.kind, b.kind);
}

/// A health receipt that was changed under its identifier is noticed, short of a SHA-256 collision.
pub proof fn changed_health_receipt_is_detected(a: HealthReceiptModel, b: HealthReceiptModel)
    requires
        is_intact_health_receipt(a),
        b.receipt_id == a.receipt_id,
        !same_health_receipt(a, b),
    ensures
        !is_intact_health_receipt(b) || digest::is_collision(health_receipt_json(a), health_receipt_json(b)),
{
    if is_intact_health_receipt(b) {
        digest::fingerprint_tells_its_text(health_receipt_json(a), health_receipt_json(b));
        if health_receipt_json(a) == health_receipt_json(b) {
            lemma_health_receipt_told(a, b);
        }
    }
}

/// A health check runs exactly where the session was revalidated and nothing changed, its tool is
/// the safely installed one of its name, and it is one of two: a scrub of a mounted xfs filesystem
/// whose mountpoint is known, or a check of an ext4 filesystem without a mountpoint whose device no
/// mount uses.
pub proof fn health_check_runs_where_it_fits_the_mount(
    session: SessionModel,
    identity_matches: bool,
    capabilities_match: bool,
    decision: DecisionModel,
    tool_path: Seq<char>,
    tool: ToolFileProbe,
    canonical_device: Option<Seq<char>>,
    mounts: Seq<MountProbe>,
)
    ensures
        health_check_refusal(
            session,
            identity_matches,
            capabilities_match,
            decision,
            tool_path,
            tool,
            canonical_device,
            mounts,
        ) is None <==> {
            &&& session.journal.phase is IdentityRevalidated
            &&& !session.handoff.mutation_enabled
            &&& identity_matches
            &&& capabilities_match
            &&& decision.read_only_check matches Some(check)
            &&& disposable_exec::tool_verdict(tool_path, check.tool, tool) == Result::<
                bool,
                Seq<char>,
            >::Ok(true)
            &&& !check.run_automatically_on_refresh
            &&& check.requires_mounted != check.requires_unmounted
            &&& check.requires_mounted ==> {
                &&& decision.mountpoint is Some
                &&& decision.state is ReadOnlyHealthCheckRequired
                &&& check.kind is XfsMountedScrubNoModify
                &&& check.tool == "xfs_scrub"@
            }
            &&& check.requires_unmounted ==> {
                &&& decision.mountpoint is None
                &&& decision.state is OfflineHealthCheckRequired
                &&& check.kind is Ext4OfflineE2fsckNoModify
                &&& check.tool == "e2fsck"@
                &&& check.args.len() > 0
                &&& forall|i: int|
                    0 <= i < mounts.len() && (#[trigger] mounts[i]).source is Some ==> {
                        &&& mounts[i].source->Some_0@ != check.args[check.args.len() - 1]
                        &&& text::opt_text(mounts[i].canonical_source) != canonical_device
                    }
            }
        },
{
}

/// A check that runs needs a mount exactly where the decision has a mountpoint.
pub proof fn running_health_check_agrees_with_the_mountpoint(
    session: SessionModel,
    identity_matches: bool,
    capabilities_match: bool,
    decision: DecisionModel,
    tool_path: Seq<char>,
    tool: ToolFileProbe,
    canonical_device: Option<Seq<char>>,
    mounts: Seq<MountProbe>,
)
    requires
        health_check_refusal(
            session,
            identity_matches,
            capabilities_match,
            decision,
            tool_path,
            tool,
            canonical_device,
            mounts,
        ) is None,
    ensures
        decision.read_only_check is Some,
        decision.mountpoint is Some <==> decision.read_only_check->Some_0.requires_mounted,
        decision.mountpoint is None <==> decision.read_only_check->Some_0.requires_unmounted,
{
}

/// The receipt of a check names the session, handoff, plan and target it ran for, the check that
/// ran, and the fingerprints of what it printed, and its identifier covers all of that.
pub proof fn health_receipt_names_what_ran(
    session: SessionModel,
    check: CheckModel,
    stdout: Seq<u8>,
    stderr: Seq<u8>,
)
    ensures
        ({
            let receipt = health_receipt_of(session, check, stdout, stderr);
            &&& receipt.schema_version == 1
            &&& receipt.locked_session_id == session.session_id
            &&& receipt.handoff_id == session.handoff.handoff_id@
            &&& receipt.plan_id == session.handoff.plan.plan_id@
            &&& receipt.target_manifest_digest == session.handoff.target_identity.manifest_digest@
            &&& receipt.kind == check.kind
            &&& receipt.tool == check.tool
            &&& receipt.args == check.args
            &&& receipt.stdout_digest == digest::fingerprint_of(stdout)
            &&& receipt.stderr_digest == digest::fingerprint_of(stderr)
            &&& is_intact_health_receipt(receipt)
        }),
{
}

/// A receipt that is accepted in one session for one check is accepted in no other session and for
/// no other check.
pub proof fn health_receipt_belongs_to_one_check(
    receipt: HealthReceiptModel,
    a: SessionModel,
    b: SessionModel,
    check: CheckModel,
    other: CheckModel,
)
    requires
        receipt_is_for(receipt, a, check),
    ensures
        receipt_is_for(receipt, b, other) <==> {
            &&& b.session_id == a.session_id
            &&& b.handoff.handoff_id@ == a.handoff.handoff_id@
            &&& b.handoff.plan.plan_id@ == a.handoff.plan.plan_id@
            &&& b.handoff.target_identity.manifest_digest@
                == a.handoff.target_identity.manifest_digest@
            &&& other.kind == check.kind
            &&& other.tool == check.tool
            &&& other.args == check.args
        },
{
}

/// Each refusal of a health check names something that is wrong.
pub proof fn refused_health_check_names_its_reason(
    session: SessionModel,
    identity_matches: bool,
    capabilities_match: bool,
    decision: DecisionModel,
    tool_path: Seq<char>,
    tool: ToolFileProbe,
    canonical_device: Option<Seq<char>>,
    mounts: Seq<MountProbe>,
)
    ensures
        health_check_refusal(
            session,
            identity_matches,
            capabilities_match,
            decision,
            tool_path,
            tool,
            canonical_device,
            mounts,
        ) matches Some(e) ==> match e {
            HealthFault::SessionNotRevalidated => !(session.journal.phase is IdentityRevalidated),
            HealthFault::MutationEnabled => session.handoff.mutation_enabled,
            HealthFault::TargetIdentityMismatch => !identity_matches,
            HealthFault::CapabilityInventoryMismatch => !capabilities_match,
            HealthFault::UnsafeToolPath => decision.read_only_check is Some
                && disposable_exec::tool_verdict(
                tool_path,
                decision.read_only_check->Some_0.tool,
                tool,
            ) == Result::<bool, Seq<char>>::Ok(false),
            HealthFault::Io(reason) => decision.read_only_check is Some
                && disposable_exec::tool_verdict(
                tool_path,
                decision.read_only_check->Some_0.tool,
                tool,
            ) == Result::<bool, Seq<char>>::Err(reason),
            HealthFault::UnsupportedCheck => !is_supported_check(decision) || (
            decision.read_only_check->Some_0.requires_unmounted && (
            decision.read_only_check->Some_0.args.len() == 0 || is_mounted(
                mounts,
                decision.read_only_check->Some_0.args.last(),
                canonical_device,
            ))),
            HealthFault::CommandFailed { .. } => false,
        },
{
}

} // verus!
