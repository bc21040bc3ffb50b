//! Evidence that is collected before any mutation.

use vstd::prelude::*;
use vstd::string::*;

use crate::text;
use crate::order;
use crate::model;
use crate::json;
use crate::json_reading;
use crate::filesystem_health;
use crate::digest;
use crate::backup_capture::BackupReceiptRevalidation;
use crate::digest::fingerprint_text;
use crate::filesystem_health::{
    check_kind_text, receipt_matches_exact_check, ExplicitFilesystemHealthReceipt,
    HealthReceiptModel,
};
use crate::json::{null_literal, texts_literal, Parts};
use crate::locked_session::{change_lines, LockedExecutionSession, SessionModel};
use crate::model::{
    copy_decision, CheckModel, DecisionModel, FilesystemCheckKind, FilesystemDecisionState,
    FilesystemGrowthDecision, IdentityChange, IdentityRevalidation, JournalPhase,
    ReadOnlyFilesystemCheck,
};
use crate::order::sorted_set;
use crate::text::same_text;
use crate::MUTATION_ENABLED;

verus! {

/// The schema of evidence bundles.
pub const EVIDENCE_SCHEMA_VERSION: u32 = 3;

#[derive(Clone, Copy, Debug, PartialEq, Eq, Structural)]
pub enum PreMutationEvidenceStatus {
    EvidenceComplete,
    FutureChecksRequired,
    Blocked,
}

/// Everything that was found out before mutation, bound to one session.
#[derive(Clone, Debug, PartialEq, Eq)]
pub struct PreMutationEvidenceBundle {
    schema_version: u32,
    bundle_id: String,
    locked_session_id: String,
    handoff_id: String,
    plan_id: String,
    target_manifest_digest: String,
    backup_manifest_id: String,
    backup_receipt_id: String,
    backup_receipt_revalidated: bool,
    filesystem_health_receipt_id: Option<String>,
    filesystem_decision: FilesystemGrowthDecision,
    status: PreMutationEvidenceStatus,
    owner_acceptance_required: bool,
    mutation_enabled: bool,
    blockers: Vec<String>,
    future_gates: Vec<String>,
}

/// The content of an evidence bundle.
pub struct EvidenceModel {
    pub schema_version: u32,
    pub bundle_id: Seq<char>,
    pub locked_session_id: Seq<char>,
    pub handoff_id: Seq<char>,
    pub plan_id: Seq<char>,
    pub target_manifest_digest: Seq<char>,
    pub backup_manifest_id: Seq<char>,
    pub backup_receipt_id: Seq<char>,
    pub backup_receipt_revalidated: bool,
    pub filesystem_health_receipt_id: Option<Seq<char>>,
    pub filesystem_decision: DecisionModel,
    pub status: PreMutationEvidenceStatus,
    pub owner_acceptance_required: bool,
    pub mutation_enabled: bool,
    pub blockers: Seq<Seq<char>>,
    pub future_gates: Seq<Seq<char>>,
}

impl View for PreMutationEvidenceBundle {
    type V = EvidenceModel;

    closed spec fn view(&self) -> EvidenceModel {
        EvidenceModel {
            schema_version: self.schema_version,
            bundle_id: self.bundle_id@,
            locked_session_id: self.locked_session_id@,
            handoff_id: self.handoff_id@,
            plan_id: self.plan_id@,
            target_manifest_digest: self.target_manifest_digest@,
            backup_manifest_id: self.backup_manifest_id@,
            backup_receipt_id: self.backup_receipt_id@,
            backup_receipt_revalidated: self.backup_receipt_revalidated,
            filesystem_health_receipt_id: text::opt_text(self.filesystem_health_receipt_id),
            filesystem_decision: self.filesystem_decision@,
            status: self.status,
            owner_acceptance_required: self.owner_acceptance_required,
            mutation_enabled: self.mutation_enabled,
            blockers: text::texts(self.blockers@),
            future_gates: text::texts(self.future_gates@),
        }
    }
}

impl PreMutationEvidenceBundle {
    pub fn bundle_id(&self) -> (value: &str)
        ensures
            value@ == self@.bundle_id,
    {
        self.bundle_id.as_str()
    }

    pub fn schema_version(&self) -> (value: u32)
        ensures
            value == self@.schema_version,
    {
        self.schema_version
    }

    pub fn locked_session_id(&self) -> (value: &str)
        ensures
            value@ == self@.locked_session_id,
    {
        self.locked_session_id.as_str()
    }

    pub fn handoff_id(&self) -> (value: &str)
        ensures
            value@ == self@.handoff_id,
    {
        self.handoff_id.as_str()
    }

    pub fn plan_id(&self) -> (value: &str)
        ensures
            value@ == self@.plan_id,
    {
        self.plan_id.as_str()
    }

    pub fn target_manifest_digest(&self) -> (value: &str)
        ensures
            value@ == self@.target_manifest_digest,
    {
        self.target_manifest_digest.as_str()
    }

    pub fn backup_manifest_id(&self) -> (value: &str)
        ensures
            value@ == self@.backup_manifest_id,
    {
        self.backup_manifest_id.as_str()
    }

    pub fn backup_receipt_id(&self) -> (value: &str)
        ensures
            value@ == self@.backup_receipt_id,
    {
        self.backup_receipt_id.as_str()
    }

    pub fn backup_receipt_revalidated(&self) -> (value: bool)
        ensures
            value == self@.backup_receipt_revalidated,
    {
        self.backup_receipt_revalidated
    }

    pub fn filesystem_health_receipt_id(&self) -> (value: Option<&str>)
        ensures
            match value {
                Some(id) => self@.filesystem_health_receipt_id == Some(id@),
                None => self@.filesystem_health_receipt_id is None,
            },
    {
        match &self.filesystem_health_receipt_id {
            Some(id) => Some(id.as_str()),
            None => None,
        }
    }

    pub fn filesystem_decision(&self) -> (value: &FilesystemGrowthDecision)
        ensures
            value@ == self@.filesystem_decision,
    {
        &self.filesystem_decision
    }

    pub fn status(&self) -> (value: PreMutationEvidenceStatus)
        ensures
            value == self@.status,
    {
        self.status
    }

    pub fn owner_acceptance_required(&self) -> (value: bool)
        ensures
            value == self@.owner_acceptance_required,
    {
        self.owner_acceptance_required
    }

    pub fn mutation_enabled(&self) -> (value: bool)
        ensures
            value == self@.mutation_enabled,
    {
        self.mutation_enabled
    }

    pub fn blockers(&self) -> (value: &[String])
        ensures
            text::texts(value@) == self@.blockers,
    {
        self.blockers.as_slice()
    }

    pub fn future_gates(&self) -> (value: &[String])
        ensures
            text::texts(value@) == self@.future_gates,
    {
        self.future_gates.as_slice()
    }

    fn compute_bundle_id(&self) -> (id: String)
        ensures
            id@ == digest::text_fingerprint(evidence_json(self@)),
            text::is_digest_text(id@),
    {
        let mut parts = Parts::new();
        parts.push_number(self.schema_version as u64);
        parts.push_text(self.locked_session_id.as_str());
        parts.push_text(self.handoff_id.as_str());
        parts.push_text(self.plan_id.as_str());
        parts.push_text(self.target_manifest_digest.as_str());
        parts.push_text(self.backup_manifest_id.as_str());
        parts.push_text(self.backup_receipt_id.as_str());
        parts.push_bool(self.backup_receipt_revalidated);
        parts.push_opt_text(&self.filesystem_health_receipt_id);
        parts.push(decision_literal(&self.filesystem_decision));
        parts.push_text(evidence_status_text(self.status));
        parts.push_bool(self.owner_acceptance_required);
        parts.push_bool(self.mutation_enabled);
        parts.push(texts_literal(&self.blockers));
        parts.push(texts_literal(&self.future_gates));
        fingerprint_text(parts.array().as_str())
    }

    /// Whether the identifier is the fingerprint of the other fields.
    pub(crate) fn integrity_holds(&self) -> (holds: bool)
        ensures
            holds == is_intact_evidence(self@),
    {
        same_text(self.bundle_id.as_str(), self.compute_bundle_id().as_str())
    }
}

pub open spec fn evidence_status_name(status: PreMutationEvidenceStatus) -> Seq<char> {
    match status {
        PreMutationEvidenceStatus::EvidenceComplete => "evidence_complete"@,
        PreMutationEvidenceStatus::FutureChecksRequired => "future_checks_required"@,
        PreMutationEvidenceStatus::Blocked => "blocked"@,
    }
}

/// Different variants have different names.
proof fn lemma_evidence_status_name_told(a: PreMutationEvidenceStatus, b: PreMutationEvidenceStatus)
    requires
        evidence_status_name(a) == evidence_status_name(b),
    ensures
        a == b,
{
    reveal_strlit("evidence_complete");
    reveal_strlit("future_checks_required");
    reveal_strlit("blocked");
    assert("evidence_complete"@.len() == 17);
    assert("future_checks_required"@.len() == 22);
    assert("blocked"@.len() == 7);
    assert(evidence_status_name(a).len() == evidence_status_name(b).len());
}

fn evidence_status_text(status: PreMutationEvidenceStatus) -> (name: &'static str)
    ensures
        name@ == evidence_status_name(status),
{
    match status {
        PreMutationEvidenceStatus::EvidenceComplete => "evidence_complete",
        PreMutationEvidenceStatus::FutureChecksRequired => "future_checks_required",
        PreMutationEvidenceStatus::Blocked => "blocked",
    }
}

pub open spec fn decision_state_name(state: FilesystemDecisionState) -> Seq<char> {
    match state {
        FilesystemDecisionState::ReadyOnlineGrow => "ready_online_grow"@,
        FilesystemDecisionState::ReadOnlyHealthCheckRequired => "read_only_health_check_required"@,
        FilesystemDecisionState::OfflineHealthCheckRequired => "offline_health_check_required"@,
        FilesystemDecisionState::AdapterRequired => "adapter_required"@,
        FilesystemDecisionState::Blocked => "blocked"@,
    }
}

/// Different variants have different names.
proof fn lemma_decision_state_name_told(a: FilesystemDecisionState, b: FilesystemDecisionState)
    requires
        decision_state_name(a) == decision_state_name(b),
    ensures
        a == b,
{
    reveal_strlit("ready_online_grow");
    reveal_strlit("read_only_health_check_required");
    reveal_strlit("offline_health_check_required");
    reveal_strlit("adapter_required");
    reveal_strlit("blocked");
    assert("ready_online_grow"@.len() == 17);
    assert("read_only_health_check_required"@.len() == 31);
    assert("offline_health_check_required"@.len() == 29);
    assert("adapter_required"@.len() == 16);
    assert("blocked"@.len() == 7);
    assert(decision_state_name(a).len() == decision_state_name(b).len());
}

fn decision_state_text(state: FilesystemDecisionState) -> (name: &'static str)
    ensures
        name@ == decision_state_name(state),
{
    match state {
        FilesystemDecisionState::ReadyOnlineGrow => "ready_online_grow",
        FilesystemDecisionState::ReadOnlyHealthCheckRequired => "read_only_health_check_required",
        FilesystemDecisionState::OfflineHealthCheckRequired => "offline_health_check_required",
        FilesystemDecisionState::AdapterRequired => "adapter_required",
        FilesystemDecisionState::Blocked => "blocked",
    }
}

/// The members of a health check, in order.
pub open spec fn check_parts(c: CheckModel) -> Seq<Seq<char>> {
    Seq::empty()
        .push(json::json_field("kind"@, json::json_text(filesystem_health::check_kind_name(c.kind))))
        .push(json::json_field("tool"@, json::json_text(c.tool)))
        .push(json::json_field("args"@, json::json_texts(c.args)))
        .push(json::json_field("requires_mounted"@, json::json_bool(c.requires_mounted)))
        .push(json::json_field("requires_unmounted"@, json::json_bool(c.requires_unmounted)))
        .push(json::json_field("run_automatically_on_refresh"@, json::json_bool(c.run_automatically_on_refresh)))
}

pub open spec fn check_json(check: Option<CheckModel>) -> Seq<char> {
    match check {
        None => json::json_null(),
        Some(c) => json::json_object(check_parts(c)),
    }
}

fn check_literal(check: &Option<ReadOnlyFilesystemCheck>) -> (text: String)
    ensures
        text@ == check_json(model::check_model(*check)),
{
    match check {
        None => null_literal(),
        Some(c) => {
            let mut parts = Parts::new();
            parts.field_text("kind", check_kind_text(c.kind));
            parts.field_text("tool", c.tool.as_str());
            parts.field("args", texts_literal(&c.args));
            parts.field_bool("requires_mounted", c.requires_mounted);
            parts.field_bool("requires_unmounted", c.requires_unmounted);
            parts.field_bool("run_automatically_on_refresh", c.run_automatically_on_refresh);
            parts.object()
        },
    }
}

/// What a decision is fingerprinted by, in order.
pub open spec fn decision_parts(decision: DecisionModel) -> Seq<Seq<char>> {
    Seq::empty()
        .push(json::json_field("target"@, json::json_text(decision.target)))
        .push(json::json_field("device"@, json::json_opt_text(decision.device)))
        .push(json::json_field("mountpoint"@, json::json_opt_text(decision.mountpoint)))
        .push(json::json_field("fs_type"@, json::json_opt_text(decision.fs_type)))
        .push(json::json_field("state"@, json::json_text(decision_state_name(decision.state))))
        .push(json::json_field("metadata_state"@, json::json_opt_text(decision.metadata_state)))
        .push(json::json_field("read_only_check"@, check_json(decision.read_only_check)))
        .push(json::json_field("reasons"@, json::json_texts(decision.reasons)))
        .push(json::json_field("required_actions"@, json::json_texts(decision.required_actions)))
}

/// The JSON form of a filesystem decision.
pub open spec fn decision_json(decision: DecisionModel) -> Seq<char> {
    json::json_object(decision_parts(decision))
}

fn decision_literal(decision: &FilesystemGrowthDecision) -> (text: String)
    ensures
        text@ == decision_json(decision@),
{
    let mut parts = Parts::new();
    parts.field_text("target", decision.target.as_str());
    parts.field_opt_text("device", &decision.device);
    parts.field_opt_text("mountpoint", &decision.mountpoint);
    parts.field_opt_text("fs_type", &decision.fs_type);
    parts.field_text("state", decision_state_text(decision.state));
    parts.field_opt_text("metadata_state", &decision.metadata_state);
    parts.field("read_only_check", check_literal(&decision.read_only_check));
    parts.field("reasons", texts_literal(&decision.reasons));
    parts.field("required_actions", texts_literal(&decision.required_actions));
    parts.object()
}

/// What an evidence bundle is fingerprinted by, in order.
pub open spec fn evidence_parts(evidence: EvidenceModel) -> Seq<Seq<char>> {
    Seq::empty()
        .push(json::json_number(evidence.schema_version as int))
        .push(json::json_text(evidence.locked_session_id))
        .push(json::json_text(evidence.handoff_id))
        .push(json::json_text(evidence.plan_id))
        .push(json::json_text(evidence.target_manifest_digest))
        .push(json::json_text(evidence.backup_manifest_id))
        .push(json::json_text(evidence.backup_receipt_id))
        .push(json::json_bool(evidence.backup_receipt_revalidated))
        .push(json::json_opt_text(evidence.filesystem_health_receipt_id))
        .push(decision_json(evidence.filesystem_decision))
        .push(json::json_text(evidence_status_name(evidence.status)))
        .push(json::json_bool(evidence.owner_acceptance_required))
        .push(json::json_bool(evidence.mutation_enabled))
        .push(json::json_texts(evidence.blockers))
        .push(json::json_texts(evidence.future_gates))
}

/// The JSON array over which a bundle is fingerprinted: every field but the identifier.
pub open spec fn evidence_json(evidence: EvidenceModel) -> Seq<char> {
    json::json_array(evidence_parts(evidence))
}

#[derive(Clone, Copy, Debug, PartialEq, Eq, Structural)]
pub enum PreMutationEvidenceError {
    SessionNotRevalidated,
    MutationEnabled,
    BackupBindingMismatch,
    FilesystemHealthReceiptMismatch,
}

/// The decision once a matching health receipt is in hand.
pub open spec fn settled_decision(decision: DecisionModel) -> DecisionModel {
    DecisionModel {
        state: FilesystemDecisionState::ReadyOnlineGrow,
        read_only_check: None,
        required_actions: Seq::empty(),
        reasons: decision.reasons.push(
            "explicit read-only XFS health receipt matched the exact locked session and check"@,
        ),
        ..decision
    }
}

/// Each text with the same words in front.
pub open spec fn labelled(label: Seq<char>, items: Seq<Seq<char>>) -> Seq<Seq<char>> {
    items.map_values(|t: Seq<char>| label + t)
}

/// Texts separated by single spaces.
pub open spec fn spaced(items: Seq<Seq<char>>) -> Seq<char>
    decreases items.len(),
{
    if items.len() == 0 {
        Seq::empty()
    } else if items.len() == 1 {
        items[0]
    } else {
        spaced(items.drop_last()).push(' ') + items.last()
    }
}

/// Everything that blocks, as it is found.
pub open spec fn found_blockers(
    changes: Seq<IdentityChange>,
    capabilities_match: bool,
    backup_matches: bool,
    backup_blockers: Seq<Seq<char>>,
    decision: DecisionModel,
) -> Seq<Seq<char>> {
    changes.map_values(|c: IdentityChange| c.code@ + ": "@ + c.message@) + (
    if capabilities_match {
        Seq::empty()
    } else {
        seq![
            "capability-inventory-changed: storage tool capability inventory changed after locked revalidation"@,
        ]
    }) + (if backup_matches {
        Seq::empty()
    } else if backup_blockers.len() == 0 {
        seq!["backup-evidence: receipt revalidation did not match"@]
    } else {
        labelled("backup-evidence: "@, backup_blockers)
    }) + (if !(decision.state == FilesystemDecisionState::Blocked || decision.state
        == FilesystemDecisionState::AdapterRequired) {
        Seq::empty()
    } else if decision.reasons.len() == 0 {
        seq!["filesystem-precondition: filesystem decision is blocked"@]
    } else {
        labelled("filesystem-precondition: "@, decision.reasons)
    })
}

/// Every gate that stays open, as it is found.
pub open spec fn found_gates(decision: DecisionModel) -> Seq<Seq<char>> {
    seq![
        "explicit owner acceptance of the completed M0/M1A baseline is still required before mutation-capable rollout"@,
        "exact fresh plan approval has not been recorded"@,
        "the durable journal remains at identity_revalidated; this bundle does not advance preconditions_verified"@,
        "storage mutation remains disabled"@,
    ] + (if decision.state == FilesystemDecisionState::ReadyOnlineGrow || decision.state
        == FilesystemDecisionState::Blocked || decision.state
        == FilesystemDecisionState::AdapterRequired {
        Seq::empty()
    } else {
        labelled("filesystem: "@, decision.required_actions) + (match decision.read_only_check {
            Some(check) => seq![
                "filesystem check required: "@ + check.tool.push(' ') + spaced(check.args),
            ],
            None => Seq::empty(),
        })
    })
}

/// Why no evidence can be built, if it cannot.
pub open spec fn evidence_refusal(
    session: SessionModel,
    decision: DecisionModel,
    backup: BackupReceiptRevalidation,
    receipt: Option<HealthReceiptModel>,
) -> Option<PreMutationEvidenceError> {
    let handoff = session.handoff;
    if session.journal.phase != JournalPhase::IdentityRevalidated {
        Some(PreMutationEvidenceError::SessionNotRevalidated)
    } else if handoff.mutation_enabled {
        Some(PreMutationEvidenceError::MutationEnabled)
    } else if backup.handoff_id@ != handoff.handoff_id@ || backup.plan_id@ != handoff.plan.plan_id@
        || backup.target_manifest_digest@ != handoff.target_identity.manifest_digest@ {
        Some(PreMutationEvidenceError::BackupBindingMismatch)
    } else if receipt is Some && !(decision.read_only_check is Some && decision.state
        == FilesystemDecisionState::ReadOnlyHealthCheckRequired
        && decision.read_only_check->Some_0.kind == FilesystemCheckKind::XfsMountedScrubNoModify
        && filesystem_health::receipt_is_for(receipt->Some_0, session, decision.read_only_check->Some_0)) {
        Some(PreMutationEvidenceError::FilesystemHealthReceiptMismatch)
    } else {
        None
    }
}

/// `bundle` is the evidence of these findings.
pub open spec fn is_evidence_of(
    bundle: EvidenceModel,
    session: SessionModel,
    identity: IdentityRevalidation,
    capabilities_match: bool,
    decision: DecisionModel,
    backup: BackupReceiptRevalidation,
    receipt: Option<HealthReceiptModel>,
) -> bool {
    let final_decision = if receipt is Some {
        settled_decision(decision)
    } else {
        decision
    };
    let blockers = found_blockers(
        identity.changes@,
        capabilities_match,
        backup.matches,
        text::texts(backup.blockers@),
        final_decision,
    );
    &&& bundle.schema_version == EVIDENCE_SCHEMA_VERSION
    &&& is_intact_evidence(bundle)
    &&& text::is_digest_text(bundle.bundle_id)
    &&& bundle.locked_session_id == session.session_id
    &&& bundle.handoff_id == session.handoff.handoff_id@
    &&& bundle.plan_id == session.handoff.plan.plan_id@
    &&& bundle.target_manifest_digest == session.handoff.target_identity.manifest_digest@
    &&& bundle.backup_manifest_id == backup.manifest_id@
    &&& bundle.backup_receipt_id == backup.receipt_id@
    &&& bundle.backup_receipt_revalidated == backup.matches
    &&& bundle.filesystem_health_receipt_id == match receipt {
        Some(r) => Some(r.receipt_id),
        None => None,
    }
    &&& bundle.filesystem_decision == final_decision
    &&& bundle.owner_acceptance_required
    &&& !bundle.mutation_enabled
    &&& order::is_sorted_set_of(bundle.blockers, blockers)
    &&& order::is_sorted_set_of(bundle.future_gates, found_gates(final_decision))
    &&& bundle.status == if blockers.len() > 0 {
        PreMutationEvidenceStatus::Blocked
    } else if final_decision.state == FilesystemDecisionState::ReadyOnlineGrow {
        PreMutationEvidenceStatus::EvidenceComplete
    } else {
        PreMutationEvidenceStatus::FutureChecksRequired
    }
}

fn push_line(lines: &mut Vec<String>, line: String)
    ensures
        text::texts(final(lines)@) == text::texts(old(lines)@).push(line@),
{
    lines.push(line);
    assert(text::texts(lines@) =~= text::texts(old(lines)@).push(line@));
}

fn push_labelled(lines: &mut Vec<String>, label: &str, items: &Vec<String>)
    ensures
        text::texts(final(lines)@) == text::texts(old(lines)@) + labelled(label@, text::texts(items@)),
{
    let ghost all = labelled(label@, text::texts(items@));
    let mut i: usize = 0;
    assert(text::texts(lines@) =~= text::texts(old(lines)@) + all.take(0));
    while i < items.len()
        invariant
            i <= items@.len(),
            all == labelled(label@, text::texts(items@)),
            text::texts(lines@) == text::texts(old(lines)@) + all.take(i as int),
        decreases items@.len() - i,
    {
        let mut line = label.to_owned();
        line.append(items[i].as_str());
        push_line(lines, line);
        assert(line@ == all[i as int]);
        assert(text::texts(old(lines)@) + all.take(i + 1) =~= (text::texts(old(lines)@) + all.take(
            i as int,
        )).push(all[i as int]));
        i += 1;
    }
    assert(all.take(all.len() as int) =~= all);
}

fn spaced_text(items: &Vec<String>) -> (text: String)
    ensures
        text@ == spaced(text::texts(items@)),
{
    let ghost all = text::texts(items@);
    let mut text = String::new();
    let mut i: usize = 0;
    while i < items.len()
        invariant
            i <= items@.len(),
            all == text::texts(items@),
            text@ == spaced(all.take(i as int)),
        decreases items@.len() - i,
    {
        let ghost before = text@;
        if i > 0 {
            text.push(' ');
        }
        text.append(items[i].as_str());
        proof {
            assert(all.take(i + 1).drop_last() =~= all.take(i as int));
            assert(all.take(i + 1).last() == items@[i as int]@);
            if i == 0 {
                assert(before =~= Seq::<char>::empty());
                assert(text@ =~= items@[0]@);
            }
        }
        i += 1;
    }
    assert(all.take(all.len() as int) =~= all);
    text
}

fn collect_blockers(
    identity: &IdentityRevalidation,
    capabilities_match: bool,
    backup: &BackupReceiptRevalidation,
    decision: &FilesystemGrowthDecision,
) -> (lines: Vec<String>)
    ensures
        text::texts(lines@) == found_blockers(
            identity.changes@,
            capabilities_match,
            backup.matches,
            text::texts(backup.blockers@),
            decision@,
        ),
{
    let mut lines = change_lines(&identity.changes);
    if !capabilities_match {
        push_line(
            &mut lines,
            "capability-inventory-changed: storage tool capability inventory changed after locked revalidation".to_owned(),
        );
    }
    if !backup.matches {
        push_labelled(&mut lines, "backup-evidence: ", &backup.blockers);
        if backup.blockers.len() == 0 {
            push_line(
                &mut lines,
                "backup-evidence: receipt revalidation did not match".to_owned(),
            );
        }
    }
    if decision.state == FilesystemDecisionState::Blocked || decision.state
        == FilesystemDecisionState::AdapterRequired {
        push_labelled(&mut lines, "filesystem-precondition: ", &decision.reasons);
        if decision.reasons.len() == 0 {
            push_line(
                &mut lines,
                "filesystem-precondition: filesystem decision is blocked".to_owned(),
            );
        }
    }
    assert(text::texts(lines@) =~= found_blockers(
        identity.changes@,
        capabilities_match,
        backup.matches,
        text::texts(backup.blockers@),
        decision@,
    ));
    lines
}

fn collect_gates(decision: &FilesystemGrowthDecision) -> (lines: Vec<String>)
    ensures
        text::texts(lines@) == found_gates(decision@),
{
    let mut lines: Vec<String> = Vec::new();
    assert(text::texts(lines@) =~= Seq::empty());
    push_line(
        &mut lines,
        "explicit owner acceptance of the completed M0/M1A baseline is still required before mutation-capable rollout".to_owned(),
    );
    push_line(&mut lines, "exact fresh plan approval has not been recorded".to_owned());
    push_line(
        &mut lines,
        "the durable journal remains at identity_revalidated; this bundle does not advance preconditions_verified".to_owned(),
    );
    push_line(&mut lines, "storage mutation remains disabled".to_owned());
    if !(decision.state == FilesystemDecisionState::ReadyOnlineGrow || decision.state
        == FilesystemDecisionState::Blocked || decision.state
        == FilesystemDecisionState::AdapterRequired) {
        push_labelled(&mut lines, "filesystem: ", &decision.required_actions);
        match &decision.read_only_check {
            Some(check) => {
                let mut line = "filesystem check required: ".to_owned();
                line.append(check.tool.as_str());
                line.push(' ');
                line.append(spaced_text(&check.args).as_str());
                assert(line@ =~= "filesystem check required: "@ + check.tool@.push(' ') + spaced(
                    text::texts(check.args@),
                ));
                push_line(&mut lines, line);
            },
            None => {},
        }
    }
    assert(text::texts(lines@) =~= found_gates(decision@));
    lines
}

/// Collects the evidence of one revalidated session. `identity`, `capabilities_match` and
/// `filesystem_decision` are the planner's findings on a fresh snapshot.
pub fn build_pre_mutation_evidence(
    session: &LockedExecutionSession,
    identity: &IdentityRevalidation,
    capabilities_match: bool,
    filesystem_decision: &FilesystemGrowthDecision,
    backup_revalidation: &BackupReceiptRevalidation,
) -> (result: Result<PreMutationEvidenceBundle, PreMutationEvidenceError>)
    ensures
        match result {
            Ok(bundle) => evidence_refusal(
                session@,
                filesystem_decision@,
                *backup_revalidation,
                None,
            ) is None && is_evidence_of(
                bundle@,
                session@,
                *identity,
                capabilities_match,
                filesystem_decision@,
                *backup_revalidation,
                None,
            ),
            Err(e) => evidence_refusal(
                session@,
                filesystem_decision@,
                *backup_revalidation,
                None,
            ) == Some(e),
        },
{
    build_pre_mutation_evidence_inner(
        session,
        identity,
        capabilities_match,
        filesystem_decision,
        backup_revalidation,
        None,
    )
}

/// Collects the evidence of one revalidated session in which the pending health check ran.
pub fn build_pre_mutation_evidence_with_filesystem_health(
    session: &LockedExecutionSession,
    identity: &IdentityRevalidation,
    capabilities_match: bool,
    filesystem_decision: &FilesystemGrowthDecision,
    backup_revalidation: &BackupReceiptRevalidation,
    filesystem_health_receipt: &ExplicitFilesystemHealthReceipt,
) -> (result: Result<PreMutationEvidenceBundle, PreMutationEvidenceError>)
    ensures
        match result {
            Ok(bundle) => evidence_refusal(
                session@,
                filesystem_decision@,
                *backup_revalidation,
                Some(filesystem_health_receipt@),
            ) is None && is_evidence_of(
                bundle@,
                session@,
                *identity,
                capabilities_match,
                filesystem_decision@,
                *backup_revalidation,
                Some(filesystem_health_receipt@),
            ),
            Err(e) => evidence_refusal(
                session@,
                filesystem_decision@,
                *backup_revalidation,
                Some(filesystem_health_receipt@),
            ) == Some(e),
        },
{
    build_pre_mutation_evidence_inner(
        session,
        identity,
        capabilities_match,
        filesystem_decision,
        backup_revalidation,
        Some(filesystem_health_receipt),
    )
}

pub open spec fn receipt_model(receipt: Option<&ExplicitFilesystemHealthReceipt>) -> Option<
    HealthReceiptModel,
> {
    match receipt {
        Some(r) => Some(r@),
        None => None,
    }
}

fn build_pre_mutation_evidence_inner(
    session: &LockedExecutionSession,
    identity: &IdentityRevalidation,
    capabilities_match: bool,
    filesystem_decision: &FilesystemGrowthDecision,
    backup_revalidation: &BackupReceiptRevalidation,
    filesystem_health_receipt: Option<&ExplicitFilesystemHealthReceipt>,
) -> (result: Result<PreMutationEvidenceBundle, PreMutationEvidenceError>)
    ensures
        match result {
            Ok(bundle) => evidence_refusal(
                session@,
                filesystem_decision@,
                *backup_revalidation,
                receipt_model(filesystem_health_receipt),
            ) is None && is_evidence_of(
                bundle@,
                session@,
                *identity,
                capabilities_match,
                filesystem_decision@,
                *backup_revalidation,
                receipt_model(filesystem_health_receipt),
            ),
            Err(e) => evidence_refusal(
                session@,
                filesystem_decision@,
                *backup_revalidation,
                receipt_model(filesystem_health_receipt),
            ) == Some(e),
        },
{
    let handoff = session.handoff();
    if session.journal().phase != JournalPhase::IdentityRevalidated {
        return Err(PreMutationEvidenceError::SessionNotRevalidated);
    }
    if MUTATION_ENABLED || session.mutation_enabled() || handoff.mutation_enabled {
        return Err(PreMutationEvidenceError::MutationEnabled);
    }
    if !same_text(backup_revalidation.handoff_id.as_str(), handoff.handoff_id.as_str())
        || !same_text(backup_revalidation.plan_id.as_str(), handoff.plan.plan_id.as_str())
        || !same_text(
        backup_revalidation.target_manifest_digest.as_str(),
        handoff.target_identity.manifest_digest.as_str(),
    ) {
        return Err(PreMutationEvidenceError::BackupBindingMismatch);
    }
    let mut decision = copy_decision(filesystem_decision);
    let mut health_receipt_id: Option<String> = None;
    match filesystem_health_receipt {
        Some(receipt) => {
            match &filesystem_decision.read_only_check {
                None => {
                    return Err(PreMutationEvidenceError::FilesystemHealthReceiptMismatch);
                },
                Some(check) => {
                    if filesystem_decision.state
                        != FilesystemDecisionState::ReadOnlyHealthCheckRequired || check.kind
                        != FilesystemCheckKind::XfsMountedScrubNoModify
                        || !receipt_matches_exact_check(receipt, session, check) {
                        return Err(PreMutationEvidenceError::FilesystemHealthReceiptMismatch);
                    }
                },
            }
            decision.state = FilesystemDecisionState::ReadyOnlineGrow;
            decision.read_only_check = None;
            decision.required_actions = Vec::new();
            push_line(
                &mut decision.reasons,
                "explicit read-only XFS health receipt matched the exact locked session and check".to_owned(),
            );
            assert(decision@.required_actions =~= Seq::empty());
            health_receipt_id = Some(receipt.receipt_id().to_owned());
        },
        None => {},
    }
    let found = collect_blockers(identity, capabilities_match, backup_revalidation, &decision);
    let blockers = sorted_set(&found);
    let future_gates = sorted_set(&collect_gates(&decision));
    let status = if found.len() > 0 {
        PreMutationEvidenceStatus::Blocked
    } else if decision.state == FilesystemDecisionState::ReadyOnlineGrow {
        PreMutationEvidenceStatus::EvidenceComplete
    } else {
        PreMutationEvidenceStatus::FutureChecksRequired
    };
    let mut bundle = PreMutationEvidenceBundle {
        schema_version: EVIDENCE_SCHEMA_VERSION,
        bundle_id: String::new(),
        locked_session_id: session.session_id().to_owned(),
        handoff_id: handoff.handoff_id.clone(),
        plan_id: handoff.plan.plan_id.clone(),
        target_manifest_digest: handoff.target_identity.manifest_digest.clone(),
        backup_manifest_id: backup_revalidation.manifest_id.clone(),
        backup_receipt_id: backup_revalidation.receipt_id.clone(),
        backup_receipt_revalidated: backup_revalidation.matches,
        filesystem_health_receipt_id: health_receipt_id,
        filesystem_decision: decision,
        status,
        owner_acceptance_required: true,
        mutation_enabled: false,
        blockers,
        future_gates,
    };
    bundle.bundle_id = bundle.compute_bundle_id();
    Ok(bundle)
}

/// Evidence blocks exactly when something was found that blocks.
pub proof fn evidence_blocks_iff_something_was_found(
    bundle: EvidenceModel,
    session: SessionModel,
    identity: IdentityRevalidation,
    capabilities_match: bool,
    decision: DecisionModel,
    backup: BackupReceiptRevalidation,
    receipt: Option<HealthReceiptModel>,
)
    requires
        is_evidence_of(
            bundle,
            session,
            identity,
            capabilities_match,
            decision,
            backup,
            receipt,
        ),
    ensures
        bundle.status == PreMutationEvidenceStatus::Blocked <==> bundle.blockers.len() > 0,
        bundle.status == PreMutationEvidenceStatus::EvidenceComplete ==> capabilities_match
            && identity.changes@.len() == 0 && backup.matches,
{
    let final_decision = if receipt is Some {
        settled_decision(decision)
    } else {
        decision
    };
    let found = found_blockers(
        identity.changes@,
        capabilities_match,
        backup.matches,
        text::texts(backup.blockers@),
        final_decision,
    );
    order::lemma_sorted_set_empty(bundle.blockers, found);
    lemma_found_blockers_len(
        identity.changes@,
        capabilities_match,
        backup.matches,
        text::texts(backup.blockers@),
        final_decision,
    );
}

/// Nothing blocks only where nothing changed and the backups are sound.
proof fn lemma_found_blockers_len(
    changes: Seq<IdentityChange>,
    capabilities_match: bool,
    backup_matches: bool,
    backup_blockers: Seq<Seq<char>>,
    decision: DecisionModel,
)
    ensures
        found_blockers(
            changes,
            capabilities_match,
            backup_matches,
            backup_blockers,
            decision,
        ).len() == 0 ==> changes.len() == 0 && capabilities_match && backup_matches,
{
}

pub proof fn lemma_check_value(check: Option<CheckModel>)
    ensures
        json_reading::is_value(check_json(check)),
{
    broadcast use crate::json_reading::group_json_reading;

    match check {
        Some(c) => assert(json_reading::are_values(check_parts(c))),
        None => json_reading::null_is_value(),
    }
}

proof fn lemma_check_told(a: Option<CheckModel>, b: Option<CheckModel>)
    requires
        check_json(a) == check_json(b),
    ensures
        a == b,
{
    broadcast use crate::json_reading::group_json_reading;

    if a is Some {
        json_reading::object_is_not_null(check_parts(a->Some_0));
    }
    if b is Some {
        json_reading::object_is_not_null(check_parts(b->Some_0));
    }
    if a is Some && b is Some {
        let p = check_parts(a->Some_0);
        let q = check_parts(b->Some_0);
        assert(json_reading::are_values(p) && json_reading::are_values(q));
        assert(p[0] == q[0]);
        assert(p[1] == q[1]);
        assert(p[2] == q[2]);
        assert(p[3] == q[3]);
        assert(p[4] == q[4]);
        assert(p[5] == q[5]);
        filesystem_health::lemma_check_kind_name_told(a->Some_0.kind, b->Some_0.kind);
    }
}

pub proof fn lemma_decision_value(decision: DecisionModel)
    ensures
        json_reading::is_value(decision_json(decision)),
{
    broadcast use crate::json_reading::group_json_reading;

    lemma_check_value(decision.read_only_check);
    assert(json_reading::are_values(decision_parts(decision)));
}

proof fn lemma_decision_told(a: DecisionModel, b: DecisionModel)
    requires
        decision_json(a) == decision_json(b),
    ensures
        a == b,
{
    broadcast use crate::json_reading::group_json_reading;

    lemma_check_value(a.read_only_check);
    lemma_check_value(b.read_only_check);
    let p = decision_parts(a);
    let q = decision_parts(b);
    assert(json_reading::are_values(p) && json_reading::are_values(q));
    assert(p[0] == q[0]);
    assert(p[1] == q[1]);
    assert(p[2] == q[2]);
    assert(p[3] == q[3]);
    assert(p[4] == q[4]);
    assert(p[5] == q[5]);
    assert(p[6] == q[6]);
    assert(p[7] == q[7]);
    assert(p[8] == q[8]);
    lemma_decision_state_name_told(a.state, b.state);
    lemma_check_told(a.read_only_check, b.read_only_check);
}

/// The identifier is the fingerprint of the other fields.
pub open spec fn is_intact_evidence(evidence: EvidenceModel) -> bool {
    evidence.bundle_id == digest::text_fingerprint(evidence_json(evidence))
}

/// The two hold the same, apart from their identifiers.
pub open spec fn same_evidence(a: EvidenceModel, b: EvidenceModel) -> bool {
    &&& a.schema_version == b.schema_version
    &&& a.locked_session_id == b.locked_session_id
    &&& a.handoff_id == b.handoff_id
    &&& a.plan_id == b.plan_id
    &&& a.target_manifest_digest == b.target_manifest_digest
    &&& a.backup_manifest_id == b.backup_manifest_id
    &&& a.backup_receipt_id == b.backup_receipt_id
    &&& a.backup_receipt_revalidated == b.backup_receipt_revalidated
    &&& a.filesystem_health_receipt_id == b.filesystem_health_receipt_id
    &&& a.filesystem_decision == b.filesystem_decision
    &&& a.status == b.status
    &&& a.owner_acceptance_required == b.owner_acceptance_required
    &&& a.mutation_enabled == b.mutation_enabled
    &&& a.blockers == b.blockers
    &&& a.future_gates == b.future_gates
}

proof fn lemma_evidence_told(a: EvidenceModel, b: EvidenceModel)
    requires
        evidence_json(a) == evidence_json(b),
    ensures
        same_evidence(a, b),
{
    broadcast use crate::json_reading::group_json_reading;

    lemma_decision_value(a.filesystem_decision);
    lemma_decision_value(b.filesystem_decision);
    let p = evidence_parts(a);
    let q = evidence_parts(b);
    assert(json_reading::are_values(p) && json_reading::are_values(q));
    assert(p[0] == q[0]);
    assert(p[1] == q[1]);
    assert(p[2] == q[2]);
    assert(p[3] == q[3]);
    assert(p[4] == q[4]);
    assert(p[5] == q[5]);
    assert(p[6] == q[6]);
    assert(p[7] == q[7]);
    assert(p[8] == q[8]);
    assert(p[9] == q[9]);
    assert(p[10] == q[10]);
    assert(p[11] == q[11]);
    assert(p[12] == q[12]);
    assert(p[13] == q[13]);
    assert(p[14] == q[14]);
    lemma_decision_told(a.filesystem_decision, b.filesystem_decision);
    lemma_evidence_status_name_told(a.status, b.status);
}

/// An evidence bundle that was changed under its identifier is noticed, short of a SHA-256 collision.
pub proof fn changed_evidence_is_detected(a: EvidenceModel, b: EvidenceModel)
    requires
        is_intact_evidence(a),
        b.bundle_id == a.bundle_id,
        !same_evidence(a, b),
    ensures
        !is_intact_evidence(b) || digest::is_collision(evidence_json(a), evidence_json(b)),
{
    if is_intact_evidence(b) {
        digest::fingerprint_tells_its_text(evidence_json(a), evidence_json(b));
        if evidence_json(a) == evidence_json(b) {
            lemma_evidence_told(a, b);
        }
    }
}

/// A text is among the blockers of a bundle exactly where something found says so: a change of the
/// identity, a changed tool inventory, a backup that does not match, or a filesystem that may not
/// grow and was not cleared by a health receipt. The status is blocked exactly where there is a
/// blocker, and complete exactly where there is none and the filesystem is ready or was cleared.
pub proof fn blockers_are_exactly_what_was_found(
    bundle: EvidenceModel,
    session: SessionModel,
    identity: IdentityRevalidation,
    capabilities_match: bool,
    decision: DecisionModel,
    backup: BackupReceiptRevalidation,
    receipt: Option<HealthReceiptModel>,
    t: Seq<char>,
)
    requires
        is_evidence_of(
            bundle,
            session,
            identity,
            capabilities_match,
            decision,
            backup,
            receipt,
        ),
    ensures
        bundle.blockers.contains(t) <==> {
            let may_not_grow = receipt is None && (decision.state is Blocked
                || decision.state is AdapterRequired);
            ||| exists|i: int|
                0 <= i < identity.changes@.len() && t == (#[trigger] identity.changes@[i]).code@
                    + ": "@ + identity.changes@[i].message@
            ||| !capabilities_match && t
                == "capability-inventory-changed: storage tool capability inventory changed after locked revalidation"@
            ||| !backup.matches && backup.blockers@.len() == 0 && t
                == "backup-evidence: receipt revalidation did not match"@
            ||| !backup.matches && exists|i: int|
                0 <= i < backup.blockers@.len() && t == "backup-evidence: "@ + (
                #[trigger] backup.blockers@[i])@
            ||| may_not_grow && decision.reasons.len() == 0 && t
                == "filesystem-precondition: filesystem decision is blocked"@
            ||| may_not_grow && exists|i: int|
                0 <= i < decision.reasons.len() && t == "filesystem-precondition: "@
                    + #[trigger] decision.reasons[i]
        },
        bundle.status is Blocked <==> exists|s: Seq<char>| bundle.blockers.contains(s),
        bundle.status is EvidenceComplete <==> {
            &&& identity.changes@.len() == 0
            &&& capabilities_match
            &&& backup.matches
            &&& decision.state is ReadyOnlineGrow || receipt is Some
        },
        bundle.status is FutureChecksRequired <==> {
            &&& identity.changes@.len() == 0
            &&& capabilities_match
            &&& backup.matches
            &&& receipt is None
            &&& decision.state is ReadOnlyHealthCheckRequired
                || decision.state is OfflineHealthCheckRequired
        },
{
    let final_decision = if receipt is Some {
        settled_decision(decision)
    } else {
        decision
    };
    let changes = identity.changes@.map_values(|c: IdentityChange| c.code@ + ": "@ + c.message@);
    let on_tools = if capabilities_match {
        Seq::<Seq<char>>::empty()
    } else {
        seq![
            "capability-inventory-changed: storage tool capability inventory changed after locked revalidation"@,
        ]
    };
    let lines = text::texts(backup.blockers@);
    let on_backup = if backup.matches {
        Seq::<Seq<char>>::empty()
    } else if lines.len() == 0 {
        seq!["backup-evidence: receipt revalidation did not match"@]
    } else {
        labelled("backup-evidence: "@, lines)
    };
    let on_filesystem = if !(final_decision.state is Blocked
        || final_decision.state is AdapterRequired) {
        Seq::<Seq<char>>::empty()
    } else if decision.reasons.len() == 0 {
        seq!["filesystem-precondition: filesystem decision is blocked"@]
    } else {
        labelled("filesystem-precondition: "@, decision.reasons)
    };
    let found = found_blockers(
        identity.changes@,
        capabilities_match,
        backup.matches,
        lines,
        final_decision,
    );
    assert(found == changes + on_tools + on_backup + on_filesystem);
    lemma_contains_of_sum(changes, on_tools, on_backup, on_filesystem, t);
    assert(bundle.blockers.contains(t) <==> found.contains(t));
    lemma_contains_labelled("backup-evidence: "@, lines, t);
    lemma_contains_labelled("filesystem-precondition: "@, decision.reasons, t);
    assert(changes.contains(t) <==> exists|i: int|
        0 <= i < identity.changes@.len() && t == (#[trigger] identity.changes@[i]).code@ + ": "@
            + identity.changes@[i].message@) by {
        if changes.contains(t) {
            let i = choose|i: int| 0 <= i < changes.len() && changes[i] == t;
            assert(identity.changes@[i].code@ + ": "@ + identity.changes@[i].message@ == t);
        }
        if exists|i: int|
            0 <= i < identity.changes@.len() && t == (#[trigger] identity.changes@[i]).code@ + ": "@
                + identity.changes@[i].message@ {
            let i = choose|i: int|
                0 <= i < identity.changes@.len() && t == (#[trigger] identity.changes@[i]).code@
                    + ": "@ + identity.changes@[i].message@;
            assert(changes[i] == t);
        }
    }
    assert(on_backup.contains(t) <==> {
        ||| !backup.matches && backup.blockers@.len() == 0 && t
            == "backup-evidence: receipt revalidation did not match"@
        ||| !backup.matches && exists|i: int|
            0 <= i < backup.blockers@.len() && t == "backup-evidence: "@ + (
            #[trigger] backup.blockers@[i])@
    }) by {
        if !backup.matches && lines.len() == 0 {
            assert(on_backup[0] == "backup-evidence: receipt revalidation did not match"@);
        }
        if exists|i: int| 0 <= i < lines.len() && t == "backup-evidence: "@ + #[trigger] lines[i] {
            let i = choose|i: int|
                0 <= i < lines.len() && t == "backup-evidence: "@ + #[trigger] lines[i];
            assert(backup.blockers@[i]@ == lines[i]);
        }
        if exists|i: int|
            0 <= i < backup.blockers@.len() && t == "backup-evidence: "@ + (
            #[trigger] backup.blockers@[i])@ {
            let i = choose|i: int|
                0 <= i < backup.blockers@.len() && t == "backup-evidence: "@ + (
                #[trigger] backup.blockers@[i])@;
            assert(t == "backup-evidence: "@ + lines[i]);
        }
    }
    if !capabilities_match {
        assert(on_tools[0]
            == "capability-inventory-changed: storage tool capability inventory changed after locked revalidation"@);
    }
    if on_filesystem.len() > 0 && decision.reasons.len() == 0 {
        assert(on_filesystem[0] == "filesystem-precondition: filesystem decision is blocked"@);
    }
    order::lemma_sorted_set_empty(bundle.blockers, found);
    if found.len() > 0 {
        assert(bundle.blockers.contains(bundle.blockers[0]));
    }
    assert(found.len() == changes.len() + on_tools.len() + on_backup.len() + on_filesystem.len());
}

proof fn lemma_contains_of_sum(
    a: Seq<Seq<char>>,
    b: Seq<Seq<char>>,
    c: Seq<Seq<char>>,
    d: Seq<Seq<char>>,
    t: Seq<char>,
)
    ensures
        (a + b + c + d).contains(t) <==> a.contains(t) || b.contains(t) || c.contains(t)
            || d.contains(t),
{
    lemma_contains_of_both(a, b, t);
    lemma_contains_of_both(a + b, c, t);
    lemma_contains_of_both(a + b + c, d, t);
}

proof fn lemma_contains_of_both(a: Seq<Seq<char>>, b: Seq<Seq<char>>, t: Seq<char>)
    ensures
        (a + b).contains(t) <==> a.contains(t) || b.contains(t),
{
    let both = a + b;
    if both.contains(t) {
        let i = choose|i: int| 0 <= i < both.len() && both[i] == t;
        if i < a.len() {
            assert(a[i] == t);
        } else {
            assert(b[i - a.len()] == t);
        }
    }
    if a.contains(t) {
        let i = choose|i: int| 0 <= i < a.len() && a[i] == t;
        assert(both[i] == t);
    }
    if b.contains(t) {
        let i = choose|i: int| 0 <= i < b.len() && b[i] == t;
        assert(both[a.len() + i] == t);
    }
}

proof fn lemma_contains_labelled(label: Seq<char>, items: Seq<Seq<char>>, t: Seq<char>)
    ensures
        labelled(label, items).contains(t) <==> exists|i: int|
            0 <= i < items.len() && t == label + #[trigger] items[i],
{
    let all = labelled(label, items);
    if all.contains(t) {
        let i = choose|i: int| 0 <= i < all.len() && all[i] == t;
        assert(t == label + items[i]);
    }
    if exists|i: int| 0 <= i < items.len() && t == label + #[trigger] items[i] {
        let i = choose|i: int| 0 <= i < items.len() && t == label + #[trigger] items[i];
        assert(all[i] == t);
    }
}

/// A filesystem that may not grow, and that no health receipt cleared, blocks the bundle, and every
/// reason of the decision is one of its blockers.
pub proof fn filesystem_that_may_not_grow_blocks(
    bundle: EvidenceModel,
    session: SessionModel,
    identity: IdentityRevalidation,
    capabilities_match: bool,
    decision: DecisionModel,
    backup: BackupReceiptRevalidation,
    i: int,
)
    requires
        is_evidence_of(bundle, session, identity, capabilities_match, decision, backup, None),
        decision.state is Blocked || decision.state is AdapterRequired,
    ensures
        bundle.status is Blocked,
        bundle.blockers.len() > 0,
        0 <= i < decision.reasons.len() ==> bundle.blockers.contains(
            "filesystem-precondition: "@ + decision.reasons[i],
        ),
{
    let t = if decision.reasons.len() == 0 {
        "filesystem-precondition: filesystem decision is blocked"@
    } else if 0 <= i < decision.reasons.len() {
        "filesystem-precondition: "@ + decision.reasons[i]
    } else {
        "filesystem-precondition: "@ + decision.reasons[0]
    };
    blockers_are_exactly_what_was_found(
        bundle,
        session,
        identity,
        capabilities_match,
        decision,
        backup,
        None,
        t,
    );
    assert(bundle.blockers.contains(t));
}

/// A text is among the open gates of a bundle exactly where it is one of the four that stand in
/// every bundle, or an action or a check that the filesystem still needs.
pub proof fn gates_are_exactly_what_stays_open(
    bundle: EvidenceModel,
    session: SessionModel,
    identity: IdentityRevalidation,
    capabilities_match: bool,
    decision: DecisionModel,
    backup: BackupReceiptRevalidation,
    receipt: Option<HealthReceiptModel>,
    t: Seq<char>,
)
    requires
        is_evidence_of(
            bundle,
            session,
            identity,
            capabilities_match,
            decision,
            backup,
            receipt,
        ),
    ensures
        bundle.future_gates.contains(t) <==> {
            let check_pending = receipt is None && (decision.state is ReadOnlyHealthCheckRequired
                || decision.state is OfflineHealthCheckRequired);
            ||| t
                == "explicit owner acceptance of the completed M0/M1A baseline is still required before mutation-capable rollout"@
            ||| t == "exact fresh plan approval has not been recorded"@
            ||| t
                == "the durable journal remains at identity_revalidated; this bundle does not advance preconditions_verified"@
            ||| t == "storage mutation remains disabled"@
            ||| check_pending && exists|i: int|
                0 <= i < decision.required_actions.len() && t == "filesystem: "@
                    + #[trigger] decision.required_actions[i]
            ||| check_pending && decision.read_only_check is Some && t
                == "filesystem check required: "@ + decision.read_only_check->Some_0.tool + seq![' ']
                + spaced(decision.read_only_check->Some_0.args)
        },
{
    let final_decision = if receipt is Some {
        settled_decision(decision)
    } else {
        decision
    };
    let standing = seq![
        "explicit owner acceptance of the completed M0/M1A baseline is still required before mutation-capable rollout"@,
        "exact fresh plan approval has not been recorded"@,
        "the durable journal remains at identity_revalidated; this bundle does not advance preconditions_verified"@,
        "storage mutation remains disabled"@,
    ];
    let found = found_gates(final_decision);
    assert(bundle.future_gates.contains(t) <==> found.contains(t));
    assert(standing[0]
        == "explicit owner acceptance of the completed M0/M1A baseline is still required before mutation-capable rollout"@);
    assert(standing[1] == "exact fresh plan approval has not been recorded"@);
    assert(standing[2]
        == "the durable journal remains at identity_revalidated; this bundle does not advance preconditions_verified"@);
    assert(standing[3] == "storage mutation remains disabled"@);
    let pending = receipt is None && (decision.state is ReadOnlyHealthCheckRequired
        || decision.state is OfflineHealthCheckRequired);
    if pending {
        let actions = labelled("filesystem: "@, decision.required_actions);
        let check = match decision.read_only_check {
            Some(check) => seq![
                "filesystem check required: "@ + check.tool.push(' ') + spaced(check.args),
            ],
            None => Seq::empty(),
        };
        lemma_contains_labelled("filesystem: "@, decision.required_actions, t);
        lemma_contains_of_both(actions, check, t);
        lemma_contains_of_both(standing, actions + check, t);
        assert(found == standing + (actions + check));
        if decision.read_only_check is Some {
            let c = decision.read_only_check->Some_0;
            assert("filesystem check required: "@ + c.tool.push(' ') + spaced(c.args)
                =~= "filesystem check required: "@ + c.tool + seq![' '] + spaced(c.args));
            assert(check[0] == "filesystem check required: "@ + c.tool.push(' ') + spaced(c.args));
        }
    } else {
        assert(found =~= standing);
    }
}

/// Words are set apart by single spaces, however they are put together.
pub proof fn words_are_set_apart_by_single_spaces(a: Seq<Seq<char>>, b: Seq<Seq<char>>)
    ensures
        spaced(Seq::empty()) == Seq::<char>::empty(),
        a.len() == 1 ==> spaced(a) == a[0],
        a.len() > 0 && b.len() > 0 ==> spaced(a + b) == spaced(a) + seq![' '] + spaced(b),
    decreases b.len(),
{
    if a.len() > 0 && b.len() > 0 {
        let both = a + b;
        assert(both.last() == b.last());
        if b.len() == 1 {
            assert(both.drop_last() =~= a);
            assert(spaced(both) =~= spaced(a) + seq![' '] + spaced(b));
        } else {
            words_are_set_apart_by_single_spaces(a, b.drop_last());
            assert(both.drop_last() =~= a + b.drop_last());
            assert(spaced(both) =~= spaced(a) + seq![' '] + spaced(b));
        }
    }
}

/// A bundle names the session, handoff, plan, target, backup and health receipt that it is about,
/// keeps the decision as it was, or as the receipt cleared it, and never allows a mutation.
pub proof fn evidence_names_what_it_is_about(
    bundle: EvidenceModel,
    session: SessionModel,
    identity: IdentityRevalidation,
    capabilities_match: bool,
    decision: DecisionModel,
    backup: BackupReceiptRevalidation,
    receipt: Option<HealthReceiptModel>,
)
    requires
        is_evidence_of(
            bundle,
            session,
            identity,
            capabilities_match,
            decision,
            backup,
            receipt,
        ),
    ensures
        bundle.schema_version == 3,
        bundle.locked_session_id == session.session_id,
        bundle.handoff_id == session.handoff.handoff_id@,
        bundle.plan_id == session.handoff.plan.plan_id@,
        bundle.target_manifest_digest == session.handoff.target_identity.manifest_digest@,
        bundle.backup_manifest_id == backup.manifest_id@,
        bundle.backup_receipt_id == backup.receipt_id@,
        bundle.backup_receipt_revalidated == backup.matches,
        receipt is Some <==> bundle.filesystem_health_receipt_id is Some,
        receipt is Some ==> bundle.filesystem_health_receipt_id->Some_0
            == receipt->Some_0.receipt_id,
        bundle.owner_acceptance_required,
        !bundle.mutation_enabled,
        receipt is None ==> bundle.filesystem_decision == decision,
        bundle.filesystem_decision.target == decision.target,
        bundle.filesystem_decision.device == decision.device,
        bundle.filesystem_decision.mountpoint == decision.mountpoint,
        bundle.filesystem_decision.fs_type == decision.fs_type,
        bundle.filesystem_decision.metadata_state == decision.metadata_state,
        receipt is Some ==> {
            &&& bundle.filesystem_decision.state is ReadyOnlineGrow
            &&& bundle.filesystem_decision.read_only_check is None
            &&& bundle.filesystem_decision.required_actions.len() == 0
            &&& bundle.filesystem_decision.reasons.len() == decision.reasons.len() + 1
            &&& bundle.filesystem_decision.reasons.drop_last() == decision.reasons
            &&& bundle.filesystem_decision.reasons.last()
                == "explicit read-only XFS health receipt matched the exact locked session and check"@
        },
{
    if receipt is Some {
        assert(bundle.filesystem_decision.reasons.drop_last() =~= decision.reasons);
    }
}

/// Evidence is built exactly where the session was revalidated, nothing may be changed, the backup
/// belongs to the handoff, and a health receipt, if there is one, is that of the pending scrub.
pub proof fn evidence_is_built_where_everything_belongs_together(
    session: SessionModel,
    decision: DecisionModel,
    backup: BackupReceiptRevalidation,
    receipt: Option<HealthReceiptModel>,
)
    ensures
        evidence_refusal(session, decision, backup, receipt) is None <==> {
            &&& session.journal.phase is IdentityRevalidated
            &&& !session.handoff.mutation_enabled
            &&& backup.handoff_id@ == session.handoff.handoff_id@
            &&& backup.plan_id@ == session.handoff.plan.plan_id@
            &&& backup.target_manifest_digest@ == session.handoff.target_identity.manifest_digest@
            &&& receipt matches Some(r) ==> {
                &&& decision.state is ReadOnlyHealthCheckRequired
                &&& decision.read_only_check matches Some(check)
                &&& check.kind is XfsMountedScrubNoModify
                &&& r.schema_version == 1
                &&& filesystem_health::is_intact_health_receipt(r)
                &&& r.locked_session_id == session.session_id
                &&& r.handoff_id == session.handoff.handoff_id@
                &&& r.plan_id == session.handoff.plan.plan_id@
                &&& r.target_manifest_digest == session.handoff.target_identity.manifest_digest@
                &&& r.kind is XfsMountedScrubNoModify
                &&& r.tool == check.tool
                &&& r.args == check.args
            }
        },
        session.journal.phase is IdentityRevalidated && session.handoff.mutation_enabled
            ==> evidence_refusal(session, decision, backup, receipt) == Some(
            PreMutationEvidenceError::MutationEnabled,
        ),
        !(session.journal.phase is IdentityRevalidated) ==> evidence_refusal(
            session,
            decision,
            backup,
            receipt,
        ) == Some(PreMutationEvidenceError::SessionNotRevalidated),
{
}

/// Each refusal to build evidence names something that is wrong.
pub proof fn refused_bundle_names_its_reason(
    session: SessionModel,
    decision: DecisionModel,
    backup: BackupReceiptRevalidation,
    receipt: Option<HealthReceiptModel>,
)
    ensures
        evidence_refusal(session, decision, backup, receipt) matches Some(e) ==> match e {
            PreMutationEvidenceError::SessionNotRevalidated => !(session.journal.phase
                is IdentityRevalidated),
            PreMutationEvidenceError::MutationEnabled => session.handoff.mutation_enabled,
            PreMutationEvidenceError::BackupBindingMismatch => {
                ||| backup.handoff_id@ != session.handoff.handoff_id@
                ||| backup.plan_id@ != session.handoff.plan.plan_id@
                ||| backup.target_manifest_digest@
                    != session.handoff.target_identity.manifest_digest@
            },
            PreMutationEvidenceError::FilesystemHealthReceiptMismatch => receipt is Some && {
                ||| !(decision.state is ReadOnlyHealthCheckRequired)
                ||| decision.read_only_check is None
                ||| !(decision.read_only_check->Some_0.kind is XfsMountedScrubNoModify)
                ||| !filesystem_health::receipt_is_for(
                    receipt->Some_0,
                    session,
                    decision.read_only_check->Some_0,
                )
            },
            _ => false,
        },
{
}

} // verus!
