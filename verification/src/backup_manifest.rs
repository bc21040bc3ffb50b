//! Metadata backups that an approved plan requires.

use vstd::prelude::*;
use vstd::string::*;

use crate::reading;
use crate::text;
use crate::model;
use crate::json;
use crate::json_reading;
use crate::digest;
use crate::digest::fingerprint_text;
use crate::json::{texts_literal, Parts};
use crate::model::{
    find_lvm, ExecutionHandoffStatus, FrozenExecutionHandoff, Lookup, LvmIdentityKind, Operation,
    PartitionGeometryIdentity, PlanStep, TargetIdentityManifest,
};
use crate::text::{
    contains_control, copy_opt, is_lower_hex_digest, join_path, opt_is, push_decimal, same_opt,
    same_text,
};

verus! {

pub const BACKUP_DIRECTORY: &'static str = "/var/lib/linux-storage-manager/backups";

#[derive(Clone, Copy, Debug, PartialEq, Eq, Structural)]
pub enum MetadataBackupKind {
    PartitionTable,
    LvmVolumeGroup,
}

#[derive(Clone, Debug, PartialEq, Eq)]
pub struct BackupCommandSpec {
    pub program: String,
    pub args: Vec<String>,
    pub stdin_path: Option<String>,
    pub stdout_path: Option<String>,
    pub mutates_storage_metadata: bool,
}

#[derive(Debug, PartialEq, Eq)]
pub enum BackupExpectedIdentity {
    PartitionTable { disk: String, table_label: String, table_id: Option<String> },
    LvmVolumeGroup { vg_name: String, vg_uuid: String },
}

impl Clone for BackupExpectedIdentity {
    fn clone(&self) -> (copy: Self)
        ensures
            copy == *self,
    {
        match self {
            BackupExpectedIdentity::PartitionTable { disk, table_label, table_id } => {
                BackupExpectedIdentity::PartitionTable {
                    disk: disk.clone(),
                    table_label: table_label.clone(),
                    table_id: copy_opt(table_id),
                }
            },
            BackupExpectedIdentity::LvmVolumeGroup { vg_name, vg_uuid } => {
                BackupExpectedIdentity::LvmVolumeGroup {
                    vg_name: vg_name.clone(),
                    vg_uuid: vg_uuid.clone(),
                }
            },
        }
    }
}

#[derive(Clone, Debug, PartialEq, Eq)]
pub struct MetadataBackupRequirement {
    pub ordinal: u32,
    pub kind: MetadataBackupKind,
    pub artifact_path: String,
    pub expected_identity: BackupExpectedIdentity,
    pub capture: BackupCommandSpec,
    pub recovery: BackupCommandSpec,
    pub verification_notes: Vec<String>,
}

/// The content of a backup command.
pub struct BackupCommandModel {
    pub program: Seq<char>,
    pub args: Seq<Seq<char>>,
    pub stdin_path: Option<Seq<char>>,
    pub stdout_path: Option<Seq<char>>,
    pub mutates_storage_metadata: bool,
}

/// The content of an expected identity.
pub enum ExpectedIdentityModel {
    PartitionTable { disk: Seq<char>, table_label: Seq<char>, table_id: Option<Seq<char>> },
    LvmVolumeGroup { vg_name: Seq<char>, vg_uuid: Seq<char> },
}

/// The content of a backup requirement.
pub struct RequirementModel {
    pub ordinal: u32,
    pub kind: MetadataBackupKind,
    pub artifact_path: Seq<char>,
    pub expected_identity: ExpectedIdentityModel,
    pub capture: BackupCommandModel,
    pub recovery: BackupCommandModel,
    pub verification_notes: Seq<Seq<char>>,
}

impl View for BackupCommandSpec {
    type V = BackupCommandModel;

    open spec fn view(&self) -> BackupCommandModel {
        BackupCommandModel {
            program: self.program@,
            args: text::texts(self.args@),
            stdin_path: text::opt_text(self.stdin_path),
            stdout_path: text::opt_text(self.stdout_path),
            mutates_storage_metadata: self.mutates_storage_metadata,
        }
    }
}

impl View for BackupExpectedIdentity {
    type V = ExpectedIdentityModel;

    open spec fn view(&self) -> ExpectedIdentityModel {
        match *self {
            BackupExpectedIdentity::PartitionTable { disk, table_label, table_id } => {
                ExpectedIdentityModel::PartitionTable {
                    disk: disk@,
                    table_label: table_label@,
                    table_id: text::opt_text(table_id),
                }
            },
            BackupExpectedIdentity::LvmVolumeGroup { vg_name, vg_uuid } => {
                ExpectedIdentityModel::LvmVolumeGroup { vg_name: vg_name@, vg_uuid: vg_uuid@ }
            },
        }
    }
}

impl View for MetadataBackupRequirement {
    type V = RequirementModel;

    open spec fn view(&self) -> RequirementModel {
        RequirementModel {
            ordinal: self.ordinal,
            kind: self.kind,
            artifact_path: self.artifact_path@,
            expected_identity: self.expected_identity@,
            capture: self.capture@,
            recovery: self.recovery@,
            verification_notes: text::texts(self.verification_notes@),
        }
    }
}

/// The contents of a list of requirements.
pub open spec fn requirement_models(items: Seq<MetadataBackupRequirement>) -> Seq<RequirementModel> {
    items.map_values(|r: MetadataBackupRequirement| r@)
}

#[derive(Clone, Debug, PartialEq, Eq)]
pub struct MetadataBackupManifest {
    schema_version: u32,
    manifest_id: String,
    handoff_id: String,
    plan_id: String,
    target_manifest_digest: String,
    artifact_directory: String,
    mutation_enabled: bool,
    owner_acceptance_required: bool,
    requirements: Vec<MetadataBackupRequirement>,
}

/// The content of a backup manifest.
pub struct BackupManifestModel {
    pub schema_version: u32,
    pub manifest_id: Seq<char>,
    pub handoff_id: Seq<char>,
    pub plan_id: Seq<char>,
    pub target_manifest_digest: Seq<char>,
    pub artifact_directory: Seq<char>,
    pub mutation_enabled: bool,
    pub owner_acceptance_required: bool,
    pub requirements: Seq<RequirementModel>,
}

impl View for MetadataBackupManifest {
    type V = BackupManifestModel;

    closed spec fn view(&self) -> BackupManifestModel {
        BackupManifestModel {
            schema_version: self.schema_version,
            manifest_id: self.manifest_id@,
            handoff_id: self.handoff_id@,
            plan_id: self.plan_id@,
            target_manifest_digest: self.target_manifest_digest@,
            artifact_directory: self.artifact_directory@,
            mutation_enabled: self.mutation_enabled,
            owner_acceptance_required: self.owner_acceptance_required,
            requirements: requirement_models(self.requirements@),
        }
    }
}

impl MetadataBackupManifest {
    pub fn schema_version(&self) -> (value: u32)
        ensures
            value == self@.schema_version,
    {
        self.schema_version
    }

    pub fn manifest_id(&self) -> (value: &str)
        ensures
            value@ == self@.manifest_id,
    {
        self.manifest_id.as_str()
    }

    pub fn handoff_id(&self) -> (value: &str)
        ensures
            value@ == self@.handoff_id,
    {
        self.handoff_id.as_str()
    }

    pub fn plan_id(&self) -> (value: &str)
        ensures
            value@ == self@.plan_id,
    {
        self.plan_id.as_str()
    }

    pub fn target_manifest_digest(&self) -> (value: &str)
        ensures
            value@ == self@.target_manifest_digest,
    {
        self.target_manifest_digest.as_str()
    }

    pub fn artifact_directory(&self) -> (value: &str)
        ensures
            value@ == self@.artifact_directory,
    {
        self.artifact_directory.as_str()
    }

    pub fn mutation_enabled(&self) -> (value: bool)
        ensures
            value == self@.mutation_enabled,
    {
        self.mutation_enabled
    }

    pub fn owner_acceptance_required(&self) -> (value: bool)
        ensures
            value == self@.owner_acceptance_required,
    {
        self.owner_acceptance_required
    }

    pub fn requirements(&self) -> (value: &[MetadataBackupRequirement])
        ensures
            requirement_models(value@) == self@.requirements,
    {
        self.requirements.as_slice()
    }
}

#[derive(Debug, PartialEq, Eq)]
pub enum BackupManifestError {
    HandoffBlocked,
    MutationEnabled,
    OwnerAcceptanceBypassed,
    InvalidIdentity(String),
    PartitionIdentityMissing(String),
    PartitionIdentityAmbiguous(String),
    VolumeGroupIdentityMissing(String),
    VolumeGroupIdentityAmbiguous(String),
}

/// The content of a refusal.
pub enum BackupFault {
    HandoffBlocked,
    MutationEnabled,
    OwnerAcceptanceBypassed,
    InvalidIdentity(Seq<char>),
    PartitionIdentityMissing(Seq<char>),
    PartitionIdentityAmbiguous(Seq<char>),
    VolumeGroupIdentityMissing(Seq<char>),
    VolumeGroupIdentityAmbiguous(Seq<char>),
}

impl View for BackupManifestError {
    type V = BackupFault;

    open spec fn view(&self) -> BackupFault {
        match *self {
            BackupManifestError::HandoffBlocked => BackupFault::HandoffBlocked,
            BackupManifestError::MutationEnabled => BackupFault::MutationEnabled,
            BackupManifestError::OwnerAcceptanceBypassed => BackupFault::OwnerAcceptanceBypassed,
            BackupManifestError::InvalidIdentity(s) => BackupFault::InvalidIdentity(s@),
            BackupManifestError::PartitionIdentityMissing(s) => {
                BackupFault::PartitionIdentityMissing(s@)
            },
            BackupManifestError::PartitionIdentityAmbiguous(s) => {
                BackupFault::PartitionIdentityAmbiguous(s@)
            },
            BackupManifestError::VolumeGroupIdentityMissing(s) => {
                BackupFault::VolumeGroupIdentityMissing(s@)
            },
            BackupManifestError::VolumeGroupIdentityAmbiguous(s) => {
                BackupFault::VolumeGroupIdentityAmbiguous(s@)
            },
        }
    }
}

/// An empty name, or one with a control character, identifies nothing.
pub open spec fn is_bad_atom(s: Seq<char>) -> bool {
    s.len() == 0 || text::has_control_char(s)
}

pub open spec fn bad_atom(label: Seq<char>) -> BackupFault {
    BackupFault::InvalidIdentity(label + " is empty or contains control characters"@)
}

pub open spec fn bad_digest(label: Seq<char>) -> BackupFault {
    BackupFault::InvalidIdentity(label + " is not a lowercase SHA-256 digest"@)
}

/// The name of the artifact with one ordinal: two digits at least, then the suffix.
pub open spec fn artifact_name(ordinal: u32, suffix: Seq<char>) -> Seq<char> {
    let digits = if ordinal < 10 {
        seq!['0'] + text::decimal_text(ordinal as nat)
    } else {
        text::decimal_text(ordinal as nat)
    };
    digits.push('-') + suffix
}

/// The partitions that carry exactly this partition table.
pub open spec fn partitions_with_table(
    items: Seq<PartitionGeometryIdentity>,
    disk: Seq<char>,
    table_label: Seq<char>,
    table_id: Option<Seq<char>>,
) -> Seq<PartitionGeometryIdentity> {
    items.filter(
        |e: PartitionGeometryIdentity|
            text::opt_text(e.disk) == Some(disk) && text::opt_text(e.table_label) == Some(table_label)
                && text::opt_text(e.table_id) == table_id,
    )
}

/// The backup of a partition table.
pub open spec fn table_requirement(
    ordinal: u32,
    artifact: Seq<char>,
    disk: Seq<char>,
    table_label: Seq<char>,
    table_id: Option<Seq<char>>,
) -> RequirementModel {
    RequirementModel {
        ordinal,
        kind: MetadataBackupKind::PartitionTable,
        artifact_path: artifact,
        expected_identity: ExpectedIdentityModel::PartitionTable { disk, table_label, table_id },
        capture: BackupCommandModel {
            program: "sfdisk"@,
            args: seq!["--dump"@, disk],
            stdin_path: None,
            stdout_path: Some(artifact),
            mutates_storage_metadata: false,
        },
        recovery: BackupCommandModel {
            program: "sfdisk"@,
            args: seq![disk],
            stdin_path: Some(artifact),
            stdout_path: None,
            mutates_storage_metadata: true,
        },
        verification_notes: seq![
            "backup artifact must be non-empty and readable"@,
            "parsed dump must identify the exact frozen disk, table label and table ID"@,
            "restore drill is allowed only on a disposable fixture or explicit recovery path"@,
        ],
    }
}

/// The backup of the metadata of a volume group.
pub open spec fn group_requirement(
    ordinal: u32,
    artifact: Seq<char>,
    vg_name: Seq<char>,
    vg_uuid: Seq<char>,
) -> RequirementModel {
    RequirementModel {
        ordinal,
        kind: MetadataBackupKind::LvmVolumeGroup,
        artifact_path: artifact,
        expected_identity: ExpectedIdentityModel::LvmVolumeGroup { vg_name, vg_uuid },
        capture: BackupCommandModel {
            program: "vgcfgbackup"@,
            args: seq!["--file"@, artifact, vg_name],
            stdin_path: None,
            stdout_path: None,
            mutates_storage_metadata: false,
        },
        recovery: BackupCommandModel {
            program: "vgcfgrestore"@,
            args: seq!["--file"@, artifact, vg_name],
            stdin_path: None,
            stdout_path: None,
            mutates_storage_metadata: true,
        },
        verification_notes: seq![
            "backup artifact must be non-empty and readable"@,
            "backup metadata must identify the exact frozen VG name and UUID"@,
            "restore drill is allowed only on a disposable fixture or explicit recovery path"@,
        ],
    }
}

/// The backup that one operation requires, if it is a backup operation.
pub open spec fn requirement_of(
    identity: TargetIdentityManifest,
    operation: Operation,
    directory: Seq<char>,
    ordinal: u32,
) -> Result<Option<RequirementModel>, BackupFault> {
    match operation {
        Operation::BackupPartitionTableMetadata { disk, table_label, table_id } => {
            let found = partitions_with_table(
                identity.partitions@,
                disk@,
                table_label@,
                text::opt_text(table_id),
            );
            if is_bad_atom(disk@) {
                Err(bad_atom("partition-table disk"@))
            } else if is_bad_atom(table_label@) {
                Err(bad_atom("partition-table label"@))
            } else if table_id is Some && is_bad_atom(table_id->Some_0@) {
                Err(bad_atom("partition-table ID"@))
            } else if found.len() == 0 {
                Err(BackupFault::PartitionIdentityMissing(disk@))
            } else if found.len() > 1 {
                Err(BackupFault::PartitionIdentityAmbiguous(disk@))
            } else {
                Ok(
                    Some(
                        table_requirement(
                            ordinal,
                            text::path_join(
                                directory,
                                artifact_name(ordinal, "partition-table.sfdisk"@),
                            ),
                            disk@,
                            table_label@,
                            text::opt_text(table_id),
                        ),
                    ),
                )
            }
        },
        Operation::BackupLvmMetadata { vg_uuid } => {
            let found = model::lvm_with(identity.lvm@, LvmIdentityKind::VolumeGroup, vg_uuid@);
            if is_bad_atom(vg_uuid@) {
                Err(bad_atom("VG UUID"@))
            } else if found.len() == 0 {
                Err(BackupFault::VolumeGroupIdentityMissing(vg_uuid@))
            } else if found.len() > 1 {
                Err(BackupFault::VolumeGroupIdentityAmbiguous(vg_uuid@))
            } else if is_bad_atom(found[0].name@) {
                Err(bad_atom("VG name"@))
            } else {
                Ok(
                    Some(
                        group_requirement(
                            ordinal,
                            text::path_join(directory, artifact_name(ordinal, "lvm-vg.conf"@)),
                            found[0].name@,
                            vg_uuid@,
                        ),
                    ),
                )
            }
        },
        _ => Ok(None),
    }
}

/// What tells two backup operations apart.
pub enum BackupKey {
    PartitionTable(Seq<char>),
    VolumeGroup(Seq<char>),
}

pub open spec fn backup_key(operation: Operation) -> Option<BackupKey> {
    match operation {
        Operation::BackupPartitionTableMetadata { disk, .. } => Some(
            BackupKey::PartitionTable(disk@),
        ),
        Operation::BackupLvmMetadata { vg_uuid } => Some(BackupKey::VolumeGroup(vg_uuid@)),
        _ => None,
    }
}

/// Some step asks for the backup with this key.
pub open spec fn has_backup_key(steps: Seq<PlanStep>, key: BackupKey) -> bool {
    exists|i: int| 0 <= i < steps.len() && backup_key((#[trigger] steps[i]).operation) == Some(key)
}

/// The backups that a list of steps requires: each once, in order, numbered from one.
pub open spec fn required_backups(
    identity: TargetIdentityManifest,
    steps: Seq<PlanStep>,
    directory: Seq<char>,
) -> Result<Seq<RequirementModel>, BackupFault>
    decreases steps.len(),
{
    if steps.len() == 0 {
        Ok(Seq::empty())
    } else {
        let operation = steps.last().operation;
        match required_backups(identity, steps.drop_last(), directory) {
            Err(fault) => Err(fault),
            Ok(found) => {
                if backup_key(operation) is None || has_backup_key(
                    steps.drop_last(),
                    backup_key(operation)->Some_0,
                ) {
                    Ok(found)
                } else {
                    match requirement_of(identity, operation, directory, (found.len() + 1) as u32) {
                        Err(fault) => Err(fault),
                        Ok(Some(requirement)) => Ok(found.push(requirement)),
                        Ok(None) => Ok(found),
                    }
                }
            },
        }
    }
}

proof fn lemma_backup_fault_stays(
    identity: TargetIdentityManifest,
    steps: Seq<PlanStep>,
    directory: Seq<char>,
    n: int,
)
    requires
        0 <= n <= steps.len(),
        required_backups(identity, steps.take(n), directory) is Err,
    ensures
        required_backups(identity, steps, directory) == required_backups(
            identity,
            steps.take(n),
            directory,
        ),
    decreases steps.len(),
{
    if n == steps.len() {
        assert(steps.take(n) =~= steps);
    } else {
        assert(steps.drop_last().take(n) =~= steps.take(n));
        lemma_backup_fault_stays(identity, steps.drop_last(), directory, n);
    }
}

pub open spec fn backup_kind_name(kind: MetadataBackupKind) -> Seq<char> {
    match kind {
        MetadataBackupKind::PartitionTable => "partition_table"@,
        MetadataBackupKind::LvmVolumeGroup => "lvm_volume_group"@,
    }
}

/// Different variants have different names.
pub proof fn lemma_backup_kind_name_told(a: MetadataBackupKind, b: MetadataBackupKind)
    requires
        backup_kind_name(a) == backup_kind_name(b),
    ensures
        a == b,
{
    reveal_strlit("partition_table");
    reveal_strlit("lvm_volume_group");
    assert("partition_table"@.len() == 15);
    assert("lvm_volume_group"@.len() == 16);
    assert(backup_kind_name(a).len() == backup_kind_name(b).len());
}

pub(crate) fn backup_kind_text(kind: MetadataBackupKind) -> (name: &'static str)
    ensures
        name@ == backup_kind_name(kind),
{
    match kind {
        MetadataBackupKind::PartitionTable => "partition_table",
        MetadataBackupKind::LvmVolumeGroup => "lvm_volume_group",
    }
}

/// What a backup command is fingerprinted by, in order.
pub open spec fn backup_command_parts(command: BackupCommandModel) -> Seq<Seq<char>> {
    Seq::empty()
        .push(json::json_field("program"@, json::json_text(command.program)))
        .push(json::json_field("args"@, json::json_texts(command.args)))
        .push(json::json_field("stdin_path"@, json::json_opt_text(command.stdin_path)))
        .push(json::json_field("stdout_path"@, json::json_opt_text(command.stdout_path)))
        .push(json::json_field("mutates_storage_metadata"@, json::json_bool(command.mutates_storage_metadata)))
}

pub open spec fn backup_command_json(command: BackupCommandModel) -> Seq<char> {
    json::json_object(backup_command_parts(command))
}

fn backup_command_literal(command: &BackupCommandSpec) -> (text: String)
    ensures
        text@ == backup_command_json(command@),
{
    let mut parts = Parts::new();
    parts.field_text("program", command.program.as_str());
    parts.field("args", texts_literal(&command.args));
    parts.field_opt_text("stdin_path", &command.stdin_path);
    parts.field_opt_text("stdout_path", &command.stdout_path);
    parts.field_bool("mutates_storage_metadata", command.mutates_storage_metadata);
    parts.object()
}

/// The members of an expected identity, in order.
pub open spec fn expected_identity_parts(identity: ExpectedIdentityModel) -> Seq<Seq<char>> {
    match identity {
        ExpectedIdentityModel::PartitionTable { disk, table_label, table_id } => Seq::empty()
                .push(json::json_field("kind"@, json::json_text("partition_table"@)))
                .push(json::json_field("disk"@, json::json_text(disk)))
                .push(json::json_field("table_label"@, json::json_text(table_label)))
                .push(json::json_field("table_id"@, json::json_opt_text(table_id))),
        ExpectedIdentityModel::LvmVolumeGroup { vg_name, vg_uuid } => Seq::empty()
                .push(json::json_field("kind"@, json::json_text("lvm_volume_group"@)))
                .push(json::json_field("vg_name"@, json::json_text(vg_name)))
                .push(json::json_field("vg_uuid"@, json::json_text(vg_uuid))),
    }
}

pub open spec fn expected_identity_json(identity: ExpectedIdentityModel) -> Seq<char> {
    json::json_object(expected_identity_parts(identity))
}

pub(crate) fn expected_identity_literal(identity: &BackupExpectedIdentity) -> (text: String)
    ensures
        text@ == expected_identity_json(identity@),
{
    let mut parts = Parts::new();
    match identity {
        BackupExpectedIdentity::PartitionTable { disk, table_label, table_id } => {
            parts.field_text("kind", "partition_table");
            parts.field_text("disk", disk.as_str());
            parts.field_text("table_label", table_label.as_str());
            parts.field_opt_text("table_id", table_id);
        },
        BackupExpectedIdentity::LvmVolumeGroup { vg_name, vg_uuid } => {
            parts.field_text("kind", "lvm_volume_group");
            parts.field_text("vg_name", vg_name.as_str());
            parts.field_text("vg_uuid", vg_uuid.as_str());
        },
    }
    parts.object()
}

/// What a requirement is fingerprinted by, in order.
pub open spec fn requirement_parts(requirement: RequirementModel) -> Seq<Seq<char>> {
    Seq::empty()
        .push(json::json_field("ordinal"@, json::json_number(requirement.ordinal as int)))
        .push(json::json_field("kind"@, json::json_text(backup_kind_name(requirement.kind))))
        .push(json::json_field("artifact_path"@, json::json_text(requirement.artifact_path)))
        .push(json::json_field("expected_identity"@, expected_identity_json(requirement.expected_identity)))
        .push(json::json_field("capture"@, backup_command_json(requirement.capture)))
        .push(json::json_field("recovery"@, backup_command_json(requirement.recovery)))
        .push(json::json_field("verification_notes"@, json::json_texts(requirement.verification_notes)))
}

pub open spec fn requirement_json(requirement: RequirementModel) -> Seq<char> {
    json::json_object(requirement_parts(requirement))
}

fn requirement_literal(requirement: &MetadataBackupRequirement) -> (text: String)
    ensures
        text@ == requirement_json(requirement@),
{
    let mut parts = Parts::new();
    parts.field_number("ordinal", requirement.ordinal as u64);
    parts.field_text("kind", backup_kind_text(requirement.kind));
    parts.field_text("artifact_path", requirement.artifact_path.as_str());
    parts.field("expected_identity", expected_identity_literal(&requirement.expected_identity));
    parts.field("capture", backup_command_literal(&requirement.capture));
    parts.field("recovery", backup_command_literal(&requirement.recovery));
    parts.field("verification_notes", texts_literal(&requirement.verification_notes));
    parts.object()
}

/// The JSON array over which a backup manifest is fingerprinted.
pub open spec fn backup_manifest_json(
    handoff_id: Seq<char>,
    plan_id: Seq<char>,
    target_manifest_digest: Seq<char>,
    artifact_directory: Seq<char>,
    requirements: Seq<RequirementModel>,
) -> Seq<char> {
    json::json_array(
        Seq::empty()
            .push(json::json_number(1))
            .push(json::json_text(handoff_id))
            .push(json::json_text(plan_id))
            .push(json::json_text(target_manifest_digest))
            .push(json::json_text(artifact_directory))
            .push(json::json_bool(false))
            .push(json::json_bool(true))
            .push(json::json_array(requirements.map_values(|r: RequirementModel| requirement_json(r)))),
    )
}

fn find_table(
    items: &Vec<PartitionGeometryIdentity>,
    disk: &str,
    table_label: &str,
    table_id: &Option<String>,
) -> (found: Lookup)
    ensures
        model::lookup_of(
            items@,
            partitions_with_table(items@, disk@, table_label@, text::opt_text(*table_id)),
            found,
        ),
{
    let ghost keep = |e: PartitionGeometryIdentity|
        text::opt_text(e.disk) == Some(disk@) && text::opt_text(e.table_label) == Some(table_label@)
            && text::opt_text(e.table_id) == text::opt_text(*table_id);
    let mut found = Lookup::Missing;
    let mut i: usize = 0;
    proof {
        reveal(Seq::filter);
    }
    while i < items.len()
        invariant
            i <= items.len(),
            keep == (|e: PartitionGeometryIdentity|
                text::opt_text(e.disk) == Some(disk@) && text::opt_text(e.table_label) == Some(table_label@)
                    && text::opt_text(e.table_id) == text::opt_text(*table_id)),
            model::lookup_of(items@, items@.take(i as int).filter(keep), found),
        decreases items.len() - i,
    {
        proof {
            model::lemma_filter_next(items@, i as int, keep);
        }
        if partition_matches(&items[i], disk, table_label, table_id) {
            found = match found {
                Lookup::Missing => Lookup::Unique(i),
                _ => Lookup::Ambiguous,
            };
            assert(model::lookup_of(items@, items@.take(i + 1).filter(keep), found)) by {
                if found is Unique {
                    assert(items@.take(i + 1).filter(keep) =~= seq![items@[i as int]]);
                }
            }
        }
        i += 1;
    }
    assert(items@.take(items@.len() as int) =~= items@);
    found
}

fn partition_matches(
    partition: &PartitionGeometryIdentity,
    disk: &str,
    table_label: &str,
    table_id: &Option<String>,
) -> (yes: bool)
    ensures
        yes == (text::opt_text(partition.disk) == Some(disk@) && text::opt_text(partition.table_label) == Some(
            table_label@,
        ) && text::opt_text(partition.table_id) == text::opt_text(*table_id)),
{
    opt_is(&partition.disk, disk) && opt_is(&partition.table_label, table_label) && same_opt(
        &partition.table_id,
        table_id,
    )
}

/// The path of an artifact: its name below the artifact directory.
pub fn artifact_path(directory: &str, ordinal: u32, suffix: &str) -> (path: String)
    ensures
        path@ == text::path_join(directory@, artifact_name(ordinal, suffix@)),
{
    let mut name = String::new();
    if ordinal < 10 {
        name.push('0');
    }
    push_decimal(&mut name, ordinal as u64);
    name.push('-');
    name.append(suffix);
    assert(name@ =~= artifact_name(ordinal, suffix@));
    join_path(directory, name.as_str())
}

/// Refuses a name that is empty or holds a control character.
pub fn validate_atom(value: &str, label: &str) -> (result: Result<(), BackupManifestError>)
    ensures
        match result {
            Ok(_) => !is_bad_atom(value@),
            Err(e) => is_bad_atom(value@) && e@ == bad_atom(label@),
        },
{
    if value.is_empty() || contains_control(value) {
        let mut message = label.to_owned();
        message.append(" is empty or contains control characters");
        return Err(BackupManifestError::InvalidIdentity(message));
    }
    Ok(())
}

/// Refuses an identifier that is no digest.
pub fn validate_digest(value: &str, label: &str) -> (result: Result<(), BackupManifestError>)
    ensures
        match result {
            Ok(_) => text::is_digest_text(value@),
            Err(e) => !text::is_digest_text(value@) && e@ == bad_digest(label@),
        },
{
    if is_lower_hex_digest(value) {
        Ok(())
    } else {
        let mut message = label.to_owned();
        message.append(" is not a lowercase SHA-256 digest");
        Err(BackupManifestError::InvalidIdentity(message))
    }
}

fn table_backup(
    ordinal: u32,
    artifact: String,
    disk: &String,
    table_label: &String,
    table_id: &Option<String>,
) -> (requirement: MetadataBackupRequirement)
    ensures
        requirement@ == table_requirement(
            ordinal,
            artifact@,
            disk@,
            table_label@,
            text::opt_text(*table_id),
        ),
{
    let requirement = MetadataBackupRequirement {
        ordinal,
        kind: MetadataBackupKind::PartitionTable,
        artifact_path: artifact.clone(),
        expected_identity: BackupExpectedIdentity::PartitionTable {
            disk: disk.clone(),
            table_label: table_label.clone(),
            table_id: copy_opt(table_id),
        },
        capture: BackupCommandSpec {
            program: "sfdisk".to_owned(),
            args: vec!["--dump".to_owned(), disk.clone()],
            stdin_path: None,
            stdout_path: Some(artifact.clone()),
            mutates_storage_metadata: false,
        },
        recovery: BackupCommandSpec {
            program: "sfdisk".to_owned(),
            args: vec![disk.clone()],
            stdin_path: Some(artifact),
            stdout_path: None,
            mutates_storage_metadata: true,
        },
        verification_notes: vec![
            "backup artifact must be non-empty and readable".to_owned(),
            "parsed dump must identify the exact frozen disk, table label and table ID".to_owned(),
            "restore drill is allowed only on a disposable fixture or explicit recovery path".to_owned(),
        ],
    };
    proof {
        let model = table_requirement(
            ordinal,
            artifact@,
            disk@,
            table_label@,
            text::opt_text(*table_id),
        );
        assert(requirement@.capture.args =~= model.capture.args);
        assert(requirement@.recovery.args =~= model.recovery.args);
        assert(requirement@.verification_notes =~= model.verification_notes);
    }
    requirement
}

fn group_backup(ordinal: u32, artifact: String, vg_name: &String, vg_uuid: &String) -> (requirement:
    MetadataBackupRequirement)
    ensures
        requirement@ == group_requirement(ordinal, artifact@, vg_name@, vg_uuid@),
{
    let requirement = MetadataBackupRequirement {
        ordinal,
        kind: MetadataBackupKind::LvmVolumeGroup,
        artifact_path: artifact.clone(),
        expected_identity: BackupExpectedIdentity::LvmVolumeGroup {
            vg_name: vg_name.clone(),
            vg_uuid: vg_uuid.clone(),
        },
        capture: BackupCommandSpec {
            program: "vgcfgbackup".to_owned(),
            args: vec!["--file".to_owned(), artifact.clone(), vg_name.clone()],
            stdin_path: None,
            stdout_path: None,
            mutates_storage_metadata: false,
        },
        recovery: BackupCommandSpec {
            program: "vgcfgrestore".to_owned(),
            args: vec!["--file".to_owned(), artifact.clone(), vg_name.clone()],
            stdin_path: None,
            stdout_path: None,
            mutates_storage_metadata: true,
        },
        verification_notes: vec![
            "backup artifact must be non-empty and readable".to_owned(),
            "backup metadata must identify the exact frozen VG name and UUID".to_owned(),
            "restore drill is allowed only on a disposable fixture or explicit recovery path".to_owned(),
        ],
    };
    proof {
        let model = group_requirement(ordinal, artifact@, vg_name@, vg_uuid@);
        assert(requirement@.capture.args =~= model.capture.args);
        assert(requirement@.recovery.args =~= model.recovery.args);
        assert(requirement@.verification_notes =~= model.verification_notes);
    }
    requirement
}

/// The backup that one operation requires, if it is a backup operation.
pub fn requirement_for_operation(
    identity: &TargetIdentityManifest,
    operation: &Operation,
    artifact_directory: &str,
    ordinal: u32,
) -> (result: Result<Option<MetadataBackupRequirement>, BackupManifestError>)
    ensures
        match (result, requirement_of(*identity, *operation, artifact_directory@, ordinal)) {
            (Ok(Some(r)), Ok(Some(model))) => r@ == model,
            (Ok(None), Ok(None)) => true,
            (Err(e), Err(fault)) => e@ == fault,
            _ => false,
        },
{
    match operation {
        Operation::BackupPartitionTableMetadata { disk, table_label, table_id } => {
            match validate_atom(disk.as_str(), "partition-table disk") {
                Ok(_) => {},
                Err(e) => return Err(e),
            }
            match validate_atom(table_label.as_str(), "partition-table label") {
                Ok(_) => {},
                Err(e) => return Err(e),
            }
            match table_id {
                Some(id) => match validate_atom(id.as_str(), "partition-table ID") {
                    Ok(_) => {},
                    Err(e) => return Err(e),
                },
                None => {},
            }
            match find_table(
                &identity.partitions,
                disk.as_str(),
                table_label.as_str(),
                table_id,
            ) {
                Lookup::Missing => Err(BackupManifestError::PartitionIdentityMissing(disk.clone())),
                Lookup::Ambiguous => Err(
                    BackupManifestError::PartitionIdentityAmbiguous(disk.clone()),
                ),
                Lookup::Unique(_) => {
                    let artifact = artifact_path(
                        artifact_directory,
                        ordinal,
                        "partition-table.sfdisk",
                    );
                    Ok(Some(table_backup(ordinal, artifact, disk, table_label, table_id)))
                },
            }
        },
        Operation::BackupLvmMetadata { vg_uuid } => {
            match validate_atom(vg_uuid.as_str(), "VG UUID") {
                Ok(_) => {},
                Err(e) => return Err(e),
            }
            match find_lvm(&identity.lvm, LvmIdentityKind::VolumeGroup, vg_uuid.as_str()) {
                Lookup::Missing => Err(
                    BackupManifestError::VolumeGroupIdentityMissing(vg_uuid.clone()),
                ),
                Lookup::Ambiguous => Err(
                    BackupManifestError::VolumeGroupIdentityAmbiguous(vg_uuid.clone()),
                ),
                Lookup::Unique(i) => {
                    let vg = &identity.lvm[i];
                    match validate_atom(vg.name.as_str(), "VG name") {
                        Ok(_) => {},
                        Err(e) => return Err(e),
                    }
                    let artifact = artifact_path(artifact_directory, ordinal, "lvm-vg.conf");
                    Ok(Some(group_backup(ordinal, artifact, &vg.name, vg_uuid)))
                },
            }
        },
        _ => Ok(None),
    }
}

/// Whether two operations ask for the same backup.
fn same_backup(a: &Operation, b: &Operation) -> (same: bool)
    ensures
        same == (backup_key(*a) is Some && backup_key(*a) == backup_key(*b)),
{
    match (a, b) {
        (
            Operation::BackupPartitionTableMetadata { disk: x, .. },
            Operation::BackupPartitionTableMetadata { disk: y, .. },
        ) => same_text(x.as_str(), y.as_str()),
        (
            Operation::BackupLvmMetadata { vg_uuid: x },
            Operation::BackupLvmMetadata { vg_uuid: y },
        ) => same_text(x.as_str(), y.as_str()),
        _ => false,
    }
}

/// Whether one of the first `n` steps asks for the same backup.
fn asked_before(steps: &Vec<PlanStep>, n: usize, operation: &Operation) -> (yes: bool)
    requires
        n <= steps@.len(),
        backup_key(*operation) is Some,
    ensures
        yes == has_backup_key(steps@.take(n as int), backup_key(*operation)->Some_0),
{
    let mut i: usize = 0;
    while i < n
        invariant
            i <= n <= steps@.len(),
            backup_key(*operation) is Some,
            forall|j: int|
                0 <= j < i ==> backup_key((#[trigger] steps@[j]).operation) != backup_key(
                    *operation,
                ),
        decreases n - i,
    {
        if same_backup(operation, &steps[i].operation) {
            assert(backup_key(steps@.take(n as int)[i as int].operation) == backup_key(
                *operation,
            ));
            return true;
        }
        i += 1;
    }
    false
}

/// Why a handoff has no backup manifest, if it has none.
pub open spec fn backup_manifest_refusal(handoff: FrozenExecutionHandoff) -> Option<BackupFault> {
    if handoff.status == ExecutionHandoffStatus::Blocked {
        Some(BackupFault::HandoffBlocked)
    } else if handoff.mutation_enabled {
        Some(BackupFault::MutationEnabled)
    } else if !handoff.owner_acceptance_required {
        Some(BackupFault::OwnerAcceptanceBypassed)
    } else if !text::is_digest_text(handoff.handoff_id@) {
        Some(bad_digest("handoff ID"@))
    } else if !text::is_digest_text(handoff.plan.plan_id@) {
        Some(bad_digest("plan ID"@))
    } else if !text::is_digest_text(handoff.target_identity.manifest_digest@) {
        Some(bad_digest("target manifest digest"@))
    } else {
        match required_backups(
            handoff.target_identity,
            handoff.plan.steps@,
            text::path_join(BACKUP_DIRECTORY@, handoff.handoff_id@),
        ) {
            Err(fault) => Some(fault),
            Ok(_) => None,
        }
    }
}

/// The backup manifest of a handoff that is not refused.
pub open spec fn backup_manifest_of(handoff: FrozenExecutionHandoff) -> BackupManifestModel {
    let directory = text::path_join(BACKUP_DIRECTORY@, handoff.handoff_id@);
    let requirements = required_backups(
        handoff.target_identity,
        handoff.plan.steps@,
        directory,
    )->Ok_0;
    BackupManifestModel {
        schema_version: 1,
        manifest_id: digest::text_fingerprint(
            backup_manifest_json(
                handoff.handoff_id@,
                handoff.plan.plan_id@,
                handoff.target_identity.manifest_digest@,
                directory,
                requirements,
            ),
        ),
        handoff_id: handoff.handoff_id@,
        plan_id: handoff.plan.plan_id@,
        target_manifest_digest: handoff.target_identity.manifest_digest@,
        artifact_directory: directory,
        mutation_enabled: false,
        owner_acceptance_required: true,
        requirements,
    }
}

/// Lists the metadata backups that must exist before a handoff may be executed.
pub fn build_metadata_backup_manifest(handoff: &FrozenExecutionHandoff) -> (result: Result<
    MetadataBackupManifest,
    BackupManifestError,
>)
    requires
        handoff.plan.steps@.len() < u32::MAX,
    ensures
        match result {
            Ok(manifest) => backup_manifest_refusal(*handoff) is None && manifest@
                == backup_manifest_of(*handoff) && is_intact_backup_manifest(manifest@)
                && manifest@.requirements.len() <= handoff.plan.steps@.len(),
            Err(e) => backup_manifest_refusal(*handoff) == Some(e@),
        },
{
    if handoff.status == ExecutionHandoffStatus::Blocked {
        return Err(BackupManifestError::HandoffBlocked);
    }
    if handoff.mutation_enabled {
        return Err(BackupManifestError::MutationEnabled);
    }
    if !handoff.owner_acceptance_required {
        return Err(BackupManifestError::OwnerAcceptanceBypassed);
    }
    match validate_digest(handoff.handoff_id.as_str(), "handoff ID") {
        Ok(_) => {},
        Err(e) => return Err(e),
    }
    match validate_digest(handoff.plan.plan_id.as_str(), "plan ID") {
        Ok(_) => {},
        Err(e) => return Err(e),
    }
    match validate_digest(
        handoff.target_identity.manifest_digest.as_str(),
        "target manifest digest",
    ) {
        Ok(_) => {},
        Err(e) => return Err(e),
    }
    let directory = join_path(BACKUP_DIRECTORY, handoff.handoff_id.as_str());
    let ghost dir = text::path_join(BACKUP_DIRECTORY@, handoff.handoff_id@);
    assert(directory@ == dir);
    let steps = &handoff.plan.steps;
    let mut requirements: Vec<MetadataBackupRequirement> = Vec::new();
    let mut parts = Parts::new();
    let mut i: usize = 0;
    assert(requirement_models(requirements@) =~= Seq::empty());
    assert(parts@ =~= Seq::<RequirementModel>::empty().map_values(
        |r: RequirementModel| requirement_json(r),
    ));
    while i < steps.len()
        invariant
            i <= steps@.len(),
            *steps == handoff.plan.steps,
            steps@.len() < u32::MAX,
            directory@ == dir,
            backup_manifest_refusal(*handoff) == match required_backups(
                handoff.target_identity,
                steps@,
                dir,
            ) {
                Err(fault) => Some(fault),
                Ok(_) => None,
            },
            requirements@.len() <= i,
            required_backups(handoff.target_identity, steps@.take(i as int), dir) == Ok::<
                Seq<RequirementModel>,
                BackupFault,
            >(requirement_models(requirements@)),
            parts@ == requirement_models(requirements@).map_values(
                |r: RequirementModel| requirement_json(r),
            ),
        decreases steps@.len() - i,
    {
        let operation = &steps[i].operation;
        proof {
            assert(steps@.take(i + 1).drop_last() =~= steps@.take(i as int));
            assert(steps@.take(i + 1).last() == steps@[i as int]);
        }
        let is_backup = match operation {
            Operation::BackupPartitionTableMetadata { .. } => true,
            Operation::BackupLvmMetadata { .. } => true,
            _ => false,
        };
        if is_backup && !asked_before(steps, i, operation) {
            let ordinal: u32 = requirements.len() as u32 + 1;
            match requirement_for_operation(
                &handoff.target_identity,
                operation,
                directory.as_str(),
                ordinal,
            ) {
                Ok(Some(requirement)) => {
                    let ghost before = requirement_models(requirements@);
                    parts.push(requirement_literal(&requirement));
                    requirements.push(requirement);
                    assert(requirement_models(requirements@) =~= before.push(requirement@));
                    assert(parts@ =~= requirement_models(requirements@).map_values(
                        |r: RequirementModel| requirement_json(r),
                    ));
                },
                Ok(None) => {},
                Err(e) => {
                    proof {
                        lemma_backup_fault_stays(handoff.target_identity, steps@, dir, i + 1);
                    }
                    return Err(e);
                },
            }
        }
        i += 1;
    }
    assert(steps@.take(steps@.len() as int) =~= steps@);
    let mut basis = Parts::new();
    basis.push_number(1);
    basis.push_text(handoff.handoff_id.as_str());
    basis.push_text(handoff.plan.plan_id.as_str());
    basis.push_text(handoff.target_identity.manifest_digest.as_str());
    basis.push_text(directory.as_str());
    basis.push_bool(false);
    basis.push_bool(true);
    basis.push(parts.array());
    let manifest_id = fingerprint_text(basis.array().as_str());
    Ok(
        MetadataBackupManifest {
            schema_version: 1,
            manifest_id,
            handoff_id: handoff.handoff_id.clone(),
            plan_id: handoff.plan.plan_id.clone(),
            target_manifest_digest: handoff.target_identity.manifest_digest.clone(),
            artifact_directory: directory,
            mutation_enabled: false,
            owner_acceptance_required: true,
            requirements,
        },
    )
}

/// What a requirement backs up.
pub open spec fn requirement_key(requirement: RequirementModel) -> BackupKey {
    match requirement.expected_identity {
        ExpectedIdentityModel::PartitionTable { disk, .. } => BackupKey::PartitionTable(disk),
        ExpectedIdentityModel::LvmVolumeGroup { vg_uuid, .. } => BackupKey::VolumeGroup(vg_uuid),
    }
}

/// The step at `p` is the first that asks for the backup with this key.
pub open spec fn is_first_mention(steps: Seq<PlanStep>, p: int, key: BackupKey) -> bool {
    &&& 0 <= p < steps.len()
    &&& backup_key(steps[p].operation) == Some(key)
    &&& !has_backup_key(steps.take(p), key)
}

/// How the name of an artifact ends.
pub open spec fn artifact_suffix(kind: MetadataBackupKind) -> Seq<char> {
    match kind {
        MetadataBackupKind::PartitionTable => "partition-table.sfdisk"@,
        MetadataBackupKind::LvmVolumeGroup => "lvm-vg.conf"@,
    }
}

/// A path that leads to an entry of a directory itself.
pub open spec fn is_directly_below(path: Seq<char>, directory: Seq<char>) -> bool {
    exists|name: Seq<char>|
        name.len() > 0 && !name.contains('/') && path == #[trigger] text::path_join(directory, name)
}

proof fn lemma_required_at(
    identity: TargetIdentityManifest,
    steps: Seq<PlanStep>,
    directory: Seq<char>,
    i: int,
)
    requires
        required_backups(identity, steps, directory) is Ok,
        required_backups(identity, steps, directory)->Ok_0.len() <= u32::MAX,
    ensures
        0 <= i < required_backups(identity, steps, directory)->Ok_0.len() ==> ({
            let requirement = required_backups(identity, steps, directory)->Ok_0[i];
            &&& requirement.ordinal == i + 1
            &&& requirement.artifact_path == text::path_join(
                directory,
                artifact_name(requirement.ordinal, artifact_suffix(requirement.kind)),
            )
            &&& !requirement.capture.mutates_storage_metadata
            &&& requirement.recovery.mutates_storage_metadata
            &&& has_backup_key(steps, requirement_key(requirement))
        }),
    decreases steps.len(),
{
    if steps.len() > 0 {
        let earlier = required_backups(identity, steps.drop_last(), directory)->Ok_0;
        lemma_required_at(identity, steps.drop_last(), directory, i);
        if 0 <= i < earlier.len() {
            let key = requirement_key(earlier[i]);
            let k = choose|k: int|
                0 <= k < steps.drop_last().len() && backup_key(
                    (#[trigger] steps.drop_last()[k]).operation,
                ) == Some(key);
            assert(backup_key(steps[k].operation) == Some(key));
        } else if i == earlier.len() {
            assert(steps[steps.len() - 1] == steps.last());
        }
    }
}

proof fn lemma_required_key(
    identity: TargetIdentityManifest,
    steps: Seq<PlanStep>,
    directory: Seq<char>,
    key: BackupKey,
) -> (i: int)
    requires
        required_backups(identity, steps, directory) is Ok,
        has_backup_key(steps, key),
    ensures
        0 <= i < required_backups(identity, steps, directory)->Ok_0.len(),
        requirement_key(required_backups(identity, steps, directory)->Ok_0[i]) == key,
    decreases steps.len(),
{
    let earlier = required_backups(identity, steps.drop_last(), directory)->Ok_0;
    if has_backup_key(steps.drop_last(), key) {
        lemma_required_key(identity, steps.drop_last(), directory, key)
    } else {
        let k = choose|k: int|
            0 <= k < steps.len() && backup_key((#[trigger] steps[k]).operation) == Some(key);
        if k < steps.len() - 1 {
            assert(steps.drop_last()[k] == steps[k]);
        }
        earlier.len() as int
    }
}

proof fn lemma_required_in_order(
    identity: TargetIdentityManifest,
    steps: Seq<PlanStep>,
    directory: Seq<char>,
    i: int,
    j: int,
    p: int,
    q: int,
)
    requires
        required_backups(identity, steps, directory) is Ok,
        required_backups(identity, steps, directory)->Ok_0.len() <= u32::MAX,
        0 <= i < j < required_backups(identity, steps, directory)->Ok_0.len(),
        is_first_mention(
            steps,
            p,
            requirement_key(required_backups(identity, steps, directory)->Ok_0[i]),
        ),
        is_first_mention(
            steps,
            q,
            requirement_key(required_backups(identity, steps, directory)->Ok_0[j]),
        ),
    ensures
        p < q,
    decreases steps.len(),
{
    let all = required_backups(identity, steps, directory)->Ok_0;
    let before = steps.drop_last();
    let earlier = required_backups(identity, before, directory)->Ok_0;
    let key_i = requirement_key(all[i]);
    let key_j = requirement_key(all[j]);
    lemma_required_at(identity, before, directory, i);
    // The first mention of an earlier backup is not the last step.
    assert(p < before.len()) by {
        if p == before.len() {
            assert(steps.take(p) =~= before);
        }
    }
    if j < earlier.len() {
        lemma_required_at(identity, before, directory, j);
        if q == before.len() {
            assert(steps.take(q) =~= before);
        }
        assert(before.take(p) =~= steps.take(p));
        assert(before.take(q) =~= steps.take(q));
        lemma_required_in_order(identity, before, directory, i, j, p, q);
    } else {
        // The last backup was first mentioned by the last step.
        assert(!has_backup_key(before, key_j));
        if q < before.len() {
            assert(before[q] == steps[q]);
        }
    }
}

proof fn lemma_artifact_name(a: u32, x: Seq<char>, b: u32, y: Seq<char>)
    requires
        artifact_name(a, x) == artifact_name(b, y),
    ensures
        a == b,
{
    let m = text::decimal_text(a as nat);
    let n = text::decimal_text(b as nat);
    let p = if a < 10 {
        seq!['0'] + m
    } else {
        m
    };
    let q = if b < 10 {
        seq!['0'] + n
    } else {
        n
    };
    let whole = artifact_name(a, x);
    text::lemma_decimal_digits(a as nat);
    text::lemma_decimal_digits(b as nat);
    assert forall|i: int| 0 <= i < p.len() implies whole[i] == p[i] && p[i] != '-' by {
        if a < 10 && i > 0 {
            assert(p[i] == m[i - 1]);
        }
    }
    assert forall|i: int| 0 <= i < q.len() implies whole[i] == q[i] && q[i] != '-' by {
        if b < 10 && i > 0 {
            assert(q[i] == n[i - 1]);
        }
    }
    assert(whole[p.len() as int] == '-');
    assert(whole[q.len() as int] == '-');
    assert(p =~= q);
    if a < 10 && b < 10 {
        assert(p.skip(1) =~= m);
        assert(q.skip(1) =~= n);
    } else if a < 10 {
        assert(q[0] == '0');
    } else if b < 10 {
        assert(p[0] == '0');
    }
    text::lemma_decimal_injective(a as nat, b as nat);
}

/// The requirements of a manifest are numbered from one. Each is written to its own entry of the
/// artifact directory by a command that changes nothing, and only its recovery changes metadata.
pub proof fn requirement_is_numbered_and_read_only(handoff: FrozenExecutionHandoff, i: int)
    requires
        backup_manifest_refusal(handoff) is None,
        backup_manifest_of(handoff).requirements.len() <= u32::MAX,
        0 <= i < backup_manifest_of(handoff).requirements.len(),
    ensures
        backup_manifest_of(handoff).requirements[i].ordinal == i + 1,
        is_directly_below(
            backup_manifest_of(handoff).requirements[i].artifact_path,
            backup_manifest_of(handoff).artifact_directory,
        ),
        !backup_manifest_of(handoff).requirements[i].capture.mutates_storage_metadata,
        backup_manifest_of(handoff).requirements[i].recovery.mutates_storage_metadata,
        !backup_manifest_of(handoff).mutation_enabled,
{
    let manifest = backup_manifest_of(handoff);
    let requirement = manifest.requirements[i];
    lemma_required_at(
        handoff.target_identity,
        handoff.plan.steps@,
        manifest.artifact_directory,
        i,
    );
    let suffix = artifact_suffix(requirement.kind);
    let name = artifact_name(requirement.ordinal, suffix);
    let digits = text::decimal_text(requirement.ordinal as nat);
    text::lemma_decimal_digits(requirement.ordinal as nat);
    reveal_strlit("partition-table.sfdisk");
    reveal_strlit("lvm-vg.conf");
    let at = name.len() - suffix.len();
    assert forall|k: int| 0 <= k < name.len() implies name[k] != '/' by {
        if k >= at {
            assert(name[k] == suffix[k - at]);
        } else if k < at - 1 && requirement.ordinal < 10 {
            if k > 0 {
                assert(name[k] == digits[k - 1]);
            }
        } else if k < at - 1 {
            assert(name[k] == digits[k]);
        }
    }
    assert(requirement.artifact_path == text::path_join(manifest.artifact_directory, name));
}

/// A manifest lists each backup once, in the order in which the plan first asks for it, and no two
/// share an artifact.
pub proof fn backups_are_listed_once_in_order(
    handoff: FrozenExecutionHandoff,
    i: int,
    j: int,
    p: int,
    q: int,
)
    requires
        backup_manifest_refusal(handoff) is None,
        backup_manifest_of(handoff).requirements.len() <= u32::MAX,
        0 <= i < j < backup_manifest_of(handoff).requirements.len(),
    ensures
        ({
            let requirements = backup_manifest_of(handoff).requirements;
            let steps = handoff.plan.steps@;
            &&& requirements[i].artifact_path != requirements[j].artifact_path
            &&& requirement_key(requirements[i]) != requirement_key(requirements[j])
            &&& is_first_mention(steps, p, requirement_key(requirements[i])) && is_first_mention(
                steps,
                q,
                requirement_key(requirements[j]),
            ) ==> p < q
        }),
{
    let manifest = backup_manifest_of(handoff);
    let steps = handoff.plan.steps@;
    let a = manifest.requirements[i];
    let b = manifest.requirements[j];
    lemma_required_at(handoff.target_identity, steps, manifest.artifact_directory, i);
    lemma_required_at(handoff.target_identity, steps, manifest.artifact_directory, j);
    if a.artifact_path == b.artifact_path {
        text::lemma_join_injective(
            manifest.artifact_directory,
            artifact_name(a.ordinal, artifact_suffix(a.kind)),
            artifact_name(b.ordinal, artifact_suffix(b.kind)),
        );
        lemma_artifact_name(
            a.ordinal,
            artifact_suffix(a.kind),
            b.ordinal,
            artifact_suffix(b.kind),
        );
    }
    if requirement_key(a) == requirement_key(b) {
        let first = lemma_first_mention(steps, requirement_key(a));
        lemma_required_in_order(
            handoff.target_identity,
            steps,
            manifest.artifact_directory,
            i,
            j,
            first,
            first,
        );
    }
    if is_first_mention(steps, p, requirement_key(a)) && is_first_mention(
        steps,
        q,
        requirement_key(b),
    ) {
        lemma_required_in_order(
            handoff.target_identity,
            steps,
            manifest.artifact_directory,
            i,
            j,
            p,
            q,
        );
    }
}

proof fn lemma_first_mention(steps: Seq<PlanStep>, key: BackupKey) -> (p: int)
    requires
        has_backup_key(steps, key),
    ensures
        is_first_mention(steps, p, key),
    decreases steps.len(),
{
    let before = steps.drop_last();
    if has_backup_key(before, key) {
        let p = lemma_first_mention(before, key);
        assert(before.take(p) =~= steps.take(p));
        p
    } else {
        let k = choose|k: int|
            0 <= k < steps.len() && backup_key((#[trigger] steps[k]).operation) == Some(key);
        if k < before.len() {
            assert(before[k] == steps[k]);
        }
        assert(steps.take(k) =~= before);
        k
    }
}

/// A manifest lists exactly the backups that the plan asks for: none is missing, and other steps
/// add none.
pub proof fn exactly_the_asked_backups_are_listed(handoff: FrozenExecutionHandoff, key: BackupKey)
    requires
        backup_manifest_refusal(handoff) is None,
        backup_manifest_of(handoff).requirements.len() <= u32::MAX,
    ensures
        has_backup_key(handoff.plan.steps@, key) <==> exists|i: int|
            0 <= i < backup_manifest_of(handoff).requirements.len() && requirement_key(
                #[trigger] backup_manifest_of(handoff).requirements[i],
            ) == key,
{
    let manifest = backup_manifest_of(handoff);
    let steps = handoff.plan.steps@;
    if has_backup_key(steps, key) {
        let i = lemma_required_key(
            handoff.target_identity,
            steps,
            manifest.artifact_directory,
            key,
        );
        assert(requirement_key(manifest.requirements[i]) == key);
    }
    if exists|i: int|
        0 <= i < manifest.requirements.len() && requirement_key(#[trigger] manifest.requirements[i])
            == key {
        let i = choose|i: int|
            0 <= i < manifest.requirements.len() && requirement_key(
                #[trigger] manifest.requirements[i],
            ) == key;
        lemma_required_at(handoff.target_identity, steps, manifest.artifact_directory, i);
    }
}

/// A built manifest, all of it: its requirements are numbered from one, each stands in an entry of the
/// artifact directory of its own, captures change nothing and recoveries do, each backup that the plan
/// asks for is listed once and in the order of its first mention, other steps add none, mutation is
/// off, and the manifest depends on the handoff alone.
pub proof fn built_manifest_is_exact(
    handoff: FrozenExecutionHandoff,
    manifest: BackupManifestModel,
    again: BackupManifestModel,
)
    requires
        backup_manifest_refusal(handoff) is None,
        manifest == backup_manifest_of(handoff),
        again == backup_manifest_of(handoff),
        manifest.requirements.len() <= u32::MAX,
    ensures
        again == manifest,
        !manifest.mutation_enabled,
        forall|i: int|
            0 <= i < manifest.requirements.len() ==> {
                &&& (#[trigger] manifest.requirements[i]).ordinal == i + 1
                &&& is_directly_below(
                    manifest.requirements[i].artifact_path,
                    manifest.artifact_directory,
                )
                &&& !manifest.requirements[i].capture.mutates_storage_metadata
                &&& manifest.requirements[i].recovery.mutates_storage_metadata
            },
        forall|i: int, j: int|
            0 <= i < j < manifest.requirements.len() ==> {
                &&& (#[trigger] manifest.requirements[i]).artifact_path != (
                #[trigger] manifest.requirements[j]).artifact_path
                &&& requirement_key(manifest.requirements[i]) != requirement_key(
                    manifest.requirements[j],
                )
            },
        forall|i: int, j: int, p: int, q: int|
            0 <= i < j < manifest.requirements.len() && #[trigger] is_first_mention(
                handoff.plan.steps@,
                p,
                requirement_key(manifest.requirements[i]),
            ) && #[trigger] is_first_mention(
                handoff.plan.steps@,
                q,
                requirement_key(manifest.requirements[j]),
            ) ==> p < q,
        forall|key: BackupKey|
            #[trigger] has_backup_key(handoff.plan.steps@, key) <==> exists|i: int|
                0 <= i < manifest.requirements.len() && requirement_key(
                    #[trigger] manifest.requirements[i],
                ) == key,
{
    assert forall|i: int| 0 <= i < manifest.requirements.len() implies {
        &&& (#[trigger] manifest.requirements[i]).ordinal == i + 1
        &&& is_directly_below(
            manifest.requirements[i].artifact_path,
            manifest.artifact_directory,
        )
        &&& !manifest.requirements[i].capture.mutates_storage_metadata
        &&& manifest.requirements[i].recovery.mutates_storage_metadata
    } by {
        requirement_is_numbered_and_read_only(handoff, i);
    }
    assert forall|i: int, j: int| 0 <= i < j < manifest.requirements.len() implies {
        &&& (#[trigger] manifest.requirements[i]).artifact_path != (
        #[trigger] manifest.requirements[j]).artifact_path
        &&& requirement_key(manifest.requirements[i]) != requirement_key(manifest.requirements[j])
    } by {
        backups_are_listed_once_in_order(handoff, i, j, 0, 0);
    }
    assert forall|i: int, j: int, p: int, q: int|
        0 <= i < j < manifest.requirements.len() && #[trigger] is_first_mention(
            handoff.plan.steps@,
            p,
            requirement_key(manifest.requirements[i]),
        ) && #[trigger] is_first_mention(
            handoff.plan.steps@,
            q,
            requirement_key(manifest.requirements[j]),
        ) implies p < q by {
        backups_are_listed_once_in_order(handoff, i, j, p, q);
    }
    assert forall|key: BackupKey|
        #[trigger] has_backup_key(handoff.plan.steps@, key) <==> exists|i: int|
            0 <= i < manifest.requirements.len() && requirement_key(
                #[trigger] manifest.requirements[i],
            ) == key by {
        exactly_the_asked_backups_are_listed(handoff, key);
    }
}

/// The form is one value.
proof fn lemma_backup_command_value(x: BackupCommandModel)
    ensures
        json_reading::is_value(backup_command_json(x)),
{
    broadcast use crate::json_reading::group_json_reading;

    assert(json_reading::are_values(backup_command_parts(x)));
}

proof fn lemma_backup_command_told(a: BackupCommandModel, b: BackupCommandModel)
    requires
        backup_command_json(a) == backup_command_json(b),
    ensures
        a == b,
{
    broadcast use crate::json_reading::group_json_reading;

    let p = backup_command_parts(a);
    let q = backup_command_parts(b);
    assert(json_reading::are_values(p) && json_reading::are_values(q));
    assert(p[0] == q[0]);
    assert(p[1] == q[1]);
    assert(p[2] == q[2]);
    assert(p[3] == q[3]);
    assert(p[4] == q[4]);
}

/// Which kind of metadata an expected identity is of.
pub open spec fn identity_kind(identity: ExpectedIdentityModel) -> MetadataBackupKind {
    match identity {
        ExpectedIdentityModel::PartitionTable { .. } => MetadataBackupKind::PartitionTable,
        ExpectedIdentityModel::LvmVolumeGroup { .. } => MetadataBackupKind::LvmVolumeGroup,
    }
}

/// The form is one value.
pub proof fn lemma_expected_identity_value(x: ExpectedIdentityModel)
    ensures
        json_reading::is_value(expected_identity_json(x)),
{
    broadcast use crate::json_reading::group_json_reading;

    assert(json_reading::are_values(expected_identity_parts(x)));
}

proof fn lemma_expected_identity_tag(x: ExpectedIdentityModel)
    ensures
        expected_identity_parts(x).len() > 0,
        expected_identity_parts(x)[0] == json::json_field(
            "kind"@,
            json::json_text(backup_kind_name(identity_kind(x))),
        ),
{
}

/// The form tells all of it.
pub proof fn lemma_expected_identity_told(a: ExpectedIdentityModel, b: ExpectedIdentityModel)
    requires
        expected_identity_json(a) == expected_identity_json(b),
    ensures
        a == b,
{
    broadcast use crate::json_reading::group_json_reading;

    let p = expected_identity_parts(a);
    let q = expected_identity_parts(b);
    assert(json_reading::are_values(p) && json_reading::are_values(q));
    lemma_expected_identity_tag(a);
    lemma_expected_identity_tag(b);
    assert(p[0] == q[0]);
    lemma_backup_kind_name_told(identity_kind(a), identity_kind(b));
    assert(p.len() == q.len());
    if p.len() > 1 {
        assert(p[1] == q[1]);
    }
    if p.len() > 2 {
        assert(p[2] == q[2]);
    }
    if p.len() > 3 {
        assert(p[3] == q[3]);
    }
}

/// The form is one value.
pub proof fn lemma_requirement_value(x: RequirementModel)
    ensures
        json_reading::is_value(requirement_json(x)),
{
    broadcast use crate::json_reading::group_json_reading;

    lemma_expected_identity_value(x.expected_identity);
    lemma_backup_command_value(x.capture);
    lemma_backup_command_value(x.recovery);
    assert(json_reading::are_values(requirement_parts(x)));
}

proof fn lemma_requirement_told(a: RequirementModel, b: RequirementModel)
    requires
        requirement_json(a) == requirement_json(b),
    ensures
        a == b,
{
    broadcast use crate::json_reading::group_json_reading;

    lemma_expected_identity_value(a.expected_identity);
    lemma_backup_command_value(a.capture);
    lemma_backup_command_value(a.recovery);
    lemma_expected_identity_value(b.expected_identity);
    lemma_backup_command_value(b.capture);
    lemma_backup_command_value(b.recovery);
    let p = requirement_parts(a);
    let q = requirement_parts(b);
    assert(json_reading::are_values(p) && json_reading::are_values(q));
    assert(p[0] == q[0]);
    assert(p[1] == q[1]);
    assert(p[2] == q[2]);
    assert(p[3] == q[3]);
    assert(p[4] == q[4]);
    assert(p[5] == q[5]);
    assert(p[6] == q[6]);
    lemma_backup_kind_name_told(a.kind, b.kind);
    lemma_expected_identity_told(a.expected_identity, b.expected_identity);
    lemma_backup_command_told(a.capture, b.capture);
    lemma_backup_command_told(a.recovery, b.recovery);
}

/// What a manifest is fingerprinted by, in order.
pub open spec fn backup_manifest_parts(manifest: BackupManifestModel) -> Seq<Seq<char>> {
    Seq::empty()
        .push(json::json_number(1))
        .push(json::json_text(manifest.handoff_id))
        .push(json::json_text(manifest.plan_id))
        .push(json::json_text(manifest.target_manifest_digest))
        .push(json::json_text(manifest.artifact_directory))
        .push(json::json_bool(false))
        .push(json::json_bool(true))
        .push(
            json::json_array(
                manifest.requirements.map_values(|r: RequirementModel| requirement_json(r)),
            ),
        )
}

/// The JSON form that a manifest is fingerprinted by.
pub open spec fn manifest_form(manifest: BackupManifestModel) -> Seq<char> {
    backup_manifest_json(
        manifest.handoff_id,
        manifest.plan_id,
        manifest.target_manifest_digest,
        manifest.artifact_directory,
        manifest.requirements,
    )
}

/// The identifier is the fingerprint of what it covers.
pub open spec fn is_intact_backup_manifest(manifest: BackupManifestModel) -> bool {
    manifest.manifest_id == digest::text_fingerprint(manifest_form(manifest))
}

/// The two bind the same backups to the same handoff. Version and switches, which are the same in
/// every manifest, are fingerprinted as constants.
pub open spec fn same_backup_manifest(a: BackupManifestModel, b: BackupManifestModel) -> bool {
    &&& a.handoff_id == b.handoff_id
    &&& a.plan_id == b.plan_id
    &&& a.target_manifest_digest == b.target_manifest_digest
    &&& a.artifact_directory == b.artifact_directory
    &&& a.requirements == b.requirements
}

proof fn lemma_backup_manifest_told(a: BackupManifestModel, b: BackupManifestModel)
    requires
        manifest_form(a) == manifest_form(b),
    ensures
        same_backup_manifest(a, b),
{
    broadcast use crate::json_reading::group_json_reading;

    let write = |r: RequirementModel| requirement_json(r);
    assert forall|r: RequirementModel| json_reading::is_value(#[trigger] write(r)) by {
        lemma_requirement_value(r);
    }
    json_reading::list_is_value(a.requirements, write);
    json_reading::list_is_value(b.requirements, write);
    assert(manifest_form(a) == json::json_array(backup_manifest_parts(a)));
    assert(manifest_form(b) == json::json_array(backup_manifest_parts(b)));
    let p = backup_manifest_parts(a);
    let q = backup_manifest_parts(b);
    assert(json_reading::are_values(p) && json_reading::are_values(q));
    assert(p[0] == q[0]);
    assert(p[1] == q[1]);
    assert(p[2] == q[2]);
    assert(p[3] == q[3]);
    assert(p[4] == q[4]);
    assert(p[5] == q[5]);
    assert(p[6] == q[6]);
    assert(p[7] == q[7]);
    json_reading::list_tells_its_items(a.requirements, b.requirements, write);
    assert forall|i: int| 0 <= i < a.requirements.len() implies a.requirements[i]
        == b.requirements[i] by {
        assert(write(a.requirements[i]) == write(b.requirements[i]));
        lemma_requirement_told(a.requirements[i], b.requirements[i]);
    }
    assert(a.requirements =~= b.requirements);
}

/// A backup manifest that was changed under its identifier is noticed, short of a SHA-256 collision.
pub proof fn changed_backup_manifest_is_detected(a: BackupManifestModel, b: BackupManifestModel)
    requires
        is_intact_backup_manifest(a),
        b.manifest_id == a.manifest_id,
        !same_backup_manifest(a, b),
    ensures
        !is_intact_backup_manifest(b) || digest::is_collision(manifest_form(a), manifest_form(b)),
{
    if is_intact_backup_manifest(b) {
        digest::fingerprint_tells_its_text(manifest_form(a), manifest_form(b));
        if manifest_form(a) == manifest_form(b) {
            lemma_backup_manifest_told(a, b);
        }
    }
}

/// The partition at `i` is the only one that carries this partition table.
pub open spec fn only_table_at(
    items: Seq<PartitionGeometryIdentity>,
    disk: Seq<char>,
    table_label: Seq<char>,
    table_id: Option<String>,
    i: int,
) -> bool {
    &&& 0 <= i < items.len()
    &&& forall|j: int|
        0 <= j < items.len() ==> (reading::reads((#[trigger] items[j]).disk, disk) && reading::reads(
            items[j].table_label,
            table_label,
        ) && reading::read_alike(items[j].table_id, table_id) <==> j == i)
}

/// Two digits at least, then a dash, then what the artifact holds.
pub proof fn artifact_is_numbered_and_named(ordinal: u32, suffix: Seq<char>)
    ensures
        ordinal < 10 ==> exists|s: Seq<char>|
            #[trigger] reading::spells(s, ordinal as int) && artifact_name(ordinal, suffix) == "0"@ + s
                + "-"@ + suffix,
        ordinal >= 10 ==> exists|s: Seq<char>|
            #[trigger] reading::spells(s, ordinal as int) && artifact_name(ordinal, suffix) == s + "-"@
                + suffix,
{
    reveal_strlit("0");
    reveal_strlit("-");
    reading::written_number_is_read_back(ordinal as nat);
    let s = text::decimal_text(ordinal as nat);
    assert(reading::spells(s, ordinal as int));
    if ordinal < 10 {
        assert(artifact_name(ordinal, suffix) =~= "0"@ + s + "-"@ + suffix);
    } else {
        assert(artifact_name(ordinal, suffix) =~= s + "-"@ + suffix);
    }
}

/// A partition table is backed up exactly where its names are plain and one partition alone carries
/// it. `sfdisk` dumps the disk into the artifact and restores it from there.
pub proof fn table_backup_dumps_the_planned_disk(
    identity: TargetIdentityManifest,
    disk: String,
    table_label: String,
    table_id: Option<String>,
    directory: Seq<char>,
    ordinal: u32,
)
    ensures
        ({
            let owed = requirement_of(
                identity,
                Operation::BackupPartitionTableMetadata { disk, table_label, table_id },
                directory,
                ordinal,
            );
            &&& owed is Ok <==> {
                &&& disk@.len() > 0 && !text::has_control_char(disk@)
                &&& table_label@.len() > 0 && !text::has_control_char(table_label@)
                &&& table_id matches Some(id) ==> id@.len() > 0 && !text::has_control_char(id@)
                &&& exists|i: int|
                    only_table_at(identity.partitions@, disk@, table_label@, table_id, i)
            }
            &&& owed is Ok ==> {
                let backup = owed->Ok_0->Some_0;
                let artifact = text::path_join(
                    directory,
                    artifact_name(ordinal, "partition-table.sfdisk"@),
                );
                &&& owed->Ok_0 is Some
                &&& backup.ordinal == ordinal
                &&& backup.kind is PartitionTable
                &&& backup.artifact_path == artifact
                &&& backup.expected_identity is PartitionTable
                &&& backup.expected_identity->PartitionTable_disk == disk@
                &&& backup.expected_identity->PartitionTable_table_label == table_label@
                &&& backup.expected_identity->table_id is Some <==> table_id is Some
                &&& table_id is Some ==> backup.expected_identity->table_id->Some_0
                    == table_id->Some_0@
                &&& backup.capture.program == "sfdisk"@
                &&& backup.capture.args == seq!["--dump"@, disk@]
                &&& backup.capture.stdin_path is None
                &&& backup.capture.stdout_path == Some(artifact)
                &&& !backup.capture.mutates_storage_metadata
                &&& backup.recovery.program == "sfdisk"@
                &&& backup.recovery.args == seq![disk@]
                &&& backup.recovery.stdin_path == Some(artifact)
                &&& backup.recovery.stdout_path is None
                &&& backup.recovery.mutates_storage_metadata
                &&& backup.verification_notes.len() == 3
            }
        }),
{
    let items = identity.partitions@;
    let keep = |e: PartitionGeometryIdentity|
        text::opt_text(e.disk) == Some(disk@) && text::opt_text(e.table_label) == Some(table_label@)
            && text::opt_text(e.table_id) == text::opt_text(table_id);
    reading::lemma_one_kept(items, keep);
    reading::lemma_same_search(items, keep);
    assert forall|i: int| #[trigger]
        only_table_at(items, disk@, table_label@, table_id, i) <==> reading::only_kept_at(
        items,
        keep,
        i,
    ) by {
        assert(forall|j: int|
            0 <= j < items.len() ==> (keep(#[trigger] items[j]) <==> reading::reads(items[j].disk, disk@)
                && reading::reads(items[j].table_label, table_label@) && reading::read_alike(
                items[j].table_id,
                table_id,
            )));
    }
    if exists|i: int| reading::only_kept_at(items, keep, i) {
        let i = choose|i: int| reading::only_kept_at(items, keep, i);
        assert(only_table_at(items, disk@, table_label@, table_id, i));
    }
}

/// The metadata of a volume group is backed up exactly where its UUID and its name are plain and it
/// is the only group of its UUID. It is written to the artifact by name, and restored from there.
pub proof fn group_backup_names_the_planned_group(
    identity: TargetIdentityManifest,
    vg_uuid: String,
    directory: Seq<char>,
    ordinal: u32,
)
    ensures
        ({
            let owed = requirement_of(
                identity,
                Operation::BackupLvmMetadata { vg_uuid },
                directory,
                ordinal,
            );
            let kind = LvmIdentityKind::VolumeGroup;
            &&& owed is Ok <==> {
                &&& vg_uuid@.len() > 0 && !text::has_control_char(vg_uuid@)
                &&& exists|i: int|
                    {
                        &&& #[trigger] reading::only_volume_at(identity.lvm@, kind, vg_uuid@, i)
                        &&& identity.lvm@[i].name@.len() > 0
                        &&& !text::has_control_char(identity.lvm@[i].name@)
                    }
            }
            &&& owed is Ok ==> exists|i: int|
                {
                    let backup = owed->Ok_0->Some_0;
                    let name = identity.lvm@[i].name@;
                    let artifact = text::path_join(
                        directory,
                        artifact_name(ordinal, "lvm-vg.conf"@),
                    );
                    &&& #[trigger] reading::only_volume_at(identity.lvm@, kind, vg_uuid@, i)
                    &&& owed->Ok_0 is Some
                    &&& backup.ordinal == ordinal
                    &&& backup.kind is LvmVolumeGroup
                    &&& backup.artifact_path == artifact
                    &&& backup.expected_identity is LvmVolumeGroup
                    &&& backup.expected_identity->vg_name == name
                    &&& backup.expected_identity->vg_uuid == vg_uuid@
                    &&& backup.capture.program == "vgcfgbackup"@
                    &&& backup.capture.args == seq!["--file"@, artifact, name]
                    &&& backup.capture.stdin_path is None
                    &&& backup.capture.stdout_path is None
                    &&& !backup.capture.mutates_storage_metadata
                    &&& backup.recovery.program == "vgcfgrestore"@
                    &&& backup.recovery.args == seq!["--file"@, artifact, name]
                    &&& backup.recovery.stdin_path is None
                    &&& backup.recovery.stdout_path is None
                    &&& backup.recovery.mutates_storage_metadata
                    &&& backup.verification_notes.len() == 3
                }
        }),
{
    let kind = LvmIdentityKind::VolumeGroup;
    reading::found_volume_is_the_only_one(identity.lvm@, kind, vg_uuid@);
    if exists|i: int| reading::only_volume_at(identity.lvm@, kind, vg_uuid@, i) {
        let i = choose|i: int| reading::only_volume_at(identity.lvm@, kind, vg_uuid@, i);
        assert(reading::only_volume_at(identity.lvm@, kind, vg_uuid@, i));
    }
}

/// A list of steps has its backups exactly where each step that is the first to ask for one can
/// have it.
pub proof fn backups_are_found_where_every_step_has_one(
    identity: TargetIdentityManifest,
    steps: Seq<PlanStep>,
    directory: Seq<char>,
)
    ensures
        required_backups(identity, steps, directory) is Ok <==> forall|p: int|
            0 <= p < steps.len() && backup_key((#[trigger] steps[p]).operation) is Some
                && is_first_mention(steps, p, backup_key(steps[p].operation)->Some_0)
                ==> requirement_of(identity, steps[p].operation, directory, 1) is Ok,
    decreases steps.len(),
{
    if steps.len() > 0 {
        let before = steps.drop_last();
        let last = steps.len() - 1;
        let operation = steps.last().operation;
        backups_are_found_where_every_step_has_one(identity, before, directory);
        assert forall|p: int, key: BackupKey| 0 <= p < last implies (#[trigger] is_first_mention(
            steps,
            p,
            key,
        ) <==> is_first_mention(before, p, key)) by {
            assert(steps.take(p) =~= before.take(p));
            assert(steps[p] == before[p]);
        }
        assert(steps.take(last) =~= before);
        let every = forall|p: int|
            0 <= p < steps.len() && backup_key((#[trigger] steps[p]).operation) is Some
                && is_first_mention(steps, p, backup_key(steps[p].operation)->Some_0)
                ==> requirement_of(identity, steps[p].operation, directory, 1) is Ok;
        if every {
            assert forall|p: int|
                0 <= p < before.len() && backup_key((#[trigger] before[p]).operation) is Some
                    && is_first_mention(before, p, backup_key(before[p].operation)->Some_0)
                    implies requirement_of(identity, before[p].operation, directory, 1) is Ok by {
                assert(steps[p] == before[p]);
                assert(is_first_mention(steps, p, backup_key(steps[p].operation)->Some_0));
            }
            let found = required_backups(identity, before, directory)->Ok_0;
            let ordinal = (found.len() + 1) as u32;
            if backup_key(operation) is Some && !has_backup_key(
                before,
                backup_key(operation)->Some_0,
            ) {
                assert(steps[last].operation == operation);
                assert(is_first_mention(steps, last, backup_key(operation)->Some_0));
                assert(requirement_of(identity, operation, directory, 1) is Ok);
                lemma_place_does_not_decide(identity, operation, directory, 1, ordinal);
            }
        }
        if required_backups(identity, steps, directory) is Ok {
            assert(required_backups(identity, before, directory) is Ok);
            assert forall|p: int|
                0 <= p < steps.len() && backup_key((#[trigger] steps[p]).operation) is Some
                    && is_first_mention(steps, p, backup_key(steps[p].operation)->Some_0)
                    implies requirement_of(identity, steps[p].operation, directory, 1) is Ok by {
                if p < last {
                    assert(steps[p] == before[p]);
                    assert(is_first_mention(before, p, backup_key(before[p].operation)->Some_0));
                } else {
                    let found = required_backups(identity, before, directory)->Ok_0;
                    let ordinal = (found.len() + 1) as u32;
                    lemma_place_does_not_decide(identity, operation, directory, 1, ordinal);
                }
            }
        }
    }
}

proof fn lemma_place_does_not_decide(
    identity: TargetIdentityManifest,
    operation: Operation,
    directory: Seq<char>,
    m: u32,
    n: u32,
)
    ensures
        requirement_of(identity, operation, directory, m) is Ok <==> requirement_of(
            identity,
            operation,
            directory,
            n,
        ) is Ok,
{
}

/// A handoff has a backup manifest exactly where it is not blocked, allows no mutation, still needs
/// the owner, is named by digests, and every backup that its plan asks for can be had.
pub proof fn handoff_has_a_backup_manifest_where_every_backup_can_be_had(
    handoff: FrozenExecutionHandoff,
)
    ensures
        backup_manifest_refusal(handoff) is None <==> {
            let directory = text::path_join(
                "/var/lib/linux-storage-manager/backups"@,
                handoff.handoff_id@,
            );
            &&& !(handoff.status is Blocked)
            &&& !handoff.mutation_enabled
            &&& handoff.owner_acceptance_required
            &&& text::is_digest_text(handoff.handoff_id@)
            &&& text::is_digest_text(handoff.plan.plan_id@)
            &&& text::is_digest_text(handoff.target_identity.manifest_digest@)
            &&& required_backups(handoff.target_identity, handoff.plan.steps@, directory) is Ok
        },
        ({
            let manifest = backup_manifest_of(handoff);
            &&& manifest.schema_version == 1
            &&& manifest.handoff_id == handoff.handoff_id@
            &&& manifest.plan_id == handoff.plan.plan_id@
            &&& manifest.target_manifest_digest == handoff.target_identity.manifest_digest@
            &&& manifest.artifact_directory == text::path_join(
                "/var/lib/linux-storage-manager/backups"@,
                handoff.handoff_id@,
            )
            &&& !manifest.mutation_enabled
            &&& manifest.owner_acceptance_required
            &&& is_intact_backup_manifest(manifest)
        }),
{
}

/// Each backup that a list of steps requires is the one that its first step asks for, under its
/// place in the list.
pub proof fn listed_backup_is_that_of_its_step(
    identity: TargetIdentityManifest,
    steps: Seq<PlanStep>,
    directory: Seq<char>,
    i: int,
)
    requires
        required_backups(identity, steps, directory) is Ok,
        0 <= i < required_backups(identity, steps, directory)->Ok_0.len() <= u32::MAX,
    ensures
        exists|p: int|
            {
                &&& 0 <= p < steps.len()
                &&& requirement_of(
                    identity,
                    (#[trigger] steps[p]).operation,
                    directory,
                    (i + 1) as u32,
                ) == Result::<Option<RequirementModel>, BackupFault>::Ok(
                    Some(required_backups(identity, steps, directory)->Ok_0[i]),
                )
            },
    decreases steps.len(),
{
    let before = steps.drop_last();
    let earlier = required_backups(identity, before, directory)->Ok_0;
    if i < earlier.len() {
        listed_backup_is_that_of_its_step(identity, before, directory, i);
        let p = choose|p: int|
            {
                &&& 0 <= p < before.len()
                &&& requirement_of(
                    identity,
                    (#[trigger] before[p]).operation,
                    directory,
                    (i + 1) as u32,
                ) == Result::<Option<RequirementModel>, BackupFault>::Ok(Some(earlier[i]))
            };
        assert(steps[p] == before[p]);
    } else {
        assert(steps[steps.len() - 1] == steps.last());
    }
}

/// Each refusal of a backup names something that is wrong: an identity that is missing, one that is
/// there more than once, or a name that is none.
pub proof fn refused_backup_names_its_reason(
    identity: TargetIdentityManifest,
    vg_uuid: String,
    handoff: FrozenExecutionHandoff,
    directory: Seq<char>,
    ordinal: u32,
)
    ensures
        requirement_of(
            identity,
            Operation::BackupLvmMetadata { vg_uuid },
            directory,
            ordinal,
        ) matches Err(e) ==> match e {
            BackupFault::VolumeGroupIdentityMissing(id) => id == vg_uuid@ && forall|i: int|
                0 <= i < identity.lvm@.len() ==> !((#[trigger] identity.lvm@[i]).kind is VolumeGroup
                    && reading::reads(identity.lvm@[i].uuid, vg_uuid@)),
            BackupFault::VolumeGroupIdentityAmbiguous(id) => id == vg_uuid@ && !exists|i: int|
                reading::only_volume_at(identity.lvm@, LvmIdentityKind::VolumeGroup, vg_uuid@, i),
            BackupFault::InvalidIdentity(message) => {
                ||| message == "VG UUID is empty or contains control characters"@
                ||| message == "VG name is empty or contains control characters"@
            },
            _ => false,
        },
        handoff.status is Blocked ==> backup_manifest_refusal(handoff) == Some(
            BackupFault::HandoffBlocked,
        ),
        !(handoff.status is Blocked) && handoff.mutation_enabled ==> backup_manifest_refusal(
            handoff,
        ) == Some(BackupFault::MutationEnabled),
        !(handoff.status is Blocked) && !handoff.mutation_enabled
            && !handoff.owner_acceptance_required ==> backup_manifest_refusal(handoff) == Some(
            BackupFault::OwnerAcceptanceBypassed,
        ),
{
    let kind = LvmIdentityKind::VolumeGroup;
    reading::found_volume_is_the_only_one(identity.lvm@, kind, vg_uuid@);
    let keep = |e: model::LvmIdentity|
        e.kind == kind && text::opt_text(e.uuid) == Some(vg_uuid@);
    reading::lemma_same_search(identity.lvm@, keep);
    reading::lemma_none_kept(identity.lvm@, keep);
    reveal_strlit("VG UUID");
    reveal_strlit("VG name");
    reveal_strlit(" is empty or contains control characters");
    reveal_strlit("VG UUID is empty or contains control characters");
    reveal_strlit("VG name is empty or contains control characters");
    assert("VG UUID"@ + " is empty or contains control characters"@
        =~= "VG UUID is empty or contains control characters"@);
    assert("VG name"@ + " is empty or contains control characters"@
        =~= "VG name is empty or contains control characters"@);
    if model::lvm_with(identity.lvm@, kind, vg_uuid@).len() == 0 {
        assert forall|i: int| 0 <= i < identity.lvm@.len() implies !((
        #[trigger] identity.lvm@[i]).kind is VolumeGroup && reading::reads(identity.lvm@[i].uuid, vg_uuid@)) by {
            assert(!keep(identity.lvm@[i]));
        }
    }
}

} // verus!
