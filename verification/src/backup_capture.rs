//! Receipts of captured metadata backups.

use vstd::prelude::*;
use vstd::string::*;

use crate::paths;
use crate::text;
use crate::json;
use crate::json_reading;
use crate::digest;
use crate::backup_manifest;
use crate::backup_manifest::{
    backup_kind_text, expected_identity_literal, BackupExpectedIdentity, BackupManifestModel,
    ExpectedIdentityModel, MetadataBackupKind, MetadataBackupManifest, MetadataBackupRequirement,
    RequirementModel, BACKUP_DIRECTORY,
};
use crate::digest::{fingerprint, fingerprint_text};
use crate::json::Parts;
use crate::locked_session::{LockedExecutionSession, SessionModel};
use crate::model::{JournalPhase, PlanStep, TargetIdentityManifest};
use crate::paths::file_name;
use crate::secure_directory::{judge_directory, DirectoryDescent, DirectoryVerdict, PathStatus};
use crate::text::{join_path, opt_is, same_text};
use crate::MUTATION_ENABLED;

verus! {

/// Artifacts beyond this size are refused.
pub const MAX_BACKUP_ARTIFACT_BYTES: u64 = 16 * 1024 * 1024;

#[derive(Clone, Debug, PartialEq, Eq)]
pub struct BackupArtifactReceipt {
    pub ordinal: u32,
    pub kind: MetadataBackupKind,
    pub artifact_path: String,
    pub expected_identity: BackupExpectedIdentity,
    pub size_bytes: u64,
    pub sha256: String,
}

/// The content of an artifact receipt.
pub struct ArtifactModel {
    pub ordinal: u32,
    pub kind: MetadataBackupKind,
    pub artifact_path: Seq<char>,
    pub expected_identity: ExpectedIdentityModel,
    pub size_bytes: u64,
    pub sha256: Seq<char>,
}

impl View for BackupArtifactReceipt {
    type V = ArtifactModel;

    open spec fn view(&self) -> ArtifactModel {
        ArtifactModel {
            ordinal: self.ordinal,
            kind: self.kind,
            artifact_path: self.artifact_path@,
            expected_identity: self.expected_identity@,
            size_bytes: self.size_bytes,
            sha256: self.sha256@,
        }
    }
}

pub open spec fn artifact_models(items: Seq<BackupArtifactReceipt>) -> Seq<ArtifactModel> {
    items.map_values(|a: BackupArtifactReceipt| a@)
}

#[derive(Clone, Debug, PartialEq, Eq)]
pub struct MetadataBackupReceipt {
    schema_version: u32,
    receipt_id: String,
    manifest_id: String,
    handoff_id: String,
    plan_id: String,
    target_manifest_digest: String,
    mutation_enabled: bool,
    artifacts: Vec<BackupArtifactReceipt>,
}

/// The content of a backup receipt.
pub struct BackupReceiptModel {
    pub schema_version: u32,
    pub receipt_id: Seq<char>,
    pub manifest_id: Seq<char>,
    pub handoff_id: Seq<char>,
    pub plan_id: Seq<char>,
    pub target_manifest_digest: Seq<char>,
    pub mutation_enabled: bool,
    pub artifacts: Seq<ArtifactModel>,
}

impl View for MetadataBackupReceipt {
    type V = BackupReceiptModel;

    closed spec fn view(&self) -> BackupReceiptModel {
        BackupReceiptModel {
            schema_version: self.schema_version,
            receipt_id: self.receipt_id@,
            manifest_id: self.manifest_id@,
            handoff_id: self.handoff_id@,
            plan_id: self.plan_id@,
            target_manifest_digest: self.target_manifest_digest@,
            mutation_enabled: self.mutation_enabled,
            artifacts: artifact_models(self.artifacts@),
        }
    }
}

impl MetadataBackupReceipt {
    pub fn receipt_id(&self) -> (value: &str)
        ensures
            value@ == self@.receipt_id,
    {
        self.receipt_id.as_str()
    }

    pub fn manifest_id(&self) -> (value: &str)
        ensures
            value@ == self@.manifest_id,
    {
        self.manifest_id.as_str()
    }

    pub fn handoff_id(&self) -> (value: &str)
        ensures
            value@ == self@.handoff_id,
    {
        self.handoff_id.as_str()
    }

    pub fn plan_id(&self) -> (value: &str)
        ensures
            value@ == self@.plan_id,
    {
        self.plan_id.as_str()
    }

    pub fn target_manifest_digest(&self) -> (value: &str)
        ensures
            value@ == self@.target_manifest_digest,
    {
        self.target_manifest_digest.as_str()
    }

    pub fn mutation_enabled(&self) -> (value: bool)
        ensures
            value == self@.mutation_enabled,
    {
        self.mutation_enabled
    }

    pub fn artifacts(&self) -> (value: &[BackupArtifactReceipt])
        ensures
            artifact_models(value@) == self@.artifacts,
    {
        self.artifacts.as_slice()
    }
}

/// What a later look at the captured artifacts found.
#[derive(Clone, Debug, PartialEq, Eq)]
pub struct BackupReceiptRevalidation {
    pub manifest_id: String,
    pub receipt_id: String,
    pub handoff_id: String,
    pub plan_id: String,
    pub target_manifest_digest: String,
    pub matches: bool,
    pub blockers: Vec<String>,
}

#[derive(Debug, PartialEq, Eq)]
pub enum BackupCaptureError {
    SessionNotRevalidated,
    MutationEnabled,
    ManifestBindingMismatch,
    ArtifactDirectoryMismatch,
    UnsupportedCaptureCommand,
    UnsafeDirectory(String),
    UnsafeArtifact(String),
    ArtifactExists(String),
    EmptyArtifact,
    ArtifactTooLarge,
    CommandFailed { program: String, status: String },
    Io { path: String, source: String },
}

/// The content of a refusal.
pub enum BackupCaptureFault {
    SessionNotRevalidated,
    MutationEnabled,
    ManifestBindingMismatch,
    ArtifactDirectoryMismatch,
    UnsupportedCaptureCommand,
    UnsafeDirectory(Seq<char>),
    UnsafeArtifact(Seq<char>),
    ArtifactExists(Seq<char>),
    EmptyArtifact,
    ArtifactTooLarge,
    CommandFailed { program: Seq<char>, status: Seq<char> },
    Io { path: Seq<char>, source: Seq<char> },
}

impl View for BackupCaptureError {
    type V = BackupCaptureFault;

    open spec fn view(&self) -> BackupCaptureFault {
        match *self {
            BackupCaptureError::SessionNotRevalidated => BackupCaptureFault::SessionNotRevalidated,
            BackupCaptureError::MutationEnabled => BackupCaptureFault::MutationEnabled,
            BackupCaptureError::ManifestBindingMismatch => {
                BackupCaptureFault::ManifestBindingMismatch
            },
            BackupCaptureError::ArtifactDirectoryMismatch => {
                BackupCaptureFault::ArtifactDirectoryMismatch
            },
            BackupCaptureError::UnsupportedCaptureCommand => {
                BackupCaptureFault::UnsupportedCaptureCommand
            },
            BackupCaptureError::UnsafeDirectory(s) => BackupCaptureFault::UnsafeDirectory(s@),
            BackupCaptureError::UnsafeArtifact(s) => BackupCaptureFault::UnsafeArtifact(s@),
            BackupCaptureError::ArtifactExists(s) => BackupCaptureFault::ArtifactExists(s@),
            BackupCaptureError::EmptyArtifact => BackupCaptureFault::EmptyArtifact,
            BackupCaptureError::ArtifactTooLarge => BackupCaptureFault::ArtifactTooLarge,
            BackupCaptureError::CommandFailed { program, status } => {
                BackupCaptureFault::CommandFailed { program: program@, status: status@ }
            },
            BackupCaptureError::Io { path, source } => BackupCaptureFault::Io {
                path: path@,
                source: source@,
            },
        }
    }
}

/// Why a session may not capture the backups of a manifest, if it may not.
pub open spec fn capture_refusal(session: SessionModel, manifest: BackupManifestModel) -> Option<
    BackupCaptureFault,
> {
    let handoff = session.handoff;
    if manifest.mutation_enabled {
        Some(BackupCaptureFault::MutationEnabled)
    } else if session.journal.phase != JournalPhase::IdentityRevalidated {
        Some(BackupCaptureFault::SessionNotRevalidated)
    } else if manifest.handoff_id != handoff.handoff_id@ || manifest.plan_id
        != handoff.plan.plan_id@ || manifest.target_manifest_digest
        != handoff.target_identity.manifest_digest@ || !manifest.owner_acceptance_required {
        Some(BackupCaptureFault::ManifestBindingMismatch)
    } else if manifest.artifact_directory != text::path_join(BACKUP_DIRECTORY@, handoff.handoff_id@) {
        Some(BackupCaptureFault::ArtifactDirectoryMismatch)
    } else {
        None
    }
}

/// Whether a session may capture the backups of a manifest.
pub fn validate_binding(session: &LockedExecutionSession, manifest: &MetadataBackupManifest) -> (result:
    Result<(), BackupCaptureError>)
    ensures
        match result {
            Ok(_) => capture_refusal(session@, manifest@) is None,
            Err(e) => capture_refusal(session@, manifest@) == Some(e@),
        },
{
    let handoff = session.handoff();
    if MUTATION_ENABLED || session.mutation_enabled() || manifest.mutation_enabled() {
        return Err(BackupCaptureError::MutationEnabled);
    }
    if session.journal().phase != JournalPhase::IdentityRevalidated {
        return Err(BackupCaptureError::SessionNotRevalidated);
    }
    if !same_text(manifest.handoff_id(), handoff.handoff_id.as_str()) || !same_text(
        manifest.plan_id(),
        handoff.plan.plan_id.as_str(),
    ) || !same_text(
        manifest.target_manifest_digest(),
        handoff.target_identity.manifest_digest.as_str(),
    ) || !manifest.owner_acceptance_required() {
        return Err(BackupCaptureError::ManifestBindingMismatch);
    }
    let directory = join_path(BACKUP_DIRECTORY, handoff.handoff_id.as_str());
    if !same_text(manifest.artifact_directory(), directory.as_str()) {
        return Err(BackupCaptureError::ArtifactDirectoryMismatch);
    }
    Ok(())
}

/// A capture command that only reads storage metadata, in the one form known for its kind.
pub open spec fn is_supported_capture(requirement: RequirementModel) -> bool {
    let capture = requirement.capture;
    &&& !capture.mutates_storage_metadata
    &&& capture.stdin_path is None
    &&& match (requirement.kind, requirement.expected_identity) {
        (
            MetadataBackupKind::PartitionTable,
            ExpectedIdentityModel::PartitionTable { disk, .. },
        ) => {
            &&& capture.program == "sfdisk"@
            &&& capture.args == seq!["--dump"@, disk]
            &&& capture.stdout_path == Some(requirement.artifact_path)
        },
        (
            MetadataBackupKind::LvmVolumeGroup,
            ExpectedIdentityModel::LvmVolumeGroup { vg_name, .. },
        ) => {
            &&& capture.program == "vgcfgbackup"@
            &&& capture.args == seq!["--file"@, requirement.artifact_path, vg_name]
            &&& capture.stdout_path is None
        },
        _ => false,
    }
}

/// Refuses every capture command but the two known read-only ones.
pub fn validate_requirement(requirement: &MetadataBackupRequirement) -> (result: Result<
    (),
    BackupCaptureError,
>)
    ensures
        match result {
            Ok(_) => is_supported_capture(requirement@),
            Err(e) => e is UnsupportedCaptureCommand && !is_supported_capture(
                requirement@,
            ),
        },
{
    let capture = &requirement.capture;
    if capture.mutates_storage_metadata || capture.stdin_path.is_some() {
        return Err(BackupCaptureError::UnsupportedCaptureCommand);
    }
    let artifact = requirement.artifact_path.as_str();
    let supported = match (requirement.kind, &requirement.expected_identity) {
        (
            MetadataBackupKind::PartitionTable,
            BackupExpectedIdentity::PartitionTable { disk, .. },
        ) => {
            let exact = same_text(capture.program.as_str(), "sfdisk") && capture.args.len() == 2
                && same_text(capture.args[0].as_str(), "--dump") && same_text(
                capture.args[1].as_str(),
                disk.as_str(),
            ) && opt_is(&capture.stdout_path, artifact);
            proof {
                let expected = seq!["--dump"@, disk@];
                if capture.args@.len() == 2 {
                    assert(text::texts(capture.args@)[0] == capture.args@[0]@);
                    assert(text::texts(capture.args@)[1] == capture.args@[1]@);
                    if capture.args@[0]@ == expected[0] && capture.args@[1]@ == expected[1] {
                        assert(text::texts(capture.args@) =~= expected);
                    }
                }
            }
            exact
        },
        (
            MetadataBackupKind::LvmVolumeGroup,
            BackupExpectedIdentity::LvmVolumeGroup { vg_name, .. },
        ) => {
            let exact = same_text(capture.program.as_str(), "vgcfgbackup") && capture.args.len()
                == 3 && same_text(capture.args[0].as_str(), "--file") && same_text(
                capture.args[1].as_str(),
                artifact,
            ) && same_text(capture.args[2].as_str(), vg_name.as_str())
                && capture.stdout_path.is_none();
            proof {
                let expected = seq!["--file"@, artifact@, vg_name@];
                if capture.args@.len() == 3 {
                    assert(text::texts(capture.args@)[0] == capture.args@[0]@);
                    assert(text::texts(capture.args@)[1] == capture.args@[1]@);
                    assert(text::texts(capture.args@)[2] == capture.args@[2]@);
                    if capture.args@[0]@ == expected[0] && capture.args@[1]@ == expected[1]
                        && capture.args@[2]@ == expected[2] {
                        assert(text::texts(capture.args@) =~= expected);
                    }
                }
            }
            exact
        },
        _ => false,
    };
    if supported {
        Ok(())
    } else {
        Err(BackupCaptureError::UnsupportedCaptureCommand)
    }
}

/// What has to be run for one requirement, and where its output goes.
#[derive(Debug, PartialEq, Eq)]
pub enum CaptureAction {
    PartitionTable { disk: String, output: String },
    LvmMetadata { vg_name: String, output: String },
}

/// The content of an action.
pub enum CaptureActionModel {
    PartitionTable { disk: Seq<char>, output: Seq<char> },
    LvmMetadata { vg_name: Seq<char>, output: Seq<char> },
}

impl View for CaptureAction {
    type V = CaptureActionModel;

    open spec fn view(&self) -> CaptureActionModel {
        match *self {
            CaptureAction::PartitionTable { disk, output } => CaptureActionModel::PartitionTable {
                disk: disk@,
                output: output@,
            },
            CaptureAction::LvmMetadata { vg_name, output } => CaptureActionModel::LvmMetadata {
                vg_name: vg_name@,
                output: output@,
            },
        }
    }
}

/// What has to be run for one requirement below `artifact_root`, or why nothing is.
pub open spec fn capture_action_of(requirement: RequirementModel, artifact_root: Seq<char>) -> Result<
    CaptureActionModel,
    BackupCaptureFault,
> {
    if !is_supported_capture(requirement) {
        Err(BackupCaptureFault::UnsupportedCaptureCommand)
    } else {
        match paths::path_file_name(requirement.artifact_path) {
            None => Err(BackupCaptureFault::UnsafeArtifact(requirement.artifact_path)),
            Some(name) => {
                let output = text::path_join(artifact_root, name);
                match requirement.expected_identity {
                    ExpectedIdentityModel::PartitionTable { disk, .. } => Ok(
                        CaptureActionModel::PartitionTable { disk, output },
                    ),
                    ExpectedIdentityModel::LvmVolumeGroup { vg_name, .. } => Ok(
                        CaptureActionModel::LvmMetadata { vg_name, output },
                    ),
                }
            },
        }
    }
}

/// Decides what has to be run for one requirement below `artifact_root`.
pub fn capture_action(requirement: &MetadataBackupRequirement, artifact_root: &str) -> (result: Result<
    CaptureAction,
    BackupCaptureError,
>)
    ensures
        match result {
            Ok(action) => capture_action_of(requirement@, artifact_root@) == Ok::<
                CaptureActionModel,
                BackupCaptureFault,
            >(action@),
            Err(e) => capture_action_of(requirement@, artifact_root@) == Err::<
                CaptureActionModel,
                BackupCaptureFault,
            >(e@),
        },
{
    match validate_requirement(requirement) {
        Ok(_) => {},
        Err(e) => return Err(e),
    }
    let name = match file_name(requirement.artifact_path.as_str()) {
        None => {
            return Err(BackupCaptureError::UnsafeArtifact(requirement.artifact_path.clone()));
        },
        Some(name) => name,
    };
    let output = join_path(artifact_root, name.as_str());
    match &requirement.expected_identity {
        BackupExpectedIdentity::PartitionTable { disk, .. } => Ok(
            CaptureAction::PartitionTable { disk: disk.clone(), output },
        ),
        BackupExpectedIdentity::LvmVolumeGroup { vg_name, .. } => Ok(
            CaptureAction::LvmMetadata { vg_name: vg_name.clone(), output },
        ),
    }
}

/// What a directory on the way to the artifacts is refused for, if anything.
pub open spec fn backup_directory_refusal(
    path: Seq<char>,
    status: PathStatus,
    may_create: bool,
) -> Option<BackupCaptureFault> {
    match status {
        PathStatus::Directory => None,
        PathStatus::Other => Some(BackupCaptureFault::UnsafeDirectory(path)),
        PathStatus::Unreadable(source) => Some(BackupCaptureFault::Io { path, source: source@ }),
        PathStatus::Absent(source) => if may_create {
            None
        } else {
            Some(BackupCaptureFault::Io { path, source: source@ })
        },
    }
}

/// Admits one directory on the way to the artifacts; the result says whether it has to be created.
pub fn admit_backup_directory(path: &str, status: &PathStatus, may_create: bool) -> (result: Result<
    bool,
    BackupCaptureError,
>)
    ensures
        match result {
            Ok(create) => backup_directory_refusal(path@, *status, may_create) is None && create
                == (status is Absent),
            Err(e) => backup_directory_refusal(path@, *status, may_create) == Some(e@),
        },
{
    match judge_directory(status, may_create) {
        DirectoryVerdict::Accept => Ok(false),
        DirectoryVerdict::Create => Ok(true),
        DirectoryVerdict::Refuse => Err(BackupCaptureError::UnsafeDirectory(path.to_owned())),
        DirectoryVerdict::Fail(source) => Err(
            BackupCaptureError::Io { path: path.to_owned(), source },
        ),
    }
}

/// Refuses a root of artifacts that is relative or steps back to a parent directory, once the
/// directories before that were admitted.
pub fn check_artifact_root(path: &str, descent: &DirectoryDescent) -> (result: Result<
    (),
    BackupCaptureError,
>)
    ensures
        match result {
            Ok(_) => descent.complete,
            Err(e) => !descent.complete && e@ == BackupCaptureFault::UnsafeDirectory(path@),
        },
{
    if descent.complete {
        Ok(())
    } else {
        Err(BackupCaptureError::UnsafeDirectory(path.to_owned()))
    }
}

/// What a new artifact is refused for, if anything: nothing may stand at its path.
pub open spec fn new_artifact_refusal(path: Seq<char>, status: PathStatus) -> Option<
    BackupCaptureFault,
> {
    match status {
        PathStatus::Absent(_) => None,
        PathStatus::Unreadable(source) => Some(BackupCaptureFault::Io { path, source: source@ }),
        _ => Some(BackupCaptureFault::ArtifactExists(path)),
    }
}

/// Admits the path of a new artifact.
pub fn admit_new_artifact(path: &str, status: &PathStatus) -> (result: Result<
    (),
    BackupCaptureError,
>)
    ensures
        match result {
            Ok(_) => new_artifact_refusal(path@, *status) is None,
            Err(e) => new_artifact_refusal(path@, *status) == Some(e@),
        },
{
    match status {
        PathStatus::Absent(_) => Ok(()),
        PathStatus::Unreadable(source) => Err(
            BackupCaptureError::Io { path: path.to_owned(), source: source.clone() },
        ),
        _ => Err(BackupCaptureError::ArtifactExists(path.to_owned())),
    }
}

/// Judges how a capture command ended.
pub fn judge_capture(program: &str, success: bool, status: &str) -> (result: Result<
    (),
    BackupCaptureError,
>)
    ensures
        match result {
            Ok(_) => success,
            Err(e) => !success && e@ == (BackupCaptureFault::CommandFailed {
                program: program@,
                status: status@,
            }),
        },
{
    if success {
        Ok(())
    } else {
        Err(
            BackupCaptureError::CommandFailed {
                program: program.to_owned(),
                status: status.to_owned(),
            },
        )
    }
}

/// What the file system says of a captured artifact, links not followed.
#[derive(Debug, PartialEq, Eq)]
pub struct ArtifactStatus {
    pub regular: bool,
    pub size: u64,
}

/// What an artifact is refused for before its bytes are read, if anything.
pub open spec fn artifact_refusal(path: Seq<char>, status: Result<ArtifactStatus, String>) -> Option<
    BackupCaptureFault,
> {
    match status {
        Err(source) => Some(BackupCaptureFault::Io { path, source: source@ }),
        Ok(found) => {
            if !found.regular {
                Some(BackupCaptureFault::UnsafeArtifact(path))
            } else if found.size == 0 {
                Some(BackupCaptureFault::EmptyArtifact)
            } else if found.size > MAX_BACKUP_ARTIFACT_BYTES {
                Some(BackupCaptureFault::ArtifactTooLarge)
            } else {
                None
            }
        },
    }
}

/// Admits an artifact whose bytes are about to be read.
pub fn admit_artifact(path: &str, status: &Result<ArtifactStatus, String>) -> (result: Result<
    (),
    BackupCaptureError,
>)
    ensures
        match result {
            Ok(_) => artifact_refusal(path@, *status) is None,
            Err(e) => artifact_refusal(path@, *status) == Some(e@),
        },
{
    match status {
        Err(source) => Err(
            BackupCaptureError::Io { path: path.to_owned(), source: source.clone() },
        ),
        Ok(found) => {
            if !found.regular {
                Err(BackupCaptureError::UnsafeArtifact(path.to_owned()))
            } else if found.size == 0 {
                Err(BackupCaptureError::EmptyArtifact)
            } else if found.size > MAX_BACKUP_ARTIFACT_BYTES {
                Err(BackupCaptureError::ArtifactTooLarge)
            } else {
                Ok(())
            }
        },
    }
}

/// Judges the bytes of one artifact: its size and fingerprint, or why it is refused.
pub fn verify_artifact(bytes: &Vec<u8>) -> (result: Result<(u64, String), BackupCaptureError>)
    ensures
        match result {
            Ok((size, sha256)) => {
                &&& 0 < bytes@.len() <= MAX_BACKUP_ARTIFACT_BYTES
                &&& size == bytes@.len()
                &&& sha256@ == digest::fingerprint_of(bytes@)
            },
            Err(e) => {
                ||| e is ArtifactTooLarge && bytes@.len() > MAX_BACKUP_ARTIFACT_BYTES
                ||| e is EmptyArtifact && bytes@.len() == 0
            },
        },
{
    if bytes.len() as u64 > MAX_BACKUP_ARTIFACT_BYTES {
        return Err(BackupCaptureError::ArtifactTooLarge);
    }
    if bytes.len() == 0 {
        return Err(BackupCaptureError::EmptyArtifact);
    }
    Ok((bytes.len() as u64, fingerprint(bytes.as_slice())))
}

/// What an artifact is fingerprinted by, in order.
pub open spec fn artifact_parts(artifact: ArtifactModel) -> Seq<Seq<char>> {
    Seq::empty()
        .push(json::json_field("ordinal"@, json::json_number(artifact.ordinal as int)))
        .push(json::json_field("kind"@, json::json_text(backup_manifest::backup_kind_name(artifact.kind))))
        .push(json::json_field("artifact_path"@, json::json_text(artifact.artifact_path)))
        .push(json::json_field("expected_identity"@, backup_manifest::expected_identity_json(artifact.expected_identity)))
        .push(json::json_field("size_bytes"@, json::json_number(artifact.size_bytes as int)))
        .push(json::json_field("sha256"@, json::json_text(artifact.sha256)))
}

pub open spec fn artifact_json(artifact: ArtifactModel) -> Seq<char> {
    json::json_object(artifact_parts(artifact))
}

fn artifact_literal(artifact: &BackupArtifactReceipt) -> (text: String)
    ensures
        text@ == artifact_json(artifact@),
{
    let mut parts = Parts::new();
    parts.field_number("ordinal", artifact.ordinal as u64);
    parts.field_text("kind", backup_kind_text(artifact.kind));
    parts.field_text("artifact_path", artifact.artifact_path.as_str());
    parts.field("expected_identity", expected_identity_literal(&artifact.expected_identity));
    parts.field_number("size_bytes", artifact.size_bytes);
    parts.field_text("sha256", artifact.sha256.as_str());
    parts.object()
}

/// The JSON array over which a backup receipt is fingerprinted.
pub open spec fn backup_receipt_json(
    manifest: BackupManifestModel,
    artifacts: Seq<ArtifactModel>,
) -> Seq<char> {
    json::json_array(
        Seq::empty()
            .push(json::json_number(1))
            .push(json::json_text(manifest.manifest_id))
            .push(json::json_text(manifest.handoff_id))
            .push(json::json_text(manifest.plan_id))
            .push(json::json_text(manifest.target_manifest_digest))
            .push(json::json_bool(false))
            .push(json::json_array(artifacts.map_values(|a: ArtifactModel| artifact_json(a)))),
    )
}

/// Why the captured bytes of one requirement are refused, if they are.
pub open spec fn captured_fault(requirement: RequirementModel, bytes: Seq<u8>) -> Option<
    BackupCaptureFault,
> {
    if !is_supported_capture(requirement) {
        Some(BackupCaptureFault::UnsupportedCaptureCommand)
    } else if bytes.len() > MAX_BACKUP_ARTIFACT_BYTES {
        Some(BackupCaptureFault::ArtifactTooLarge)
    } else if bytes.len() == 0 {
        Some(BackupCaptureFault::EmptyArtifact)
    } else {
        None
    }
}

/// The receipt of the captured bytes of one requirement.
pub open spec fn captured_artifact(requirement: RequirementModel, bytes: Seq<u8>) -> ArtifactModel {
    ArtifactModel {
        ordinal: requirement.ordinal,
        kind: requirement.kind,
        artifact_path: requirement.artifact_path,
        expected_identity: requirement.expected_identity,
        size_bytes: bytes.len() as u64,
        sha256: digest::fingerprint_of(bytes),
    }
}

/// The receipts of all captured artifacts, in order.
pub open spec fn captured_artifacts(
    requirements: Seq<RequirementModel>,
    contents: Seq<Vec<u8>>,
) -> Seq<ArtifactModel> {
    Seq::new(
        requirements.len(),
        |i: int| captured_artifact(requirements[i], contents[i]@),
    )
}

/// Writes the receipt of all captured artifacts, where `contents` holds the bytes that were
/// captured for each requirement of the manifest, in order.
pub fn seal_backup_receipt(
    session: &LockedExecutionSession,
    manifest: &MetadataBackupManifest,
    contents: &Vec<Vec<u8>>,
) -> (result: Result<MetadataBackupReceipt, BackupCaptureError>)
    requires
        contents@.len() == manifest@.requirements.len(),
    ensures
        ({
            let requirements = manifest@.requirements;
            let fault = text::first_some(
                requirements.len() as int,
                |i: int| captured_fault(requirements[i], contents@[i]@),
            );
            let artifacts = captured_artifacts(requirements, contents@);
            match result {
                Ok(receipt) => {
                    &&& capture_refusal(session@, manifest@) is None
                    &&& fault is None
                    &&& receipt@ == (BackupReceiptModel {
                        schema_version: 1,
                        receipt_id: digest::text_fingerprint(backup_receipt_json(manifest@, artifacts)),
                        manifest_id: manifest@.manifest_id,
                        handoff_id: manifest@.handoff_id,
                        plan_id: manifest@.plan_id,
                        target_manifest_digest: manifest@.target_manifest_digest,
                        mutation_enabled: false,
                        artifacts,
                    })
                    &&& is_intact_backup_receipt(receipt@)
                },
                Err(e) => {
                    ||| capture_refusal(session@, manifest@) == Some(e@)
                    ||| capture_refusal(session@, manifest@) is None && fault == Some(e@)
                },
            }
        }),
{
    match validate_binding(session, manifest) {
        Ok(_) => {},
        Err(e) => return Err(e),
    }
    let requirements = manifest.requirements();
    let ghost models = manifest@.requirements;
    let ghost on_item = |i: int| captured_fault(models[i], contents@[i]@);
    let ghost all = captured_artifacts(models, contents@);
    let mut artifacts: Vec<BackupArtifactReceipt> = Vec::new();
    let mut parts = Parts::new();
    let mut i: usize = 0;
    assert(artifact_models(artifacts@) =~= all.take(0));
    assert(parts@ =~= artifact_models(artifacts@).map_values(|a: ArtifactModel| artifact_json(a)));
    while i < requirements.len()
        invariant
            i <= requirements@.len(),
            models == manifest@.requirements,
            backup_manifest::requirement_models(requirements@) == models,
            contents@.len() == models.len(),
            capture_refusal(session@, manifest@) is None,
            on_item == (|i: int| captured_fault(models[i], contents@[i]@)),
            all == captured_artifacts(models, contents@),
            text::first_some(i as int, on_item) is None,
            artifact_models(artifacts@) == all.take(i as int),
            parts@ == artifact_models(artifacts@).map_values(|a: ArtifactModel| artifact_json(a)),
        decreases requirements@.len() - i,
    {
        let requirement = &requirements[i];
        assert(models[i as int] == requirement@);
        match validate_requirement(requirement) {
            Ok(_) => {},
            Err(e) => {
                proof {
                    assert(text::first_some(i + 1, on_item) == Some(e@));
                    text::lemma_first_some_stays(i + 1, models.len() as int, on_item);
                }
                return Err(e);
            },
        }
        match verify_artifact(&contents[i]) {
            Ok((size_bytes, sha256)) => {
                let artifact = BackupArtifactReceipt {
                    ordinal: requirement.ordinal,
                    kind: requirement.kind,
                    artifact_path: requirement.artifact_path.clone(),
                    expected_identity: requirement.expected_identity.clone(),
                    size_bytes,
                    sha256,
                };
                let ghost before = artifact_models(artifacts@);
                parts.push(artifact_literal(&artifact));
                artifacts.push(artifact);
                assert(artifact_models(artifacts@) =~= before.push(artifact@));
                assert(artifact@ == all[i as int]);
                assert(all.take(i + 1) =~= all.take(i as int).push(all[i as int]));
                assert(parts@ =~= artifact_models(artifacts@).map_values(
                    |a: ArtifactModel| artifact_json(a),
                ));
            },
            Err(e) => {
                proof {
                    assert(text::first_some(i + 1, on_item) == Some(e@));
                    text::lemma_first_some_stays(i + 1, models.len() as int, on_item);
                }
                return Err(e);
            },
        }
        i += 1;
    }
    assert(all.take(all.len() as int) =~= all);
    let mut basis = Parts::new();
    basis.push_number(1);
    basis.push_text(manifest.manifest_id());
    basis.push_text(manifest.handoff_id());
    basis.push_text(manifest.plan_id());
    basis.push_text(manifest.target_manifest_digest());
    basis.push_bool(false);
    basis.push(parts.array());
    let receipt_id = fingerprint_text(basis.array().as_str());
    Ok(
        MetadataBackupReceipt {
            schema_version: 1,
            receipt_id,
            manifest_id: manifest.manifest_id().to_owned(),
            handoff_id: manifest.handoff_id().to_owned(),
            plan_id: manifest.plan_id().to_owned(),
            target_manifest_digest: manifest.target_manifest_digest().to_owned(),
            mutation_enabled: false,
            artifacts,
        },
    )
}

/// The bytes of an artifact that was read again, or why it could not be read.
pub open spec fn reading(content: Result<Vec<u8>, String>) -> Result<Seq<u8>, Seq<char>> {
    match content {
        Ok(bytes) => Ok(bytes@),
        Err(reason) => Err(reason@),
    }
}

/// What stands against an artifact that was read again.
pub open spec fn artifact_blocker(
    artifact: ArtifactModel,
    content: Result<Seq<u8>, Seq<char>>,
) -> Option<Seq<char>> {
    match content {
        Err(reason) => Some(
            "artifact could not be read: "@ + artifact.artifact_path + ": "@ + reason,
        ),
        Ok(bytes) => {
            if bytes.len() != artifact.size_bytes {
                Some("artifact size changed: "@ + artifact.artifact_path)
            } else if digest::fingerprint_of(bytes) != artifact.sha256 {
                Some("artifact SHA-256 changed: "@ + artifact.artifact_path)
            } else {
                None
            }
        },
    }
}

/// What stands against the artifacts of a receipt, in their order.
pub open spec fn receipt_blockers(
    artifacts: Seq<ArtifactModel>,
    contents: Seq<Result<Vec<u8>, String>>,
) -> Seq<Seq<char>>
    decreases artifacts.len(),
{
    if artifacts.len() == 0 {
        Seq::empty()
    } else {
        let earlier = receipt_blockers(artifacts.drop_last(), contents);
        match artifact_blocker(artifacts.last(), reading(contents[artifacts.len() - 1])) {
            None => earlier,
            Some(blocker) => earlier.push(blocker),
        }
    }
}

fn blocker_line(label: &str, path: &str) -> (line: String)
    ensures
        line@ == label@ + path@,
{
    let mut line = label.to_owned();
    line.append(path);
    line
}

fn find_artifact_blocker(
    artifact: &BackupArtifactReceipt,
    content: &Result<Vec<u8>, String>,
) -> (blocker: Option<String>)
    ensures
        text::opt_text(blocker) == artifact_blocker(artifact@, reading(*content)),
{
    let path = artifact.artifact_path.as_str();
    match content {
        Err(reason) => {
            let mut line = blocker_line("artifact could not be read: ", path);
            line.append(": ");
            line.append(reason.as_str());
            Some(line)
        },
        Ok(bytes) => {
            if bytes.len() as u64 != artifact.size_bytes {
                Some(blocker_line("artifact size changed: ", path))
            } else if !same_text(
                fingerprint(bytes.as_slice()).as_str(),
                artifact.sha256.as_str(),
            ) {
                Some(blocker_line("artifact SHA-256 changed: ", path))
            } else {
                None
            }
        },
    }
}

/// Compares the artifacts of a receipt with what was read of them again, in the same order.
pub fn revalidate_metadata_backup_receipt(
    receipt: &MetadataBackupReceipt,
    contents: &Vec<Result<Vec<u8>, String>>,
) -> (revalidation: BackupReceiptRevalidation)
    requires
        contents@.len() == receipt@.artifacts.len(),
    ensures
        revalidation.manifest_id@ == receipt@.manifest_id,
        revalidation.receipt_id@ == receipt@.receipt_id,
        revalidation.handoff_id@ == receipt@.handoff_id,
        revalidation.plan_id@ == receipt@.plan_id,
        revalidation.target_manifest_digest@ == receipt@.target_manifest_digest,
        text::texts(revalidation.blockers@) == receipt_blockers(receipt@.artifacts, contents@),
        revalidation.matches == (revalidation.blockers@.len() == 0),
{
    let ghost models = receipt@.artifacts;
    let mut blockers: Vec<String> = Vec::new();
    assert(text::texts(blockers@) =~= receipt_blockers(models.take(0), contents@));
    for i in 0..receipt.artifacts.len()
        invariant
            contents@.len() == models.len(),
            models == artifact_models(receipt.artifacts@),
            text::texts(blockers@) == receipt_blockers(models.take(i as int), contents@),
    {
        let ghost before = text::texts(blockers@);
        assert(models.take(i + 1).drop_last() =~= models.take(i as int));
        assert(models.take(i + 1).last() == receipt.artifacts@[i as int]@);
        match find_artifact_blocker(&receipt.artifacts[i], &contents[i]) {
            Some(blocker) => {
                blockers.push(blocker);
                assert(text::texts(blockers@) =~= before.push(blocker@));
            },
            None => {},
        }
    }
    assert(models.take(models.len() as int) =~= models);
    BackupReceiptRevalidation {
        manifest_id: receipt.manifest_id.clone(),
        receipt_id: receipt.receipt_id.clone(),
        handoff_id: receipt.handoff_id.clone(),
        plan_id: receipt.plan_id.clone(),
        target_manifest_digest: receipt.target_manifest_digest.clone(),
        matches: blockers.len() == 0,
        blockers,
    }
}

/// Captured artifacts that read back as they were captured revalidate without a blocker.
pub proof fn untouched_backups_revalidate(
    requirements: Seq<RequirementModel>,
    captured: Seq<Vec<u8>>,
    contents: Seq<Result<Vec<u8>, String>>,
)
    requires
        forall|i: int|
            0 <= i < requirements.len() ==> captured_fault(
                requirements[i],
                #[trigger] captured[i]@,
            ) is None,
        forall|i: int|
            0 <= i < requirements.len() ==> reading(#[trigger] contents[i]) == Ok::<
                Seq<u8>,
                Seq<char>,
            >(captured[i]@),
    ensures
        receipt_blockers(captured_artifacts(requirements, captured), contents).len() == 0,
    decreases requirements.len(),
{
    let artifacts = captured_artifacts(requirements, captured);
    if requirements.len() > 0 {
        let earlier = requirements.drop_last();
        assert(artifacts.drop_last() =~= captured_artifacts(earlier, captured));
        assert(captured_fault(requirements[requirements.len() - 1], captured[requirements.len() - 1]@)
            is None);
        assert(reading(contents[requirements.len() - 1]) is Ok);
        assert forall|i: int| 0 <= i < earlier.len() implies captured_fault(
            earlier[i],
            #[trigger] captured[i]@,
        ) is None by {
            assert(captured_fault(requirements[i], captured[i]@) is None);
        }
        untouched_backups_revalidate(earlier, captured, contents);
    }
}

/// Where nothing blocks, every artifact was read with the size and the fingerprint of its receipt.
pub proof fn revalidated_artifact_is_unchanged(
    artifacts: Seq<ArtifactModel>,
    contents: Seq<Result<Vec<u8>, String>>,
    i: int,
)
    requires
        receipt_blockers(artifacts, contents).len() == 0,
        0 <= i < artifacts.len(),
    ensures
        contents[i] is Ok,
        contents[i]->Ok_0@.len() == artifacts[i].size_bytes,
        digest::fingerprint_of(contents[i]->Ok_0@) == artifacts[i].sha256,
    decreases artifacts.len(),
{
    if i < artifacts.len() - 1 {
        revalidated_artifact_is_unchanged(artifacts.drop_last(), contents, i);
    }
}

/// The requirements of a built manifest are all captured by the two known read-only commands.
pub proof fn built_requirements_are_supported(
    identity: TargetIdentityManifest,
    steps: Seq<PlanStep>,
    directory: Seq<char>,
    i: int,
)
    requires
        backup_manifest::required_backups(identity, steps, directory) is Ok,
        0 <= i < backup_manifest::required_backups(identity, steps, directory)->Ok_0.len(),
    ensures
        is_supported_capture(backup_manifest::required_backups(identity, steps, directory)->Ok_0[i]),
    decreases steps.len(),
{
    let earlier = backup_manifest::required_backups(identity, steps.drop_last(), directory)->Ok_0;
    if i < earlier.len() {
        built_requirements_are_supported(identity, steps.drop_last(), directory, i);
    }
}

/// A revalidated session may capture every backup of the manifest that was built for its handoff.
pub proof fn built_manifest_can_be_captured(session: SessionModel, i: int)
    requires
        session.journal.phase == JournalPhase::IdentityRevalidated,
        backup_manifest::backup_manifest_refusal(session.handoff) is None,
    ensures
        capture_refusal(session, backup_manifest::backup_manifest_of(session.handoff)) is None,
        0 <= i < backup_manifest::backup_manifest_of(session.handoff).requirements.len() ==> is_supported_capture(
            backup_manifest::backup_manifest_of(session.handoff).requirements[i],
        ),
{
    if 0 <= i < backup_manifest::backup_manifest_of(session.handoff).requirements.len() {
        built_requirements_are_supported(
            session.handoff.target_identity,
            session.handoff.plan.steps@,
            text::path_join(BACKUP_DIRECTORY@, session.handoff.handoff_id@),
            i,
        );
    }
}

/// The form is one value.
pub proof fn lemma_artifact_value(x: ArtifactModel)
    ensures
        json_reading::is_value(artifact_json(x)),
{
    broadcast use crate::json_reading::group_json_reading;

    backup_manifest::lemma_expected_identity_value(x.expected_identity);
    assert(json_reading::are_values(artifact_parts(x)));
}

proof fn lemma_artifact_told(a: ArtifactModel, b: ArtifactModel)
    requires
        artifact_json(a) == artifact_json(b),
    ensures
        a == b,
{
    broadcast use crate::json_reading::group_json_reading;

    backup_manifest::lemma_expected_identity_value(a.expected_identity);
    backup_manifest::lemma_expected_identity_value(b.expected_identity);
    let p = artifact_parts(a);
    let q = artifact_parts(b);
    assert(json_reading::are_values(p) && json_reading::are_values(q));
    assert(p[0] == q[0]);
    assert(p[1] == q[1]);
    assert(p[2] == q[2]);
    assert(p[3] == q[3]);
    assert(p[4] == q[4]);
    assert(p[5] == q[5]);
    backup_manifest::lemma_backup_kind_name_told(a.kind, b.kind);
    backup_manifest::lemma_expected_identity_told(a.expected_identity, b.expected_identity);
}

/// What a receipt is fingerprinted by, in order.
pub open spec fn backup_receipt_parts(receipt: BackupReceiptModel) -> Seq<Seq<char>> {
    Seq::empty()
        .push(json::json_number(1))
        .push(json::json_text(receipt.manifest_id))
        .push(json::json_text(receipt.handoff_id))
        .push(json::json_text(receipt.plan_id))
        .push(json::json_text(receipt.target_manifest_digest))
        .push(json::json_bool(false))
        .push(json::json_array(receipt.artifacts.map_values(|a: ArtifactModel| artifact_json(a))))
}

/// The JSON form that a receipt is fingerprinted by.
pub open spec fn receipt_form(receipt: BackupReceiptModel) -> Seq<char> {
    json::json_array(backup_receipt_parts(receipt))
}

/// The identifier is the fingerprint of what it covers.
pub open spec fn is_intact_backup_receipt(receipt: BackupReceiptModel) -> bool {
    receipt.receipt_id == digest::text_fingerprint(receipt_form(receipt))
}

/// The two bind the same artifacts to the same manifest. Version and switch, which are the same in
/// every receipt, are fingerprinted as constants.
pub open spec fn same_backup_receipt(a: BackupReceiptModel, b: BackupReceiptModel) -> bool {
    &&& a.manifest_id == b.manifest_id
    &&& a.handoff_id == b.handoff_id
    &&& a.plan_id == b.plan_id
    &&& a.target_manifest_digest == b.target_manifest_digest
    &&& a.artifacts == b.artifacts
}

proof fn lemma_backup_receipt_told(a: BackupReceiptModel, b: BackupReceiptModel)
    requires
        receipt_form(a) == receipt_form(b),
    ensures
        same_backup_receipt(a, b),
{
    broadcast use crate::json_reading::group_json_reading;

    let write = |a: ArtifactModel| artifact_json(a);
    assert forall|x: ArtifactModel| json_reading::is_value(#[trigger] write(x)) by {
        lemma_artifact_value(x);
    }
    json_reading::list_is_value(a.artifacts, write);
    json_reading::list_is_value(b.artifacts, write);
    let p = backup_receipt_parts(a);
    let q = backup_receipt_parts(b);
    assert(json_reading::are_values(p) && json_reading::are_values(q));
    assert(p[0] == q[0]);
    assert(p[1] == q[1]);
    assert(p[2] == q[2]);
    assert(p[3] == q[3]);
    assert(p[4] == q[4]);
    assert(p[5] == q[5]);
    assert(p[6] == q[6]);
    json_reading::list_tells_its_items(a.artifacts, b.artifacts, write);
    assert forall|i: int| 0 <= i < a.artifacts.len() implies a.artifacts[i] == b.artifacts[i] by {
        assert(write(a.artifacts[i]) == write(b.artifacts[i]));
        lemma_artifact_told(a.artifacts[i], b.artifacts[i]);
    }
    assert(a.artifacts =~= b.artifacts);
}

/// A backup receipt that was changed under its identifier is noticed, short of a SHA-256 collision.
pub proof fn changed_backup_receipt_is_detected(a: BackupReceiptModel, b: BackupReceiptModel)
    requires
        is_intact_backup_receipt(a),
        b.receipt_id == a.receipt_id,
        !same_backup_receipt(a, b),
    ensures
        !is_intact_backup_receipt(b) || digest::is_collision(receipt_form(a), receipt_form(b)),
{
    if is_intact_backup_receipt(b) {
        digest::fingerprint_tells_its_text(receipt_form(a), receipt_form(b));
        if receipt_form(a) == receipt_form(b) {
            lemma_backup_receipt_told(a, b);
        }
    }
}

/// A session captures the backups of a manifest exactly where nothing may be changed, the session
/// was revalidated, the manifest is that of its handoff, plan and target and still needs the owner,
/// and the artifacts go below the backup directory.
pub proof fn session_captures_its_own_manifest(
    session: SessionModel,
    manifest: BackupManifestModel,
)
    ensures
        capture_refusal(session, manifest) is None <==> {
            &&& !manifest.mutation_enabled
            &&& session.journal.phase is IdentityRevalidated
            &&& manifest.handoff_id == session.handoff.handoff_id@
            &&& manifest.plan_id == session.handoff.plan.plan_id@
            &&& manifest.target_manifest_digest == session.handoff.target_identity.manifest_digest@
            &&& manifest.owner_acceptance_required
            &&& manifest.artifact_directory == text::path_join(
                "/var/lib/linux-storage-manager/backups"@,
                manifest.handoff_id,
            )
        },
{
}

/// A capture has an action exactly where it changes nothing, reads nothing, and is either the dump
/// of the very disk whose table is expected, written to the artifact, or the metadata of the very
/// group that is expected, with the artifact as its file. The output is an entry of the given root
/// with the last name of the artifact.
pub proof fn capture_reads_what_is_expected(
    requirement: RequirementModel,
    artifact_root: Seq<char>,
)
    ensures
        ({
            let owed = capture_action_of(requirement, artifact_root);
            let capture = requirement.capture;
            let name = paths::path_file_name(requirement.artifact_path);
            &&& owed is Ok <==> {
                &&& name is Some
                &&& !capture.mutates_storage_metadata
                &&& capture.stdin_path is None
                &&& requirement.kind is PartitionTable
                    <==> requirement.expected_identity is PartitionTable
                &&& requirement.kind is PartitionTable ==> {
                    &&& capture.program == "sfdisk"@
                    &&& capture.args == seq![
                        "--dump"@,
                        requirement.expected_identity->PartitionTable_disk,
                    ]
                    &&& capture.stdout_path == Some(requirement.artifact_path)
                }
                &&& requirement.kind is LvmVolumeGroup ==> {
                    &&& capture.program == "vgcfgbackup"@
                    &&& capture.args == seq![
                        "--file"@,
                        requirement.artifact_path,
                        requirement.expected_identity->vg_name,
                    ]
                    &&& capture.stdout_path is None
                }
            }
            &&& owed is Ok && requirement.kind is PartitionTable ==> {
                &&& owed->Ok_0 is PartitionTable
                &&& owed->Ok_0->disk == requirement.expected_identity->PartitionTable_disk
                &&& owed->Ok_0->PartitionTable_output == text::path_join(
                    artifact_root,
                    name->Some_0,
                )
            }
            &&& owed is Ok && requirement.kind is LvmVolumeGroup ==> {
                &&& owed->Ok_0 is LvmMetadata
                &&& owed->Ok_0->vg_name == requirement.expected_identity->vg_name
                &&& owed->Ok_0->LvmMetadata_output == text::path_join(artifact_root, name->Some_0)
            }
        }),
{
}

/// Captured bytes are accepted exactly where the capture is a known one and there is something, but
/// not too much. Their receipt repeats the requirement and holds their number and fingerprint.
pub proof fn captured_bytes_are_counted_and_fingerprinted(
    requirement: RequirementModel,
    bytes: Seq<u8>,
)
    ensures
        captured_fault(requirement, bytes) is None <==> is_supported_capture(requirement) && 0
            < bytes.len() <= 16 * 1024 * 1024,
        captured_fault(requirement, bytes) is None ==> {
            let artifact = captured_artifact(requirement, bytes);
            &&& artifact.ordinal == requirement.ordinal
            &&& artifact.kind == requirement.kind
            &&& artifact.artifact_path == requirement.artifact_path
            &&& artifact.expected_identity == requirement.expected_identity
            &&& artifact.size_bytes == bytes.len()
            &&& artifact.sha256 == digest::fingerprint_of(bytes)
        },
{
}

/// An artifact that is read again stands where it has the recorded number of bytes and the recorded
/// fingerprint; otherwise its path is named.
pub proof fn artifact_stands_where_nothing_changed(
    artifact: ArtifactModel,
    bytes: Seq<u8>,
    reason: Seq<char>,
)
    ensures
        artifact_blocker(artifact, Ok(bytes)) is None <==> bytes.len() == artifact.size_bytes
            && digest::fingerprint_of(bytes) == artifact.sha256,
        bytes.len() != artifact.size_bytes ==> artifact_blocker(artifact, Ok(bytes)) == Some(
            "artifact size changed: "@ + artifact.artifact_path,
        ),
        bytes.len() == artifact.size_bytes && digest::fingerprint_of(bytes) != artifact.sha256
            ==> artifact_blocker(artifact, Ok(bytes)) == Some(
            "artifact SHA-256 changed: "@ + artifact.artifact_path,
        ),
        artifact_blocker(artifact, Err(reason)) == Some(
            "artifact could not be read: "@ + artifact.artifact_path + ": "@ + reason,
        ),
{
}

/// A text stands against a receipt exactly where it stands against one of its artifacts.
pub proof fn every_changed_artifact_stands_against_its_receipt(
    artifacts: Seq<ArtifactModel>,
    contents: Seq<Result<Vec<u8>, String>>,
    t: Seq<char>,
)
    requires
        artifacts.len() <= contents.len(),
    ensures
        receipt_blockers(artifacts, contents).contains(t) <==> exists|i: int|
            0 <= i < artifacts.len() && artifact_blocker(
                #[trigger] artifacts[i],
                reading(contents[i]),
            ) == Some(t),
    decreases artifacts.len(),
{
    if artifacts.len() > 0 {
        let before = artifacts.drop_last();
        let last = artifacts.len() - 1;
        let earlier = receipt_blockers(before, contents);
        let all = receipt_blockers(artifacts, contents);
        every_changed_artifact_stands_against_its_receipt(before, contents, t);
        if earlier.contains(t) {
            let k = choose|k: int| 0 <= k < earlier.len() && earlier[k] == t;
            assert(all[k] == t);
            let i = choose|i: int|
                0 <= i < before.len() && artifact_blocker(#[trigger] before[i], reading(contents[i]))
                    == Some(t);
            assert(artifacts[i] == before[i]);
        }
        if all.contains(t) && !earlier.contains(t) {
            let k = choose|k: int| 0 <= k < all.len() && all[k] == t;
            if k < earlier.len() {
                assert(earlier[k] == t);
            }
            assert(artifacts[last] == artifacts.last());
        }
        if exists|i: int|
            0 <= i < artifacts.len() && artifact_blocker(
                #[trigger] artifacts[i],
                reading(contents[i]),
            ) == Some(t) {
            let i = choose|i: int|
                0 <= i < artifacts.len() && artifact_blocker(
                    #[trigger] artifacts[i],
                    reading(contents[i]),
                ) == Some(t);
            if i < last {
                assert(before[i] == artifacts[i]);
            } else {
                assert(all[all.len() - 1] == t);
            }
        }
    }
}

/// A new artifact needs a free path. One that is read again has to be a regular file with something
/// in it, but not too much. Only a real directory is entered, and a missing one where it may be
/// made.
pub proof fn artifacts_stand_at_safe_places(
    path: Seq<char>,
    status: PathStatus,
    found: ArtifactStatus,
    may_create: bool,
)
    ensures
        new_artifact_refusal(path, status) is None <==> status is Absent,
        status is Directory || status is Other ==> new_artifact_refusal(path, status) == Some(
            BackupCaptureFault::ArtifactExists(path),
        ),
        artifact_refusal(path, Ok(found)) is None <==> found.regular && 0 < found.size <= 16 * 1024
            * 1024,
        backup_directory_refusal(path, status, may_create) is None <==> status is Directory || (
        status is Absent && may_create),
        status is Other ==> backup_directory_refusal(path, status, may_create) == Some(
            BackupCaptureFault::UnsafeDirectory(path),
        ),
{
}

/// Each refusal to capture names something that is wrong.
pub proof fn refused_capture_names_its_reason(
    session: SessionModel,
    manifest: BackupManifestModel,
    requirement: RequirementModel,
    bytes: Seq<u8>,
)
    ensures
        capture_refusal(session, manifest) matches Some(e) ==> match e {
            BackupCaptureFault::MutationEnabled => manifest.mutation_enabled,
            BackupCaptureFault::SessionNotRevalidated => !(session.journal.phase
                is IdentityRevalidated),
            BackupCaptureFault::ManifestBindingMismatch => {
                ||| manifest.handoff_id != session.handoff.handoff_id@
                ||| manifest.plan_id != session.handoff.plan.plan_id@
                ||| manifest.target_manifest_digest
                    != session.handoff.target_identity.manifest_digest@
                ||| !manifest.owner_acceptance_required
            },
            BackupCaptureFault::ArtifactDirectoryMismatch => manifest.artifact_directory
                != text::path_join(
                "/var/lib/linux-storage-manager/backups"@,
                session.handoff.handoff_id@,
            ),
            _ => false,
        },
        captured_fault(requirement, bytes) matches Some(e) ==> match e {
            BackupCaptureFault::UnsupportedCaptureCommand => !is_supported_capture(requirement),
            BackupCaptureFault::ArtifactTooLarge => bytes.len() > 16 * 1024 * 1024,
            BackupCaptureFault::EmptyArtifact => bytes.len() == 0,
            _ => false,
        },
{
}

} // verus!
