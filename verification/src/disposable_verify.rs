//! Verification of a completed mutation against freshly discovered state.

use vstd::prelude::*;

use crate::reading;
use crate::privileged_protocol;
use crate::locked_session;
use crate::text;
use crate::native_operation;
use crate::model;
use crate::locked_session::{LockedExecutionSession, SessionModel};
use crate::model::{
    find_lvm, find_mount, find_step, same_execution_option, same_mount, steps_adjacent,
    BindingIntegrity, ExecutionStartBinding, JournalPhase, LayerRouteStatus, Lookup,
    LvmIdentityKind, MountIdentity, OperationJournal, TargetIdentityManifest,
};
use crate::native_operation::{
    find_native_step, NativeCompiledManifest, NativeCompiledStep, NativeOperationSpec,
    ValidatedNativeManifest,
};
use crate::text::{opt_is, same_opt, same_text};

verus! {

/// The authority to start exactly one next mutation. It is handed over, never copied.
#[derive(Debug, PartialEq, Eq)]
pub struct DisposableVerifiedBoundary {
    execution_id: String,
    completed_step_id: u32,
    next_step_id: u32,
    fresh_identity_digest: String,
}

/// The content of a verified boundary.
pub struct DisposableBoundaryModel {
    pub execution_id: Seq<char>,
    pub completed_step_id: u32,
    pub next_step_id: u32,
    pub fresh_identity_digest: Seq<char>,
}

impl View for DisposableVerifiedBoundary {
    type V = DisposableBoundaryModel;

    closed spec fn view(&self) -> DisposableBoundaryModel {
        DisposableBoundaryModel {
            execution_id: self.execution_id@,
            completed_step_id: self.completed_step_id,
            next_step_id: self.next_step_id,
            fresh_identity_digest: self.fresh_identity_digest@,
        }
    }
}

impl DisposableVerifiedBoundary {
    pub fn new(
        execution_id: String,
        completed_step_id: u32,
        next_step_id: u32,
        fresh_identity_digest: String,
    ) -> (boundary: Self)
        ensures
            boundary@ == (DisposableBoundaryModel {
                execution_id: execution_id@,
                completed_step_id,
                next_step_id,
                fresh_identity_digest: fresh_identity_digest@,
            }),
    {
        DisposableVerifiedBoundary {
            execution_id,
            completed_step_id,
            next_step_id,
            fresh_identity_digest,
        }
    }

    pub fn execution_id(&self) -> (value: &str)
        ensures
            value@ == self@.execution_id,
    {
        self.execution_id.as_str()
    }

    pub fn completed_step_id(&self) -> (value: u32)
        ensures
            value == self@.completed_step_id,
    {
        self.completed_step_id
    }

    pub fn next_step_id(&self) -> (value: u32)
        ensures
            value == self@.next_step_id,
    {
        self.next_step_id
    }

    pub fn fresh_identity_digest(&self) -> (value: &str)
        ensures
            value@ == self@.fresh_identity_digest,
    {
        self.fresh_identity_digest.as_str()
    }
}

/// The verified end of an execution.
#[derive(Debug, PartialEq, Eq)]
pub struct DisposableVerifiedCompletion {
    execution_id: String,
    completed_step_id: u32,
    fresh_identity_digest: String,
}

/// The content of a verified completion.
pub struct DisposableCompletionModel {
    pub execution_id: Seq<char>,
    pub completed_step_id: u32,
    pub fresh_identity_digest: Seq<char>,
}

impl View for DisposableVerifiedCompletion {
    type V = DisposableCompletionModel;

    closed spec fn view(&self) -> DisposableCompletionModel {
        DisposableCompletionModel {
            execution_id: self.execution_id@,
            completed_step_id: self.completed_step_id,
            fresh_identity_digest: self.fresh_identity_digest@,
        }
    }
}

impl DisposableVerifiedCompletion {
    pub fn execution_id(&self) -> (value: &str)
        ensures
            value@ == self@.execution_id,
    {
        self.execution_id.as_str()
    }

    pub fn completed_step_id(&self) -> (value: u32)
        ensures
            value == self@.completed_step_id,
    {
        self.completed_step_id
    }

    pub fn fresh_identity_digest(&self) -> (value: &str)
        ensures
            value@ == self@.fresh_identity_digest,
    {
        self.fresh_identity_digest.as_str()
    }
}

#[derive(Clone, Copy, Debug, PartialEq, Eq, Structural)]
pub enum DisposableBoundaryVerificationError {
    DurableVerificationStateRequired,
    ExecutionBindingInvalid,
    ManifestBindingMismatch,
    CompletedStepNotAuthorized,
    NoNextMutationStep,
    UnsupportedCompletedMutation,
    PhysicalVolumeIdentityNotUnique,
    PhysicalVolumeSizeMismatch,
    UnsupportedFreshRoute,
    LogicalVolumeIdentityNotUnique,
    LogicalVolumeSizeMismatch,
    FilesystemBackingSizeMismatch,
    FinalStepNotLast,
    UnsupportedFinalMutation,
    FilesystemIdentityMismatch,
    CapabilityInventoryMismatch,
    FilesystemSizeDidNotGrow,
    VerifiedBoundaryMissing,
    VerifiedBoundaryIdentityMismatch,
    PersistenceFailed,
}

/// The execution start names this manifest.
pub open spec fn names_manifest(
    execution: ExecutionStartBinding,
    manifest: NativeCompiledManifest,
    digest: Seq<char>,
) -> bool {
    execution.source_manifest_id@ == manifest.source_manifest_id@
        && execution.native_manifest_digest@ == digest
}

/// What the fresh state of a completed mutation is refused for, if anything.
pub open spec fn post_state_obstacle(
    operation: NativeOperationSpec,
    fresh: TargetIdentityManifest,
) -> Option<DisposableBoundaryVerificationError> {
    match operation {
        NativeOperationSpec::ResizePhysicalVolume { pv_uuid, expected_pv_size_bytes } => {
            let found = model::lvm_with(fresh.lvm@, LvmIdentityKind::PhysicalVolume, pv_uuid@);
            if found.len() != 1 {
                Some(DisposableBoundaryVerificationError::PhysicalVolumeIdentityNotUnique)
            } else if found[0].size_bytes != expected_pv_size_bytes {
                Some(DisposableBoundaryVerificationError::PhysicalVolumeSizeMismatch)
            } else {
                None
            }
        },
        NativeOperationSpec::ExtendLogicalVolume { lv_uuid, expected_lv_size_bytes, .. } => {
            let found = model::lvm_with(fresh.lvm@, LvmIdentityKind::LogicalVolume, lv_uuid@);
            if found.len() != 1 {
                Some(DisposableBoundaryVerificationError::LogicalVolumeIdentityNotUnique)
            } else if found[0].size_bytes != expected_lv_size_bytes {
                Some(DisposableBoundaryVerificationError::LogicalVolumeSizeMismatch)
            } else if fresh.filesystem is None
                || fresh.filesystem->Some_0.backing_device_size_bytes != expected_lv_size_bytes {
                Some(DisposableBoundaryVerificationError::FilesystemBackingSizeMismatch)
            } else {
                None
            }
        },
        _ => Some(DisposableBoundaryVerificationError::UnsupportedCompletedMutation),
    }
}

fn check_post_state(operation: &NativeOperationSpec, fresh: &TargetIdentityManifest) -> (obstacle:
    Option<DisposableBoundaryVerificationError>)
    ensures
        obstacle == post_state_obstacle(*operation, *fresh),
{
    match operation {
        NativeOperationSpec::ResizePhysicalVolume { pv_uuid, expected_pv_size_bytes } => {
            match find_lvm(&fresh.lvm, LvmIdentityKind::PhysicalVolume, pv_uuid.as_str()) {
                Lookup::Unique(i) => {
                    if fresh.lvm[i].size_bytes != *expected_pv_size_bytes {
                        Some(DisposableBoundaryVerificationError::PhysicalVolumeSizeMismatch)
                    } else {
                        None
                    }
                },
                _ => Some(DisposableBoundaryVerificationError::PhysicalVolumeIdentityNotUnique),
            }
        },
        NativeOperationSpec::ExtendLogicalVolume { lv_uuid, expected_lv_size_bytes, .. } => {
            match find_lvm(&fresh.lvm, LvmIdentityKind::LogicalVolume, lv_uuid.as_str()) {
                Lookup::Unique(i) => {
                    if fresh.lvm[i].size_bytes != *expected_lv_size_bytes {
                        return Some(DisposableBoundaryVerificationError::LogicalVolumeSizeMismatch);
                    }
                    match &fresh.filesystem {
                        Some(filesystem) => {
                            if filesystem.backing_device_size_bytes != *expected_lv_size_bytes {
                                Some(
                                    DisposableBoundaryVerificationError::FilesystemBackingSizeMismatch,
                                )
                            } else {
                                None
                            }
                        },
                        None => Some(
                            DisposableBoundaryVerificationError::FilesystemBackingSizeMismatch,
                        ),
                    }
                },
                _ => Some(DisposableBoundaryVerificationError::LogicalVolumeIdentityNotUnique),
            }
        },
        _ => Some(DisposableBoundaryVerificationError::UnsupportedCompletedMutation),
    }
}

/// What a completed step is refused for at its boundary, if anything.
pub open spec fn boundary_obstacle(
    execution: ExecutionStartBinding,
    manifest: NativeCompiledManifest,
    digest: Seq<char>,
    fresh: TargetIdentityManifest,
    completed_step_id: u32,
) -> Option<DisposableBoundaryVerificationError> {
    if !execution.is_sound() {
        Some(DisposableBoundaryVerificationError::ExecutionBindingInvalid)
    } else if !names_manifest(execution, manifest, digest) {
        Some(DisposableBoundaryVerificationError::ManifestBindingMismatch)
    } else {
        match model::step_position(execution.mutation_step_ids@, completed_step_id) {
            None => Some(DisposableBoundaryVerificationError::CompletedStepNotAuthorized),
            Some(p) => {
                if p + 1 >= execution.mutation_step_ids@.len() {
                    Some(DisposableBoundaryVerificationError::NoNextMutationStep)
                } else {
                    match native_operation::step_index(manifest.steps@, completed_step_id) {
                        None => Some(
                            DisposableBoundaryVerificationError::CompletedStepNotAuthorized,
                        ),
                        Some(i) => {
                            if fresh.route_status != LayerRouteStatus::SupportedProfile {
                                Some(DisposableBoundaryVerificationError::UnsupportedFreshRoute)
                            } else {
                                post_state_obstacle(manifest.steps@[i].operation, fresh)
                            }
                        },
                    }
                }
            },
        }
    }
}

/// The step that follows in the order of an execution.
pub open spec fn following_step(ids: Seq<u32>, completed_step_id: u32) -> u32 {
    ids[model::step_position(ids, completed_step_id)->Some_0 + 1]
}

/// Verifies a completed step against fresh state. Yields the next step and the fresh digest.
pub fn verify_boundary_state(
    execution: &ExecutionStartBinding,
    validated: &ValidatedNativeManifest,
    fresh_identity: &TargetIdentityManifest,
    completed_step_id: u32,
) -> (result: Result<(u32, String), DisposableBoundaryVerificationError>)
    ensures
        ({
            let obstacle = boundary_obstacle(
                *execution,
                validated.source(),
                validated.digest_text(),
                *fresh_identity,
                completed_step_id,
            );
            match result {
                Ok((next, digest)) => obstacle is None && next == following_step(
                    execution.mutation_step_ids@,
                    completed_step_id,
                ) && digest@ == fresh_identity.manifest_digest@,
                Err(e) => obstacle == Some(e),
            }
        }),
{
    if !execution.sound() {
        return Err(DisposableBoundaryVerificationError::ExecutionBindingInvalid);
    }
    let manifest = validated.manifest();
    if !same_text(execution.source_manifest_id.as_str(), manifest.source_manifest_id.as_str())
        || !same_text(execution.native_manifest_digest.as_str(), validated.digest()) {
        return Err(DisposableBoundaryVerificationError::ManifestBindingMismatch);
    }
    let position = match find_step(&execution.mutation_step_ids, completed_step_id) {
        Some(position) => position,
        None => return Err(DisposableBoundaryVerificationError::CompletedStepNotAuthorized),
    };
    if execution.mutation_step_ids.len() - position <= 1 {
        return Err(DisposableBoundaryVerificationError::NoNextMutationStep);
    }
    let next_step_id: u32 = execution.mutation_step_ids[position + 1];
    let index = match find_native_step(&manifest.steps, completed_step_id) {
        Some(index) => index,
        None => return Err(DisposableBoundaryVerificationError::CompletedStepNotAuthorized),
    };
    if !matches!(fresh_identity.route_status, LayerRouteStatus::SupportedProfile) {
        return Err(DisposableBoundaryVerificationError::UnsupportedFreshRoute);
    }
    match check_post_state(&manifest.steps[index].operation, fresh_identity) {
        Some(e) => Err(e),
        None => Ok((next_step_id, fresh_identity.manifest_digest.clone())),
    }
}

/// The mounts that a growth step names.
pub open spec fn named_mounts(
    items: Seq<MountIdentity>,
    mountpoint: Option<Seq<char>>,
    fs_type: Seq<char>,
) -> Seq<MountIdentity> {
    match mountpoint {
        Some(target) => model::mounts_on(items, target, fs_type),
        None => Seq::empty(),
    }
}

/// The same filesystem, on the same device and mount, before and after growth.
pub open spec fn is_same_filesystem(
    fs_type: Seq<char>,
    mountpoint: Option<Seq<char>>,
    before: TargetIdentityManifest,
    fresh: TargetIdentityManifest,
) -> bool {
    &&& before.filesystem is Some
    &&& fresh.filesystem is Some
    &&& before.target@ == fresh.target@
    &&& before.resolved_device@ == fresh.resolved_device@
    &&& {
        let old_fs = before.filesystem->Some_0;
        let new_fs = fresh.filesystem->Some_0;
        let old_mounts = named_mounts(before.mounts@, mountpoint, fs_type);
        let new_mounts = named_mounts(fresh.mounts@, mountpoint, fs_type);
        &&& old_fs.device@ == before.resolved_device@
        &&& new_fs.device@ == fresh.resolved_device@
        &&& old_fs.device@ == new_fs.device@
        &&& old_fs.fs_type@ == fs_type
        &&& new_fs.fs_type@ == fs_type
        &&& text::opt_text(old_fs.fs_version) == text::opt_text(new_fs.fs_version)
        &&& old_fs.uuid is Some
        &&& text::opt_text(old_fs.uuid) == text::opt_text(new_fs.uuid)
        &&& old_fs.backing_device_size_bytes == new_fs.backing_device_size_bytes
        &&& old_mounts.len() == 1
        &&& new_mounts.len() == 1
        &&& old_mounts[0].source is Some
        &&& model::mounts_agree(old_mounts[0], new_mounts[0])
    }
}

/// The filesystem has grown, and not beyond its device.
pub open spec fn has_grown(before: TargetIdentityManifest, fresh: TargetIdentityManifest) -> bool {
    let old_fs = before.filesystem->Some_0;
    let new_fs = fresh.filesystem->Some_0;
    let old_size = old_fs.observed_filesystem_size_bytes;
    let new_size = new_fs.observed_filesystem_size_bytes;
    &&& old_size is Some
    &&& new_size is Some
    &&& 0 < old_size->Some_0 < old_fs.backing_device_size_bytes
    &&& old_size->Some_0 < new_size->Some_0 <= new_fs.backing_device_size_bytes
}

/// What the final step of an execution is refused for, if anything.
pub open spec fn terminal_obstacle(
    execution: ExecutionStartBinding,
    manifest: NativeCompiledManifest,
    digest: Seq<char>,
    before: TargetIdentityManifest,
    fresh: TargetIdentityManifest,
    completed_step_id: u32,
) -> Option<DisposableBoundaryVerificationError> {
    let ids = execution.mutation_step_ids@;
    if !execution.is_sound() {
        Some(DisposableBoundaryVerificationError::ExecutionBindingInvalid)
    } else if !names_manifest(execution, manifest, digest) {
        Some(DisposableBoundaryVerificationError::ManifestBindingMismatch)
    } else if !(ids.len() > 0 && ids.last() == completed_step_id) {
        Some(DisposableBoundaryVerificationError::FinalStepNotLast)
    } else {
        match native_operation::step_index(manifest.steps@, completed_step_id) {
            None => Some(DisposableBoundaryVerificationError::CompletedStepNotAuthorized),
            Some(i) => match manifest.steps@[i].operation {
                NativeOperationSpec::GrowFilesystem { fs_type, mountpoint } => {
                    if ids.len() < 2 {
                        Some(DisposableBoundaryVerificationError::UnsupportedFinalMutation)
                    } else {
                        let previous = ids[ids.len() - 2];
                        let obstacle = boundary_obstacle(
                            execution,
                            manifest,
                            digest,
                            fresh,
                            previous,
                        );
                        if obstacle is Some {
                            obstacle
                        } else if following_step(ids, previous) != completed_step_id {
                            Some(DisposableBoundaryVerificationError::FinalStepNotLast)
                        } else if before.route_status != LayerRouteStatus::SupportedProfile {
                            Some(DisposableBoundaryVerificationError::UnsupportedFreshRoute)
                        } else if !is_same_filesystem(
                            fs_type@,
                            text::opt_text(mountpoint),
                            before,
                            fresh,
                        ) {
                            Some(DisposableBoundaryVerificationError::FilesystemIdentityMismatch)
                        } else if !has_grown(before, fresh) {
                            Some(DisposableBoundaryVerificationError::FilesystemSizeDidNotGrow)
                        } else {
                            None
                        }
                    }
                },
                _ => Some(DisposableBoundaryVerificationError::UnsupportedFinalMutation),
            },
        }
    }
}

fn find_named_mount(
    items: &Vec<MountIdentity>,
    mountpoint: &Option<String>,
    fs_type: &str,
) -> (found: Lookup)
    ensures
        model::lookup_of(items@, named_mounts(items@, text::opt_text(*mountpoint), fs_type@), found),
{
    match mountpoint {
        Some(target) => find_mount(items, target.as_str(), fs_type),
        None => Lookup::Missing,
    }
}

fn check_same_filesystem(
    fs_type: &str,
    mountpoint: &Option<String>,
    before: &TargetIdentityManifest,
    fresh: &TargetIdentityManifest,
) -> (same: bool)
    ensures
        same == is_same_filesystem(fs_type@, text::opt_text(*mountpoint), *before, *fresh),
{
    let (old_fs, new_fs) = match (&before.filesystem, &fresh.filesystem) {
        (Some(old_fs), Some(new_fs)) => (old_fs, new_fs),
        _ => return false,
    };
    let old_mounts = find_named_mount(&before.mounts, mountpoint, fs_type);
    let new_mounts = find_named_mount(&fresh.mounts, mountpoint, fs_type);
    let (old_mount, new_mount) = match (old_mounts, new_mounts) {
        (Lookup::Unique(i), Lookup::Unique(j)) => (&before.mounts[i], &fresh.mounts[j]),
        _ => return false,
    };
    same_text(before.target.as_str(), fresh.target.as_str()) && same_text(
        before.resolved_device.as_str(),
        fresh.resolved_device.as_str(),
    ) && same_text(old_fs.device.as_str(), before.resolved_device.as_str()) && same_text(
        new_fs.device.as_str(),
        fresh.resolved_device.as_str(),
    ) && same_text(old_fs.device.as_str(), new_fs.device.as_str()) && same_text(
        old_fs.fs_type.as_str(),
        fs_type,
    ) && same_text(new_fs.fs_type.as_str(), fs_type) && same_opt(
        &old_fs.fs_version,
        &new_fs.fs_version,
    ) && old_fs.uuid.is_some() && same_opt(&old_fs.uuid, &new_fs.uuid)
        && old_fs.backing_device_size_bytes == new_fs.backing_device_size_bytes
        && old_mount.source.is_some() && same_mount(old_mount, new_mount)
}

fn check_growth(before: &TargetIdentityManifest, fresh: &TargetIdentityManifest) -> (grown: bool)
    requires
        before.filesystem is Some,
        fresh.filesystem is Some,
    ensures
        grown == has_grown(*before, *fresh),
{
    match (&before.filesystem, &fresh.filesystem) {
        (Some(old_fs), Some(new_fs)) => match (
            old_fs.observed_filesystem_size_bytes,
            new_fs.observed_filesystem_size_bytes,
        ) {
            (Some(old_size), Some(new_size)) => {
                0 < old_size && old_size < old_fs.backing_device_size_bytes && old_size < new_size
                    && new_size <= new_fs.backing_device_size_bytes
            },
            _ => false,
        },
        _ => false,
    }
}

/// Verifies the final filesystem growth of an execution. Yields the fresh digest.
pub fn verify_terminal_filesystem_state(
    execution: &ExecutionStartBinding,
    validated: &ValidatedNativeManifest,
    before_growth: &TargetIdentityManifest,
    fresh_identity: &TargetIdentityManifest,
    completed_step_id: u32,
) -> (result: Result<String, DisposableBoundaryVerificationError>)
    ensures
        ({
            let obstacle = terminal_obstacle(
                *execution,
                validated.source(),
                validated.digest_text(),
                *before_growth,
                *fresh_identity,
                completed_step_id,
            );
            match result {
                Ok(digest) => obstacle is None && digest@ == fresh_identity.manifest_digest@,
                Err(e) => obstacle == Some(e),
            }
        }),
{
    if !execution.sound() {
        return Err(DisposableBoundaryVerificationError::ExecutionBindingInvalid);
    }
    let manifest = validated.manifest();
    if !same_text(execution.source_manifest_id.as_str(), manifest.source_manifest_id.as_str())
        || !same_text(execution.native_manifest_digest.as_str(), validated.digest()) {
        return Err(DisposableBoundaryVerificationError::ManifestBindingMismatch);
    }
    let ids = &execution.mutation_step_ids;
    let count: usize = ids.len();
    if count == 0 || ids[count - 1] != completed_step_id {
        return Err(DisposableBoundaryVerificationError::FinalStepNotLast);
    }
    let index = match find_native_step(&manifest.steps, completed_step_id) {
        Some(index) => index,
        None => return Err(DisposableBoundaryVerificationError::CompletedStepNotAuthorized),
    };
    match &manifest.steps[index].operation {
        NativeOperationSpec::GrowFilesystem { fs_type, mountpoint } => {
            if count < 2 {
                return Err(DisposableBoundaryVerificationError::UnsupportedFinalMutation);
            }
            let previous: u32 = ids[count - 2];
            match verify_boundary_state(execution, validated, fresh_identity, previous) {
                Err(e) => return Err(e),
                Ok((next_step_id, _)) => {
                    if next_step_id != completed_step_id {
                        return Err(DisposableBoundaryVerificationError::FinalStepNotLast);
                    }
                },
            }
            if !matches!(before_growth.route_status, LayerRouteStatus::SupportedProfile) {
                return Err(DisposableBoundaryVerificationError::UnsupportedFreshRoute);
            }
            if !check_same_filesystem(
                fs_type.as_str(),
                mountpoint,
                before_growth,
                fresh_identity,
            ) {
                return Err(DisposableBoundaryVerificationError::FilesystemIdentityMismatch);
            }
            if !check_growth(before_growth, fresh_identity) {
                return Err(DisposableBoundaryVerificationError::FilesystemSizeDidNotGrow);
            }
            Ok(fresh_identity.manifest_digest.clone())
        },
        _ => Err(DisposableBoundaryVerificationError::UnsupportedFinalMutation),
    }
}

/// What a session is refused for before its state is looked at, if anything.
pub open spec fn verification_state_obstacle(
    session: SessionModel,
    capabilities_match: bool,
) -> Option<DisposableBoundaryVerificationError> {
    if !session.durable_current() || session.journal.phase != JournalPhase::Verifying
        || !session.journal.mutation_may_have_started {
        Some(DisposableBoundaryVerificationError::DurableVerificationStateRequired)
    } else if session.journal.execution is None {
        Some(DisposableBoundaryVerificationError::ExecutionBindingInvalid)
    } else if !capabilities_match {
        Some(DisposableBoundaryVerificationError::CapabilityInventoryMismatch)
    } else {
        None
    }
}

fn check_verification_state(session: &LockedExecutionSession, capabilities_match: bool) -> (result:
    Result<&ExecutionStartBinding, DisposableBoundaryVerificationError>)
    ensures
        match result {
            Ok(execution) => verification_state_obstacle(session@, capabilities_match) is None
                && session@.journal.execution == Some(*execution),
            Err(e) => verification_state_obstacle(session@, capabilities_match) == Some(e),
        },
{
    match session.require_current_durable_journal() {
        Ok(_) => {},
        Err(_) => {
            return Err(DisposableBoundaryVerificationError::DurableVerificationStateRequired);
        },
    }
    let journal = session.journal();
    if !matches!(journal.phase, JournalPhase::Verifying) || !journal.mutation_may_have_started {
        return Err(DisposableBoundaryVerificationError::DurableVerificationStateRequired);
    }
    match &journal.execution {
        None => Err(DisposableBoundaryVerificationError::ExecutionBindingInvalid),
        Some(execution) => {
            if !capabilities_match {
                Err(DisposableBoundaryVerificationError::CapabilityInventoryMismatch)
            } else {
                Ok(execution)
            }
        },
    }
}

/// What the durable boundary of a session is refused for, if anything.
pub open spec fn recorded_boundary_obstacle(
    session: SessionModel,
    before: TargetIdentityManifest,
    completed_step_id: u32,
) -> Option<DisposableBoundaryVerificationError> {
    let execution = session.journal.execution->Some_0;
    match session.journal.verified_boundary {
        None => Some(DisposableBoundaryVerificationError::VerifiedBoundaryMissing),
        Some(boundary) => {
            if boundary.integrity != BindingIntegrity::Matches || boundary.execution_id@
                != execution.execution_id@ || boundary.next_step_id != completed_step_id
                || boundary.fresh_identity_digest@ != before.manifest_digest@ || !model::adjacent(
                execution.mutation_step_ids@,
                boundary.completed_step_id,
                boundary.next_step_id,
            ) {
                Some(DisposableBoundaryVerificationError::VerifiedBoundaryIdentityMismatch)
            } else {
                None
            }
        },
    }
}

/// What the completion of an execution is refused for, if anything.
pub open spec fn completion_obstacle(
    session: SessionModel,
    manifest: NativeCompiledManifest,
    digest: Seq<char>,
    before: TargetIdentityManifest,
    fresh: TargetIdentityManifest,
    capabilities_match: bool,
    completed_step_id: u32,
) -> Option<DisposableBoundaryVerificationError> {
    let state = verification_state_obstacle(session, capabilities_match);
    let recorded = recorded_boundary_obstacle(session, before, completed_step_id);
    if state is Some {
        state
    } else if recorded is Some {
        recorded
    } else {
        terminal_obstacle(
            session.journal.execution->Some_0,
            manifest,
            digest,
            before,
            fresh,
            completed_step_id,
        )
    }
}

/// Verifies the final mutation of a session against fresh state. What was accepted completes the
/// execution once it is recorded durably.
pub fn verify_and_complete_disposable_execution(
    session: &LockedExecutionSession,
    validated: &ValidatedNativeManifest,
    before_growth: &TargetIdentityManifest,
    fresh_identity: &TargetIdentityManifest,
    capabilities_match: bool,
    completed_step_id: u32,
) -> (result: Result<AcceptedCompletion, DisposableBoundaryVerificationError>)
    ensures
        ({
            let obstacle = completion_obstacle(
                session@,
                validated.source(),
                validated.digest_text(),
                *before_growth,
                *fresh_identity,
                capabilities_match,
                completed_step_id,
            );
            match result {
                Ok(accepted) => obstacle is None && accepted@ == (AcceptedCompletionModel {
                    locked_session_id: session@.session_id,
                    completion: DisposableCompletionModel {
                        execution_id: session@.journal.execution->Some_0.execution_id@,
                        completed_step_id,
                        fresh_identity_digest: fresh_identity.manifest_digest@,
                    },
                }),
                Err(e) => obstacle == Some(e),
            }
        }),
{
    let execution = match check_verification_state(session, capabilities_match) {
        Ok(execution) => execution,
        Err(e) => return Err(e),
    };
    match &session.journal().verified_boundary {
        None => return Err(DisposableBoundaryVerificationError::VerifiedBoundaryMissing),
        Some(boundary) => {
            if !matches!(boundary.integrity, BindingIntegrity::Matches) || !same_text(
                boundary.execution_id.as_str(),
                execution.execution_id.as_str(),
            ) || boundary.next_step_id != completed_step_id || !same_text(
                boundary.fresh_identity_digest.as_str(),
                before_growth.manifest_digest.as_str(),
            ) || !steps_adjacent(
                &execution.mutation_step_ids,
                boundary.completed_step_id,
                boundary.next_step_id,
            ) {
                return Err(DisposableBoundaryVerificationError::VerifiedBoundaryIdentityMismatch);
            }
        },
    }
    match verify_terminal_filesystem_state(
        execution,
        validated,
        before_growth,
        fresh_identity,
        completed_step_id,
    ) {
        Err(e) => Err(e),
        Ok(fresh_identity_digest) => Ok(
            AcceptedCompletion {
                locked_session_id: session.session_id().to_owned(),
                execution_id: execution.execution_id.clone(),
                completed_step_id,
                fresh_identity_digest,
            },
        ),
    }
}

/// A verified boundary that was accepted for one session and has not been recorded yet. It is handed
/// over, never copied.
#[derive(Debug, PartialEq, Eq)]
pub struct AcceptedBoundary {
    locked_session_id: String,
    execution_id: String,
    completed_step_id: u32,
    next_step_id: u32,
    fresh_identity_digest: String,
}

/// The content of an accepted boundary.
pub struct AcceptedBoundaryModel {
    pub locked_session_id: Seq<char>,
    pub boundary: DisposableBoundaryModel,
}

impl View for AcceptedBoundary {
    type V = AcceptedBoundaryModel;

    closed spec fn view(&self) -> AcceptedBoundaryModel {
        AcceptedBoundaryModel {
            locked_session_id: self.locked_session_id@,
            boundary: DisposableBoundaryModel {
                execution_id: self.execution_id@,
                completed_step_id: self.completed_step_id,
                next_step_id: self.next_step_id,
                fresh_identity_digest: self.fresh_identity_digest@,
            },
        }
    }
}

impl AcceptedBoundary {
    pub fn completed_step_id(&self) -> (value: u32)
        ensures
            value == self@.boundary.completed_step_id,
    {
        self.completed_step_id
    }

    pub fn next_step_id(&self) -> (value: u32)
        ensures
            value == self@.boundary.next_step_id,
    {
        self.next_step_id
    }

    pub fn fresh_identity_digest(&self) -> (value: &str)
        ensures
            value@ == self@.boundary.fresh_identity_digest,
    {
        self.fresh_identity_digest.as_str()
    }
}

/// The journal keeps its execution and holds exactly this boundary.
pub open spec fn records_boundary(
    journal: OperationJournal,
    next: OperationJournal,
    boundary: DisposableBoundaryModel,
) -> bool {
    &&& model::execution_options_agree(next.execution, journal.execution)
    &&& match next.verified_boundary {
        None => false,
        Some(binding) => {
            &&& binding.integrity == BindingIntegrity::Matches
            &&& binding.execution_id@ == boundary.execution_id
            &&& binding.completed_step_id == boundary.completed_step_id
            &&& binding.next_step_id == boundary.next_step_id
            &&& binding.fresh_identity_digest@ == boundary.fresh_identity_digest
        },
    }
}

/// An accepted boundary cannot be taken as recorded: it was accepted for another session, the journal
/// records another boundary, or the session cannot make the step.
pub open spec fn boundary_is_unrecorded(
    session: SessionModel,
    accepted: AcceptedBoundaryModel,
    next: OperationJournal,
    record: OperationJournal,
) -> bool {
    ||| accepted.locked_session_id != session.session_id
    ||| !records_boundary(session.journal, next, accepted.boundary)
    ||| locked_session::durable_step_refusal(session, JournalPhase::Executing, next, record) is Some
}

impl DisposableVerifiedBoundary {
    /// The boundary of a session that takes over the journal in which its accepted boundary was
    /// recorded. `record` is what the store holds. Afterwards the session executes again and its
    /// store holds its journal. A refusal changes nothing.
    pub fn recorded(
        session: &mut LockedExecutionSession,
        accepted: AcceptedBoundary,
        next: OperationJournal,
        record: OperationJournal,
    ) -> (result: Result<Self, DisposableBoundaryVerificationError>)
        ensures
            match result {
                Ok(boundary) => {
                    &&& !boundary_is_unrecorded(old(session)@, accepted@, next, record)
                    &&& final(session)@ == locked_session::advanced_session(
                        old(session)@,
                        next,
                        record,
                    )
                    &&& final(session)@.journal.phase == JournalPhase::Executing
                    &&& final(session)@.durable_current()
                    &&& boundary@ == accepted@.boundary
                },
                Err(e) => {
                    &&& boundary_is_unrecorded(old(session)@, accepted@, next, record)
                    &&& e == DisposableBoundaryVerificationError::PersistenceFailed
                    &&& final(session)@ == old(session)@
                },
            },
    {
        let kept = same_execution_option(&next.execution, &session.journal().execution);
        let written = match &next.verified_boundary {
            None => false,
            Some(binding) => matches!(binding.integrity, BindingIntegrity::Matches) && same_text(
                binding.execution_id.as_str(),
                accepted.execution_id.as_str(),
            ) && binding.completed_step_id == accepted.completed_step_id && binding.next_step_id
                == accepted.next_step_id && same_text(
                binding.fresh_identity_digest.as_str(),
                accepted.fresh_identity_digest.as_str(),
            ),
        };
        if !same_text(accepted.locked_session_id.as_str(), session.session_id()) || !kept
            || !written {
            return Err(DisposableBoundaryVerificationError::PersistenceFailed);
        }
        match session.advance_durable_to(JournalPhase::Executing, next, record) {
            Ok(_) => {},
            Err(_) => return Err(DisposableBoundaryVerificationError::PersistenceFailed),
        }
        Ok(
            DisposableVerifiedBoundary {
                execution_id: accepted.execution_id,
                completed_step_id: accepted.completed_step_id,
                next_step_id: accepted.next_step_id,
                fresh_identity_digest: accepted.fresh_identity_digest,
            },
        )
    }
}

/// A completion that was accepted for one session and has not been recorded yet. It is handed over,
/// never copied.
#[derive(Debug, PartialEq, Eq)]
pub struct AcceptedCompletion {
    locked_session_id: String,
    execution_id: String,
    completed_step_id: u32,
    fresh_identity_digest: String,
}

/// The content of an accepted completion.
pub struct AcceptedCompletionModel {
    pub locked_session_id: Seq<char>,
    pub completion: DisposableCompletionModel,
}

impl View for AcceptedCompletion {
    type V = AcceptedCompletionModel;

    closed spec fn view(&self) -> AcceptedCompletionModel {
        AcceptedCompletionModel {
            locked_session_id: self.locked_session_id@,
            completion: DisposableCompletionModel {
                execution_id: self.execution_id@,
                completed_step_id: self.completed_step_id,
                fresh_identity_digest: self.fresh_identity_digest@,
            },
        }
    }
}

impl AcceptedCompletion {
    pub fn completed_step_id(&self) -> (value: u32)
        ensures
            value == self@.completion.completed_step_id,
    {
        self.completed_step_id
    }

    pub fn fresh_identity_digest(&self) -> (value: &str)
        ensures
            value@ == self@.completion.fresh_identity_digest,
    {
        self.fresh_identity_digest.as_str()
    }
}

/// The journal keeps its execution and holds exactly this terminal state.
pub open spec fn records_completion(
    journal: OperationJournal,
    next: OperationJournal,
    completion: DisposableCompletionModel,
) -> bool {
    &&& model::execution_options_agree(next.execution, journal.execution)
    &&& match next.verified_boundary {
        None => false,
        Some(binding) => {
            &&& binding.integrity == BindingIntegrity::Matches
            &&& binding.execution_id@ == completion.execution_id
            &&& binding.final_step_id == Some(completion.completed_step_id)
            &&& text::opt_text(binding.final_identity_digest) == Some(
                completion.fresh_identity_digest,
            )
        },
    }
}

/// An accepted completion cannot be taken as recorded: it was accepted for another session, the
/// journal records another terminal state, or the session cannot make the step.
pub open spec fn completion_is_unrecorded(
    session: SessionModel,
    accepted: AcceptedCompletionModel,
    next: OperationJournal,
    record: OperationJournal,
) -> bool {
    ||| accepted.locked_session_id != session.session_id
    ||| !records_completion(session.journal, next, accepted.completion)
    ||| locked_session::durable_step_refusal(session, JournalPhase::Completed, next, record) is Some
}

impl DisposableVerifiedCompletion {
    /// The completion of a session that takes over the journal in which its accepted completion was
    /// recorded. `record` is what the store holds. Afterwards the session is completed and its store
    /// holds its journal. A refusal changes nothing.
    pub fn recorded(
        session: &mut LockedExecutionSession,
        accepted: AcceptedCompletion,
        next: OperationJournal,
        record: OperationJournal,
    ) -> (result: Result<Self, DisposableBoundaryVerificationError>)
        ensures
            match result {
                Ok(completion) => {
                    &&& !completion_is_unrecorded(old(session)@, accepted@, next, record)
                    &&& final(session)@ == locked_session::advanced_session(
                        old(session)@,
                        next,
                        record,
                    )
                    &&& final(session)@.journal.phase == JournalPhase::Completed
                    &&& final(session)@.durable_current()
                    &&& completion@ == accepted@.completion
                },
                Err(e) => {
                    &&& completion_is_unrecorded(old(session)@, accepted@, next, record)
                    &&& e == DisposableBoundaryVerificationError::PersistenceFailed
                    &&& final(session)@ == old(session)@
                },
            },
    {
        let kept = same_execution_option(&next.execution, &session.journal().execution);
        let written = match &next.verified_boundary {
            None => false,
            Some(binding) => {
                let last = match binding.final_step_id {
                    Some(id) => id == accepted.completed_step_id,
                    None => false,
                };
                last && matches!(binding.integrity, BindingIntegrity::Matches) && same_text(
                    binding.execution_id.as_str(),
                    accepted.execution_id.as_str(),
                ) && opt_is(
                    &binding.final_identity_digest,
                    accepted.fresh_identity_digest.as_str(),
                )
            },
        };
        if !same_text(accepted.locked_session_id.as_str(), session.session_id()) || !kept
            || !written {
            return Err(DisposableBoundaryVerificationError::PersistenceFailed);
        }
        match session.advance_durable_to(JournalPhase::Completed, next, record) {
            Ok(_) => {},
            Err(_) => return Err(DisposableBoundaryVerificationError::PersistenceFailed),
        }
        Ok(
            DisposableVerifiedCompletion {
                execution_id: accepted.execution_id,
                completed_step_id: accepted.completed_step_id,
                fresh_identity_digest: accepted.fresh_identity_digest,
            },
        )
    }
}

/// What the continuation of an execution is refused for, if anything.
pub open spec fn continuation_obstacle(
    session: SessionModel,
    manifest: NativeCompiledManifest,
    digest: Seq<char>,
    fresh: TargetIdentityManifest,
    capabilities_match: bool,
    completed_step_id: u32,
) -> Option<DisposableBoundaryVerificationError> {
    let state = verification_state_obstacle(session, capabilities_match);
    if state is Some {
        state
    } else {
        boundary_obstacle(
            session.journal.execution->Some_0,
            manifest,
            digest,
            fresh,
            completed_step_id,
        )
    }
}

/// Verifies a completed mutation of a session against fresh state. What was accepted reopens
/// execution for the next step alone, once it is recorded durably.
pub fn verify_and_continue_disposable_boundary(
    session: &LockedExecutionSession,
    validated: &ValidatedNativeManifest,
    fresh_identity: &TargetIdentityManifest,
    capabilities_match: bool,
    completed_step_id: u32,
) -> (result: Result<AcceptedBoundary, DisposableBoundaryVerificationError>)
    ensures
        ({
            let execution = session@.journal.execution->Some_0;
            let obstacle = continuation_obstacle(
                session@,
                validated.source(),
                validated.digest_text(),
                *fresh_identity,
                capabilities_match,
                completed_step_id,
            );
            match result {
                Ok(accepted) => obstacle is None && accepted@ == (AcceptedBoundaryModel {
                    locked_session_id: session@.session_id,
                    boundary: DisposableBoundaryModel {
                        execution_id: execution.execution_id@,
                        completed_step_id,
                        next_step_id: following_step(
                            execution.mutation_step_ids@,
                            completed_step_id,
                        ),
                        fresh_identity_digest: fresh_identity.manifest_digest@,
                    },
                }),
                Err(e) => obstacle == Some(e),
            }
        }),
{
    let execution = match check_verification_state(session, capabilities_match) {
        Ok(execution) => execution,
        Err(e) => return Err(e),
    };
    match verify_boundary_state(execution, validated, fresh_identity, completed_step_id) {
        Err(e) => Err(e),
        Ok((next_step_id, fresh_identity_digest)) => Ok(
            AcceptedBoundary {
                locked_session_id: session.session_id().to_owned(),
                execution_id: execution.execution_id.clone(),
                completed_step_id,
                next_step_id,
                fresh_identity_digest,
            },
        ),
    }
}

/// A verified boundary names two neighbours in the order of the execution.
pub proof fn boundary_names_neighbours(
    execution: ExecutionStartBinding,
    manifest: NativeCompiledManifest,
    digest: Seq<char>,
    fresh: TargetIdentityManifest,
    completed_step_id: u32,
)
    requires
        boundary_obstacle(execution, manifest, digest, fresh, completed_step_id) is None,
    ensures
        model::adjacent(
            execution.mutation_step_ids@,
            completed_step_id,
            following_step(execution.mutation_step_ids@, completed_step_id),
        ),
{
    let ids = execution.mutation_step_ids@;
    ids.index_of_first_ensures(completed_step_id);
    let p = model::step_position(ids, completed_step_id)->Some_0;
    assert(ids[p] == completed_step_id && ids[p + 1] == following_step(ids, completed_step_id));
}

/// A verified logical volume has exactly the size that its growth was planned for.
pub proof fn verified_volume_has_the_planned_size(
    operation: NativeOperationSpec,
    fresh: TargetIdentityManifest,
)
    requires
        post_state_obstacle(operation, fresh) is None,
        operation is ExtendLogicalVolume,
    ensures
        ({
            let found = model::lvm_with(
                fresh.lvm@,
                LvmIdentityKind::LogicalVolume,
                operation->ExtendLogicalVolume_lv_uuid@,
            );
            found.len() == 1 && found[0].size_bytes
                == operation->ExtendLogicalVolume_expected_lv_size_bytes
        }),
{
}

/// The step is the first of its number in the manifest, and this is its operation.
pub open spec fn manifest_has_step(
    steps: Seq<NativeCompiledStep>,
    id: u32,
    operation: NativeOperationSpec,
) -> bool {
    exists|i: int|
        {
            &&& 0 <= i < steps.len()
            &&& (#[trigger] steps[i]).plan_step_id == id
            &&& steps[i].operation == operation
            &&& forall|j: int| 0 <= j < i ==> (#[trigger] steps[j]).plan_step_id != id
        }
}

proof fn lemma_manifest_step(steps: Seq<NativeCompiledStep>, id: u32)
    ensures
        native_operation::step_index(steps, id) is None ==> forall|operation: NativeOperationSpec|
            !manifest_has_step(steps, id, operation),
        native_operation::step_index(steps, id) matches Some(i) ==> forall|
            operation: NativeOperationSpec,
        |
            manifest_has_step(steps, id, operation) <==> operation == steps[i].operation,
{
    native_operation::looked_up_step_is_the_first(steps, id);
    if native_operation::step_index(steps, id) is Some {
        let i = native_operation::step_index(steps, id)->Some_0;
        assert forall|operation: NativeOperationSpec|
            manifest_has_step(steps, id, operation) <==> operation == steps[i].operation by {
            if operation == steps[i].operation {
                assert(steps[i].plan_step_id == id);
            }
            if manifest_has_step(steps, id, operation) {
                let k = choose|k: int|
                    {
                        &&& 0 <= k < steps.len()
                        &&& (#[trigger] steps[k]).plan_step_id == id
                        &&& steps[k].operation == operation
                        &&& forall|j: int| 0 <= j < k ==> (#[trigger] steps[j]).plan_step_id != id
                    };
                if k < i {
                    assert(steps[k].plan_step_id != id);
                } else if i < k {
                    assert(steps[i].plan_step_id != id);
                }
            }
        }
    }
}

/// The state after a physical volume grew is accepted exactly where the volume is the only one of
/// its UUID and of the expected size; after a logical volume grew, the device of the filesystem is
/// of that size too. No other mutation can be completed at a boundary.
pub proof fn completed_mutation_left_the_expected_size(
    operation: NativeOperationSpec,
    fresh: TargetIdentityManifest,
)
    ensures
        post_state_obstacle(operation, fresh) is None <==> {
            ||| {
                &&& operation is ResizePhysicalVolume
                &&& exists|i: int|
                    {
                        &&& #[trigger] reading::only_volume_at(
                            fresh.lvm@,
                            LvmIdentityKind::PhysicalVolume,
                            operation->ResizePhysicalVolume_pv_uuid@,
                            i,
                        )
                        &&& fresh.lvm@[i].size_bytes
                            == operation->ResizePhysicalVolume_expected_pv_size_bytes
                    }
            }
            ||| {
                &&& operation is ExtendLogicalVolume
                &&& exists|i: int|
                    {
                        &&& #[trigger] reading::only_volume_at(
                            fresh.lvm@,
                            LvmIdentityKind::LogicalVolume,
                            operation->ExtendLogicalVolume_lv_uuid@,
                            i,
                        )
                        &&& fresh.lvm@[i].size_bytes
                            == operation->ExtendLogicalVolume_expected_lv_size_bytes
                    }
                &&& fresh.filesystem matches Some(filesystem)
                &&& filesystem.backing_device_size_bytes
                    == operation->ExtendLogicalVolume_expected_lv_size_bytes
            }
        },
{
    if operation is ResizePhysicalVolume {
        let kind = LvmIdentityKind::PhysicalVolume;
        let uuid = operation->ResizePhysicalVolume_pv_uuid@;
        reading::found_volume_is_the_only_one(fresh.lvm@, kind, uuid);
        if exists|i: int| reading::only_volume_at(fresh.lvm@, kind, uuid, i) {
            let i = choose|i: int| reading::only_volume_at(fresh.lvm@, kind, uuid, i);
            assert(reading::only_volume_at(fresh.lvm@, kind, uuid, i));
        }
    }
    if operation is ExtendLogicalVolume {
        let kind = LvmIdentityKind::LogicalVolume;
        let uuid = operation->ExtendLogicalVolume_lv_uuid@;
        reading::found_volume_is_the_only_one(fresh.lvm@, kind, uuid);
        if exists|i: int| reading::only_volume_at(fresh.lvm@, kind, uuid, i) {
            let i = choose|i: int| reading::only_volume_at(fresh.lvm@, kind, uuid, i);
            assert(reading::only_volume_at(fresh.lvm@, kind, uuid, i));
        }
    }
}

/// A boundary is accepted exactly where the execution is sound and names the manifest, the
/// completed step is one of its steps and not the last, the fresh route is supported, and the state
/// is what the operation of that step should leave. The next step is the one behind it.
pub proof fn boundary_is_accepted_before_a_further_step(
    execution: ExecutionStartBinding,
    manifest: NativeCompiledManifest,
    digest: Seq<char>,
    fresh: TargetIdentityManifest,
    completed_step_id: u32,
)
    ensures
        boundary_obstacle(execution, manifest, digest, fresh, completed_step_id) is None <==> {
            let ids = execution.mutation_step_ids@;
            &&& execution.schema_version == 1
            &&& execution.integrity is Matches
            &&& execution.source_manifest_id@ == manifest.source_manifest_id@
            &&& execution.native_manifest_digest@ == digest
            &&& exists|p: int|
                {
                    &&& 0 <= p < ids.len() - 1
                    &&& #[trigger] ids[p] == completed_step_id
                    &&& forall|q: int| 0 <= q < p ==> #[trigger] ids[q] != completed_step_id
                }
            &&& fresh.route_status is SupportedProfile
            &&& exists|operation: NativeOperationSpec|
                {
                    &&& #[trigger] manifest_has_step(
                        manifest.steps@,
                        completed_step_id,
                        operation,
                    )
                    &&& post_state_obstacle(operation, fresh) is None
                }
        },
        boundary_obstacle(execution, manifest, digest, fresh, completed_step_id) is None
            ==> exists|p: int|
            {
                &&& 0 <= p < execution.mutation_step_ids@.len() - 1
                &&& #[trigger] execution.mutation_step_ids@[p] == completed_step_id
                &&& execution.mutation_step_ids@[p + 1] == following_step(
                    execution.mutation_step_ids@,
                    completed_step_id,
                )
            },
{
    let ids = execution.mutation_step_ids@;
    privileged_protocol::step_position_is_the_first_place(ids, completed_step_id);
    lemma_manifest_step(manifest.steps@, completed_step_id);
    let position = model::step_position(ids, completed_step_id);
    if position is Some {
        assert(ids[position->Some_0] == completed_step_id);
    }
    let index = native_operation::step_index(manifest.steps@, completed_step_id);
    if index is Some {
        assert(manifest_has_step(
            manifest.steps@,
            completed_step_id,
            manifest.steps@[index->Some_0].operation,
        ));
    }
}

/// The end of an execution is accepted exactly where its last step grows a filesystem and the one
/// before it left the state that it should, both routes are supported, the filesystem is the same
/// one on the same device of the same size and on its one mount, and it has grown: both of its
/// sizes are known, the old one positive and below the size of its device, the new one larger and
/// no larger than the device.
pub proof fn terminal_step_has_grown_the_filesystem(
    execution: ExecutionStartBinding,
    manifest: NativeCompiledManifest,
    digest: Seq<char>,
    before: TargetIdentityManifest,
    fresh: TargetIdentityManifest,
    completed_step_id: u32,
)
    requires
        terminal_obstacle(execution, manifest, digest, before, fresh, completed_step_id) is None,
    ensures
        ({
            let ids = execution.mutation_step_ids@;
            let was = before.filesystem->Some_0;
            let is = fresh.filesystem->Some_0;
            let old_size = was.observed_filesystem_size_bytes;
            let new_size = is.observed_filesystem_size_bytes;
            &&& ids.len() >= 2
            &&& ids[ids.len() - 1] == completed_step_id
            &&& boundary_obstacle(execution, manifest, digest, fresh, ids[ids.len() - 2]) is None
            &&& before.route_status is SupportedProfile
            &&& fresh.route_status is SupportedProfile
            &&& before.filesystem is Some
            &&& fresh.filesystem is Some
            &&& before.target@ == fresh.target@
            &&& before.resolved_device@ == fresh.resolved_device@
            &&& was.device@ == before.resolved_device@
            &&& is.device@ == fresh.resolved_device@
            &&& was.fs_type@ == is.fs_type@
            &&& reading::read_alike(was.fs_version, is.fs_version)
            &&& was.uuid is Some
            &&& reading::read_alike(was.uuid, is.uuid)
            &&& was.backing_device_size_bytes == is.backing_device_size_bytes
            &&& old_size is Some
            &&& new_size is Some
            &&& 0 < old_size->Some_0
            &&& old_size->Some_0 < was.backing_device_size_bytes
            &&& old_size->Some_0 < new_size->Some_0
            &&& new_size->Some_0 <= is.backing_device_size_bytes
            &&& exists|fs_type: String, mountpoint: String, i: int, j: int|
                {
                    &&& #[trigger] manifest_has_step(
                        manifest.steps@,
                        completed_step_id,
                        NativeOperationSpec::GrowFilesystem {
                            fs_type,
                            mountpoint: Some(mountpoint),
                        },
                    )
                    &&& was.fs_type@ == fs_type@
                    &&& #[trigger] reading::only_mount_at(before.mounts@, mountpoint@, fs_type@, i)
                    &&& #[trigger] reading::only_mount_at(fresh.mounts@, mountpoint@, fs_type@, j)
                    &&& before.mounts@[i].source is Some
                    &&& reading::read_alike(before.mounts@[i].source, fresh.mounts@[j].source)
                    &&& reading::lists_read_alike(before.mounts@[i].options@, fresh.mounts@[j].options@)
                }
        }),
{
    lemma_manifest_step(manifest.steps@, completed_step_id);
    let index = native_operation::step_index(manifest.steps@, completed_step_id)->Some_0;
    let operation = manifest.steps@[index].operation;
    assert(manifest_has_step(manifest.steps@, completed_step_id, operation));
    let fs_type = operation->GrowFilesystem_fs_type;
    let mountpoint = operation->GrowFilesystem_mountpoint->Some_0;
    assert(operation->GrowFilesystem_mountpoint is Some);
    reading::found_mount_is_the_only_one(before.mounts@, mountpoint@, fs_type@);
    reading::found_mount_is_the_only_one(fresh.mounts@, mountpoint@, fs_type@);
    let i = choose|i: int| reading::only_mount_at(before.mounts@, mountpoint@, fs_type@, i);
    let j = choose|j: int| reading::only_mount_at(fresh.mounts@, mountpoint@, fs_type@, j);
    assert(reading::only_mount_at(before.mounts@, mountpoint@, fs_type@, i));
    assert(reading::only_mount_at(fresh.mounts@, mountpoint@, fs_type@, j));
    reading::agreeing_mounts_read_alike(before.mounts@[i], fresh.mounts@[j]);
    boundary_is_accepted_before_a_further_step(
        execution,
        manifest,
        digest,
        fresh,
        execution.mutation_step_ids@[execution.mutation_step_ids@.len() - 2],
    );
    assert(operation == NativeOperationSpec::GrowFilesystem {
        fs_type,
        mountpoint: Some(mountpoint),
    });
}

/// Where all of that holds, the end is accepted.
pub proof fn grown_filesystem_ends_the_execution(
    execution: ExecutionStartBinding,
    manifest: NativeCompiledManifest,
    digest: Seq<char>,
    before: TargetIdentityManifest,
    fresh: TargetIdentityManifest,
    completed_step_id: u32,
    fs_type: String,
    mountpoint: String,
    i: int,
    j: int,
)
    requires
        ({
            let ids = execution.mutation_step_ids@;
            let was = before.filesystem->Some_0;
            let is = fresh.filesystem->Some_0;
            let old_size = was.observed_filesystem_size_bytes;
            let new_size = is.observed_filesystem_size_bytes;
            &&& ids.len() >= 2
            &&& ids.no_duplicates()
            &&& ids[ids.len() - 1] == completed_step_id
            &&& boundary_obstacle(execution, manifest, digest, fresh, ids[ids.len() - 2]) is None
            &&& before.route_status is SupportedProfile
            &&& before.filesystem is Some
            &&& fresh.filesystem is Some
            &&& before.target@ == fresh.target@
            &&& before.resolved_device@ == fresh.resolved_device@
            &&& was.device@ == before.resolved_device@
            &&& is.device@ == fresh.resolved_device@
            &&& was.fs_type@ == fs_type@
            &&& is.fs_type@ == fs_type@
            &&& reading::read_alike(was.fs_version, is.fs_version)
            &&& was.uuid is Some
            &&& reading::read_alike(was.uuid, is.uuid)
            &&& was.backing_device_size_bytes == is.backing_device_size_bytes
            &&& old_size is Some
            &&& new_size is Some
            &&& 0 < old_size->Some_0
            &&& old_size->Some_0 < was.backing_device_size_bytes
            &&& old_size->Some_0 < new_size->Some_0
            &&& new_size->Some_0 <= is.backing_device_size_bytes
            &&& manifest_has_step(
                manifest.steps@,
                completed_step_id,
                NativeOperationSpec::GrowFilesystem { fs_type, mountpoint: Some(mountpoint) },
            )
            &&& reading::only_mount_at(before.mounts@, mountpoint@, fs_type@, i)
            &&& reading::only_mount_at(fresh.mounts@, mountpoint@, fs_type@, j)
            &&& before.mounts@[i].source is Some
            &&& reading::read_alike(before.mounts@[i].source, fresh.mounts@[j].source)
            &&& reading::lists_read_alike(before.mounts@[i].options@, fresh.mounts@[j].options@)
        }),
    ensures
        terminal_obstacle(execution, manifest, digest, before, fresh, completed_step_id) is None,
{
    let ids = execution.mutation_step_ids@;
    lemma_manifest_step(manifest.steps@, completed_step_id);
    reading::found_mount_is_the_only_one(before.mounts@, mountpoint@, fs_type@);
    reading::found_mount_is_the_only_one(fresh.mounts@, mountpoint@, fs_type@);
    assert(reading::reads(before.mounts@[i].fs_type, fs_type@));
    assert(reading::reads(fresh.mounts@[j].fs_type, fs_type@));
    assert(before.mounts@[i].target@ == mountpoint@);
    assert(fresh.mounts@[j].target@ == mountpoint@);
    reading::agreeing_mounts_read_alike(before.mounts@[i], fresh.mounts@[j]);
    boundary_is_accepted_before_a_further_step(
        execution,
        manifest,
        digest,
        fresh,
        ids[ids.len() - 2],
    );
    privileged_protocol::step_position_is_the_first_place(ids, ids[ids.len() - 2]);
    assert(following_step(ids, ids[ids.len() - 2]) == ids[ids.len() - 1]);
}

/// A continuation is accepted exactly where the session is durable and verifying with a mutation
/// started and an execution recorded, the tools are the same, and the boundary is accepted. A
/// completion also needs the recorded boundary to hand this very step this very state.
pub proof fn verification_needs_the_durable_state(
    session: SessionModel,
    manifest: NativeCompiledManifest,
    digest: Seq<char>,
    before: TargetIdentityManifest,
    fresh: TargetIdentityManifest,
    capabilities_match: bool,
    completed_step_id: u32,
)
    ensures
        continuation_obstacle(
            session,
            manifest,
            digest,
            fresh,
            capabilities_match,
            completed_step_id,
        ) is None <==> {
            &&& session.durable_current()
            &&& session.journal.phase is Verifying
            &&& session.journal.mutation_may_have_started
            &&& session.journal.execution matches Some(execution)
            &&& capabilities_match
            &&& boundary_obstacle(execution, manifest, digest, fresh, completed_step_id) is None
        },
        completion_obstacle(
            session,
            manifest,
            digest,
            before,
            fresh,
            capabilities_match,
            completed_step_id,
        ) is None <==> {
            &&& session.durable_current()
            &&& session.journal.phase is Verifying
            &&& session.journal.mutation_may_have_started
            &&& session.journal.execution matches Some(execution)
            &&& capabilities_match
            &&& session.journal.verified_boundary matches Some(boundary)
            &&& boundary.integrity is Matches
            &&& boundary.execution_id@ == execution.execution_id@
            &&& boundary.next_step_id == completed_step_id
            &&& boundary.fresh_identity_digest@ == before.manifest_digest@
            &&& exists|k: int|
                {
                    &&& 0 <= k < execution.mutation_step_ids@.len() - 1
                    &&& #[trigger] execution.mutation_step_ids@[k] == boundary.completed_step_id
                    &&& execution.mutation_step_ids@[k + 1] == completed_step_id
                }
            &&& terminal_obstacle(
                execution,
                manifest,
                digest,
                before,
                fresh,
                completed_step_id,
            ) is None
        },
{
}

/// A boundary is taken as recorded exactly where it was accepted in this session, the journal keeps
/// its execution, holds just that boundary and moves on durably to executing; a completion exactly
/// where the journal holds just that end and moves on durably to completed.
pub proof fn recorded_verification_is_the_accepted_one(
    session: SessionModel,
    accepted: AcceptedBoundaryModel,
    ended: AcceptedCompletionModel,
    next: OperationJournal,
    record: OperationJournal,
)
    ensures
        !boundary_is_unrecorded(session, accepted, next, record) <==> {
            &&& accepted.locked_session_id == session.session_id
            &&& model::execution_options_agree(next.execution, session.journal.execution)
            &&& next.verified_boundary matches Some(binding)
            &&& binding.integrity is Matches
            &&& binding.execution_id@ == accepted.boundary.execution_id
            &&& binding.completed_step_id == accepted.boundary.completed_step_id
            &&& binding.next_step_id == accepted.boundary.next_step_id
            &&& binding.fresh_identity_digest@ == accepted.boundary.fresh_identity_digest
            &&& next.phase is Executing
            &&& locked_session::advance_refusal(session, next, record) is None
        },
        !completion_is_unrecorded(session, ended, next, record) <==> {
            &&& ended.locked_session_id == session.session_id
            &&& model::execution_options_agree(next.execution, session.journal.execution)
            &&& next.verified_boundary matches Some(binding)
            &&& binding.integrity is Matches
            &&& binding.execution_id@ == ended.completion.execution_id
            &&& binding.final_step_id == Some(ended.completion.completed_step_id)
            &&& reading::reads(binding.final_identity_digest, ended.completion.fresh_identity_digest)
            &&& next.phase is Completed
            &&& locked_session::advance_refusal(session, next, record) is None
        },
{
}

/// Each refusal at a boundary or at the end names something that is wrong.
pub proof fn refused_boundary_names_its_reason(
    execution: ExecutionStartBinding,
    manifest: NativeCompiledManifest,
    digest: Seq<char>,
    before: TargetIdentityManifest,
    fresh: TargetIdentityManifest,
    completed_step_id: u32,
)
    ensures
        boundary_obstacle(execution, manifest, digest, fresh, completed_step_id) matches Some(e)
            ==> match e {
            DisposableBoundaryVerificationError::ExecutionBindingInvalid => {
                execution.schema_version != 1 || !(execution.integrity is Matches)
            },
            DisposableBoundaryVerificationError::ManifestBindingMismatch => {
                execution.source_manifest_id@ != manifest.source_manifest_id@
                    || execution.native_manifest_digest@ != digest
            },
            DisposableBoundaryVerificationError::CompletedStepNotAuthorized => {
                ||| !execution.mutation_step_ids@.contains(completed_step_id)
                ||| forall|i: int|
                    0 <= i < manifest.steps@.len() ==> (#[trigger] manifest.steps@[i]).plan_step_id
                        != completed_step_id
            },
            DisposableBoundaryVerificationError::NoNextMutationStep => {
                let ids = execution.mutation_step_ids@;
                ids.len() > 0 && ids[ids.len() - 1] == completed_step_id && forall|q: int|
                    0 <= q < ids.len() - 1 ==> #[trigger] ids[q] != completed_step_id
            },
            DisposableBoundaryVerificationError::UnsupportedFreshRoute => !(fresh.route_status
                is SupportedProfile),
            _ => exists|operation: NativeOperationSpec|
                #[trigger] manifest_has_step(manifest.steps@, completed_step_id, operation)
                    && post_state_obstacle(operation, fresh) == Some(e),
        },
        terminal_obstacle(
            execution,
            manifest,
            digest,
            before,
            fresh,
            completed_step_id,
        ) == Some(DisposableBoundaryVerificationError::FilesystemSizeDidNotGrow) ==> {
            let old_size = before.filesystem->Some_0.observed_filesystem_size_bytes;
            let new_size = fresh.filesystem->Some_0.observed_filesystem_size_bytes;
            ||| old_size is None
            ||| new_size is None
            ||| old_size->Some_0 == 0
            ||| old_size->Some_0 >= before.filesystem->Some_0.backing_device_size_bytes
            ||| new_size->Some_0 <= old_size->Some_0
            ||| new_size->Some_0 > fresh.filesystem->Some_0.backing_device_size_bytes
        },
{
    let ids = execution.mutation_step_ids@;
    privileged_protocol::step_position_is_the_first_place(ids, completed_step_id);
    native_operation::looked_up_step_is_the_first(manifest.steps@, completed_step_id);
    lemma_manifest_step(manifest.steps@, completed_step_id);
    let index = native_operation::step_index(manifest.steps@, completed_step_id);
    if index is Some {
        assert(manifest_has_step(
            manifest.steps@,
            completed_step_id,
            manifest.steps@[index->Some_0].operation,
        ));
    }
}

/// Each refused state after a mutation names the layer that is not as it should be.
pub proof fn refused_state_names_its_layer(
    operation: NativeOperationSpec,
    fresh: TargetIdentityManifest,
)
    ensures
        post_state_obstacle(operation, fresh) matches Some(e) ==> match e {
            DisposableBoundaryVerificationError::PhysicalVolumeIdentityNotUnique => operation
                is ResizePhysicalVolume && !exists|i: int|
                reading::only_volume_at(
                    fresh.lvm@,
                    LvmIdentityKind::PhysicalVolume,
                    operation->ResizePhysicalVolume_pv_uuid@,
                    i,
                ),
            DisposableBoundaryVerificationError::PhysicalVolumeSizeMismatch => operation
                is ResizePhysicalVolume && exists|i: int|
                #[trigger] reading::only_volume_at(
                    fresh.lvm@,
                    LvmIdentityKind::PhysicalVolume,
                    operation->ResizePhysicalVolume_pv_uuid@,
                    i,
                ) && fresh.lvm@[i].size_bytes
                    != operation->ResizePhysicalVolume_expected_pv_size_bytes,
            DisposableBoundaryVerificationError::LogicalVolumeIdentityNotUnique => operation
                is ExtendLogicalVolume && !exists|i: int|
                reading::only_volume_at(
                    fresh.lvm@,
                    LvmIdentityKind::LogicalVolume,
                    operation->ExtendLogicalVolume_lv_uuid@,
                    i,
                ),
            DisposableBoundaryVerificationError::LogicalVolumeSizeMismatch => operation
                is ExtendLogicalVolume && exists|i: int|
                #[trigger] reading::only_volume_at(
                    fresh.lvm@,
                    LvmIdentityKind::LogicalVolume,
                    operation->ExtendLogicalVolume_lv_uuid@,
                    i,
                ) && fresh.lvm@[i].size_bytes
                    != operation->ExtendLogicalVolume_expected_lv_size_bytes,
            DisposableBoundaryVerificationError::FilesystemBackingSizeMismatch => operation
                is ExtendLogicalVolume && (fresh.filesystem is None
                || fresh.filesystem->Some_0.backing_device_size_bytes
                != operation->ExtendLogicalVolume_expected_lv_size_bytes),
            DisposableBoundaryVerificationError::UnsupportedCompletedMutation => {
                !(operation is ResizePhysicalVolume) && !(operation is ExtendLogicalVolume)
            },
            _ => false,
        },
{
    if operation is ResizePhysicalVolume {
        reading::found_volume_is_the_only_one(
            fresh.lvm@,
            LvmIdentityKind::PhysicalVolume,
            operation->ResizePhysicalVolume_pv_uuid@,
        );
    }
    if operation is ExtendLogicalVolume {
        reading::found_volume_is_the_only_one(
            fresh.lvm@,
            LvmIdentityKind::LogicalVolume,
            operation->ExtendLogicalVolume_lv_uuid@,
        );
    }
}

} // verus!
