//! Verification of one privileged mutation against freshly discovered state.

use vstd::prelude::*;

use crate::native_operation;
use crate::reading;
use crate::text;
use crate::privileged_protocol;
use crate::model;
use crate::json;
use crate::json_reading;
use crate::disposable_verify;
use crate::digest;
use crate::digest::fingerprint_text;
use crate::json::Parts;
use crate::model::{
    find_lvm, find_mount, find_partition, same_mount, FilesystemIdentity, Lookup, LvmIdentityKind,
    MountIdentity, PartitionGeometryIdentity, TargetIdentityManifest,
};
use crate::native_operation::NativeOperationSpec;
use crate::privileged_protocol::{
    validate_privileged_helper_request, PrivilegedHelperProtocolError, PrivilegedHelperRequest,
};
use crate::privileged_result::{PrivilegedProcessReceipt, PrivilegedRuntimeDisposition};
use crate::text::{same_opt, same_text};

verus! {

/// Proof that a mutation led to exactly the authorised state.
#[derive(Clone, Debug, PartialEq, Eq)]
pub struct PrivilegedLayerVerificationReceipt {
    pub schema_version: u32,
    pub receipt_id: String,
    pub execution_id: String,
    pub process_receipt_id: String,
    pub request_id: String,
    pub plan_step_id: u32,
    pub before_identity_digest: String,
    pub fresh_identity_digest: String,
    pub verified_operation: String,
    pub expected_state_verified: bool,
}

/// What a verification receipt is fingerprinted by, in order.
pub open spec fn verification_receipt_parts(receipt: PrivilegedLayerVerificationReceipt) -> Seq<Seq<char>> {
    Seq::empty()
        .push(json::json_number(receipt.schema_version as int))
        .push(json::json_text(receipt.execution_id@))
        .push(json::json_text(receipt.process_receipt_id@))
        .push(json::json_text(receipt.request_id@))
        .push(json::json_number(receipt.plan_step_id as int))
        .push(json::json_text(receipt.before_identity_digest@))
        .push(json::json_text(receipt.fresh_identity_digest@))
        .push(json::json_text(receipt.verified_operation@))
        .push(json::json_bool(receipt.expected_state_verified))
}

/// The JSON form that a receipt is fingerprinted by.
pub open spec fn verification_receipt_json(receipt: PrivilegedLayerVerificationReceipt) -> Seq<char> {
    json::json_array(verification_receipt_parts(receipt))
}

impl PrivilegedLayerVerificationReceipt {
    /// The identifier is the fingerprint of the other fields.
    pub open spec fn is_intact(self) -> bool {
        self.receipt_id@ == digest::text_fingerprint(verification_receipt_json(self))
    }

    pub fn integrity_matches(&self) -> (result: Result<bool, serde_json::Error>)
        ensures
            result is Ok,
            result->Ok_0 == self.is_intact(),
    {
        Ok(self.intact())
    }

    /// The identifier that the other fields ask for.
    pub fn expected_receipt_id(&self) -> (result: Result<String, serde_json::Error>)
        ensures
            result is Ok,
            result->Ok_0@ == digest::text_fingerprint(verification_receipt_json(*self)),
    {
        Ok(self.fingerprint())
    }

    fn fingerprint(&self) -> (id: String)
        ensures
            id@ == digest::text_fingerprint(verification_receipt_json(*self)),
    {
        let mut parts = Parts::new();
        parts.push_number(self.schema_version as u64);
        parts.push_text(self.execution_id.as_str());
        parts.push_text(self.process_receipt_id.as_str());
        parts.push_text(self.request_id.as_str());
        parts.push_number(self.plan_step_id as u64);
        parts.push_text(self.before_identity_digest.as_str());
        parts.push_text(self.fresh_identity_digest.as_str());
        parts.push_text(self.verified_operation.as_str());
        parts.push_bool(self.expected_state_verified);
        fingerprint_text(parts.array().as_str())
    }

    pub(crate) fn intact(&self) -> (yes: bool)
        ensures
            yes == self.is_intact(),
    {
        same_text(self.receipt_id.as_str(), self.fingerprint().as_str())
    }
}

#[derive(Clone, Copy, Debug, PartialEq, Eq, Structural)]
pub enum PrivilegedLayerVerificationError {
    Protocol(PrivilegedHelperProtocolError),
    ProcessReceiptIntegrityMismatch,
    RecoveryRequired,
    ProcessBindingMismatch,
    BeforeIdentityMismatch,
    TargetIdentityMismatch,
    PartitionStateMismatch,
    PhysicalVolumeStateMismatch,
    LogicalVolumeStateMismatch,
    FilesystemStateMismatch,
    UnsupportedOperation,
}

/// The name that a receipt gives an operation.
pub open spec fn verified_operation_name(operation: NativeOperationSpec) -> Seq<char> {
    match operation {
        NativeOperationSpec::ExtendPartition { .. } => "extend_partition"@,
        NativeOperationSpec::ResizePhysicalVolume { .. } => "resize_physical_volume"@,
        NativeOperationSpec::ExtendLogicalVolume { .. } => "extend_logical_volume"@,
        NativeOperationSpec::GrowFilesystem { .. } => "grow_filesystem"@,
        _ => "unsupported"@,
    }
}

/// The name that a receipt gives an operation.
pub fn operation_name(operation: &NativeOperationSpec) -> (name: &'static str)
    ensures
        name@ == verified_operation_name(*operation),
{
    match operation {
        NativeOperationSpec::ExtendPartition { .. } => "extend_partition",
        NativeOperationSpec::ResizePhysicalVolume { .. } => "resize_physical_volume",
        NativeOperationSpec::ExtendLogicalVolume { .. } => "extend_logical_volume",
        NativeOperationSpec::GrowFilesystem { .. } => "grow_filesystem",
        _ => "unsupported",
    }
}

/// The same entry of the same table, grown to its new size in place.
pub open spec fn is_grown_entry(
    old_entry: PartitionGeometryIdentity,
    new_entry: PartitionGeometryIdentity,
    start_sector: u64,
    new_size_sectors: u64,
) -> bool {
    &&& old_entry.start_sector == Some(start_sector)
    &&& new_entry.start_sector == Some(start_sector)
    &&& new_entry.size_sectors == Some(new_size_sectors)
    &&& old_entry.size_sectors is Some
    &&& old_entry.size_sectors->Some_0 < new_size_sectors
    &&& text::opt_text(old_entry.disk) == text::opt_text(new_entry.disk)
    &&& text::opt_text(old_entry.table_label) == text::opt_text(new_entry.table_label)
    &&& text::opt_text(old_entry.table_id) == text::opt_text(new_entry.table_id)
    &&& old_entry.sector_size_bytes == new_entry.sector_size_bytes
    &&& text::opt_text(old_entry.record_uuid) == text::opt_text(new_entry.record_uuid)
}

/// The partition has grown to its new size and is otherwise what it was.
pub open spec fn is_grown_partition(
    partition: Seq<char>,
    start_sector: u64,
    new_size_sectors: u64,
    before: TargetIdentityManifest,
    fresh: TargetIdentityManifest,
) -> bool {
    let old_entries = model::partitions_named(before.partitions@, partition);
    let new_entries = model::partitions_named(fresh.partitions@, partition);
    &&& old_entries.len() == 1
    &&& new_entries.len() == 1
    &&& is_grown_entry(old_entries[0], new_entries[0], start_sector, new_size_sectors)
}

fn same_number(a: Option<u64>, b: Option<u64>) -> (same: bool)
    ensures
        same == (a == b),
{
    match (a, b) {
        (Some(x), Some(y)) => x == y,
        (None, None) => true,
        _ => false,
    }
}

/// Whether a partition has grown to its new size and is otherwise what it was.
pub fn verify_partition(
    partition: &str,
    start_sector: u64,
    new_size_sectors: u64,
    before: &TargetIdentityManifest,
    fresh: &TargetIdentityManifest,
) -> (verified: bool)
    ensures
        verified == is_grown_partition(
            partition@,
            start_sector,
            new_size_sectors,
            *before,
            *fresh,
        ),
{
    let (old_entry, new_entry) = match (
        find_partition(&before.partitions, partition),
        find_partition(&fresh.partitions, partition),
    ) {
        (Lookup::Unique(i), Lookup::Unique(j)) => (&before.partitions[i], &fresh.partitions[j]),
        _ => return false,
    };
    let grown = match old_entry.size_sectors {
        Some(size) => size < new_size_sectors,
        None => false,
    };
    same_number(old_entry.start_sector, Some(start_sector)) && same_number(
        new_entry.start_sector,
        Some(start_sector),
    ) && same_number(new_entry.size_sectors, Some(new_size_sectors)) && grown && same_opt(
        &old_entry.disk,
        &new_entry.disk,
    ) && same_opt(&old_entry.table_label, &new_entry.table_label) && same_opt(
        &old_entry.table_id,
        &new_entry.table_id,
    ) && same_number(old_entry.sector_size_bytes, new_entry.sector_size_bytes) && same_opt(
        &old_entry.record_uuid,
        &new_entry.record_uuid,
    )
}

/// The volume has grown to exactly its expected size and kept its name.
pub open spec fn is_grown_volume(
    kind: LvmIdentityKind,
    uuid: Seq<char>,
    expected_size_bytes: u64,
    before: TargetIdentityManifest,
    fresh: TargetIdentityManifest,
) -> bool {
    let old_volumes = model::lvm_with(before.lvm@, kind, uuid);
    let new_volumes = model::lvm_with(fresh.lvm@, kind, uuid);
    &&& old_volumes.len() == 1
    &&& new_volumes.len() == 1
    &&& old_volumes[0].name@ == new_volumes[0].name@
    &&& old_volumes[0].size_bytes < expected_size_bytes
    &&& new_volumes[0].size_bytes == expected_size_bytes
}

/// Whether a volume has grown to exactly its expected size.
pub fn verify_lvm_size(
    kind: LvmIdentityKind,
    uuid: &str,
    expected_size_bytes: u64,
    before: &TargetIdentityManifest,
    fresh: &TargetIdentityManifest,
) -> (verified: bool)
    ensures
        verified == is_grown_volume(kind, uuid@, expected_size_bytes, *before, *fresh),
{
    match (find_lvm(&before.lvm, kind, uuid), find_lvm(&fresh.lvm, kind, uuid)) {
        (Lookup::Unique(i), Lookup::Unique(j)) => same_text(
            before.lvm[i].name.as_str(),
            fresh.lvm[j].name.as_str(),
        ) && before.lvm[i].size_bytes < expected_size_bytes && fresh.lvm[j].size_bytes
            == expected_size_bytes,
        _ => false,
    }
}

/// The same filesystem on the same device.
pub open spec fn is_kept_filesystem(
    fs_type: Seq<char>,
    old_fs: FilesystemIdentity,
    new_fs: FilesystemIdentity,
    before: TargetIdentityManifest,
    fresh: TargetIdentityManifest,
) -> bool {
    &&& old_fs.device@ == before.resolved_device@
    &&& new_fs.device@ == fresh.resolved_device@
    &&& old_fs.device@ == new_fs.device@
    &&& old_fs.fs_type@ == fs_type
    &&& new_fs.fs_type@ == fs_type
    &&& old_fs.uuid is Some
    &&& text::opt_text(old_fs.uuid) == text::opt_text(new_fs.uuid)
    &&& text::opt_text(old_fs.fs_version) == text::opt_text(new_fs.fs_version)
    &&& old_fs.backing_device_size_bytes == new_fs.backing_device_size_bytes
}

/// The filesystem is mounted as it was: on the one named mountpoint, or, for ext4, nowhere.
pub open spec fn is_kept_mount(
    fs_type: Seq<char>,
    mountpoint: Option<Seq<char>>,
    before: Seq<MountIdentity>,
    fresh: Seq<MountIdentity>,
) -> bool {
    match mountpoint {
        Some(target) => {
            let old_mounts = model::mounts_on(before, target, fs_type);
            let new_mounts = model::mounts_on(fresh, target, fs_type);
            old_mounts.len() == 1 && new_mounts.len() == 1 && model::mounts_agree(
                old_mounts[0],
                new_mounts[0],
            )
        },
        None => fs_type == "ext4"@ && before.len() == 0 && fresh.len() == 0,
    }
}

/// The filesystem has grown within its device and is otherwise what it was.
pub open spec fn is_grown_filesystem(
    fs_type: Seq<char>,
    mountpoint: Option<Seq<char>>,
    before: TargetIdentityManifest,
    fresh: TargetIdentityManifest,
) -> bool {
    &&& before.filesystem is Some
    &&& fresh.filesystem is Some
    &&& is_kept_filesystem(
        fs_type,
        before.filesystem->Some_0,
        fresh.filesystem->Some_0,
        before,
        fresh,
    )
    &&& is_kept_mount(fs_type, mountpoint, before.mounts@, fresh.mounts@)
    &&& disposable_verify::has_grown(before, fresh)
}

fn kept_mount(
    fs_type: &str,
    mountpoint: &Option<String>,
    before: &Vec<MountIdentity>,
    fresh: &Vec<MountIdentity>,
) -> (kept: bool)
    ensures
        kept == is_kept_mount(fs_type@, text::opt_text(*mountpoint), before@, fresh@),
{
    match mountpoint {
        Some(target) => match (
            find_mount(before, target.as_str(), fs_type),
            find_mount(fresh, target.as_str(), fs_type),
        ) {
            (Lookup::Unique(i), Lookup::Unique(j)) => same_mount(&before[i], &fresh[j]),
            _ => false,
        },
        None => same_text(fs_type, "ext4") && before.len() == 0 && fresh.len() == 0,
    }
}

/// Whether a filesystem has grown within its device and is otherwise what it was.
pub fn verify_filesystem(
    fs_type: &str,
    mountpoint: &Option<String>,
    before: &TargetIdentityManifest,
    fresh: &TargetIdentityManifest,
) -> (verified: bool)
    ensures
        verified == is_grown_filesystem(fs_type@, text::opt_text(*mountpoint), *before, *fresh),
{
    let (old_fs, new_fs) = match (&before.filesystem, &fresh.filesystem) {
        (Some(old_fs), Some(new_fs)) => (old_fs, new_fs),
        _ => return false,
    };
    if !(same_text(old_fs.device.as_str(), before.resolved_device.as_str()) && same_text(
        new_fs.device.as_str(),
        fresh.resolved_device.as_str(),
    ) && same_text(old_fs.device.as_str(), new_fs.device.as_str()) && same_text(
        old_fs.fs_type.as_str(),
        fs_type,
    ) && same_text(new_fs.fs_type.as_str(), fs_type) && old_fs.uuid.is_some() && same_opt(
        &old_fs.uuid,
        &new_fs.uuid,
    ) && same_opt(&old_fs.fs_version, &new_fs.fs_version) && old_fs.backing_device_size_bytes
        == new_fs.backing_device_size_bytes) {
        return false;
    }
    if !kept_mount(fs_type, mountpoint, &before.mounts, &fresh.mounts) {
        return false;
    }
    match (old_fs.observed_filesystem_size_bytes, new_fs.observed_filesystem_size_bytes) {
        (Some(old_size), Some(new_size)) => {
            0 < old_size && old_size < old_fs.backing_device_size_bytes && new_size > old_size
                && new_size <= new_fs.backing_device_size_bytes
        },
        _ => false,
    }
}

/// What the state after a mutation is refused for, if anything.
pub open spec fn layer_state_refusal(
    operation: NativeOperationSpec,
    before: TargetIdentityManifest,
    fresh: TargetIdentityManifest,
) -> Option<PrivilegedLayerVerificationError> {
    match operation {
        NativeOperationSpec::ExtendPartition { partition, start_sector, new_size_sectors, .. } => {
            if is_grown_partition(partition@, start_sector, new_size_sectors, before, fresh) {
                None
            } else {
                Some(PrivilegedLayerVerificationError::PartitionStateMismatch)
            }
        },
        NativeOperationSpec::ResizePhysicalVolume { pv_uuid, expected_pv_size_bytes } => {
            if is_grown_volume(
                LvmIdentityKind::PhysicalVolume,
                pv_uuid@,
                expected_pv_size_bytes,
                before,
                fresh,
            ) {
                None
            } else {
                Some(PrivilegedLayerVerificationError::PhysicalVolumeStateMismatch)
            }
        },
        NativeOperationSpec::ExtendLogicalVolume { lv_uuid, expected_lv_size_bytes, .. } => {
            if is_grown_volume(
                LvmIdentityKind::LogicalVolume,
                lv_uuid@,
                expected_lv_size_bytes,
                before,
                fresh,
            ) {
                None
            } else {
                Some(PrivilegedLayerVerificationError::LogicalVolumeStateMismatch)
            }
        },
        NativeOperationSpec::GrowFilesystem { fs_type, mountpoint } => {
            if is_grown_filesystem(fs_type@, text::opt_text(mountpoint), before, fresh) {
                None
            } else {
                Some(PrivilegedLayerVerificationError::FilesystemStateMismatch)
            }
        },
        _ => Some(PrivilegedLayerVerificationError::UnsupportedOperation),
    }
}

fn check_layer_state(
    operation: &NativeOperationSpec,
    before: &TargetIdentityManifest,
    fresh: &TargetIdentityManifest,
) -> (refusal: Option<PrivilegedLayerVerificationError>)
    ensures
        refusal == layer_state_refusal(*operation, *before, *fresh),
{
    match operation {
        NativeOperationSpec::ExtendPartition { partition, start_sector, new_size_sectors, .. } => {
            if verify_partition(
                partition.as_str(),
                *start_sector,
                *new_size_sectors,
                before,
                fresh,
            ) {
                None
            } else {
                Some(PrivilegedLayerVerificationError::PartitionStateMismatch)
            }
        },
        NativeOperationSpec::ResizePhysicalVolume { pv_uuid, expected_pv_size_bytes } => {
            if verify_lvm_size(
                LvmIdentityKind::PhysicalVolume,
                pv_uuid.as_str(),
                *expected_pv_size_bytes,
                before,
                fresh,
            ) {
                None
            } else {
                Some(PrivilegedLayerVerificationError::PhysicalVolumeStateMismatch)
            }
        },
        NativeOperationSpec::ExtendLogicalVolume { lv_uuid, expected_lv_size_bytes, .. } => {
            if verify_lvm_size(
                LvmIdentityKind::LogicalVolume,
                lv_uuid.as_str(),
                *expected_lv_size_bytes,
                before,
                fresh,
            ) {
                None
            } else {
                Some(PrivilegedLayerVerificationError::LogicalVolumeStateMismatch)
            }
        },
        NativeOperationSpec::GrowFilesystem { fs_type, mountpoint } => {
            if verify_filesystem(fs_type.as_str(), mountpoint, before, fresh) {
                None
            } else {
                Some(PrivilegedLayerVerificationError::FilesystemStateMismatch)
            }
        },
        _ => Some(PrivilegedLayerVerificationError::UnsupportedOperation),
    }
}

/// What a verification is refused for, if anything.
pub open spec fn layer_refusal(
    request: PrivilegedHelperRequest,
    process: PrivilegedProcessReceipt,
    before: TargetIdentityManifest,
    fresh: TargetIdentityManifest,
) -> Option<PrivilegedLayerVerificationError> {
    if privileged_protocol::request_refusal(request) is Some {
        Some(PrivilegedLayerVerificationError::Protocol(privileged_protocol::request_refusal(request)->Some_0))
    } else if !process.is_intact() {
        Some(PrivilegedLayerVerificationError::ProcessReceiptIntegrityMismatch)
    } else if process.disposition != PrivilegedRuntimeDisposition::RediscoveryRequired {
        Some(PrivilegedLayerVerificationError::RecoveryRequired)
    } else if process.execution_id@ != request.execution_id@ || process.plan_step_id
        != request.plan_step_id {
        Some(PrivilegedLayerVerificationError::ProcessBindingMismatch)
    } else if before.manifest_digest@ != request.fresh_identity_digest@ || before.target@
        != request.target@ || before.resolved_device@ != request.resolved_device@ {
        Some(PrivilegedLayerVerificationError::BeforeIdentityMismatch)
    } else if fresh.target@ != before.target@ || fresh.resolved_device@
        != before.resolved_device@ {
        Some(PrivilegedLayerVerificationError::TargetIdentityMismatch)
    } else {
        layer_state_refusal(request.operation, before, fresh)
    }
}

/// The receipt of a verification.
pub open spec fn is_verification_receipt(
    receipt: PrivilegedLayerVerificationReceipt,
    request: PrivilegedHelperRequest,
    process: PrivilegedProcessReceipt,
    before: TargetIdentityManifest,
    fresh: TargetIdentityManifest,
) -> bool {
    &&& receipt.schema_version == 1
    &&& receipt.is_intact()
    &&& receipt.execution_id@ == request.execution_id@
    &&& receipt.process_receipt_id@ == process.receipt_id@
    &&& receipt.request_id@ == request.request_id@
    &&& receipt.plan_step_id == request.plan_step_id
    &&& receipt.before_identity_digest@ == before.manifest_digest@
    &&& receipt.fresh_identity_digest@ == fresh.manifest_digest@
    &&& receipt.verified_operation@ == verified_operation_name(request.operation)
    &&& receipt.expected_state_verified
}

/// Verifies one successful mutation against fresh state. An exit code of zero only allows to look
/// again; this is what proves the exact state. No journal is touched.
pub fn verify_privileged_layer_post_state(
    request: &PrivilegedHelperRequest,
    process: &PrivilegedProcessReceipt,
    before: &TargetIdentityManifest,
    fresh: &TargetIdentityManifest,
) -> (result: Result<PrivilegedLayerVerificationReceipt, PrivilegedLayerVerificationError>)
    ensures
        match result {
            Ok(receipt) => layer_refusal(*request, *process, *before, *fresh) is None
                && is_verification_receipt(receipt, *request, *process, *before, *fresh),
            Err(e) => layer_refusal(*request, *process, *before, *fresh) == Some(e),
        },
{
    match validate_privileged_helper_request(request) {
        Ok(_) => {},
        Err(e) => return Err(PrivilegedLayerVerificationError::Protocol(e)),
    }
    if !process.intact() {
        return Err(PrivilegedLayerVerificationError::ProcessReceiptIntegrityMismatch);
    }
    if !matches!(process.disposition, PrivilegedRuntimeDisposition::RediscoveryRequired) {
        return Err(PrivilegedLayerVerificationError::RecoveryRequired);
    }
    if !same_text(process.execution_id.as_str(), request.execution_id.as_str())
        || process.plan_step_id != request.plan_step_id {
        return Err(PrivilegedLayerVerificationError::ProcessBindingMismatch);
    }
    if !same_text(before.manifest_digest.as_str(), request.fresh_identity_digest.as_str())
        || !same_text(before.target.as_str(), request.target.as_str()) || !same_text(
        before.resolved_device.as_str(),
        request.resolved_device.as_str(),
    ) {
        return Err(PrivilegedLayerVerificationError::BeforeIdentityMismatch);
    }
    if !same_text(fresh.target.as_str(), before.target.as_str()) || !same_text(
        fresh.resolved_device.as_str(),
        before.resolved_device.as_str(),
    ) {
        return Err(PrivilegedLayerVerificationError::TargetIdentityMismatch);
    }
    match check_layer_state(&request.operation, before, fresh) {
        Some(e) => return Err(e),
        None => {},
    }
    let mut receipt = PrivilegedLayerVerificationReceipt {
        schema_version: 1,
        receipt_id: String::new(),
        execution_id: request.execution_id.clone(),
        process_receipt_id: process.receipt_id.clone(),
        request_id: request.request_id.clone(),
        plan_step_id: request.plan_step_id,
        before_identity_digest: before.manifest_digest.clone(),
        fresh_identity_digest: fresh.manifest_digest.clone(),
        verified_operation: operation_name(&request.operation).to_owned(),
        expected_state_verified: true,
    };
    let receipt_id = receipt.fingerprint();
    receipt.receipt_id = receipt_id;
    Ok(receipt)
}

/// A launch that requires recovery is never verified.
pub proof fn recovery_is_never_verified(
    request: PrivilegedHelperRequest,
    process: PrivilegedProcessReceipt,
    before: TargetIdentityManifest,
    fresh: TargetIdentityManifest,
)
    requires
        process.disposition == PrivilegedRuntimeDisposition::RecoveryRequired,
    ensures
        layer_refusal(request, process, before, fresh) is Some,
{
}

/// The two hold the same, apart from their identifiers.
pub open spec fn same_verification_receipt(a: PrivilegedLayerVerificationReceipt, b: PrivilegedLayerVerificationReceipt) -> bool {
    &&& a.schema_version == b.schema_version
    &&& a.execution_id@ == b.execution_id@
    &&& a.process_receipt_id@ == b.process_receipt_id@
    &&& a.request_id@ == b.request_id@
    &&& a.plan_step_id == b.plan_step_id
    &&& a.before_identity_digest@ == b.before_identity_digest@
    &&& a.fresh_identity_digest@ == b.fresh_identity_digest@
    &&& a.verified_operation@ == b.verified_operation@
    &&& a.expected_state_verified == b.expected_state_verified
}

proof fn lemma_verification_receipt_told(a: PrivilegedLayerVerificationReceipt, b: PrivilegedLayerVerificationReceipt)
    requires
        verification_receipt_json(a) == verification_receipt_json(b),
    ensures
        same_verification_receipt(a, b),
{
    broadcast use crate::json_reading::group_json_reading;

    let p = verification_receipt_parts(a);
    let q = verification_receipt_parts(b);
    assert(json_reading::are_values(p) && json_reading::are_values(q));
    assert(p[0] == q[0]);
    assert(p[1] == q[1]);
    assert(p[2] == q[2]);
    assert(p[3] == q[3]);
    assert(p[4] == q[4]);
    assert(p[5] == q[5]);
    assert(p[6] == q[6]);
    assert(p[7] == q[7]);
    assert(p[8] == q[8]);
}

/// A verification receipt that was changed under its identifier is noticed, short of a SHA-256 collision.
pub proof fn changed_verification_receipt_is_detected(a: PrivilegedLayerVerificationReceipt, b: PrivilegedLayerVerificationReceipt)
    requires
        a.is_intact(),
        b.receipt_id@ == a.receipt_id@,
        !same_verification_receipt(a, b),
    ensures
        !b.is_intact() || digest::is_collision(verification_receipt_json(a), verification_receipt_json(b)),
{
    if b.is_intact() {
        digest::fingerprint_tells_its_text(verification_receipt_json(a), verification_receipt_json(b));
        if verification_receipt_json(a) == verification_receipt_json(b) {
            lemma_verification_receipt_told(a, b);
        }
    }
}

/// A partition is verified exactly where it is the only one of its path before and after, starts
/// where it was to start both times, is now of the new size, was smaller, and is otherwise
/// described as before.
pub proof fn verified_partition_has_grown_in_place(
    partition: String,
    start_sector: u64,
    old_size_sectors: u64,
    new_size_sectors: u64,
    sector_size_bytes: u64,
    before: TargetIdentityManifest,
    fresh: TargetIdentityManifest,
)
    ensures
        ({
            let refusal = layer_state_refusal(
                NativeOperationSpec::ExtendPartition {
                    partition,
                    start_sector,
                    old_size_sectors,
                    new_size_sectors,
                    sector_size_bytes,
                },
                before,
                fresh,
            );
            &&& refusal is Some ==> refusal == Some(
                PrivilegedLayerVerificationError::PartitionStateMismatch,
            )
            &&& refusal is None <==> exists|i: int, j: int|
                {
                    &&& #[trigger] reading::only_partition_at(before.partitions@, partition@, i)
                    &&& #[trigger] reading::only_partition_at(fresh.partitions@, partition@, j)
                    &&& before.partitions@[i].start_sector == Some(start_sector)
                    &&& fresh.partitions@[j].start_sector == Some(start_sector)
                    &&& fresh.partitions@[j].size_sectors == Some(new_size_sectors)
                    &&& before.partitions@[i].size_sectors is Some
                    &&& before.partitions@[i].size_sectors->Some_0 < new_size_sectors
                    &&& reading::read_alike(before.partitions@[i].disk, fresh.partitions@[j].disk)
                    &&& reading::read_alike(before.partitions@[i].table_label, fresh.partitions@[j].table_label)
                    &&& reading::read_alike(before.partitions@[i].table_id, fresh.partitions@[j].table_id)
                    &&& before.partitions@[i].sector_size_bytes
                        == fresh.partitions@[j].sector_size_bytes
                    &&& reading::read_alike(before.partitions@[i].record_uuid, fresh.partitions@[j].record_uuid)
                }
        }),
{
    reading::found_partition_is_the_only_one(before.partitions@, partition@);
    reading::found_partition_is_the_only_one(fresh.partitions@, partition@);
    if is_grown_partition(partition@, start_sector, new_size_sectors, before, fresh) {
        let i = choose|i: int| reading::only_partition_at(before.partitions@, partition@, i);
        let j = choose|j: int| reading::only_partition_at(fresh.partitions@, partition@, j);
        assert(reading::only_partition_at(before.partitions@, partition@, i));
        assert(reading::only_partition_at(fresh.partitions@, partition@, j));
    }
}

/// A physical volume is verified exactly where it is the only one of its UUID before and after,
/// keeps its name, is now of the expected size and was smaller.
pub proof fn verified_physical_volume_has_grown(
    pv_uuid: String,
    expected_pv_size_bytes: u64,
    before: TargetIdentityManifest,
    fresh: TargetIdentityManifest,
)
    ensures
        ({
            let refusal = layer_state_refusal(
                NativeOperationSpec::ResizePhysicalVolume { pv_uuid, expected_pv_size_bytes },
                before,
                fresh,
            );
            let kind = LvmIdentityKind::PhysicalVolume;
            &&& refusal is Some ==> refusal == Some(
                PrivilegedLayerVerificationError::PhysicalVolumeStateMismatch,
            )
            &&& refusal is None <==> exists|i: int, j: int|
                {
                    &&& #[trigger] reading::only_volume_at(before.lvm@, kind, pv_uuid@, i)
                    &&& #[trigger] reading::only_volume_at(fresh.lvm@, kind, pv_uuid@, j)
                    &&& before.lvm@[i].name@ == fresh.lvm@[j].name@
                    &&& before.lvm@[i].size_bytes < fresh.lvm@[j].size_bytes
                    &&& fresh.lvm@[j].size_bytes == expected_pv_size_bytes
                }
        }),
{
    let kind = LvmIdentityKind::PhysicalVolume;
    reading::found_volume_is_the_only_one(before.lvm@, kind, pv_uuid@);
    reading::found_volume_is_the_only_one(fresh.lvm@, kind, pv_uuid@);
    if is_grown_volume(kind, pv_uuid@, expected_pv_size_bytes, before, fresh) {
        let i = choose|i: int| reading::only_volume_at(before.lvm@, kind, pv_uuid@, i);
        let j = choose|j: int| reading::only_volume_at(fresh.lvm@, kind, pv_uuid@, j);
        assert(reading::only_volume_at(before.lvm@, kind, pv_uuid@, i));
        assert(reading::only_volume_at(fresh.lvm@, kind, pv_uuid@, j));
    }
}

/// A logical volume is verified exactly where it is the only one of its UUID before and after,
/// keeps its name, is now of the expected size and was smaller.
pub proof fn verified_logical_volume_has_grown(
    lv_uuid: String,
    additional_extents: u64,
    expected_lv_size_bytes: u64,
    before: TargetIdentityManifest,
    fresh: TargetIdentityManifest,
)
    ensures
        ({
            let refusal = layer_state_refusal(
                NativeOperationSpec::ExtendLogicalVolume {
                    lv_uuid,
                    additional_extents,
                    expected_lv_size_bytes,
                },
                before,
                fresh,
            );
            let kind = LvmIdentityKind::LogicalVolume;
            &&& refusal is Some ==> refusal == Some(
                PrivilegedLayerVerificationError::LogicalVolumeStateMismatch,
            )
            &&& refusal is None <==> exists|i: int, j: int|
                {
                    &&& #[trigger] reading::only_volume_at(before.lvm@, kind, lv_uuid@, i)
                    &&& #[trigger] reading::only_volume_at(fresh.lvm@, kind, lv_uuid@, j)
                    &&& before.lvm@[i].name@ == fresh.lvm@[j].name@
                    &&& before.lvm@[i].size_bytes < fresh.lvm@[j].size_bytes
                    &&& fresh.lvm@[j].size_bytes == expected_lv_size_bytes
                }
        }),
{
    let kind = LvmIdentityKind::LogicalVolume;
    reading::found_volume_is_the_only_one(before.lvm@, kind, lv_uuid@);
    reading::found_volume_is_the_only_one(fresh.lvm@, kind, lv_uuid@);
    if is_grown_volume(kind, lv_uuid@, expected_lv_size_bytes, before, fresh) {
        let i = choose|i: int| reading::only_volume_at(before.lvm@, kind, lv_uuid@, i);
        let j = choose|j: int| reading::only_volume_at(fresh.lvm@, kind, lv_uuid@, j);
        assert(reading::only_volume_at(before.lvm@, kind, lv_uuid@, i));
        assert(reading::only_volume_at(fresh.lvm@, kind, lv_uuid@, j));
    }
}

/// A filesystem is verified exactly where it is the same one on the same device of the same size,
/// mounted as before, and both of its sizes are known: the old one positive and below the size of
/// its device, the new one strictly larger and no larger than the device.
pub proof fn verified_filesystem_has_grown_within_its_device(
    fs_type: String,
    mountpoint: Option<String>,
    before: TargetIdentityManifest,
    fresh: TargetIdentityManifest,
)
    ensures
        ({
            let refusal = layer_state_refusal(
                NativeOperationSpec::GrowFilesystem { fs_type, mountpoint },
                before,
                fresh,
            );
            &&& refusal is Some ==> refusal == Some(
                PrivilegedLayerVerificationError::FilesystemStateMismatch,
            )
            &&& refusal is None <==> {
                &&& before.filesystem matches Some(was)
                &&& fresh.filesystem matches Some(is)
                &&& was.observed_filesystem_size_bytes matches Some(old_size)
                &&& is.observed_filesystem_size_bytes matches Some(new_size)
                &&& 0 < old_size
                &&& old_size < was.backing_device_size_bytes
                &&& old_size < new_size
                &&& new_size <= is.backing_device_size_bytes
                &&& was.backing_device_size_bytes == is.backing_device_size_bytes
                &&& was.device@ == before.resolved_device@
                &&& is.device@ == fresh.resolved_device@
                &&& was.device@ == is.device@
                &&& was.fs_type@ == fs_type@
                &&& is.fs_type@ == fs_type@
                &&& was.uuid is Some
                &&& reading::read_alike(was.uuid, is.uuid)
                &&& reading::read_alike(was.fs_version, is.fs_version)
                &&& match mountpoint {
                    Some(target) => exists|i: int, j: int|
                        {
                            &&& #[trigger] reading::only_mount_at(before.mounts@, target@, fs_type@, i)
                            &&& #[trigger] reading::only_mount_at(fresh.mounts@, target@, fs_type@, j)
                            &&& reading::read_alike(before.mounts@[i].source, fresh.mounts@[j].source)
                            &&& reading::lists_read_alike(
                                before.mounts@[i].options@,
                                fresh.mounts@[j].options@,
                            )
                        },
                    None => fs_type@ == "ext4"@ && before.mounts@.len() == 0 && fresh.mounts@.len()
                        == 0,
                }
            }
        }),
{
    match mountpoint {
        Some(target) => {
            reading::found_mount_is_the_only_one(before.mounts@, target@, fs_type@);
            reading::found_mount_is_the_only_one(fresh.mounts@, target@, fs_type@);
            assert forall|i: int, j: int|
                {
                    &&& #[trigger] reading::only_mount_at(before.mounts@, target@, fs_type@, i)
                    &&& #[trigger] reading::only_mount_at(fresh.mounts@, target@, fs_type@, j)
                } implies (is_kept_mount(
                fs_type@,
                text::opt_text(mountpoint),
                before.mounts@,
                fresh.mounts@,
            ) <==> {
                &&& reading::read_alike(before.mounts@[i].source, fresh.mounts@[j].source)
                &&& reading::lists_read_alike(before.mounts@[i].options@, fresh.mounts@[j].options@)
            }) by {
                reading::agreeing_mounts_read_alike(before.mounts@[i], fresh.mounts@[j]);
                assert(reading::reads(before.mounts@[i].fs_type, fs_type@));
                assert(reading::reads(fresh.mounts@[j].fs_type, fs_type@));
                assert(before.mounts@[i].target@ == target@);
                assert(fresh.mounts@[j].target@ == target@);
            }
            if is_kept_mount(fs_type@, text::opt_text(mountpoint), before.mounts@, fresh.mounts@) {
                let i = choose|i: int| reading::only_mount_at(before.mounts@, target@, fs_type@, i);
                let j = choose|j: int| reading::only_mount_at(fresh.mounts@, target@, fs_type@, j);
                assert(reading::only_mount_at(before.mounts@, target@, fs_type@, i));
                assert(reading::only_mount_at(fresh.mounts@, target@, fs_type@, j));
            }
        },
        None => {},
    }
}

/// Only the four mutations can be verified.
pub proof fn only_mutations_are_verified(
    operation: NativeOperationSpec,
    before: TargetIdentityManifest,
    fresh: TargetIdentityManifest,
)
    requires
        !(operation is ExtendPartition),
        !(operation is ResizePhysicalVolume),
        !(operation is ExtendLogicalVolume),
        !(operation is GrowFilesystem),
    ensures
        layer_state_refusal(operation, before, fresh) == Some(
            PrivilegedLayerVerificationError::UnsupportedOperation,
        ),
{
}

/// A mutation is verified exactly where its request is valid, its process ended and left an intact
/// receipt for this very step of this execution, the state before is the one that the request
/// names, the state after is one of the same target and device, and the layer is as it should be.
pub proof fn verified_step_is_bound_to_its_request_and_process(
    request: PrivilegedHelperRequest,
    process: PrivilegedProcessReceipt,
    before: TargetIdentityManifest,
    fresh: TargetIdentityManifest,
)
    ensures
        layer_refusal(request, process, before, fresh) is None <==> {
            &&& privileged_protocol::request_refusal(request) is None
            &&& process.is_intact()
            &&& process.disposition is RediscoveryRequired
            &&& process.execution_id@ == request.execution_id@
            &&& process.plan_step_id == request.plan_step_id
            &&& before.manifest_digest@ == request.fresh_identity_digest@
            &&& before.target@ == request.target@
            &&& before.resolved_device@ == request.resolved_device@
            &&& fresh.target@ == request.target@
            &&& fresh.resolved_device@ == request.resolved_device@
            &&& layer_state_refusal(request.operation, before, fresh) is None
        },
{
}

/// The receipt of a verification says which execution, process, request, step and states it was
/// about, and which of the four mutations was verified.
pub proof fn verification_receipt_tells_what_was_verified(
    receipt: PrivilegedLayerVerificationReceipt,
    request: PrivilegedHelperRequest,
    process: PrivilegedProcessReceipt,
    before: TargetIdentityManifest,
    fresh: TargetIdentityManifest,
)
    requires
        layer_refusal(request, process, before, fresh) is None,
        is_verification_receipt(receipt, request, process, before, fresh),
    ensures
        receipt.schema_version == 1,
        receipt.execution_id@ == process.execution_id@,
        receipt.plan_step_id == process.plan_step_id,
        receipt.process_receipt_id@ == process.receipt_id@,
        receipt.request_id@ == request.request_id@,
        receipt.before_identity_digest@ == request.fresh_identity_digest@,
        receipt.fresh_identity_digest@ == fresh.manifest_digest@,
        receipt.expected_state_verified,
        receipt.verified_operation@ == match request.operation {
            NativeOperationSpec::ExtendPartition { .. } => "extend_partition"@,
            NativeOperationSpec::ResizePhysicalVolume { .. } => "resize_physical_volume"@,
            NativeOperationSpec::ExtendLogicalVolume { .. } => "extend_logical_volume"@,
            _ => "grow_filesystem"@,
        },
{
}

/// Each refusal of a verification names something that is wrong.
pub proof fn refused_verification_names_its_reason(
    request: PrivilegedHelperRequest,
    process: PrivilegedProcessReceipt,
    before: TargetIdentityManifest,
    fresh: TargetIdentityManifest,
)
    requires
        layer_refusal(request, process, before, fresh) is Some,
    ensures
        match layer_refusal(request, process, before, fresh)->Some_0 {
            PrivilegedLayerVerificationError::Protocol(e) => {
                privileged_protocol::request_refusal(request) == Some(e)
            },
            PrivilegedLayerVerificationError::ProcessReceiptIntegrityMismatch => !process.is_intact(),
            PrivilegedLayerVerificationError::RecoveryRequired => !(process.disposition
                is RediscoveryRequired),
            PrivilegedLayerVerificationError::ProcessBindingMismatch => process.execution_id@
                != request.execution_id@ || process.plan_step_id != request.plan_step_id,
            PrivilegedLayerVerificationError::BeforeIdentityMismatch => before.manifest_digest@
                != request.fresh_identity_digest@ || before.target@ != request.target@
                || before.resolved_device@ != request.resolved_device@,
            PrivilegedLayerVerificationError::TargetIdentityMismatch => fresh.target@
                != before.target@ || fresh.resolved_device@ != before.resolved_device@,
            PrivilegedLayerVerificationError::PartitionStateMismatch => request.operation
                is ExtendPartition,
            PrivilegedLayerVerificationError::PhysicalVolumeStateMismatch => request.operation
                is ResizePhysicalVolume,
            PrivilegedLayerVerificationError::LogicalVolumeStateMismatch => request.operation
                is ExtendLogicalVolume,
            PrivilegedLayerVerificationError::FilesystemStateMismatch => request.operation
                is GrowFilesystem,
            _ => !native_operation::changes_storage(request.operation),
        },
{
}

} // verus!
