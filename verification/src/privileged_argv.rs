//! Exact argument vectors for the privileged helper. Nothing here spawns a process.

use vstd::prelude::*;
use vstd::string::*;

use crate::reading;
use crate::text;
use crate::privileged_protocol;
use crate::native_operation;
use crate::model;
use crate::json;
use crate::json_reading;
use crate::digest;
use crate::digest::fingerprint_text;
use crate::json::{null_literal, texts_literal, Parts};
use crate::model::{
    find_lvm, find_mount, find_partition, DeviceIdentity, Lookup, LvmIdentityKind, MountIdentity,
    PartitionGeometryIdentity, TargetIdentityManifest,
};
use crate::native_operation::NativeOperationSpec;
use crate::privileged_protocol::{
    validate_privileged_helper_live_identity, validate_privileged_helper_request,
    PrivilegedHelperProtocolError, PrivilegedHelperRequest,
};
use crate::text::{
    chars_of, chars_start_with, copy_opt, copy_texts, decimal, digits_from, opt_is,
    parse_decimal_u32, push_decimal, safe_absolute_path, safe_device_path, same_text,
};

verus! {

/// The programs that the helper may run.
#[derive(Clone, Copy, Debug, PartialEq, Eq, Structural)]
pub enum PrivilegedProgram {
    Sfdisk,
    Partx,
    Pvresize,
    Lvextend,
    Resize2fs,
    XfsGrowfs,
}

/// The file name of a program, which is also its name in JSON.
pub open spec fn privileged_program_name(program: PrivilegedProgram) -> Seq<char> {
    match program {
        PrivilegedProgram::Sfdisk => "sfdisk"@,
        PrivilegedProgram::Partx => "partx"@,
        PrivilegedProgram::Pvresize => "pvresize"@,
        PrivilegedProgram::Lvextend => "lvextend"@,
        PrivilegedProgram::Resize2fs => "resize2fs"@,
        PrivilegedProgram::XfsGrowfs => "xfs_growfs"@,
    }
}

/// Different variants have different names.
pub proof fn lemma_privileged_program_name_told(a: PrivilegedProgram, b: PrivilegedProgram)
    requires
        privileged_program_name(a) == privileged_program_name(b),
    ensures
        a == b,
{
    reveal_strlit("sfdisk");
    reveal_strlit("partx");
    reveal_strlit("pvresize");
    reveal_strlit("lvextend");
    reveal_strlit("resize2fs");
    reveal_strlit("xfs_growfs");
    assert("sfdisk"@.len() == 6);
    assert("partx"@.len() == 5);
    assert("pvresize"@.len() == 8);
    assert("lvextend"@.len() == 8);
    assert("resize2fs"@.len() == 9);
    assert("xfs_growfs"@.len() == 10);
    assert(privileged_program_name(a).len() == privileged_program_name(b).len());
    assert("sfdisk"@[0] == 's');
    assert("partx"@[0] == 'p');
    assert("pvresize"@[0] == 'p');
    assert("lvextend"@[0] == 'l');
    assert("resize2fs"@[0] == 'r');
    assert("xfs_growfs"@[0] == 'x');
    assert(privileged_program_name(a)[0] == privileged_program_name(b)[0]);
}

impl PrivilegedProgram {
    pub fn as_str(self) -> (name: &'static str)
        ensures
            name@ == privileged_program_name(self),
    {
        match self {
            PrivilegedProgram::Sfdisk => "sfdisk",
            PrivilegedProgram::Partx => "partx",
            PrivilegedProgram::Pvresize => "pvresize",
            PrivilegedProgram::Lvextend => "lvextend",
            PrivilegedProgram::Resize2fs => "resize2fs",
            PrivilegedProgram::XfsGrowfs => "xfs_growfs",
        }
    }
}

/// The command that tells the kernel of a changed partition.
#[derive(Debug, PartialEq, Eq)]
pub struct PrivilegedKernelRefreshSpec {
    pub program: PrivilegedProgram,
    pub args: Vec<String>,
}

/// One command of the helper: a program, its exact arguments, its exact input and what has to
/// follow.
#[derive(Debug, PartialEq, Eq)]
pub struct PrivilegedCommandSpec {
    pub plan_step_id: u32,
    pub program: PrivilegedProgram,
    pub args: Vec<String>,
    pub stdin_payload: Option<String>,
    pub kernel_refresh: Option<PrivilegedKernelRefreshSpec>,
}

/// The content of a kernel refresh.
pub struct RefreshModel {
    pub program: PrivilegedProgram,
    pub args: Seq<Seq<char>>,
}

impl View for PrivilegedKernelRefreshSpec {
    type V = RefreshModel;

    open spec fn view(&self) -> RefreshModel {
        RefreshModel { program: self.program, args: text::texts(self.args@) }
    }
}

/// The content of an optional kernel refresh.
pub open spec fn refresh_model(refresh: Option<PrivilegedKernelRefreshSpec>) -> Option<
    RefreshModel,
> {
    match refresh {
        Some(r) => Some(r@),
        None => None,
    }
}

/// The content of a command.
pub struct PrivilegedCommandModel {
    pub plan_step_id: u32,
    pub program: PrivilegedProgram,
    pub args: Seq<Seq<char>>,
    pub stdin_payload: Option<Seq<char>>,
    pub kernel_refresh: Option<RefreshModel>,
}

impl View for PrivilegedCommandSpec {
    type V = PrivilegedCommandModel;

    open spec fn view(&self) -> PrivilegedCommandModel {
        PrivilegedCommandModel {
            plan_step_id: self.plan_step_id,
            program: self.program,
            args: text::texts(self.args@),
            stdin_payload: text::opt_text(self.stdin_payload),
            kernel_refresh: refresh_model(self.kernel_refresh),
        }
    }
}

impl Clone for PrivilegedKernelRefreshSpec {
    fn clone(&self) -> (copy: Self)
        ensures
            copy@ == self@,
    {
        PrivilegedKernelRefreshSpec { program: self.program, args: copy_texts(&self.args) }
    }
}

impl Clone for PrivilegedCommandSpec {
    fn clone(&self) -> (copy: Self)
        ensures
            copy@ == self@,
    {
        PrivilegedCommandSpec {
            plan_step_id: self.plan_step_id,
            program: self.program,
            args: copy_texts(&self.args),
            stdin_payload: copy_opt(&self.stdin_payload),
            kernel_refresh: match &self.kernel_refresh {
                Some(refresh) => Some(refresh.clone()),
                None => None,
            },
        }
    }
}

/// What a kernel refresh is fingerprinted by, in order.
pub open spec fn refresh_parts(refresh: RefreshModel) -> Seq<Seq<char>> {
    Seq::empty()
        .push(json::json_field("program"@, json::json_text(privileged_program_name(refresh.program))))
        .push(json::json_field("args"@, json::json_texts(refresh.args)))
}

/// The JSON form of a kernel refresh.
pub open spec fn refresh_json(refresh: RefreshModel) -> Seq<char> {
    json::json_object(refresh_parts(refresh))
}

/// The JSON form of an optional kernel refresh.
pub open spec fn opt_refresh_json(refresh: Option<RefreshModel>) -> Seq<char> {
    match refresh {
        Some(r) => refresh_json(r),
        None => json::json_null(),
    }
}

/// What a command is fingerprinted by, in order.
pub open spec fn privileged_command_parts(command: PrivilegedCommandModel) -> Seq<Seq<char>> {
    Seq::empty()
        .push(json::json_field("plan_step_id"@, json::json_number(command.plan_step_id as int)))
        .push(json::json_field("program"@, json::json_text(privileged_program_name(command.program))))
        .push(json::json_field("args"@, json::json_texts(command.args)))
        .push(json::json_field("stdin_payload"@, json::json_opt_text(command.stdin_payload)))
        .push(json::json_field("kernel_refresh"@, opt_refresh_json(command.kernel_refresh)))
}

/// The JSON form of a command.
pub open spec fn privileged_command_json(command: PrivilegedCommandModel) -> Seq<char> {
    json::json_object(privileged_command_parts(command))
}

/// The fingerprint of a command.
pub open spec fn command_fingerprint(command: PrivilegedCommandModel) -> Seq<char> {
    digest::text_fingerprint(privileged_command_json(command))
}

impl PrivilegedCommandSpec {
    /// The fingerprint of the command.
    pub fn digest(&self) -> (result: Result<String, PrivilegedArgvError>)
        ensures
            result is Ok,
            result->Ok_0@ == command_fingerprint(self@),
            text::is_digest_text(result->Ok_0@),
    {
        Ok(self.fingerprint())
    }

    pub(crate) fn fingerprint(&self) -> (digest: String)
        ensures
            digest@ == command_fingerprint(self@),
            text::is_digest_text(digest@),
    {
        let refresh = match &self.kernel_refresh {
            Some(refresh) => {
                let mut parts = Parts::new();
                parts.field_text("program", refresh.program.as_str());
                parts.field("args", texts_literal(&refresh.args));
                parts.object()
            },
            None => null_literal(),
        };
        let mut parts = Parts::new();
        parts.field_number("plan_step_id", self.plan_step_id as u64);
        parts.field_text("program", self.program.as_str());
        parts.field("args", texts_literal(&self.args));
        parts.field_opt_text("stdin_payload", &self.stdin_payload);
        parts.field("kernel_refresh", refresh);
        fingerprint_text(parts.object().as_str())
    }
}

#[derive(Clone, Copy, Debug, PartialEq, Eq, Structural)]
pub enum PrivilegedArgvError {
    Protocol(PrivilegedHelperProtocolError),
    PartitionIdentityNotUnique,
    PartitionGeometryMismatch,
    UnsafePartitionPath,
    PartitionNumberInvalid,
    PartitionGrowthOutOfBounds,
    PhysicalVolumeIdentityNotUnique,
    PhysicalVolumeMismatch,
    LogicalVolumeIdentityNotUnique,
    LogicalVolumeMismatch,
    FilesystemIdentityMissing,
    FilesystemMismatch,
    FilesystemMountMismatch,
    UnsupportedOperation,
}

/// The digits that number a partition of a disk: what follows the path of the disk, and a `p`
/// where that path itself ends in a digit. Elsewhere the `p` may be left out.
pub open spec fn partition_digits(partition: Seq<char>, disk: Seq<char>) -> Option<Seq<char>> {
    if !text::has_prefix(partition, disk) {
        None
    } else {
        let suffix = partition.subrange(disk.len() as int, partition.len() as int);
        let rest = suffix.subrange(1, suffix.len() as int);
        if suffix.len() > 0 && suffix[0] == 'p' {
            Some(rest)
        } else if disk.len() > 0 && text::is_digit_char(disk.last()) {
            None
        } else {
            Some(suffix)
        }
    }
}

/// The number of a partition of a disk.
pub open spec fn partition_number_of(partition: Seq<char>, disk: Seq<char>) -> Option<nat> {
    match partition_digits(partition, disk) {
        None => None,
        Some(digits) => {
            if digits.len() > 0 && text::all_digits(digits) && 0 < text::decimal_value(digits) <= u32::MAX {
                Some(text::decimal_value(digits))
            } else {
                None
            }
        },
    }
}

/// Derives the number of a partition from its path and that of its disk.
pub fn partition_number(partition: &str, disk: &str) -> (number: Option<u32>)
    ensures
        match number {
            Some(n) => partition_number_of(partition@, disk@) == Some(n as nat),
            None => partition_number_of(partition@, disk@) is None,
        },
{
    let chars = chars_of(partition);
    let prefix = chars_of(disk);
    if !chars_start_with(&chars, &prefix) {
        return None;
    }
    let at: usize = prefix.len();
    let ends_in_digit = at > 0 && '0' <= prefix[at - 1] && prefix[at - 1] <= '9';
    let ghost suffix = partition@.subrange(at as int, partition@.len() as int);
    let marked = chars.len() > at && chars[at] == 'p';
    if !marked && ends_in_digit {
        return None;
    }
    let from: usize = if marked {
        at + 1
    } else {
        at
    };
    proof {
        if marked {
            assert(suffix[0] == 'p');
            assert(suffix.subrange(1, suffix.len() as int) =~= partition@.subrange(
                from as int,
                partition@.len() as int,
            ));
        }
    }
    if chars.len() == from || !digits_from(&chars, from) {
        return None;
    }
    match parse_decimal_u32(&chars, from) {
        None => None,
        Some(n) => if n > 0 {
            Some(n)
        } else {
            None
        },
    }
}

/// What a compilation owes: a command or a refusal.
pub type PrivilegedCompilation = Result<PrivilegedCommandModel, PrivilegedArgvError>;

/// The first device with one path.
pub open spec fn first_device(items: Seq<DeviceIdentity>, path: Seq<char>) -> Option<
    DeviceIdentity,
> {
    text::first_some(
        items.len() as int,
        |i: int|
            if items[i].path@ == path {
                Some(items[i])
            } else {
                None
            },
    )
}

fn find_first_device<'a>(items: &'a Vec<DeviceIdentity>, path: &str) -> (found: Option<
    &'a DeviceIdentity,
>)
    ensures
        match found {
            Some(device) => first_device(items@, path@) == Some(*device),
            None => first_device(items@, path@) is None,
        },
{
    let ghost at = |i: int|
        if items@[i].path@ == path@ {
            Some(items@[i])
        } else {
            None
        };
    let mut i: usize = 0;
    while i < items.len()
        invariant
            i <= items@.len(),
            at == (|i: int|
                if items@[i].path@ == path@ {
                    Some(items@[i])
                } else {
                    None
                }),
            text::first_some(i as int, at) is None,
        decreases items@.len() - i,
    {
        if same_text(items[i].path.as_str(), path) {
            proof {
                assert(text::first_some(i + 1, at) == Some(items@[i as int]));
                text::lemma_first_some_stays(i + 1, items@.len() as int, at);
            }
            return Some(&items[i]);
        }
        i += 1;
    }
    None
}

/// The partition is exactly the one that the growth was planned for.
pub open spec fn is_planned_geometry(
    geometry: PartitionGeometryIdentity,
    start_sector: u64,
    old_size_sectors: u64,
    new_size_sectors: u64,
    sector_size_bytes: u64,
) -> bool {
    &&& (text::opt_text(geometry.table_label) == Some("gpt"@) || text::opt_text(geometry.table_label) == Some(
        "dos"@,
    ))
    &&& geometry.start_sector == Some(start_sector)
    &&& geometry.size_sectors == Some(old_size_sectors)
    &&& geometry.sector_size_bytes == Some(sector_size_bytes)
    &&& sector_size_bytes != 0
    &&& old_size_sectors != 0
    &&& new_size_sectors > old_size_sectors
}

/// The command that grows a partition in place.
pub open spec fn partition_command(
    plan_step_id: u32,
    partition: Seq<char>,
    start_sector: u64,
    old_size_sectors: u64,
    new_size_sectors: u64,
    sector_size_bytes: u64,
    identity: TargetIdentityManifest,
) -> PrivilegedCompilation {
    let found = model::partitions_named(identity.partitions@, partition);
    if found.len() != 1 {
        Err(PrivilegedArgvError::PartitionIdentityNotUnique)
    } else {
        let geometry = found[0];
        match geometry.disk {
            None => Err(PrivilegedArgvError::PartitionGeometryMismatch),
            Some(disk) => {
                if !text::is_safe_device_path(partition) || !text::is_safe_device_path(disk@) {
                    Err(PrivilegedArgvError::UnsafePartitionPath)
                } else if !is_planned_geometry(
                    geometry,
                    start_sector,
                    old_size_sectors,
                    new_size_sectors,
                    sector_size_bytes,
                ) {
                    Err(PrivilegedArgvError::PartitionGeometryMismatch)
                } else {
                    match partition_number_of(partition, disk@) {
                        None => Err(PrivilegedArgvError::PartitionNumberInvalid),
                        Some(number) => match first_device(identity.devices@, disk@) {
                            None => Err(PrivilegedArgvError::PartitionGrowthOutOfBounds),
                            Some(device) => {
                                if start_sector + new_size_sectors > device.size_bytes as int
                                    / sector_size_bytes as int {
                                    Err(PrivilegedArgvError::PartitionGrowthOutOfBounds)
                                } else {
                                    Ok(
                                        partition_growth(
                                            plan_step_id,
                                            number,
                                            disk@,
                                            start_sector,
                                            new_size_sectors,
                                        ),
                                    )
                                }
                            },
                        },
                    }
                }
            },
        }
    }
}

/// `sfdisk` rewrites one entry of the table from its standard input, `partx` then refreshes the
/// same entry in the kernel.
pub open spec fn partition_growth(
    plan_step_id: u32,
    number: nat,
    disk: Seq<char>,
    start_sector: u64,
    new_size_sectors: u64,
) -> PrivilegedCommandModel {
    PrivilegedCommandModel {
        plan_step_id,
        program: PrivilegedProgram::Sfdisk,
        args: seq![
            "--lock=yes"@,
            "--no-reread"@,
            "--no-tell-kernel"@,
            "-N"@,
            text::decimal_text(number),
            disk,
        ],
        stdin_payload: Some(
            "start="@ + text::decimal_text(start_sector as nat) + ", size="@ + text::decimal_text(
                new_size_sectors as nat,
            ) + "\n"@,
        ),
        kernel_refresh: Some(
            RefreshModel {
                program: PrivilegedProgram::Partx,
                args: seq!["--update"@, "--nr"@, text::decimal_text(number), disk],
            },
        ),
    }
}

/// A command without input and without a kernel refresh.
pub open spec fn plain_command(
    plan_step_id: u32,
    program: PrivilegedProgram,
    args: Seq<Seq<char>>,
) -> PrivilegedCommandModel {
    PrivilegedCommandModel {
        plan_step_id,
        program,
        args,
        stdin_payload: None,
        kernel_refresh: None,
    }
}

/// The command that grows a physical volume: its size counts the area in front of the first
/// extent.
pub open spec fn physical_volume_command(
    plan_step_id: u32,
    pv_uuid: Seq<char>,
    expected_pv_size_bytes: u64,
    identity: TargetIdentityManifest,
) -> PrivilegedCompilation {
    let found = model::lvm_with(identity.lvm@, LvmIdentityKind::PhysicalVolume, pv_uuid);
    if found.len() != 1 {
        Err(PrivilegedArgvError::PhysicalVolumeIdentityNotUnique)
    } else {
        let pv = found[0];
        if !text::is_safe_device_path(pv.name@) || expected_pv_size_bytes == 0 || expected_pv_size_bytes
            <= pv.size_bytes || pv.pe_start_bytes is None || expected_pv_size_bytes
            + pv.pe_start_bytes->Some_0 > u64::MAX {
            Err(PrivilegedArgvError::PhysicalVolumeMismatch)
        } else {
            Ok(
                plain_command(
                    plan_step_id,
                    PrivilegedProgram::Pvresize,
                    seq![
                        "--yes"@,
                        "--setphysicalvolumesize"@,
                        text::decimal_text((expected_pv_size_bytes + pv.pe_start_bytes->Some_0) as nat)
                            + "B"@,
                        "--"@,
                        pv.name@,
                    ],
                ),
            )
        }
    }
}

/// The command that grows a logical volume by an exact number of extents.
pub open spec fn logical_volume_command(
    plan_step_id: u32,
    lv_uuid: Seq<char>,
    additional_extents: u64,
    expected_lv_size_bytes: u64,
    identity: TargetIdentityManifest,
) -> PrivilegedCompilation {
    let found = model::lvm_with(identity.lvm@, LvmIdentityKind::LogicalVolume, lv_uuid);
    if found.len() != 1 {
        Err(PrivilegedArgvError::LogicalVolumeIdentityNotUnique)
    } else if !text::is_safe_device_path(found[0].name@) || additional_extents == 0
        || expected_lv_size_bytes == 0 || expected_lv_size_bytes <= found[0].size_bytes {
        Err(PrivilegedArgvError::LogicalVolumeMismatch)
    } else {
        Ok(
            plain_command(
                plan_step_id,
                PrivilegedProgram::Lvextend,
                seq![
                    "--extents"@,
                    "+"@ + text::decimal_text(additional_extents as nat),
                    "--"@,
                    found[0].name@,
                ],
            ),
        )
    }
}

/// The filesystem is mounted there, and only once.
pub open spec fn is_mounted_once(
    mounts: Seq<MountIdentity>,
    mountpoint: Seq<char>,
    fs_type: Seq<char>,
) -> bool {
    text::is_safe_absolute_path(mountpoint) && model::mounts_on(mounts, mountpoint, fs_type).len() == 1
}

/// The command that grows a filesystem: ext4 mounted or not mounted at all, xfs mounted.
pub open spec fn grow_command(
    plan_step_id: u32,
    fs_type: Seq<char>,
    mountpoint: Option<Seq<char>>,
    identity: TargetIdentityManifest,
) -> PrivilegedCompilation {
    match identity.filesystem {
        None => Err(PrivilegedArgvError::FilesystemIdentityMissing),
        Some(filesystem) => {
            if filesystem.device@ != identity.resolved_device@ || filesystem.fs_type@ != fs_type
                || !text::is_safe_device_path(filesystem.device@) {
                Err(PrivilegedArgvError::FilesystemMismatch)
            } else if fs_type == "ext4"@ {
                if match mountpoint {
                    Some(m) => !is_mounted_once(identity.mounts@, m, fs_type),
                    None => identity.mounts@.len() > 0,
                } {
                    Err(PrivilegedArgvError::FilesystemMountMismatch)
                } else {
                    Ok(
                        plain_command(
                            plan_step_id,
                            PrivilegedProgram::Resize2fs,
                            seq![filesystem.device@],
                        ),
                    )
                }
            } else if fs_type == "xfs"@ {
                if mountpoint is None || !is_mounted_once(
                    identity.mounts@,
                    mountpoint->Some_0,
                    fs_type,
                ) {
                    Err(PrivilegedArgvError::FilesystemMountMismatch)
                } else {
                    Ok(
                        plain_command(
                            plan_step_id,
                            PrivilegedProgram::XfsGrowfs,
                            seq!["-d"@, mountpoint->Some_0],
                        ),
                    )
                }
            } else {
                Err(PrivilegedArgvError::FilesystemMismatch)
            }
        },
    }
}

/// The command of one operation.
pub open spec fn operation_command(
    plan_step_id: u32,
    operation: NativeOperationSpec,
    identity: TargetIdentityManifest,
) -> PrivilegedCompilation {
    match operation {
        NativeOperationSpec::ExtendPartition {
            partition,
            start_sector,
            old_size_sectors,
            new_size_sectors,
            sector_size_bytes,
        } => partition_command(
            plan_step_id,
            partition@,
            start_sector,
            old_size_sectors,
            new_size_sectors,
            sector_size_bytes,
            identity,
        ),
        NativeOperationSpec::ResizePhysicalVolume { pv_uuid, expected_pv_size_bytes } => {
            physical_volume_command(plan_step_id, pv_uuid@, expected_pv_size_bytes, identity)
        },
        NativeOperationSpec::ExtendLogicalVolume {
            lv_uuid,
            additional_extents,
            expected_lv_size_bytes,
        } => logical_volume_command(
            plan_step_id,
            lv_uuid@,
            additional_extents,
            expected_lv_size_bytes,
            identity,
        ),
        NativeOperationSpec::GrowFilesystem { fs_type, mountpoint } => grow_command(
            plan_step_id,
            fs_type@,
            text::opt_text(mountpoint),
            identity,
        ),
        _ => Err(PrivilegedArgvError::UnsupportedOperation),
    }
}

/// A compilation has the outcome that is owed.
pub open spec fn compiles_as(
    result: Result<PrivilegedCommandSpec, PrivilegedArgvError>,
    owed: PrivilegedCompilation,
) -> bool {
    match result {
        Ok(command) => owed == PrivilegedCompilation::Ok(command@),
        Err(e) => owed == PrivilegedCompilation::Err(e),
    }
}

fn without_input(plan_step_id: u32, program: PrivilegedProgram, args: Vec<String>) -> (command:
    PrivilegedCommandSpec)
    ensures
        command@ == plain_command(plan_step_id, program, text::texts(args@)),
{
    PrivilegedCommandSpec { plan_step_id, program, args, stdin_payload: None, kernel_refresh: None }
}

fn compile_partition(
    plan_step_id: u32,
    partition: &str,
    start_sector: u64,
    old_size_sectors: u64,
    new_size_sectors: u64,
    sector_size_bytes: u64,
    identity: &TargetIdentityManifest,
) -> (result: Result<PrivilegedCommandSpec, PrivilegedArgvError>)
    ensures
        compiles_as(
            result,
            partition_command(
                plan_step_id,
                partition@,
                start_sector,
                old_size_sectors,
                new_size_sectors,
                sector_size_bytes,
                *identity,
            ),
        ),
{
    let geometry = match find_partition(&identity.partitions, partition) {
        Lookup::Unique(i) => &identity.partitions[i],
        _ => return Err(PrivilegedArgvError::PartitionIdentityNotUnique),
    };
    let disk = match &geometry.disk {
        Some(disk) => disk.as_str(),
        None => return Err(PrivilegedArgvError::PartitionGeometryMismatch),
    };
    if !safe_device_path(partition) || !safe_device_path(disk) {
        return Err(PrivilegedArgvError::UnsafePartitionPath);
    }
    let as_planned = (opt_is(&geometry.table_label, "gpt") || opt_is(&geometry.table_label, "dos"))
        && matches!(geometry.start_sector, Some(start) if start == start_sector) && matches!(
        geometry.size_sectors, Some(size) if size == old_size_sectors
    ) && matches!(geometry.sector_size_bytes, Some(size) if size == sector_size_bytes)
        && sector_size_bytes != 0 && old_size_sectors != 0 && new_size_sectors > old_size_sectors;
    if !as_planned {
        return Err(PrivilegedArgvError::PartitionGeometryMismatch);
    }
    let number: u32 = match partition_number(partition, disk) {
        Some(number) => number,
        None => return Err(PrivilegedArgvError::PartitionNumberInvalid),
    };
    let device = match find_first_device(&identity.devices, disk) {
        Some(device) => device,
        None => return Err(PrivilegedArgvError::PartitionGrowthOutOfBounds),
    };
    let disk_sectors: u64 = device.size_bytes / sector_size_bytes;
    match start_sector.checked_add(new_size_sectors) {
        None => {
            proof {
                assert(device.size_bytes as int / sector_size_bytes as int <= u64::MAX);
            }
            return Err(PrivilegedArgvError::PartitionGrowthOutOfBounds);
        },
        Some(end) => {
            if end > disk_sectors {
                return Err(PrivilegedArgvError::PartitionGrowthOutOfBounds);
            }
        },
    }
    let mut args: Vec<String> = Vec::new();
    args.push("--lock=yes".to_owned());
    args.push("--no-reread".to_owned());
    args.push("--no-tell-kernel".to_owned());
    args.push("-N".to_owned());
    args.push(decimal(number as u64));
    args.push(disk.to_owned());
    assert(text::texts(args@) =~= seq![
        "--lock=yes"@,
        "--no-reread"@,
        "--no-tell-kernel"@,
        "-N"@,
        text::decimal_text(number as nat),
        disk@,
    ]);
    let mut payload = "start=".to_owned();
    push_decimal(&mut payload, start_sector);
    payload.append(", size=");
    push_decimal(&mut payload, new_size_sectors);
    payload.append("\n");
    let mut refresh: Vec<String> = Vec::new();
    refresh.push("--update".to_owned());
    refresh.push("--nr".to_owned());
    refresh.push(decimal(number as u64));
    refresh.push(disk.to_owned());
    assert(text::texts(refresh@) =~= seq!["--update"@, "--nr"@, text::decimal_text(number as nat), disk@]);
    Ok(
        PrivilegedCommandSpec {
            plan_step_id,
            program: PrivilegedProgram::Sfdisk,
            args,
            stdin_payload: Some(payload),
            kernel_refresh: Some(
                PrivilegedKernelRefreshSpec { program: PrivilegedProgram::Partx, args: refresh },
            ),
        },
    )
}

fn compile_physical_volume(
    plan_step_id: u32,
    pv_uuid: &str,
    expected_pv_size_bytes: u64,
    identity: &TargetIdentityManifest,
) -> (result: Result<PrivilegedCommandSpec, PrivilegedArgvError>)
    ensures
        compiles_as(
            result,
            physical_volume_command(plan_step_id, pv_uuid@, expected_pv_size_bytes, *identity),
        ),
{
    let pv = match find_lvm(&identity.lvm, LvmIdentityKind::PhysicalVolume, pv_uuid) {
        Lookup::Unique(i) => &identity.lvm[i],
        _ => return Err(PrivilegedArgvError::PhysicalVolumeIdentityNotUnique),
    };
    if !safe_device_path(pv.name.as_str()) || expected_pv_size_bytes == 0 || expected_pv_size_bytes
        <= pv.size_bytes {
        return Err(PrivilegedArgvError::PhysicalVolumeMismatch);
    }
    let pe_start: u64 = match pv.pe_start_bytes {
        Some(pe_start) => pe_start,
        None => return Err(PrivilegedArgvError::PhysicalVolumeMismatch),
    };
    let raw_limit: u64 = match expected_pv_size_bytes.checked_add(pe_start) {
        Some(raw_limit) => raw_limit,
        None => return Err(PrivilegedArgvError::PhysicalVolumeMismatch),
    };
    let mut size = decimal(raw_limit);
    size.append("B");
    let mut args: Vec<String> = Vec::new();
    args.push("--yes".to_owned());
    args.push("--setphysicalvolumesize".to_owned());
    args.push(size);
    args.push("--".to_owned());
    args.push(pv.name.clone());
    assert(text::texts(args@) =~= seq![
        "--yes"@,
        "--setphysicalvolumesize"@,
        text::decimal_text(raw_limit as nat) + "B"@,
        "--"@,
        pv.name@,
    ]);
    Ok(without_input(plan_step_id, PrivilegedProgram::Pvresize, args))
}

fn compile_logical_volume(
    plan_step_id: u32,
    lv_uuid: &str,
    additional_extents: u64,
    expected_lv_size_bytes: u64,
    identity: &TargetIdentityManifest,
) -> (result: Result<PrivilegedCommandSpec, PrivilegedArgvError>)
    ensures
        compiles_as(
            result,
            logical_volume_command(
                plan_step_id,
                lv_uuid@,
                additional_extents,
                expected_lv_size_bytes,
                *identity,
            ),
        ),
{
    let lv = match find_lvm(&identity.lvm, LvmIdentityKind::LogicalVolume, lv_uuid) {
        Lookup::Unique(i) => &identity.lvm[i],
        _ => return Err(PrivilegedArgvError::LogicalVolumeIdentityNotUnique),
    };
    if !safe_device_path(lv.name.as_str()) || additional_extents == 0 || expected_lv_size_bytes == 0
        || expected_lv_size_bytes <= lv.size_bytes {
        return Err(PrivilegedArgvError::LogicalVolumeMismatch);
    }
    let mut extents = "+".to_owned();
    push_decimal(&mut extents, additional_extents);
    let mut args: Vec<String> = Vec::new();
    args.push("--extents".to_owned());
    args.push(extents);
    args.push("--".to_owned());
    args.push(lv.name.clone());
    assert(text::texts(args@) =~= seq![
        "--extents"@,
        "+"@ + text::decimal_text(additional_extents as nat),
        "--"@,
        lv.name@,
    ]);
    Ok(without_input(plan_step_id, PrivilegedProgram::Lvextend, args))
}

fn mounted_once(mounts: &Vec<MountIdentity>, mountpoint: &str, fs_type: &str) -> (yes: bool)
    ensures
        yes == is_mounted_once(mounts@, mountpoint@, fs_type@),
{
    safe_absolute_path(mountpoint) && matches!(
        find_mount(mounts, mountpoint, fs_type),
        Lookup::Unique(_)
    )
}

fn compile_filesystem(
    plan_step_id: u32,
    fs_type: &str,
    mountpoint: &Option<String>,
    identity: &TargetIdentityManifest,
) -> (result: Result<PrivilegedCommandSpec, PrivilegedArgvError>)
    ensures
        compiles_as(
            result,
            grow_command(plan_step_id, fs_type@, text::opt_text(*mountpoint), *identity),
        ),
{
    let filesystem = match &identity.filesystem {
        Some(filesystem) => filesystem,
        None => return Err(PrivilegedArgvError::FilesystemIdentityMissing),
    };
    if !same_text(filesystem.device.as_str(), identity.resolved_device.as_str()) || !same_text(
        filesystem.fs_type.as_str(),
        fs_type,
    ) || !safe_device_path(filesystem.device.as_str()) {
        return Err(PrivilegedArgvError::FilesystemMismatch);
    }
    let mut args: Vec<String> = Vec::new();
    if same_text(fs_type, "ext4") {
        match mountpoint {
            Some(mountpoint) => {
                if !mounted_once(&identity.mounts, mountpoint.as_str(), fs_type) {
                    return Err(PrivilegedArgvError::FilesystemMountMismatch);
                }
            },
            None => {
                if identity.mounts.len() > 0 {
                    return Err(PrivilegedArgvError::FilesystemMountMismatch);
                }
            },
        }
        args.push(filesystem.device.clone());
        assert(text::texts(args@) =~= seq![filesystem.device@]);
        return Ok(without_input(plan_step_id, PrivilegedProgram::Resize2fs, args));
    }
    if same_text(fs_type, "xfs") {
        match mountpoint {
            None => return Err(PrivilegedArgvError::FilesystemMountMismatch),
            Some(mountpoint) => {
                if !mounted_once(&identity.mounts, mountpoint.as_str(), fs_type) {
                    return Err(PrivilegedArgvError::FilesystemMountMismatch);
                }
                args.push("-d".to_owned());
                args.push(mountpoint.clone());
                assert(text::texts(args@) =~= seq!["-d"@, mountpoint@]);
                return Ok(without_input(plan_step_id, PrivilegedProgram::XfsGrowfs, args));
            },
        }
    }
    Err(PrivilegedArgvError::FilesystemMismatch)
}

/// Compiles one operation against the live identity of its target.
pub fn compile_operation(
    plan_step_id: u32,
    operation: &NativeOperationSpec,
    identity: &TargetIdentityManifest,
) -> (result: Result<PrivilegedCommandSpec, PrivilegedArgvError>)
    ensures
        compiles_as(result, operation_command(plan_step_id, *operation, *identity)),
{
    match operation {
        NativeOperationSpec::ExtendPartition {
            partition,
            start_sector,
            old_size_sectors,
            new_size_sectors,
            sector_size_bytes,
        } => compile_partition(
            plan_step_id,
            partition.as_str(),
            *start_sector,
            *old_size_sectors,
            *new_size_sectors,
            *sector_size_bytes,
            identity,
        ),
        NativeOperationSpec::ResizePhysicalVolume { pv_uuid, expected_pv_size_bytes } => {
            compile_physical_volume(
                plan_step_id,
                pv_uuid.as_str(),
                *expected_pv_size_bytes,
                identity,
            )
        },
        NativeOperationSpec::ExtendLogicalVolume {
            lv_uuid,
            additional_extents,
            expected_lv_size_bytes,
        } => compile_logical_volume(
            plan_step_id,
            lv_uuid.as_str(),
            *additional_extents,
            *expected_lv_size_bytes,
            identity,
        ),
        NativeOperationSpec::GrowFilesystem { fs_type, mountpoint } => compile_filesystem(
            plan_step_id,
            fs_type.as_str(),
            mountpoint,
            identity,
        ),
        _ => Err(PrivilegedArgvError::UnsupportedOperation),
    }
}

/// What a request compiles to: it has to be valid, live and compilable.
pub open spec fn request_command(
    request: PrivilegedHelperRequest,
    live: TargetIdentityManifest,
) -> PrivilegedCompilation {
    if privileged_protocol::request_refusal(request) is Some {
        Err(PrivilegedArgvError::Protocol(privileged_protocol::request_refusal(request)->Some_0))
    } else if !privileged_protocol::is_live(request, live) {
        Err(
            PrivilegedArgvError::Protocol(
                PrivilegedHelperProtocolError::FreshIdentityBindingMismatch,
            ),
        )
    } else {
        operation_command(request.plan_step_id, request.operation, live)
    }
}

/// Compiles a request into the exact command of the helper.
pub fn compile_privileged_helper_command(
    request: &PrivilegedHelperRequest,
    live_identity: &TargetIdentityManifest,
) -> (result: Result<PrivilegedCommandSpec, PrivilegedArgvError>)
    ensures
        compiles_as(result, request_command(*request, *live_identity)),
{
    match validate_privileged_helper_request(request) {
        Ok(_) => {},
        Err(e) => return Err(PrivilegedArgvError::Protocol(e)),
    }
    match validate_privileged_helper_live_identity(request, live_identity) {
        Ok(_) => {},
        Err(e) => return Err(PrivilegedArgvError::Protocol(e)),
    }
    compile_operation(request.plan_step_id, &request.operation, live_identity)
}

/// A compiled command belongs to the step of its request, and only a partition change carries
/// input and a kernel refresh.
pub proof fn command_belongs_to_its_request(
    request: PrivilegedHelperRequest,
    live: TargetIdentityManifest,
)
    requires
        request_command(request, live) is Ok,
    ensures
        request_command(request, live)->Ok_0.plan_step_id == request.plan_step_id,
        native_operation::changes_storage(request.operation),
        request_command(request, live)->Ok_0.stdin_payload is Some
            <==> request.operation is ExtendPartition,
        request_command(request, live)->Ok_0.kernel_refresh is Some
            <==> request.operation is ExtendPartition,
{
}

/// The form is one value.
proof fn lemma_refresh_value(x: RefreshModel)
    ensures
        json_reading::is_value(refresh_json(x)),
{
    broadcast use crate::json_reading::group_json_reading;

    assert(json_reading::are_values(refresh_parts(x)));
}

proof fn lemma_refresh_told(a: RefreshModel, b: RefreshModel)
    requires
        refresh_json(a) == refresh_json(b),
    ensures
        a == b,
{
    broadcast use crate::json_reading::group_json_reading;

    let p = refresh_parts(a);
    let q = refresh_parts(b);
    assert(json_reading::are_values(p) && json_reading::are_values(q));
    assert(p[0] == q[0]);
    assert(p[1] == q[1]);
    lemma_privileged_program_name_told(a.program, b.program);
}

pub proof fn lemma_opt_refresh_value(x: Option<RefreshModel>)
    ensures
        json_reading::is_value(opt_refresh_json(x)),
{
    match x {
        Some(y) => lemma_refresh_value(y),
        None => json_reading::null_is_value(),
    }
}

proof fn lemma_opt_refresh_told(a: Option<RefreshModel>, b: Option<RefreshModel>)
    requires
        opt_refresh_json(a) == opt_refresh_json(b),
    ensures
        a == b,
{
    if a is Some {
        json_reading::object_is_not_null(refresh_parts(a->Some_0));
    }
    if b is Some {
        json_reading::object_is_not_null(refresh_parts(b->Some_0));
    }
    if a is Some && b is Some {
        lemma_refresh_told(a->Some_0, b->Some_0);
    }
}

proof fn lemma_privileged_command_told(a: PrivilegedCommandModel, b: PrivilegedCommandModel)
    requires
        privileged_command_json(a) == privileged_command_json(b),
    ensures
        a == b,
{
    broadcast use crate::json_reading::group_json_reading;

    lemma_opt_refresh_value(a.kernel_refresh);
    lemma_opt_refresh_value(b.kernel_refresh);
    let p = privileged_command_parts(a);
    let q = privileged_command_parts(b);
    assert(json_reading::are_values(p) && json_reading::are_values(q));
    assert(p[0] == q[0]);
    assert(p[1] == q[1]);
    assert(p[2] == q[2]);
    assert(p[3] == q[3]);
    assert(p[4] == q[4]);
    lemma_privileged_program_name_told(a.program, b.program);
    lemma_opt_refresh_told(a.kernel_refresh, b.kernel_refresh);
}

/// Different commands have different digests, short of a SHA-256 collision.
pub proof fn different_commands_have_different_digests(a: PrivilegedCommandModel, b: PrivilegedCommandModel)
    requires
        a != b,
    ensures
        command_fingerprint(a) != command_fingerprint(b) || digest::is_collision(privileged_command_json(a), privileged_command_json(b)),
{
    if command_fingerprint(a) == command_fingerprint(b) {
        digest::fingerprint_tells_its_text(privileged_command_json(a), privileged_command_json(b));
        if privileged_command_json(a) == privileged_command_json(b) {
            lemma_privileged_command_told(a, b);
        }
    }
}

/// The partition is the numbered one of the disk: behind the path of the disk stand digits that
/// read as the number, with a `p` between the two where the path of the disk ends in a digit, and
/// with or without it elsewhere.
pub open spec fn is_partition_of_disk(partition: Seq<char>, disk: Seq<char>, number: int) -> bool {
    exists|digits: Seq<char>|
        {
            &&& #[trigger] reading::is_digit_row(digits)
            &&& reading::number_in(digits) == number
            &&& {
                ||| partition == disk + seq!['p'] + digits
                ||| partition == disk + digits && !(disk.len() > 0 && '0' <= disk[disk.len() - 1]
                    <= '9')
            }
        }
}

/// A partition has the number that its path spells behind the path of its disk, and none where
/// there is no such number between one and the largest of 32 bits.
pub proof fn partition_number_is_the_one_in_its_path(partition: Seq<char>, disk: Seq<char>)
    ensures
        forall|n: nat|
            #![trigger is_partition_of_disk(partition, disk, n as int)]
            partition_number_of(partition, disk) == Some(n) <==> {
                &&& 0 < n <= 0xffff_ffff
                &&& is_partition_of_disk(partition, disk, n as int)
            },
{
    assert forall|n: nat|
        #![trigger is_partition_of_disk(partition, disk, n as int)]
        partition_number_of(partition, disk) == Some(n) <==> {
            &&& 0 < n <= 0xffff_ffff
            &&& is_partition_of_disk(partition, disk, n as int)
        } by {
        if partition_number_of(partition, disk) == Some(n) {
            let digits = partition_digits(partition, disk)->Some_0;
            reading::digits_are_read_as_their_number(digits);
            let suffix = partition.subrange(disk.len() as int, partition.len() as int);
            assert(partition =~= disk + suffix);
            if suffix.len() > 0 && suffix[0] == 'p' {
                assert(partition =~= disk + seq!['p'] + digits);
            }
            assert(reading::is_digit_row(digits));
        }
        if 0 < n <= 0xffff_ffff && is_partition_of_disk(partition, disk, n as int) {
            let digits = choose|digits: Seq<char>|
                {
                    &&& #[trigger] reading::is_digit_row(digits)
                    &&& reading::number_in(digits) == n as int
                    &&& {
                        ||| partition == disk + seq!['p'] + digits
                        ||| partition == disk + digits && !(disk.len() > 0 && '0'
                            <= disk[disk.len() - 1] <= '9')
                    }
                };
            reading::digits_are_read_as_their_number(digits);
            assert(partition.subrange(0, disk.len() as int) =~= disk);
            let suffix = partition.subrange(disk.len() as int, partition.len() as int);
            if partition == disk + seq!['p'] + digits {
                assert(suffix =~= seq!['p'] + digits);
                assert(suffix.subrange(1, suffix.len() as int) =~= digits);
            } else {
                assert(suffix =~= digits);
                assert('0' <= digits[0] <= '9');
            }
            assert(partition_digits(partition, disk) == Some(digits));
        }
    }
}

/// The device at `i` is the first one with this path.
pub open spec fn is_first_device_at(items: Seq<DeviceIdentity>, path: Seq<char>, i: int) -> bool {
    &&& 0 <= i < items.len()
    &&& items[i].path@ == path
    &&& forall|j: int| 0 <= j < i ==> (#[trigger] items[j]).path@ != path
}

/// The device that is looked up is the first one with its path.
pub proof fn looked_up_device_is_the_first(items: Seq<DeviceIdentity>, path: Seq<char>)
    ensures
        first_device(items, path) is None <==> forall|i: int|
            0 <= i < items.len() ==> (#[trigger] items[i]).path@ != path,
        first_device(items, path) is Some <==> exists|i: int| is_first_device_at(items, path, i),
        forall|i: int| #[trigger]
            is_first_device_at(items, path, i) ==> first_device(items, path) == Some(items[i]),
{
    let at = |i: int|
        if items[i].path@ == path {
            Some(items[i])
        } else {
            None
        };
    reading::report_is_the_first_one(items.len() as int, at);
    assert forall|i: int| reading::is_first_report(items.len() as int, at, i) <==> #[trigger]
        is_first_device_at(items, path, i) by {
        if is_first_device_at(items, path, i) {
            assert forall|j: int| 0 <= j < i implies #[trigger] at(j) is None by {
                assert(items[j].path@ != path);
            }
        }
        if reading::is_first_report(items.len() as int, at, i) {
            assert forall|j: int| 0 <= j < i implies (#[trigger] items[j]).path@ != path by {
                assert(at(j) is None);
            }
        }
    }
    if first_device(items, path) is None {
        assert forall|i: int| 0 <= i < items.len() implies (#[trigger] items[i]).path@ != path by {
            assert(at(i) is None);
        }
    } else {
        let i = choose|i: int| reading::is_first_report(items.len() as int, at, i);
        assert(is_first_device_at(items, path, i));
    }
}

/// The device has room for a partition that ends behind this many sectors.
pub open spec fn has_room(
    devices: Seq<DeviceIdentity>,
    disk: Seq<char>,
    end_sector: int,
    sector_size_bytes: int,
) -> bool {
    exists|k: int|
        #[trigger] is_first_device_at(devices, disk, k) && end_sector * sector_size_bytes
            <= devices[k].size_bytes
}

proof fn lemma_room(
    devices: Seq<DeviceIdentity>,
    disk: Seq<char>,
    end_sector: int,
    sector_size_bytes: int,
)
    requires
        sector_size_bytes > 0,
    ensures
        has_room(devices, disk, end_sector, sector_size_bytes) <==> {
            &&& first_device(devices, disk) is Some
            &&& end_sector <= first_device(devices, disk)->Some_0.size_bytes as int
                / sector_size_bytes
        },
{
    looked_up_device_is_the_first(devices, disk);
    assert forall|k: int| #[trigger] is_first_device_at(devices, disk, k) implies (end_sector
        * sector_size_bytes <= devices[k].size_bytes <==> end_sector <= devices[k].size_bytes as int
        / sector_size_bytes) by {
        let size = devices[k].size_bytes as int;
        assert((end_sector * sector_size_bytes <= size) == (end_sector <= size / sector_size_bytes))
            by (nonlinear_arith)
            requires
                sector_size_bytes > 0,
        ;
    }
    if first_device(devices, disk) is Some {
        let k = choose|k: int| is_first_device_at(devices, disk, k);
        assert(is_first_device_at(devices, disk, k));
    }
}

/// The growth of a partition compiles exactly where the partition is the only one of its path, its
/// paths are safe, the table and the geometry are the planned ones, its number can be read from its
/// path, and its disk has room for it.
pub proof fn partition_growth_compiles_where_it_was_planned(
    plan_step_id: u32,
    partition: String,
    start_sector: u64,
    old_size_sectors: u64,
    new_size_sectors: u64,
    sector_size_bytes: u64,
    identity: TargetIdentityManifest,
)
    ensures
        operation_command(
            plan_step_id,
            NativeOperationSpec::ExtendPartition {
                partition,
                start_sector,
                old_size_sectors,
                new_size_sectors,
                sector_size_bytes,
            },
            identity,
        ) is Ok <==> exists|i: int, n: int|
            {
                let entry = identity.partitions@[i];
                let disk = identity.partitions@[i].disk->Some_0;
                &&& reading::only_partition_at(identity.partitions@, partition@, i)
                &&& entry.disk is Some
                &&& #[trigger] is_partition_of_disk(
                    partition@,
                    identity.partitions@[i].disk->Some_0@,
                    n,
                )
                &&& 0 < n <= 0xffff_ffff
                &&& text::is_safe_device_path(partition@)
                &&& text::is_safe_device_path(disk@)
                &&& (reading::reads(entry.table_label, "gpt"@) || reading::reads(entry.table_label, "dos"@))
                &&& entry.start_sector == Some(start_sector)
                &&& entry.size_sectors == Some(old_size_sectors)
                &&& entry.sector_size_bytes == Some(sector_size_bytes)
                &&& 0 < sector_size_bytes
                &&& 0 < old_size_sectors < new_size_sectors
                &&& has_room(
                    identity.devices@,
                    disk@,
                    start_sector + new_size_sectors,
                    sector_size_bytes as int,
                )
            },
{
    let owed = operation_command(
        plan_step_id,
        NativeOperationSpec::ExtendPartition {
            partition,
            start_sector,
            old_size_sectors,
            new_size_sectors,
            sector_size_bytes,
        },
        identity,
    );
    reading::found_partition_is_the_only_one(identity.partitions@, partition@);
    if owed is Ok {
        let i = choose|i: int| reading::only_partition_at(identity.partitions@, partition@, i);
        let disk = identity.partitions@[i].disk->Some_0@;
        partition_number_is_the_one_in_its_path(partition@, disk);
        let n = partition_number_of(partition@, disk)->Some_0;
        assert(is_partition_of_disk(partition@, disk, n as int));
        lemma_room(
            identity.devices@,
            disk,
            start_sector + new_size_sectors,
            sector_size_bytes as int,
        );
    }
    assert forall|i: int, n: int|
        {
            let entry = identity.partitions@[i];
            let disk = identity.partitions@[i].disk->Some_0;
            &&& reading::only_partition_at(identity.partitions@, partition@, i)
            &&& entry.disk is Some
            &&& #[trigger] is_partition_of_disk(
                partition@,
                identity.partitions@[i].disk->Some_0@,
                n,
            )
            &&& 0 < n <= 0xffff_ffff
            &&& text::is_safe_device_path(partition@)
            &&& text::is_safe_device_path(disk@)
            &&& (reading::reads(entry.table_label, "gpt"@) || reading::reads(entry.table_label, "dos"@))
            &&& entry.start_sector == Some(start_sector)
            &&& entry.size_sectors == Some(old_size_sectors)
            &&& entry.sector_size_bytes == Some(sector_size_bytes)
            &&& 0 < sector_size_bytes
            &&& 0 < old_size_sectors < new_size_sectors
            &&& has_room(
                identity.devices@,
                disk@,
                start_sector + new_size_sectors,
                sector_size_bytes as int,
            )
        } implies owed is Ok by {
        let disk = identity.partitions@[i].disk->Some_0@;
        partition_number_is_the_one_in_its_path(partition@, disk);
        assert(is_partition_of_disk(partition@, disk, (n as nat) as int));
        lemma_room(
            identity.devices@,
            disk,
            start_sector + new_size_sectors,
            sector_size_bytes as int,
        );
    }
}

/// The command that grows a partition is `sfdisk` on its disk. The argument behind `-N` and that of
/// `partx` behind `--nr` spell the number that stands in the path of the partition, and the input
/// spells its first sector and its new size.
pub proof fn partition_growth_names_the_planned_partition(
    plan_step_id: u32,
    partition: String,
    start_sector: u64,
    old_size_sectors: u64,
    new_size_sectors: u64,
    sector_size_bytes: u64,
    identity: TargetIdentityManifest,
    command: PrivilegedCommandModel,
)
    requires
        operation_command(
            plan_step_id,
            NativeOperationSpec::ExtendPartition {
                partition,
                start_sector,
                old_size_sectors,
                new_size_sectors,
                sector_size_bytes,
            },
            identity,
        ) == PrivilegedCompilation::Ok(command),
    ensures
        command.plan_step_id == plan_step_id,
        command.program is Sfdisk,
        command.args.len() == 6,
        command.args[0] == "--lock=yes"@,
        command.args[1] == "--no-reread"@,
        command.args[2] == "--no-tell-kernel"@,
        command.args[3] == "-N"@,
        exists|n: int|
            0 < n <= 0xffff_ffff && reading::spells(command.args[4], n) && #[trigger] is_partition_of_disk(
                partition@,
                command.args[5],
                n,
            ),
        exists|i: int|
            #[trigger] reading::only_partition_at(identity.partitions@, partition@, i) && reading::reads(
                identity.partitions@[i].disk,
                command.args[5],
            ),
        command.kernel_refresh matches Some(refresh) && refresh.program is Partx && refresh.args
            == seq!["--update"@, "--nr"@, command.args[4], command.args[5]],
        exists|s: Seq<char>, t: Seq<char>|
            {
                &&& #[trigger] reading::spells(s, start_sector as int)
                &&& #[trigger] reading::spells(t, new_size_sectors as int)
                &&& command.stdin_payload == Some("start="@ + s + ", size="@ + t + "\n"@)
            },
{
    reading::found_partition_is_the_only_one(identity.partitions@, partition@);
    let i = choose|i: int| reading::only_partition_at(identity.partitions@, partition@, i);
    let disk = identity.partitions@[i].disk->Some_0@;
    assert(reading::only_partition_at(identity.partitions@, partition@, i));
    partition_number_is_the_one_in_its_path(partition@, disk);
    let n = partition_number_of(partition@, disk)->Some_0;
    assert(is_partition_of_disk(partition@, disk, n as int));
    reading::written_number_is_read_back(n);
    reading::written_number_is_read_back(start_sector as nat);
    reading::written_number_is_read_back(new_size_sectors as nat);
}

/// The growth of a physical volume compiles exactly where the volume is the only one of its UUID,
/// has a safe path and a known first extent, and is to become larger. The command hands `pvresize`
/// its path and, in bytes, the expected size with the area in front of the first extent.
pub proof fn physical_volume_growth_counts_the_reserved_area(
    plan_step_id: u32,
    pv_uuid: String,
    expected_pv_size_bytes: u64,
    identity: TargetIdentityManifest,
)
    ensures
        ({
            let owed = operation_command(
                plan_step_id,
                NativeOperationSpec::ResizePhysicalVolume { pv_uuid, expected_pv_size_bytes },
                identity,
            );
            let kind = LvmIdentityKind::PhysicalVolume;
            &&& owed is Ok <==> exists|i: int|
                {
                    let pv = identity.lvm@[i];
                    &&& #[trigger] reading::only_volume_at(identity.lvm@, kind, pv_uuid@, i)
                    &&& text::is_safe_device_path(pv.name@)
                    &&& pv.size_bytes < expected_pv_size_bytes
                    &&& pv.pe_start_bytes matches Some(first)
                    &&& expected_pv_size_bytes + first <= 0xffff_ffff_ffff_ffff
                }
            &&& owed == PrivilegedCompilation::Err(
                PrivilegedArgvError::PhysicalVolumeIdentityNotUnique,
            ) <==> !exists|i: int| reading::only_volume_at(identity.lvm@, kind, pv_uuid@, i)
            &&& owed is Ok ==> {
                let command = owed->Ok_0;
                &&& command.plan_step_id == plan_step_id
                &&& command.program is Pvresize
                &&& command.stdin_payload is None
                &&& command.kernel_refresh is None
                &&& command.args.len() == 5
                &&& command.args[0] == "--yes"@
                &&& command.args[1] == "--setphysicalvolumesize"@
                &&& command.args[3] == "--"@
                &&& exists|i: int, s: Seq<char>|
                    {
                        &&& #[trigger] reading::only_volume_at(identity.lvm@, kind, pv_uuid@, i)
                        &&& command.args[4] == identity.lvm@[i].name@
                        &&& #[trigger] reading::spells(
                            s,
                            expected_pv_size_bytes + identity.lvm@[i].pe_start_bytes->Some_0,
                        )
                        &&& command.args[2] == s + "B"@
                    }
            }
        }),
{
    let kind = LvmIdentityKind::PhysicalVolume;
    reading::found_volume_is_the_only_one(identity.lvm@, kind, pv_uuid@);
    if exists|i: int| reading::only_volume_at(identity.lvm@, kind, pv_uuid@, i) {
        let i = choose|i: int| reading::only_volume_at(identity.lvm@, kind, pv_uuid@, i);
        assert(reading::only_volume_at(identity.lvm@, kind, pv_uuid@, i));
        if identity.lvm@[i].pe_start_bytes is Some {
            let size = (expected_pv_size_bytes + identity.lvm@[i].pe_start_bytes->Some_0) as nat;
            reading::written_number_is_read_back(size);
            assert(reading::spells(text::decimal_text(size), size as int));
        }
    }
}

/// The growth of a logical volume compiles exactly where the volume is the only one of its UUID,
/// has a safe path, and is to become larger by at least one extent. The command hands `lvextend`
/// its path and the number of extents to add.
pub proof fn logical_volume_growth_adds_the_planned_extents(
    plan_step_id: u32,
    lv_uuid: String,
    additional_extents: u64,
    expected_lv_size_bytes: u64,
    identity: TargetIdentityManifest,
)
    ensures
        ({
            let owed = operation_command(
                plan_step_id,
                NativeOperationSpec::ExtendLogicalVolume {
                    lv_uuid,
                    additional_extents,
                    expected_lv_size_bytes,
                },
                identity,
            );
            let kind = LvmIdentityKind::LogicalVolume;
            &&& owed is Ok <==> exists|i: int|
                {
                    let lv = identity.lvm@[i];
                    &&& #[trigger] reading::only_volume_at(identity.lvm@, kind, lv_uuid@, i)
                    &&& text::is_safe_device_path(lv.name@)
                    &&& lv.size_bytes < expected_lv_size_bytes
                    &&& 0 < additional_extents
                }
            &&& owed == PrivilegedCompilation::Err(
                PrivilegedArgvError::LogicalVolumeIdentityNotUnique,
            ) <==> !exists|i: int| reading::only_volume_at(identity.lvm@, kind, lv_uuid@, i)
            &&& owed is Ok ==> {
                let command = owed->Ok_0;
                &&& command.plan_step_id == plan_step_id
                &&& command.program is Lvextend
                &&& command.stdin_payload is None
                &&& command.kernel_refresh is None
                &&& command.args.len() == 4
                &&& command.args[0] == "--extents"@
                &&& command.args[2] == "--"@
                &&& exists|s: Seq<char>|
                    #[trigger] reading::spells(s, additional_extents as int) && command.args[1] == "+"@ + s
                &&& exists|i: int|
                    #[trigger] reading::only_volume_at(identity.lvm@, kind, lv_uuid@, i) && command.args[3]
                        == identity.lvm@[i].name@
            }
        }),
{
    let kind = LvmIdentityKind::LogicalVolume;
    reading::found_volume_is_the_only_one(identity.lvm@, kind, lv_uuid@);
    reading::written_number_is_read_back(additional_extents as nat);
    if exists|i: int| reading::only_volume_at(identity.lvm@, kind, lv_uuid@, i) {
        let i = choose|i: int| reading::only_volume_at(identity.lvm@, kind, lv_uuid@, i);
        assert(reading::only_volume_at(identity.lvm@, kind, lv_uuid@, i));
    }
}

/// The growth of a filesystem compiles exactly where the filesystem is the planned one on the
/// resolved device, and is mounted just once where it was planned to be, or, for ext4, nowhere.
/// An ext4 filesystem is grown through its device, an xfs filesystem through its mountpoint.
pub proof fn filesystem_growth_acts_on_the_planned_filesystem(
    plan_step_id: u32,
    fs_type: String,
    mountpoint: Option<String>,
    identity: TargetIdentityManifest,
)
    ensures
        ({
            let owed = operation_command(
                plan_step_id,
                NativeOperationSpec::GrowFilesystem { fs_type, mountpoint },
                identity,
            );
            &&& owed is Ok <==> {
                &&& identity.filesystem matches Some(filesystem)
                &&& filesystem.device@ == identity.resolved_device@
                &&& filesystem.fs_type@ == fs_type@
                &&& text::is_safe_device_path(filesystem.device@)
                &&& (fs_type@ == "ext4"@ || fs_type@ == "xfs"@)
                &&& match mountpoint {
                    Some(target) => {
                        &&& text::is_safe_absolute_path(target@)
                        &&& exists|i: int| reading::only_mount_at(identity.mounts@, target@, fs_type@, i)
                    },
                    None => fs_type@ == "ext4"@ && identity.mounts@.len() == 0,
                }
            }
            &&& owed is Ok ==> {
                let command = owed->Ok_0;
                &&& command.plan_step_id == plan_step_id
                &&& command.stdin_payload is None
                &&& command.kernel_refresh is None
                &&& fs_type@ == "ext4"@ ==> command.program is Resize2fs && command.args == seq![
                    identity.resolved_device@,
                ]
                &&& fs_type@ == "xfs"@ ==> command.program is XfsGrowfs && command.args == seq![
                    "-d"@,
                    mountpoint->Some_0@,
                ]
            }
        }),
{
    reveal_strlit("ext4");
    reveal_strlit("xfs");
    assert("ext4"@.len() != "xfs"@.len());
    if mountpoint is Some {
        reading::found_mount_is_the_only_one(identity.mounts@, mountpoint->Some_0@, fs_type@);
    }
}

/// A request compiles exactly where it is valid, speaks of the live target, device and state, and
/// its operation compiles against that state; its command is then that of the operation.
pub proof fn request_compiles_against_the_live_state(
    request: PrivilegedHelperRequest,
    live: TargetIdentityManifest,
)
    ensures
        request_command(request, live) is Ok <==> {
            &&& privileged_protocol::request_refusal(request) is None
            &&& live.manifest_digest@ == request.fresh_identity_digest@
            &&& live.target@ == request.target@
            &&& live.resolved_device@ == request.resolved_device@
            &&& operation_command(request.plan_step_id, request.operation, live) is Ok
        },
        request_command(request, live) is Ok ==> request_command(request, live)
            == operation_command(request.plan_step_id, request.operation, live),
        request.operation is RevalidateSnapshot || request.operation is BackupLvmMetadata
            || request.operation is BackupPartitionTableMetadata
            || request.operation is RediscoverAndVerify ==> request_command(request, live) is Err,
{
}

/// Each program goes by the name of its tool.
pub proof fn privileged_program_goes_by_its_tool(program: PrivilegedProgram)
    ensures
        program is Sfdisk ==> privileged_program_name(program) == "sfdisk"@,
        program is Partx ==> privileged_program_name(program) == "partx"@,
        program is Pvresize ==> privileged_program_name(program) == "pvresize"@,
        program is Lvextend ==> privileged_program_name(program) == "lvextend"@,
        program is Resize2fs ==> privileged_program_name(program) == "resize2fs"@,
        program is XfsGrowfs ==> privileged_program_name(program) == "xfs_growfs"@,
{
}

/// Each refusal of a compilation names something that is wrong.
pub proof fn refused_command_names_its_reason(
    plan_step_id: u32,
    operation: NativeOperationSpec,
    identity: TargetIdentityManifest,
)
    ensures
        operation_command(plan_step_id, operation, identity) matches Err(e) ==> match e {
            PrivilegedArgvError::PartitionIdentityNotUnique => operation is ExtendPartition
                && !exists|i: int|
                reading::only_partition_at(
                    identity.partitions@,
                    operation->ExtendPartition_partition@,
                    i,
                ),
            PrivilegedArgvError::UnsafePartitionPath => operation is ExtendPartition && exists|
                i: int,
            |
                {
                    &&& #[trigger] reading::only_partition_at(
                        identity.partitions@,
                        operation->ExtendPartition_partition@,
                        i,
                    )
                    &&& !(text::is_safe_device_path(operation->ExtendPartition_partition@)
                        && text::is_safe_device_path(identity.partitions@[i].disk->Some_0@))
                },
            PrivilegedArgvError::PartitionGeometryMismatch => operation is ExtendPartition && exists|
                i: int,
            |
                {
                    let entry = identity.partitions@[i];
                    &&& #[trigger] reading::only_partition_at(
                        identity.partitions@,
                        operation->ExtendPartition_partition@,
                        i,
                    )
                    &&& {
                        ||| entry.disk is None
                        ||| !(reading::reads(entry.table_label, "gpt"@) || reading::reads(entry.table_label, "dos"@))
                        ||| entry.start_sector != Some(operation->ExtendPartition_start_sector)
                        ||| entry.size_sectors != Some(operation->ExtendPartition_old_size_sectors)
                        ||| entry.sector_size_bytes != Some(
                            operation->ExtendPartition_sector_size_bytes,
                        )
                        ||| operation->ExtendPartition_sector_size_bytes == 0
                        ||| operation->ExtendPartition_old_size_sectors == 0
                        ||| operation->ExtendPartition_new_size_sectors
                            <= operation->ExtendPartition_old_size_sectors
                    }
                },
            PrivilegedArgvError::PartitionNumberInvalid => operation is ExtendPartition && exists|
                i: int,
            |
                {
                    &&& #[trigger] reading::only_partition_at(
                        identity.partitions@,
                        operation->ExtendPartition_partition@,
                        i,
                    )
                    &&& partition_number_of(
                        operation->ExtendPartition_partition@,
                        identity.partitions@[i].disk->Some_0@,
                    ) is None
                },
            PrivilegedArgvError::PartitionGrowthOutOfBounds => operation is ExtendPartition
                && exists|i: int|
                {
                    &&& #[trigger] reading::only_partition_at(
                        identity.partitions@,
                        operation->ExtendPartition_partition@,
                        i,
                    )
                    &&& !has_room(
                        identity.devices@,
                        identity.partitions@[i].disk->Some_0@,
                        operation->ExtendPartition_start_sector
                            + operation->ExtendPartition_new_size_sectors,
                        operation->ExtendPartition_sector_size_bytes as int,
                    )
                },
            PrivilegedArgvError::PhysicalVolumeIdentityNotUnique => operation
                is ResizePhysicalVolume && !exists|i: int|
                reading::only_volume_at(
                    identity.lvm@,
                    LvmIdentityKind::PhysicalVolume,
                    operation->ResizePhysicalVolume_pv_uuid@,
                    i,
                ),
            PrivilegedArgvError::PhysicalVolumeMismatch => operation is ResizePhysicalVolume,
            PrivilegedArgvError::LogicalVolumeIdentityNotUnique => operation is ExtendLogicalVolume
                && !exists|i: int|
                reading::only_volume_at(
                    identity.lvm@,
                    LvmIdentityKind::LogicalVolume,
                    operation->ExtendLogicalVolume_lv_uuid@,
                    i,
                ),
            PrivilegedArgvError::LogicalVolumeMismatch => operation is ExtendLogicalVolume,
            PrivilegedArgvError::FilesystemIdentityMissing => operation is GrowFilesystem
                && identity.filesystem is None,
            PrivilegedArgvError::FilesystemMismatch => operation is GrowFilesystem && {
                let filesystem = identity.filesystem->Some_0;
                ||| filesystem.device@ != identity.resolved_device@
                ||| filesystem.fs_type@ != operation->GrowFilesystem_fs_type@
                ||| !text::is_safe_device_path(filesystem.device@)
                ||| operation->GrowFilesystem_fs_type@ != "ext4"@
                    && operation->GrowFilesystem_fs_type@ != "xfs"@
            },
            PrivilegedArgvError::FilesystemMountMismatch => operation is GrowFilesystem && {
                let mountpoint = operation->GrowFilesystem_mountpoint;
                ||| mountpoint is None && (identity.mounts@.len() > 0
                    || operation->GrowFilesystem_fs_type@ != "ext4"@)
                ||| mountpoint is Some && !(text::is_safe_absolute_path(mountpoint->Some_0@)
                    && exists|i: int|
                    reading::only_mount_at(
                        identity.mounts@,
                        mountpoint->Some_0@,
                        operation->GrowFilesystem_fs_type@,
                        i,
                    ))
            },
            PrivilegedArgvError::UnsupportedOperation => {
                !native_operation::changes_storage(operation)
            },
            PrivilegedArgvError::Protocol(_) => false,
        },
{
    match operation {
        NativeOperationSpec::ExtendPartition {
            partition,
            start_sector,
            new_size_sectors,
            sector_size_bytes,
            ..
        } => {
            reading::found_partition_is_the_only_one(identity.partitions@, partition@);
            if exists|i: int| reading::only_partition_at(identity.partitions@, partition@, i) {
                let i = choose|i: int| reading::only_partition_at(identity.partitions@, partition@, i);
                assert(reading::only_partition_at(identity.partitions@, partition@, i));
                if sector_size_bytes > 0 {
                    lemma_room(
                        identity.devices@,
                        identity.partitions@[i].disk->Some_0@,
                        start_sector + new_size_sectors,
                        sector_size_bytes as int,
                    );
                }
            }
        },
        NativeOperationSpec::ResizePhysicalVolume { pv_uuid, .. } => {
            reading::found_volume_is_the_only_one(
                identity.lvm@,
                LvmIdentityKind::PhysicalVolume,
                pv_uuid@,
            );
        },
        NativeOperationSpec::ExtendLogicalVolume { lv_uuid, .. } => {
            reading::found_volume_is_the_only_one(identity.lvm@, LvmIdentityKind::LogicalVolume, lv_uuid@);
        },
        NativeOperationSpec::GrowFilesystem { fs_type, mountpoint } => {
            if mountpoint is Some {
                reading::found_mount_is_the_only_one(identity.mounts@, mountpoint->Some_0@, fs_type@);
            }
        },
        _ => {},
    }
}

} // verus!
