//! Exact argument vectors for growth on a disposable loop device. Nothing here spawns a process.

use vstd::prelude::*;
use vstd::string::*;

use crate::reading;
use crate::privileged_protocol;
use crate::text;
use crate::native_operation;
use crate::model;
use crate::model::{
    find_device, find_lvm, find_mount, find_step, Lookup, LvmIdentityKind, TargetIdentityManifest,
};
use crate::native_operation::{
    kind_of_operation, mutation_positions, NativeCompiledManifest, NativeCompiledStep,
    NativeOperationKind, NativeOperationSpec, ValidatedNativeManifest,
};
use crate::text::{
    contains_control, copy_texts, decimal, holds_id, push_decimal, same_text, text_starts_with,
};

verus! {

/// The programs that the disposable profile may run.
#[derive(Clone, Copy, Debug, PartialEq, Eq, Structural)]
pub enum DisposableProgram {
    Pvresize,
    Lvextend,
    Resize2fs,
    XfsGrowfs,
}

/// The file name of a program.
pub open spec fn disposable_program_name(program: DisposableProgram) -> Seq<char> {
    match program {
        DisposableProgram::Pvresize => "pvresize"@,
        DisposableProgram::Lvextend => "lvextend"@,
        DisposableProgram::Resize2fs => "resize2fs"@,
        DisposableProgram::XfsGrowfs => "xfs_growfs"@,
    }
}

impl DisposableProgram {
    pub fn as_str(self) -> (name: &'static str)
        ensures
            name@ == disposable_program_name(self),
    {
        match self {
            DisposableProgram::Pvresize => "pvresize",
            DisposableProgram::Lvextend => "lvextend",
            DisposableProgram::Resize2fs => "resize2fs",
            DisposableProgram::XfsGrowfs => "xfs_growfs",
        }
    }
}

/// One command: a program of the profile and its exact arguments.
#[derive(Clone, Debug, PartialEq, Eq)]
pub struct DisposableCommandSpec {
    plan_step_id: u32,
    program: DisposableProgram,
    args: Vec<String>,
}

/// The content of a command.
pub struct DisposableCommandModel {
    pub plan_step_id: u32,
    pub program: DisposableProgram,
    pub args: Seq<Seq<char>>,
}

impl View for DisposableCommandSpec {
    type V = DisposableCommandModel;

    closed spec fn view(&self) -> DisposableCommandModel {
        DisposableCommandModel {
            plan_step_id: self.plan_step_id,
            program: self.program,
            args: text::texts(self.args@),
        }
    }
}

impl DisposableCommandSpec {
    pub fn plan_step_id(&self) -> (value: u32)
        ensures
            value == self@.plan_step_id,
    {
        self.plan_step_id
    }

    pub fn program(&self) -> (value: DisposableProgram)
        ensures
            value == self@.program,
    {
        self.program
    }

    pub fn args(&self) -> (value: &Vec<String>)
        ensures
            text::texts(value@) == self@.args,
    {
        &self.args
    }

    pub(crate) fn copied(&self) -> (copy: Self)
        ensures
            copy@ == self@,
    {
        DisposableCommandSpec {
            plan_step_id: self.plan_step_id,
            program: self.program,
            args: copy_texts(&self.args),
        }
    }
}

/// Commands bound to the manifest and the target identity that they were compiled from.
#[derive(Clone, Debug, PartialEq, Eq)]
pub struct DisposableCommandPlan {
    source_manifest_id: String,
    native_manifest_digest: String,
    fresh_identity_digest: String,
    commands: Vec<DisposableCommandSpec>,
}

/// The content of a command plan.
pub struct DisposablePlanModel {
    pub source_manifest_id: Seq<char>,
    pub native_manifest_digest: Seq<char>,
    pub fresh_identity_digest: Seq<char>,
    pub commands: Seq<DisposableCommandModel>,
}

/// The contents of commands.
pub open spec fn command_models(commands: Seq<DisposableCommandSpec>) -> Seq<
    DisposableCommandModel,
> {
    commands.map_values(|c: DisposableCommandSpec| c@)
}

impl View for DisposableCommandPlan {
    type V = DisposablePlanModel;

    closed spec fn view(&self) -> DisposablePlanModel {
        DisposablePlanModel {
            source_manifest_id: self.source_manifest_id@,
            native_manifest_digest: self.native_manifest_digest@,
            fresh_identity_digest: self.fresh_identity_digest@,
            commands: command_models(self.commands@),
        }
    }
}

impl DisposableCommandPlan {
    pub fn source_manifest_id(&self) -> (value: &str)
        ensures
            value@ == self@.source_manifest_id,
    {
        self.source_manifest_id.as_str()
    }

    pub fn native_manifest_digest(&self) -> (value: &str)
        ensures
            value@ == self@.native_manifest_digest,
    {
        self.native_manifest_digest.as_str()
    }

    pub fn fresh_identity_digest(&self) -> (value: &str)
        ensures
            value@ == self@.fresh_identity_digest,
    {
        self.fresh_identity_digest.as_str()
    }

    pub fn commands(&self) -> (value: &Vec<DisposableCommandSpec>)
        ensures
            command_models(value@) == self@.commands,
    {
        &self.commands
    }
}

#[derive(Clone, Debug, PartialEq, Eq)]
pub enum DisposableArgvError {
    UnsupportedMutation(NativeOperationKind),
    UnsupportedMutationProfile,
    PhysicalVolumeIdentityNotUnique(String),
    UnsafePhysicalVolumePath,
    PhysicalVolumeGrowthMismatch,
    PhysicalVolumeBackingNotProven,
    LogicalVolumeIdentityNotUnique(String),
    UnsafeLogicalVolumePath,
    LogicalVolumeGrowthMismatch,
    FilesystemIdentityMissing,
    FilesystemIdentityMismatch,
    FilesystemGrowthNotProven,
    FilesystemMountNotUnique,
    UnsafeFilesystemDevicePath,
    UnsafeFilesystemMountpoint,
    UnsupportedFilesystem(String),
}

/// The content of a refusal.
pub enum DisposableArgvFault {
    UnsupportedMutation(NativeOperationKind),
    UnsupportedMutationProfile,
    PhysicalVolumeIdentityNotUnique(Seq<char>),
    UnsafePhysicalVolumePath,
    PhysicalVolumeGrowthMismatch,
    PhysicalVolumeBackingNotProven,
    LogicalVolumeIdentityNotUnique(Seq<char>),
    UnsafeLogicalVolumePath,
    LogicalVolumeGrowthMismatch,
    FilesystemIdentityMissing,
    FilesystemIdentityMismatch,
    FilesystemGrowthNotProven,
    FilesystemMountNotUnique,
    UnsafeFilesystemDevicePath,
    UnsafeFilesystemMountpoint,
    UnsupportedFilesystem(Seq<char>),
}

impl View for DisposableArgvError {
    type V = DisposableArgvFault;

    open spec fn view(&self) -> DisposableArgvFault {
        match *self {
            DisposableArgvError::UnsupportedMutation(k) => {
                DisposableArgvFault::UnsupportedMutation(k)
            },
            DisposableArgvError::UnsupportedMutationProfile => {
                DisposableArgvFault::UnsupportedMutationProfile
            },
            DisposableArgvError::PhysicalVolumeIdentityNotUnique(s) => {
                DisposableArgvFault::PhysicalVolumeIdentityNotUnique(s@)
            },
            DisposableArgvError::UnsafePhysicalVolumePath => {
                DisposableArgvFault::UnsafePhysicalVolumePath
            },
            DisposableArgvError::PhysicalVolumeGrowthMismatch => {
                DisposableArgvFault::PhysicalVolumeGrowthMismatch
            },
            DisposableArgvError::PhysicalVolumeBackingNotProven => {
                DisposableArgvFault::PhysicalVolumeBackingNotProven
            },
            DisposableArgvError::LogicalVolumeIdentityNotUnique(s) => {
                DisposableArgvFault::LogicalVolumeIdentityNotUnique(s@)
            },
            DisposableArgvError::UnsafeLogicalVolumePath => {
                DisposableArgvFault::UnsafeLogicalVolumePath
            },
            DisposableArgvError::LogicalVolumeGrowthMismatch => {
                DisposableArgvFault::LogicalVolumeGrowthMismatch
            },
            DisposableArgvError::FilesystemIdentityMissing => {
                DisposableArgvFault::FilesystemIdentityMissing
            },
            DisposableArgvError::FilesystemIdentityMismatch => {
                DisposableArgvFault::FilesystemIdentityMismatch
            },
            DisposableArgvError::FilesystemGrowthNotProven => {
                DisposableArgvFault::FilesystemGrowthNotProven
            },
            DisposableArgvError::FilesystemMountNotUnique => {
                DisposableArgvFault::FilesystemMountNotUnique
            },
            DisposableArgvError::UnsafeFilesystemDevicePath => {
                DisposableArgvFault::UnsafeFilesystemDevicePath
            },
            DisposableArgvError::UnsafeFilesystemMountpoint => {
                DisposableArgvFault::UnsafeFilesystemMountpoint
            },
            DisposableArgvError::UnsupportedFilesystem(s) => {
                DisposableArgvFault::UnsupportedFilesystem(s@)
            },
        }
    }
}

/// An absolute path without control characters.
pub open spec fn is_plain_absolute_path(s: Seq<char>) -> bool {
    text::has_prefix(s, "/"@) && !text::has_control_char(s)
}

/// A path below `/dev/` without control characters.
pub open spec fn is_plain_device_path(s: Seq<char>) -> bool {
    text::has_prefix(s, "/dev/"@) && !text::has_control_char(s)
}

fn safe_absolute_path(value: &str) -> (yes: bool)
    ensures
        yes == is_plain_absolute_path(value@),
{
    text_starts_with(value, "/") && !contains_control(value)
}

fn safe_device_path(value: &str) -> (yes: bool)
    ensures
        yes == is_plain_device_path(value@),
{
    text_starts_with(value, "/dev/") && !contains_control(value)
}

/// What a compilation owes: a command or a refusal.
pub type DisposableCompilation = Result<DisposableCommandModel, DisposableArgvFault>;

/// The command that grows a physical volume to its exact expected size.
pub open spec fn pvresize_command(
    plan_step_id: u32,
    pv_uuid: Seq<char>,
    expected_pv_size_bytes: u64,
    identity: TargetIdentityManifest,
) -> DisposableCompilation {
    let found = model::lvm_with(identity.lvm@, LvmIdentityKind::PhysicalVolume, pv_uuid);
    if found.len() != 1 {
        Err(DisposableArgvFault::PhysicalVolumeIdentityNotUnique(pv_uuid))
    } else if expected_pv_size_bytes == 0 || expected_pv_size_bytes <= found[0].size_bytes {
        Err(DisposableArgvFault::PhysicalVolumeGrowthMismatch)
    } else if !is_plain_device_path(found[0].name@) {
        Err(DisposableArgvFault::UnsafePhysicalVolumePath)
    } else {
        let backing = model::devices_at(identity.devices@, found[0].name@);
        if backing.len() != 1 || backing[0].size_bytes < expected_pv_size_bytes {
            Err(DisposableArgvFault::PhysicalVolumeBackingNotProven)
        } else {
            Ok(
                DisposableCommandModel {
                    plan_step_id,
                    program: DisposableProgram::Pvresize,
                    args: seq![
                        "--setphysicalvolumesize"@,
                        text::decimal_text(expected_pv_size_bytes as nat) + "B"@,
                        "--yes"@,
                        "--"@,
                        found[0].name@,
                    ],
                },
            )
        }
    }
}

/// The command that grows a logical volume by an exact number of extents.
pub open spec fn lvextend_command(
    plan_step_id: u32,
    lv_uuid: Seq<char>,
    additional_extents: u64,
    expected_lv_size_bytes: u64,
    identity: TargetIdentityManifest,
) -> DisposableCompilation {
    let found = model::lvm_with(identity.lvm@, LvmIdentityKind::LogicalVolume, lv_uuid);
    if found.len() != 1 {
        Err(DisposableArgvFault::LogicalVolumeIdentityNotUnique(lv_uuid))
    } else if additional_extents == 0 || expected_lv_size_bytes == 0 || expected_lv_size_bytes
        <= found[0].size_bytes {
        Err(DisposableArgvFault::LogicalVolumeGrowthMismatch)
    } else if !is_plain_device_path(found[0].name@) {
        Err(DisposableArgvFault::UnsafeLogicalVolumePath)
    } else {
        Ok(
            DisposableCommandModel {
                plan_step_id,
                program: DisposableProgram::Lvextend,
                args: seq![
                    "--extents"@,
                    "+"@ + text::decimal_text(additional_extents as nat),
                    "--"@,
                    found[0].name@,
                ],
            },
        )
    }
}

/// The command that grows a mounted filesystem to the size of its device.
pub open spec fn filesystem_command(
    plan_step_id: u32,
    fs_type: Seq<char>,
    mountpoint: Option<Seq<char>>,
    identity: TargetIdentityManifest,
) -> DisposableCompilation {
    match identity.filesystem {
        None => Err(DisposableArgvFault::FilesystemIdentityMissing),
        Some(filesystem) => {
            if !is_plain_device_path(filesystem.device@) {
                Err(DisposableArgvFault::UnsafeFilesystemDevicePath)
            } else if filesystem.fs_type@ != fs_type || filesystem.device@
                != identity.resolved_device@ {
                Err(DisposableArgvFault::FilesystemIdentityMismatch)
            } else if mountpoint is None || !is_plain_absolute_path(mountpoint->Some_0) {
                Err(DisposableArgvFault::UnsafeFilesystemMountpoint)
            } else if model::mounts_on(identity.mounts@, mountpoint->Some_0, fs_type).len() != 1 {
                Err(DisposableArgvFault::FilesystemMountNotUnique)
            } else if fs_type == "ext4"@ {
                Ok(
                    DisposableCommandModel {
                        plan_step_id,
                        program: DisposableProgram::Resize2fs,
                        args: seq![filesystem.device@],
                    },
                )
            } else if fs_type == "xfs"@ {
                Ok(
                    DisposableCommandModel {
                        plan_step_id,
                        program: DisposableProgram::XfsGrowfs,
                        args: seq!["-d"@, mountpoint->Some_0],
                    },
                )
            } else {
                Err(DisposableArgvFault::UnsupportedFilesystem(fs_type))
            }
        },
    }
}

/// A compilation has the outcome that is owed.
pub open spec fn compiled(
    result: Result<DisposableCommandSpec, DisposableArgvError>,
    owed: DisposableCompilation,
) -> bool {
    match result {
        Ok(command) => owed == DisposableCompilation::Ok(command@),
        Err(e) => owed == DisposableCompilation::Err(e@),
    }
}

fn compile_pvresize(
    plan_step_id: u32,
    pv_uuid: &str,
    expected_pv_size_bytes: u64,
    identity: &TargetIdentityManifest,
) -> (result: Result<DisposableCommandSpec, DisposableArgvError>)
    ensures
        compiled(
            result,
            pvresize_command(plan_step_id, pv_uuid@, expected_pv_size_bytes, *identity),
        ),
{
    let pv = match find_lvm(&identity.lvm, LvmIdentityKind::PhysicalVolume, pv_uuid) {
        Lookup::Unique(i) => &identity.lvm[i],
        _ => {
            return Err(DisposableArgvError::PhysicalVolumeIdentityNotUnique(pv_uuid.to_owned()));
        },
    };
    if expected_pv_size_bytes == 0 || expected_pv_size_bytes <= pv.size_bytes {
        return Err(DisposableArgvError::PhysicalVolumeGrowthMismatch);
    }
    if !safe_device_path(pv.name.as_str()) {
        return Err(DisposableArgvError::UnsafePhysicalVolumePath);
    }
    match find_device(&identity.devices, pv.name.as_str()) {
        Lookup::Unique(i) => {
            if identity.devices[i].size_bytes < expected_pv_size_bytes {
                return Err(DisposableArgvError::PhysicalVolumeBackingNotProven);
            }
        },
        _ => return Err(DisposableArgvError::PhysicalVolumeBackingNotProven),
    }
    let mut size = decimal(expected_pv_size_bytes);
    size.append("B");
    let mut args: Vec<String> = Vec::new();
    args.push("--setphysicalvolumesize".to_owned());
    args.push(size);
    args.push("--yes".to_owned());
    args.push("--".to_owned());
    args.push(pv.name.clone());
    assert(text::texts(args@) =~= seq![
        "--setphysicalvolumesize"@,
        text::decimal_text(expected_pv_size_bytes as nat) + "B"@,
        "--yes"@,
        "--"@,
        pv.name@,
    ]);
    Ok(DisposableCommandSpec { plan_step_id, program: DisposableProgram::Pvresize, args })
}

fn compile_lvextend(
    plan_step_id: u32,
    lv_uuid: &str,
    additional_extents: u64,
    expected_lv_size_bytes: u64,
    identity: &TargetIdentityManifest,
) -> (result: Result<DisposableCommandSpec, DisposableArgvError>)
    ensures
        compiled(
            result,
            lvextend_command(
                plan_step_id,
                lv_uuid@,
                additional_extents,
                expected_lv_size_bytes,
                *identity,
            ),
        ),
{
    let lv = match find_lvm(&identity.lvm, LvmIdentityKind::LogicalVolume, lv_uuid) {
        Lookup::Unique(i) => &identity.lvm[i],
        _ => {
            return Err(DisposableArgvError::LogicalVolumeIdentityNotUnique(lv_uuid.to_owned()));
        },
    };
    if additional_extents == 0 || expected_lv_size_bytes == 0 || expected_lv_size_bytes
        <= lv.size_bytes {
        return Err(DisposableArgvError::LogicalVolumeGrowthMismatch);
    }
    if !safe_device_path(lv.name.as_str()) {
        return Err(DisposableArgvError::UnsafeLogicalVolumePath);
    }
    let mut extents = "+".to_owned();
    push_decimal(&mut extents, additional_extents);
    let mut args: Vec<String> = Vec::new();
    args.push("--extents".to_owned());
    args.push(extents);
    args.push("--".to_owned());
    args.push(lv.name.clone());
    assert(text::texts(args@) =~= seq![
        "--extents"@,
        "+"@ + text::decimal_text(additional_extents as nat),
        "--"@,
        lv.name@,
    ]);
    Ok(DisposableCommandSpec { plan_step_id, program: DisposableProgram::Lvextend, args })
}

fn compile_filesystem_grow(
    plan_step_id: u32,
    fs_type: &str,
    mountpoint: &Option<String>,
    identity: &TargetIdentityManifest,
) -> (result: Result<DisposableCommandSpec, DisposableArgvError>)
    ensures
        compiled(
            result,
            filesystem_command(plan_step_id, fs_type@, text::opt_text(*mountpoint), *identity),
        ),
{
    let filesystem = match &identity.filesystem {
        Some(filesystem) => filesystem,
        None => return Err(DisposableArgvError::FilesystemIdentityMissing),
    };
    if !safe_device_path(filesystem.device.as_str()) {
        return Err(DisposableArgvError::UnsafeFilesystemDevicePath);
    }
    if !same_text(filesystem.fs_type.as_str(), fs_type) || !same_text(
        filesystem.device.as_str(),
        identity.resolved_device.as_str(),
    ) {
        return Err(DisposableArgvError::FilesystemIdentityMismatch);
    }
    let mountpoint = match mountpoint {
        Some(mountpoint) => mountpoint.as_str(),
        None => return Err(DisposableArgvError::UnsafeFilesystemMountpoint),
    };
    if !safe_absolute_path(mountpoint) {
        return Err(DisposableArgvError::UnsafeFilesystemMountpoint);
    }
    match find_mount(&identity.mounts, mountpoint, fs_type) {
        Lookup::Unique(_) => {},
        _ => return Err(DisposableArgvError::FilesystemMountNotUnique),
    }
    let mut args: Vec<String> = Vec::new();
    if same_text(fs_type, "ext4") {
        args.push(filesystem.device.clone());
        assert(text::texts(args@) =~= seq![filesystem.device@]);
        return Ok(
            DisposableCommandSpec { plan_step_id, program: DisposableProgram::Resize2fs, args },
        );
    }
    if same_text(fs_type, "xfs") {
        args.push("-d".to_owned());
        args.push(mountpoint.to_owned());
        assert(text::texts(args@) =~= seq!["-d"@, mountpoint@]);
        return Ok(
            DisposableCommandSpec { plan_step_id, program: DisposableProgram::XfsGrowfs, args },
        );
    }
    Err(DisposableArgvError::UnsupportedFilesystem(fs_type.to_owned()))
}

/// The command of one mutation, on its own.
pub open spec fn mutation_command(
    step: NativeCompiledStep,
    identity: TargetIdentityManifest,
) -> DisposableCompilation {
    match step.operation {
        NativeOperationSpec::ExtendPartition { .. } => Err(
            DisposableArgvFault::UnsupportedMutation(NativeOperationKind::ExtendPartition),
        ),
        NativeOperationSpec::ResizePhysicalVolume { pv_uuid, expected_pv_size_bytes } => {
            pvresize_command(step.plan_step_id, pv_uuid@, expected_pv_size_bytes, identity)
        },
        NativeOperationSpec::ExtendLogicalVolume {
            lv_uuid,
            additional_extents,
            expected_lv_size_bytes,
        } => lvextend_command(
            step.plan_step_id,
            lv_uuid@,
            additional_extents,
            expected_lv_size_bytes,
            identity,
        ),
        NativeOperationSpec::GrowFilesystem { fs_type, mountpoint } => filesystem_command(
            step.plan_step_id,
            fs_type@,
            text::opt_text(mountpoint),
            identity,
        ),
        _ => Err(DisposableArgvFault::UnsupportedMutationProfile),
    }
}

fn compile_mutation(step: &NativeCompiledStep, identity: &TargetIdentityManifest) -> (result: Result<
    DisposableCommandSpec,
    DisposableArgvError,
>)
    ensures
        compiled(result, mutation_command(*step, *identity)),
{
    match &step.operation {
        NativeOperationSpec::ExtendPartition { .. } => Err(
            DisposableArgvError::UnsupportedMutation(NativeOperationKind::ExtendPartition),
        ),
        NativeOperationSpec::ResizePhysicalVolume { pv_uuid, expected_pv_size_bytes } => {
            compile_pvresize(
                step.plan_step_id,
                pv_uuid.as_str(),
                *expected_pv_size_bytes,
                identity,
            )
        },
        NativeOperationSpec::ExtendLogicalVolume {
            lv_uuid,
            additional_extents,
            expected_lv_size_bytes,
        } => compile_lvextend(
            step.plan_step_id,
            lv_uuid.as_str(),
            *additional_extents,
            *expected_lv_size_bytes,
            identity,
        ),
        NativeOperationSpec::GrowFilesystem { fs_type, mountpoint } => compile_filesystem_grow(
            step.plan_step_id,
            fs_type.as_str(),
            mountpoint,
            identity,
        ),
        _ => Err(DisposableArgvError::UnsupportedMutationProfile),
    }
}

/// What the mutation at `k` is refused for, if anything.
pub open spec fn mutation_refusal(
    steps: Seq<NativeCompiledStep>,
    identity: TargetIdentityManifest,
    k: int,
) -> Option<DisposableArgvFault> {
    match mutation_command(steps[k], identity) {
        Ok(_) => None,
        Err(fault) => Some(fault),
    }
}

/// The accepted sequences of mutations: logical volume then filesystem, with or without growth of
/// the physical volume before.
pub open spec fn is_growth_sequence(steps: Seq<NativeCompiledStep>) -> bool {
    ||| {
        &&& steps.len() == 2
        &&& steps[0].operation is ExtendLogicalVolume
        &&& steps[1].operation is GrowFilesystem
    }
    ||| {
        &&& steps.len() == 3
        &&& steps[0].operation is ResizePhysicalVolume
        &&& steps[1].operation is ExtendLogicalVolume
        &&& steps[2].operation is GrowFilesystem
    }
}

/// What a command plan is refused for, if anything: the first mutation that cannot be compiled,
/// then an order of mutations that is not accepted.
pub open spec fn plan_refusal(
    manifest: NativeCompiledManifest,
    identity: TargetIdentityManifest,
) -> Option<DisposableArgvFault> {
    let mutations = native_operation::mutation_steps(manifest.steps@);
    let refusal = text::first_some(
        mutations.len() as int,
        |k: int| mutation_refusal(mutations, identity, k),
    );
    if refusal is Some {
        refusal
    } else if !is_growth_sequence(mutations) {
        Some(DisposableArgvFault::UnsupportedMutationProfile)
    } else {
        None
    }
}

/// The commands of a list of mutations.
pub open spec fn mutation_commands(
    steps: Seq<NativeCompiledStep>,
    identity: TargetIdentityManifest,
) -> Seq<DisposableCommandModel> {
    steps.map_values(|s: NativeCompiledStep| mutation_command(s, identity)->Ok_0)
}

/// Compiles the growth of a disposable target into exact argument vectors.
pub fn compile_disposable_lvm_growth_commands(
    validated: &ValidatedNativeManifest,
    fresh_identity: &TargetIdentityManifest,
) -> (result: Result<DisposableCommandPlan, DisposableArgvError>)
    ensures
        ({
            let manifest = validated.source();
            match result {
                Ok(plan) => plan_refusal(manifest, *fresh_identity) is None && plan@ == (
                DisposablePlanModel {
                    source_manifest_id: manifest.source_manifest_id@,
                    native_manifest_digest: validated.digest_text(),
                    fresh_identity_digest: fresh_identity.manifest_digest@,
                    commands: mutation_commands(native_operation::mutation_steps(manifest.steps@), *fresh_identity),
                }),
                Err(e) => plan_refusal(manifest, *fresh_identity) == Some(e@),
            }
        }),
{
    let manifest = validated.manifest();
    let positions = mutation_positions(&manifest.steps);
    let ghost mutations = native_operation::mutation_steps(manifest.steps@);
    let ghost at = |k: int| mutation_refusal(mutations, *fresh_identity, k);
    let ghost all = mutation_commands(mutations, *fresh_identity);
    let mut commands: Vec<DisposableCommandSpec> = Vec::new();
    let mut kinds: Vec<NativeOperationKind> = Vec::new();
    let mut k: usize = 0;
    while k < positions.len()
        invariant
            k <= positions@.len(),
            mutations == native_operation::mutation_steps(manifest.steps@),
            positions@.len() == mutations.len(),
            forall|k: int|
                #![trigger positions@[k]]
                0 <= k < positions@.len() ==> positions@[k] < manifest.steps@.len() && mutations[k]
                    == manifest.steps@[positions@[k] as int],
            at == (|k: int| mutation_refusal(mutations, *fresh_identity, k)),
            all == mutation_commands(mutations, *fresh_identity),
            *manifest == validated.source(),
            text::first_some(k as int, at) is None,
            command_models(commands@) == all.take(k as int),
            kinds@.len() == k,
            forall|j: int|
                0 <= j < k ==> #[trigger] kinds@[j] == native_operation::operation_kind(mutations[j].operation),
        decreases positions@.len() - k,
    {
        let step = &manifest.steps[positions[k]];
        match compile_mutation(step, fresh_identity) {
            Ok(command) => {
                let ghost before = command_models(commands@);
                commands.push(command);
                proof {
                    assert(command_models(commands@) =~= before.push(command@));
                    assert(all.take(k + 1) =~= all.take(k as int).push(all[k as int]));
                }
            },
            Err(e) => {
                proof {
                    assert(text::first_some(k + 1, at) == Some(e@));
                    text::lemma_first_some_stays(k + 1, mutations.len() as int, at);
                }
                return Err(e);
            },
        }
        kinds.push(kind_of_operation(&step.operation));
        k += 1;
    }
    let two = kinds.len() == 2 && matches!(kinds[0], NativeOperationKind::ExtendLogicalVolume)
        && matches!(kinds[1], NativeOperationKind::GrowFilesystem);
    let three = kinds.len() == 3 && matches!(kinds[0], NativeOperationKind::ResizePhysicalVolume)
        && matches!(kinds[1], NativeOperationKind::ExtendLogicalVolume) && matches!(
        kinds[2],
        NativeOperationKind::GrowFilesystem
    );
    if !two && !three {
        return Err(DisposableArgvError::UnsupportedMutationProfile);
    }
    assert(all.take(all.len() as int) =~= all);
    Ok(
        DisposableCommandPlan {
            source_manifest_id: manifest.source_manifest_id.clone(),
            native_manifest_digest: validated.digest().to_owned(),
            fresh_identity_digest: fresh_identity.manifest_digest.clone(),
            commands,
        },
    )
}

/// The command of the mutation that follows a verified one.
pub open spec fn next_command(
    manifest: NativeCompiledManifest,
    identity: TargetIdentityManifest,
    plan_step_id: u32,
) -> DisposableCompilation {
    let mutations = native_operation::mutation_steps(manifest.steps@);
    let unsupported = DisposableCompilation::Err(DisposableArgvFault::UnsupportedMutationProfile);
    if !(mutations.len() == 2 || mutations.len() == 3) {
        unsupported
    } else {
        match model::step_position(native_operation::step_ids(mutations), plan_step_id) {
            None => unsupported,
            Some(p) => {
                if p == 0 || !mutations[p].depends_on@.contains(mutations[p - 1].plan_step_id) {
                    unsupported
                } else {
                    following_command(mutations[p - 1], mutations[p], identity)
                }
            },
        }
    }
}

/// The command of `current` after `previous` was verified.
pub open spec fn following_command(
    previous: NativeCompiledStep,
    current: NativeCompiledStep,
    identity: TargetIdentityManifest,
) -> DisposableCompilation {
    match (previous.operation, current.operation) {
        (
            NativeOperationSpec::ResizePhysicalVolume { .. },
            NativeOperationSpec::ExtendLogicalVolume { .. },
        ) => mutation_command(current, identity),
        (
            NativeOperationSpec::ExtendLogicalVolume { .. },
            NativeOperationSpec::GrowFilesystem { .. },
        ) => match identity.filesystem {
            None => Err(DisposableArgvFault::FilesystemIdentityMissing),
            Some(filesystem) => {
                if filesystem.observed_filesystem_size_bytes is None
                    || filesystem.observed_filesystem_size_bytes->Some_0 == 0
                    || filesystem.backing_device_size_bytes
                    <= filesystem.observed_filesystem_size_bytes->Some_0 {
                    Err(DisposableArgvFault::FilesystemGrowthNotProven)
                } else {
                    mutation_command(current, identity)
                }
            },
        },
        _ => Err(DisposableArgvFault::UnsupportedMutationProfile),
    }
}

fn compile_following(
    previous: &NativeCompiledStep,
    current: &NativeCompiledStep,
    identity: &TargetIdentityManifest,
) -> (result: Result<DisposableCommandSpec, DisposableArgvError>)
    ensures
        compiled(result, following_command(*previous, *current, *identity)),
{
    match (&previous.operation, &current.operation) {
        (
            NativeOperationSpec::ResizePhysicalVolume { .. },
            NativeOperationSpec::ExtendLogicalVolume { .. },
        ) => compile_mutation(current, identity),
        (
            NativeOperationSpec::ExtendLogicalVolume { .. },
            NativeOperationSpec::GrowFilesystem { .. },
        ) => {
            let filesystem = match &identity.filesystem {
                Some(filesystem) => filesystem,
                None => return Err(DisposableArgvError::FilesystemIdentityMissing),
            };
            match filesystem.observed_filesystem_size_bytes {
                None => return Err(DisposableArgvError::FilesystemGrowthNotProven),
                Some(observed) => {
                    if observed == 0 || filesystem.backing_device_size_bytes <= observed {
                        return Err(DisposableArgvError::FilesystemGrowthNotProven);
                    }
                },
            }
            compile_mutation(current, identity)
        },
        _ => Err(DisposableArgvError::UnsupportedMutationProfile),
    }
}

/// Compiles only the mutation that follows a verified one, against freshly discovered state. A
/// completed mutation is never compiled again.
pub fn compile_verified_disposable_next_command(
    validated: &ValidatedNativeManifest,
    fresh_identity: &TargetIdentityManifest,
    plan_step_id: u32,
) -> (result: Result<DisposableCommandPlan, DisposableArgvError>)
    ensures
        ({
            let manifest = validated.source();
            let owed = next_command(manifest, *fresh_identity, plan_step_id);
            match result {
                Ok(plan) => owed is Ok && plan@ == (DisposablePlanModel {
                    source_manifest_id: manifest.source_manifest_id@,
                    native_manifest_digest: validated.digest_text(),
                    fresh_identity_digest: fresh_identity.manifest_digest@,
                    commands: seq![owed->Ok_0],
                }),
                Err(e) => owed == DisposableCompilation::Err(e@),
            }
        }),
{
    let manifest = validated.manifest();
    let positions = mutation_positions(&manifest.steps);
    let ghost mutations = native_operation::mutation_steps(manifest.steps@);
    if positions.len() != 2 && positions.len() != 3 {
        return Err(DisposableArgvError::UnsupportedMutationProfile);
    }
    let mut ids: Vec<u32> = Vec::new();
    let mut k: usize = 0;
    while k < positions.len()
        invariant
            k <= positions@.len(),
            positions@.len() == mutations.len(),
            forall|k: int|
                #![trigger positions@[k]]
                0 <= k < positions@.len() ==> positions@[k] < manifest.steps@.len() && mutations[k]
                    == manifest.steps@[positions@[k] as int],
            ids@ == native_operation::step_ids(mutations).take(k as int),
        decreases positions@.len() - k,
    {
        ids.push(manifest.steps[positions[k]].plan_step_id);
        assert(native_operation::step_ids(mutations).take(k + 1) =~= native_operation::step_ids(mutations).take(k as int).push(
            native_operation::step_ids(mutations)[k as int],
        ));
        k += 1;
    }
    assert(native_operation::step_ids(mutations).take(native_operation::step_ids(mutations).len() as int) =~= native_operation::step_ids(mutations));
    let position = match find_step(&ids, plan_step_id) {
        None => return Err(DisposableArgvError::UnsupportedMutationProfile),
        Some(position) => position,
    };
    if position == 0 {
        return Err(DisposableArgvError::UnsupportedMutationProfile);
    }
    let previous = &manifest.steps[positions[position - 1]];
    let current = &manifest.steps[positions[position]];
    if !holds_id(&current.depends_on, previous.plan_step_id) {
        return Err(DisposableArgvError::UnsupportedMutationProfile);
    }
    match compile_following(previous, current, fresh_identity) {
        Err(e) => Err(e),
        Ok(command) => {
            let mut commands: Vec<DisposableCommandSpec> = Vec::new();
            commands.push(command);
            assert(command_models(commands@) =~= seq![command@]);
            Ok(
                DisposableCommandPlan {
                    source_manifest_id: manifest.source_manifest_id.clone(),
                    native_manifest_digest: validated.digest().to_owned(),
                    fresh_identity_digest: fresh_identity.manifest_digest.clone(),
                    commands,
                },
            )
        },
    }
}

/// Every compiled command belongs to its own step.
pub proof fn command_belongs_to_its_step(
    step: NativeCompiledStep,
    identity: TargetIdentityManifest,
)
    requires
        mutation_command(step, identity) is Ok,
    ensures
        mutation_command(step, identity)->Ok_0.plan_step_id == step.plan_step_id,
        native_operation::changes_storage(step.operation),
        !(step.operation is ExtendPartition),
{
}

/// A compiled plan holds exactly the mutations of the manifest, in their order.
pub proof fn plan_keeps_the_mutation_order(
    manifest: NativeCompiledManifest,
    identity: TargetIdentityManifest,
    k: int,
)
    requires
        plan_refusal(manifest, identity) is None,
        0 <= k < native_operation::mutation_steps(manifest.steps@).len(),
    ensures
        mutation_commands(native_operation::mutation_steps(manifest.steps@), identity).len() == native_operation::mutation_steps(
            manifest.steps@,
        ).len(),
        mutation_commands(native_operation::mutation_steps(manifest.steps@), identity)[k].plan_step_id
            == native_operation::mutation_steps(manifest.steps@)[k].plan_step_id,
{
    let mutations = native_operation::mutation_steps(manifest.steps@);
    let at = |k: int| mutation_refusal(mutations, identity, k);
    text::lemma_first_some_none(mutations.len() as int, at, k);
    assert(at(k) is None);
    command_belongs_to_its_step(mutations[k], identity);
}

/// The growth of a physical volume compiles exactly where the volume is the only one of its UUID,
/// is to become larger, has a plain device path, and the only device with that path is large
/// enough. The command hands `pvresize` that path and the exact size in bytes.
pub proof fn pvresize_sets_the_expected_size(
    step: NativeCompiledStep,
    identity: TargetIdentityManifest,
)
    requires
        step.operation is ResizePhysicalVolume,
    ensures
        ({
            let owed = mutation_command(step, identity);
            let kind = LvmIdentityKind::PhysicalVolume;
            let uuid = step.operation->ResizePhysicalVolume_pv_uuid@;
            let size = step.operation->ResizePhysicalVolume_expected_pv_size_bytes;
            &&& owed is Ok <==> exists|i: int, d: int|
                {
                    &&& #[trigger] reading::only_volume_at(identity.lvm@, kind, uuid, i)
                    &&& identity.lvm@[i].size_bytes < size
                    &&& is_plain_device_path(identity.lvm@[i].name@)
                    &&& #[trigger] reading::only_device_at(identity.devices@, identity.lvm@[i].name@, d)
                    &&& size <= identity.devices@[d].size_bytes
                }
            &&& owed is Ok ==> {
                let command = owed->Ok_0;
                &&& command.plan_step_id == step.plan_step_id
                &&& command.program is Pvresize
                &&& command.args.len() == 5
                &&& command.args[0] == "--setphysicalvolumesize"@
                &&& exists|s: Seq<char>|
                    #[trigger] reading::spells(s, size as int) && command.args[1] == s + "B"@
                &&& command.args[2] == "--yes"@
                &&& command.args[3] == "--"@
                &&& exists|i: int|
                    #[trigger] reading::only_volume_at(identity.lvm@, kind, uuid, i) && command.args[4]
                        == identity.lvm@[i].name@
            }
        }),
{
    let kind = LvmIdentityKind::PhysicalVolume;
    let uuid = step.operation->ResizePhysicalVolume_pv_uuid@;
    let size = step.operation->ResizePhysicalVolume_expected_pv_size_bytes;
    reading::found_volume_is_the_only_one(identity.lvm@, kind, uuid);
    reading::written_number_is_read_back(size as nat);
    if exists|i: int| reading::only_volume_at(identity.lvm@, kind, uuid, i) {
        let i = choose|i: int| reading::only_volume_at(identity.lvm@, kind, uuid, i);
        assert(reading::only_volume_at(identity.lvm@, kind, uuid, i));
        let path = identity.lvm@[i].name@;
        reading::found_device_is_the_only_one(identity.devices@, path);
        if exists|d: int| reading::only_device_at(identity.devices@, path, d) {
            let d = choose|d: int| reading::only_device_at(identity.devices@, path, d);
            assert(reading::only_device_at(identity.devices@, path, d));
        }
    }
}

/// The growth of a logical volume compiles exactly where the volume is the only one of its UUID,
/// has a plain device path, and is to become larger by at least one extent. The command hands
/// `lvextend` that path and the number of extents to add.
pub proof fn lvextend_adds_the_planned_extents(
    step: NativeCompiledStep,
    identity: TargetIdentityManifest,
)
    requires
        step.operation is ExtendLogicalVolume,
    ensures
        ({
            let owed = mutation_command(step, identity);
            let kind = LvmIdentityKind::LogicalVolume;
            let uuid = step.operation->ExtendLogicalVolume_lv_uuid@;
            let extents = step.operation->ExtendLogicalVolume_additional_extents;
            let size = step.operation->ExtendLogicalVolume_expected_lv_size_bytes;
            &&& owed is Ok <==> exists|i: int|
                {
                    &&& #[trigger] reading::only_volume_at(identity.lvm@, kind, uuid, i)
                    &&& identity.lvm@[i].size_bytes < size
                    &&& 0 < extents
                    &&& is_plain_device_path(identity.lvm@[i].name@)
                }
            &&& owed is Ok ==> {
                let command = owed->Ok_0;
                &&& command.plan_step_id == step.plan_step_id
                &&& command.program is Lvextend
                &&& command.args.len() == 4
                &&& command.args[0] == "--extents"@
                &&& exists|s: Seq<char>|
                    #[trigger] reading::spells(s, extents as int) && command.args[1] == "+"@ + s
                &&& command.args[2] == "--"@
                &&& exists|i: int|
                    #[trigger] reading::only_volume_at(identity.lvm@, kind, uuid, i) && command.args[3]
                        == identity.lvm@[i].name@
            }
        }),
{
    let kind = LvmIdentityKind::LogicalVolume;
    let uuid = step.operation->ExtendLogicalVolume_lv_uuid@;
    reading::found_volume_is_the_only_one(identity.lvm@, kind, uuid);
    reading::written_number_is_read_back(step.operation->ExtendLogicalVolume_additional_extents as nat);
    if exists|i: int| reading::only_volume_at(identity.lvm@, kind, uuid, i) {
        let i = choose|i: int| reading::only_volume_at(identity.lvm@, kind, uuid, i);
        assert(reading::only_volume_at(identity.lvm@, kind, uuid, i));
    }
}

/// The growth of a filesystem compiles exactly where the filesystem is the planned one on the
/// resolved device, with plain paths, and mounted just once where planned. An ext4 filesystem is
/// grown through its device, an xfs filesystem through its mountpoint.
pub proof fn mounted_filesystem_is_grown_by_its_own_tool(
    step: NativeCompiledStep,
    identity: TargetIdentityManifest,
)
    requires
        step.operation is GrowFilesystem,
    ensures
        ({
            let owed = mutation_command(step, identity);
            let fs_type = step.operation->GrowFilesystem_fs_type@;
            let mountpoint = step.operation->GrowFilesystem_mountpoint;
            &&& owed is Ok <==> {
                &&& fs_type == "ext4"@ || fs_type == "xfs"@
                &&& identity.filesystem matches Some(filesystem)
                &&& filesystem.fs_type@ == fs_type
                &&& filesystem.device@ == identity.resolved_device@
                &&& is_plain_device_path(filesystem.device@)
                &&& mountpoint matches Some(target)
                &&& is_plain_absolute_path(target@)
                &&& exists|i: int| reading::only_mount_at(identity.mounts@, target@, fs_type, i)
            }
            &&& owed is Ok ==> {
                let command = owed->Ok_0;
                &&& command.plan_step_id == step.plan_step_id
                &&& fs_type == "ext4"@ ==> command.program is Resize2fs && command.args == seq![
                    identity.resolved_device@,
                ]
                &&& fs_type == "xfs"@ ==> command.program is XfsGrowfs && command.args == seq![
                    "-d"@,
                    mountpoint->Some_0@,
                ]
            }
        }),
{
    reveal_strlit("ext4");
    reveal_strlit("xfs");
    assert("ext4"@.len() != "xfs"@.len());
    if step.operation->GrowFilesystem_mountpoint is Some {
        reading::found_mount_is_the_only_one(
            identity.mounts@,
            step.operation->GrowFilesystem_mountpoint->Some_0@,
            step.operation->GrowFilesystem_fs_type@,
        );
    }
}

/// A plain device path starts with `/dev/`, a plain absolute path with a slash, and neither has a
/// character below a space or between delete and the end of the second control block.
pub proof fn plain_path_has_no_control_character(s: Seq<char>)
    ensures
        is_plain_device_path(s) <==> {
            &&& exists|rest: Seq<char>| s == #[trigger] ("/dev/"@ + rest)
            &&& forall|i: int|
                0 <= i < s.len() ==> ' ' <= #[trigger] s[i] <= '~' || '\u{a0}' <= s[i]
        },
        is_plain_absolute_path(s) <==> {
            &&& exists|rest: Seq<char>| s == #[trigger] ("/"@ + rest)
            &&& forall|i: int|
                0 <= i < s.len() ==> ' ' <= #[trigger] s[i] <= '~' || '\u{a0}' <= s[i]
        },
{
    lemma_prefix_is_in_front(s, "/dev/"@);
    lemma_prefix_is_in_front(s, "/"@);
    if !text::has_control_char(s) {
        assert forall|i: int| 0 <= i < s.len() implies ' ' <= #[trigger] s[i] <= '~' || '\u{a0}'
            <= s[i] by {
            assert(!text::is_control_char(s[i]));
        }
    }
}

proof fn lemma_prefix_is_in_front(s: Seq<char>, prefix: Seq<char>)
    ensures
        text::has_prefix(s, prefix) <==> exists|rest: Seq<char>| s == #[trigger] (prefix + rest),
{
    if text::has_prefix(s, prefix) {
        assert(s =~= prefix + s.subrange(prefix.len() as int, s.len() as int));
    }
    if exists|rest: Seq<char>| s == #[trigger] (prefix + rest) {
        let rest = choose|rest: Seq<char>| s == #[trigger] (prefix + rest);
        assert(s.subrange(0, prefix.len() as int) =~= prefix);
    }
}

/// A plan compiles exactly where its mutations are the growth of a logical volume and then of the
/// filesystem, with or without that of the physical volume before, and each of them compiles. Its
/// commands are theirs, in order.
pub proof fn plan_compiles_from_the_volume_upwards(
    manifest: NativeCompiledManifest,
    identity: TargetIdentityManifest,
)
    ensures
        ({
            let mutations = native_operation::mutation_steps(manifest.steps@);
            let n = mutations.len();
            let commands = mutation_commands(mutations, identity);
            &&& plan_refusal(manifest, identity) is None <==> {
                &&& n == 2 || n == 3
                &&& n == 3 ==> mutations[0].operation is ResizePhysicalVolume
                &&& mutations[n - 2].operation is ExtendLogicalVolume
                &&& mutations[n - 1].operation is GrowFilesystem
                &&& forall|k: int|
                    0 <= k < n ==> mutation_command(#[trigger] mutations[k], identity) is Ok
            }
            &&& plan_refusal(manifest, identity) is None ==> {
                &&& commands.len() == n
                &&& forall|k: int|
                    0 <= k < n ==> mutation_command(#[trigger] mutations[k], identity)
                        == DisposableCompilation::Ok(commands[k])
            }
        }),
{
    let mutations = native_operation::mutation_steps(manifest.steps@);
    let at = |k: int| mutation_refusal(mutations, identity, k);
    reading::report_is_the_first_one(mutations.len() as int, at);
    let refusal = text::first_some(mutations.len() as int, at);
    if refusal is None {
        assert forall|k: int| 0 <= k < mutations.len() implies mutation_command(
            #[trigger] mutations[k],
            identity,
        ) is Ok by {
            assert(at(k) is None);
        }
    } else {
        let k = choose|k: int| reading::is_first_report(mutations.len() as int, at, k);
        assert(mutation_command(mutations[k], identity) is Err);
    }
}

/// A mutation follows another exactly where the two are a physical and a logical volume or a logical
/// volume and the filesystem, a filesystem that is to grow is known to be positive and smaller than
/// its device, and the mutation itself compiles. Its command is then its own.
pub proof fn mutation_follows_the_layer_below(
    previous: NativeCompiledStep,
    current: NativeCompiledStep,
    identity: TargetIdentityManifest,
)
    ensures
        following_command(previous, current, identity) is Ok <==> {
            let filesystem = identity.filesystem->Some_0;
            let size = filesystem.observed_filesystem_size_bytes;
            &&& mutation_command(current, identity) is Ok
            &&& {
                ||| {
                    &&& previous.operation is ResizePhysicalVolume
                    &&& current.operation is ExtendLogicalVolume
                }
                ||| {
                    &&& previous.operation is ExtendLogicalVolume
                    &&& current.operation is GrowFilesystem
                    &&& identity.filesystem is Some
                    &&& size is Some
                    &&& 0 < size->Some_0
                    &&& size->Some_0 < filesystem.backing_device_size_bytes
                }
            }
        },
        following_command(previous, current, identity) is Ok ==> following_command(
            previous,
            current,
            identity,
        ) == mutation_command(current, identity),
{
}

/// The step at `p` is the first mutation with this number, is not the first of all, and depends on
/// the one before it.
pub open spec fn is_dependent_mutation_at(
    mutations: Seq<NativeCompiledStep>,
    plan_step_id: u32,
    p: int,
) -> bool {
    &&& 0 < p < mutations.len()
    &&& mutations[p].plan_step_id == plan_step_id
    &&& forall|q: int| 0 <= q < p ==> (#[trigger] mutations[q]).plan_step_id != plan_step_id
    &&& mutations[p].depends_on@.contains(mutations[p - 1].plan_step_id)
}

/// A next command is compiled exactly where there are two or three mutations, and the step is one of
/// them that depends on the one before it and follows it.
pub proof fn next_command_follows_its_predecessor(
    manifest: NativeCompiledManifest,
    identity: TargetIdentityManifest,
    plan_step_id: u32,
)
    ensures
        ({
            let mutations = native_operation::mutation_steps(manifest.steps@);
            let owed = next_command(manifest, identity, plan_step_id);
            &&& owed is Ok ==> (mutations.len() == 2 || mutations.len() == 3) && exists|p: int|
                is_dependent_mutation_at(mutations, plan_step_id, p)
            &&& mutations.len() == 2 || mutations.len() == 3 ==> forall|p: int| #[trigger]
                is_dependent_mutation_at(mutations, plan_step_id, p) ==> owed == following_command(
                    mutations[p - 1],
                    mutations[p],
                    identity,
                )
        }),
{
    let mutations = native_operation::mutation_steps(manifest.steps@);
    let owed = next_command(manifest, identity, plan_step_id);
    let ids = native_operation::step_ids(mutations);
    privileged_protocol::step_position_is_the_first_place(ids, plan_step_id);
    let position = model::step_position(ids, plan_step_id);
    if owed is Ok {
        let p = position->Some_0;
        assert forall|q: int| 0 <= q < p implies (#[trigger] mutations[q]).plan_step_id
            != plan_step_id by {
            assert(ids[q] != plan_step_id);
        }
        assert(is_dependent_mutation_at(mutations, plan_step_id, p));
    }
    assert forall|p: int| #[trigger] is_dependent_mutation_at(
        mutations,
        plan_step_id,
        p,
    ) implies position == Some(p) by {
        assert(ids[p] == plan_step_id);
        let r = position->Some_0;
        if r < p {
            assert(mutations[r].plan_step_id != plan_step_id);
        }
    }
}

/// Each program goes by the name of its tool.
pub proof fn disposable_program_goes_by_its_tool(program: DisposableProgram)
    ensures
        program is Pvresize ==> disposable_program_name(program) == "pvresize"@,
        program is Lvextend ==> disposable_program_name(program) == "lvextend"@,
        program is Resize2fs ==> disposable_program_name(program) == "resize2fs"@,
        program is XfsGrowfs ==> disposable_program_name(program) == "xfs_growfs"@,
{
}

/// Each refusal of a mutation names something that is wrong.
pub proof fn refused_mutation_names_its_reason(
    step: NativeCompiledStep,
    identity: TargetIdentityManifest,
)
    ensures
        mutation_command(step, identity) matches Err(e) ==> match e {
            DisposableArgvFault::UnsupportedMutation(kind) => kind is ExtendPartition
                && step.operation is ExtendPartition,
            DisposableArgvFault::UnsupportedMutationProfile => {
                !native_operation::changes_storage(step.operation)
            },
            DisposableArgvFault::PhysicalVolumeIdentityNotUnique(uuid) => step.operation
                is ResizePhysicalVolume && uuid == step.operation->ResizePhysicalVolume_pv_uuid@
                && !exists|i: int|
                reading::only_volume_at(identity.lvm@, LvmIdentityKind::PhysicalVolume, uuid, i),
            DisposableArgvFault::PhysicalVolumeGrowthMismatch => step.operation
                is ResizePhysicalVolume && exists|i: int|
                {
                    &&& #[trigger] reading::only_volume_at(
                        identity.lvm@,
                        LvmIdentityKind::PhysicalVolume,
                        step.operation->ResizePhysicalVolume_pv_uuid@,
                        i,
                    )
                    &&& step.operation->ResizePhysicalVolume_expected_pv_size_bytes
                        <= identity.lvm@[i].size_bytes
                },
            DisposableArgvFault::UnsafePhysicalVolumePath => step.operation is ResizePhysicalVolume
                && exists|i: int|
                {
                    &&& #[trigger] reading::only_volume_at(
                        identity.lvm@,
                        LvmIdentityKind::PhysicalVolume,
                        step.operation->ResizePhysicalVolume_pv_uuid@,
                        i,
                    )
                    &&& !is_plain_device_path(identity.lvm@[i].name@)
                },
            DisposableArgvFault::PhysicalVolumeBackingNotProven => step.operation
                is ResizePhysicalVolume && exists|i: int|
                {
                    &&& #[trigger] reading::only_volume_at(
                        identity.lvm@,
                        LvmIdentityKind::PhysicalVolume,
                        step.operation->ResizePhysicalVolume_pv_uuid@,
                        i,
                    )
                    &&& forall|d: int| #[trigger]
                        reading::only_device_at(identity.devices@, identity.lvm@[i].name@, d)
                            ==> identity.devices@[d].size_bytes
                            < step.operation->ResizePhysicalVolume_expected_pv_size_bytes
                },
            DisposableArgvFault::LogicalVolumeIdentityNotUnique(uuid) => step.operation
                is ExtendLogicalVolume && uuid == step.operation->ExtendLogicalVolume_lv_uuid@
                && !exists|i: int|
                reading::only_volume_at(identity.lvm@, LvmIdentityKind::LogicalVolume, uuid, i),
            DisposableArgvFault::LogicalVolumeGrowthMismatch => step.operation
                is ExtendLogicalVolume && exists|i: int|
                {
                    &&& #[trigger] reading::only_volume_at(
                        identity.lvm@,
                        LvmIdentityKind::LogicalVolume,
                        step.operation->ExtendLogicalVolume_lv_uuid@,
                        i,
                    )
                    &&& step.operation->ExtendLogicalVolume_additional_extents == 0
                        || step.operation->ExtendLogicalVolume_expected_lv_size_bytes
                        <= identity.lvm@[i].size_bytes
                },
            DisposableArgvFault::UnsafeLogicalVolumePath => step.operation is ExtendLogicalVolume
                && exists|i: int|
                {
                    &&& #[trigger] reading::only_volume_at(
                        identity.lvm@,
                        LvmIdentityKind::LogicalVolume,
                        step.operation->ExtendLogicalVolume_lv_uuid@,
                        i,
                    )
                    &&& !is_plain_device_path(identity.lvm@[i].name@)
                },
            DisposableArgvFault::FilesystemIdentityMissing => step.operation is GrowFilesystem
                && identity.filesystem is None,
            DisposableArgvFault::UnsafeFilesystemDevicePath => step.operation is GrowFilesystem
                && !is_plain_device_path(identity.filesystem->Some_0.device@),
            DisposableArgvFault::FilesystemIdentityMismatch => step.operation is GrowFilesystem && (
            identity.filesystem->Some_0.fs_type@ != step.operation->GrowFilesystem_fs_type@
                || identity.filesystem->Some_0.device@ != identity.resolved_device@),
            DisposableArgvFault::UnsafeFilesystemMountpoint => step.operation is GrowFilesystem && (
            step.operation->GrowFilesystem_mountpoint is None || !is_plain_absolute_path(
                step.operation->GrowFilesystem_mountpoint->Some_0@,
            )),
            DisposableArgvFault::FilesystemMountNotUnique => step.operation is GrowFilesystem
                && !exists|i: int|
                reading::only_mount_at(
                    identity.mounts@,
                    step.operation->GrowFilesystem_mountpoint->Some_0@,
                    step.operation->GrowFilesystem_fs_type@,
                    i,
                ),
            DisposableArgvFault::UnsupportedFilesystem(name) => step.operation is GrowFilesystem
                && name == step.operation->GrowFilesystem_fs_type@ && name != "ext4"@ && name
                != "xfs"@,
            _ => false,
        },
{
    match step.operation {
        NativeOperationSpec::ResizePhysicalVolume { pv_uuid, .. } => {
            reading::found_volume_is_the_only_one(
                identity.lvm@,
                LvmIdentityKind::PhysicalVolume,
                pv_uuid@,
            );
            let kind = LvmIdentityKind::PhysicalVolume;
            if exists|i: int| reading::only_volume_at(identity.lvm@, kind, pv_uuid@, i) {
                let i = choose|i: int| reading::only_volume_at(identity.lvm@, kind, pv_uuid@, i);
                assert(reading::only_volume_at(identity.lvm@, kind, pv_uuid@, i));
                reading::found_device_is_the_only_one(identity.devices@, identity.lvm@[i].name@);
            }
        },
        NativeOperationSpec::ExtendLogicalVolume { lv_uuid, .. } => {
            reading::found_volume_is_the_only_one(identity.lvm@, LvmIdentityKind::LogicalVolume, lv_uuid@);
            let kind = LvmIdentityKind::LogicalVolume;
            if exists|i: int| reading::only_volume_at(identity.lvm@, kind, lv_uuid@, i) {
                let i = choose|i: int| reading::only_volume_at(identity.lvm@, kind, lv_uuid@, i);
                assert(reading::only_volume_at(identity.lvm@, kind, lv_uuid@, i));
            }
        },
        NativeOperationSpec::GrowFilesystem { fs_type, mountpoint } => {
            if mountpoint is Some {
                reading::found_mount_is_the_only_one(identity.mounts@, mountpoint->Some_0@, fs_type@);
            }
        },
        _ => {},
    }
}

} // verus!
