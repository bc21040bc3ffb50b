//! One-shot permits for disposable commands.

use vstd::prelude::*;

use crate::reading;
use crate::text;
use crate::paths;
use crate::native_operation;
use crate::model;
use crate::disposable_verify;
use crate::disposable_ownership;
use crate::disposable_argv;
use crate::disposable_argv::{
    compile_verified_disposable_next_command, DisposableArgvError, DisposableArgvFault,
    DisposableCommandModel, DisposableCommandPlan, DisposableCommandSpec, DisposablePlanModel,
};
use crate::disposable_loop_association::{AssociationModel, DisposableLoopAssociation};
use crate::disposable_ownership::{
    revalidate_disposable_loop_ownership, BackingFileProbe, DisposableLoopOwnershipProof,
    DisposableOwnershipError, OwnershipFault,
};
use crate::disposable_verify::{DisposableBoundaryModel, DisposableVerifiedBoundary};
use crate::model::{
    steps_adjacent, DeviceIdentity, ExecutionStartBinding, Lookup, LvmIdentity, LvmIdentityKind,
    TargetIdentityManifest,
};
use crate::native_operation::{NativeCompiledManifest, ValidatedNativeManifest};
use crate::paths::same_path;
use crate::text::{chars_of, chars_start_with, digits_from, same_text, text_starts_with};

verus! {

/// The permission to run one exact command. It cannot be copied; running the command consumes it.
#[derive(Debug)]
pub struct DisposableExecutionPermit {
    source_manifest_id: String,
    native_manifest_digest: String,
    fresh_identity_digest: String,
    execution_id: String,
    loop_device: String,
    command: DisposableCommandSpec,
    ownership: DisposableLoopOwnershipProof,
}

/// The content of a permit.
pub struct DisposablePermitModel {
    pub source_manifest_id: Seq<char>,
    pub native_manifest_digest: Seq<char>,
    pub fresh_identity_digest: Seq<char>,
    pub execution_id: Seq<char>,
    pub loop_device: Seq<char>,
    pub command: DisposableCommandModel,
    pub ownership: DisposableLoopOwnershipProof,
}

impl View for DisposableExecutionPermit {
    type V = DisposablePermitModel;

    closed spec fn view(&self) -> DisposablePermitModel {
        DisposablePermitModel {
            source_manifest_id: self.source_manifest_id@,
            native_manifest_digest: self.native_manifest_digest@,
            fresh_identity_digest: self.fresh_identity_digest@,
            execution_id: self.execution_id@,
            loop_device: self.loop_device@,
            command: self.command@,
            ownership: self.ownership,
        }
    }
}

impl DisposableExecutionPermit {
    pub fn source_manifest_id(&self) -> (value: &str)
        ensures
            value@ == self@.source_manifest_id,
    {
        self.source_manifest_id.as_str()
    }

    pub fn native_manifest_digest(&self) -> (value: &str)
        ensures
            value@ == self@.native_manifest_digest,
    {
        self.native_manifest_digest.as_str()
    }

    pub fn fresh_identity_digest(&self) -> (value: &str)
        ensures
            value@ == self@.fresh_identity_digest,
    {
        self.fresh_identity_digest.as_str()
    }

    pub fn execution_id(&self) -> (value: &str)
        ensures
            value@ == self@.execution_id,
    {
        self.execution_id.as_str()
    }

    pub fn loop_device(&self) -> (value: &str)
        ensures
            value@ == self@.loop_device,
    {
        self.loop_device.as_str()
    }

    pub fn command(&self) -> (value: &DisposableCommandSpec)
        ensures
            value@ == self@.command,
    {
        &self.command
    }

    pub fn ownership(&self) -> (value: &DisposableLoopOwnershipProof)
        ensures
            *value == self@.ownership,
    {
        &self.ownership
    }
}

#[derive(Clone, Debug, PartialEq, Eq)]
pub enum DisposablePermitError {
    FreshIdentityBindingMismatch,
    AssociationOwnershipMismatch,
    TargetNotOwnedByLoop,
    ExecutionBindingMismatch,
    ExecutionBindingIntegrityMismatch,
    ExecutionStepNotNext(u32),
    VerifiedBoundaryMismatch,
    VerifiedCommand(DisposableArgvError),
    CommandStepNotUnique(u32),
    Ownership(DisposableOwnershipError),
}

/// The content of a refusal.
pub enum DisposablePermitFault {
    FreshIdentityBindingMismatch,
    AssociationOwnershipMismatch,
    TargetNotOwnedByLoop,
    ExecutionBindingMismatch,
    ExecutionBindingIntegrityMismatch,
    ExecutionStepNotNext(u32),
    VerifiedBoundaryMismatch,
    VerifiedCommand(DisposableArgvFault),
    CommandStepNotUnique(u32),
    Ownership(OwnershipFault),
}

impl View for DisposablePermitError {
    type V = DisposablePermitFault;

    open spec fn view(&self) -> DisposablePermitFault {
        match *self {
            DisposablePermitError::FreshIdentityBindingMismatch => {
                DisposablePermitFault::FreshIdentityBindingMismatch
            },
            DisposablePermitError::AssociationOwnershipMismatch => {
                DisposablePermitFault::AssociationOwnershipMismatch
            },
            DisposablePermitError::TargetNotOwnedByLoop => {
                DisposablePermitFault::TargetNotOwnedByLoop
            },
            DisposablePermitError::ExecutionBindingMismatch => {
                DisposablePermitFault::ExecutionBindingMismatch
            },
            DisposablePermitError::ExecutionBindingIntegrityMismatch => {
                DisposablePermitFault::ExecutionBindingIntegrityMismatch
            },
            DisposablePermitError::ExecutionStepNotNext(id) => {
                DisposablePermitFault::ExecutionStepNotNext(id)
            },
            DisposablePermitError::VerifiedBoundaryMismatch => {
                DisposablePermitFault::VerifiedBoundaryMismatch
            },
            DisposablePermitError::VerifiedCommand(e) => {
                DisposablePermitFault::VerifiedCommand(e@)
            },
            DisposablePermitError::CommandStepNotUnique(id) => {
                DisposablePermitFault::CommandStepNotUnique(id)
            },
            DisposablePermitError::Ownership(e) => DisposablePermitFault::Ownership(e@),
        }
    }
}

/// The loop device itself or one of its partitions.
pub open spec fn is_on_loop(path: Seq<char>, loop_path: Seq<char>) -> bool {
    ||| path == loop_path
    ||| {
        &&& text::has_prefix(path, loop_path)
        &&& path.len() > loop_path.len() + 1
        &&& path[loop_path.len() as int] == 'p'
        &&& text::all_digits(path.subrange(loop_path.len() as int + 1, path.len() as int))
    }
}

fn belongs_to_loop(path: &str, loop_path: &str) -> (yes: bool)
    ensures
        yes == is_on_loop(path@, loop_path@),
{
    if same_text(path, loop_path) {
        return true;
    }
    let chars = chars_of(path);
    let prefix = chars_of(loop_path);
    let at: usize = prefix.len();
    chars_start_with(&chars, &prefix) && chars.len() - at > 1 && chars[at] == 'p' && digits_from(
        &chars,
        at + 1,
    )
}

/// The target is built on the loop device and on no other: the device is part of the chain, no
/// other loop device is, and the only physical volume lies on it.
pub open spec fn is_rooted_in_loop(identity: TargetIdentityManifest, loop_device: Seq<char>) -> bool {
    let devices = identity.devices@;
    let volumes = identity.lvm@.filter(
        |e: LvmIdentity| e.kind == LvmIdentityKind::PhysicalVolume,
    );
    &&& exists|i: int| 0 <= i < devices.len() && (#[trigger] devices[i]).path@ == loop_device
    &&& forall|i: int|
        0 <= i < devices.len() && text::has_prefix((#[trigger] devices[i]).path@, "/dev/loop"@)
            ==> is_on_loop(devices[i].path@, loop_device)
    &&& volumes.len() == 1
    &&& is_on_loop(volumes[0].name@, loop_device)
}

fn devices_rooted_in_loop(devices: &Vec<DeviceIdentity>, loop_device: &str) -> (yes: bool)
    ensures
        yes == {
            &&& exists|i: int|
                0 <= i < devices@.len() && (#[trigger] devices@[i]).path@ == loop_device@
            &&& forall|i: int|
                0 <= i < devices@.len() && text::has_prefix((#[trigger] devices@[i]).path@, "/dev/loop"@)
                    ==> is_on_loop(devices@[i].path@, loop_device@)
        },
{
    let mut found = false;
    let mut i: usize = 0;
    while i < devices.len()
        invariant
            i <= devices@.len(),
            found == exists|j: int|
                0 <= j < i && (#[trigger] devices@[j]).path@ == loop_device@,
            forall|j: int|
                0 <= j < i && text::has_prefix((#[trigger] devices@[j]).path@, "/dev/loop"@)
                    ==> is_on_loop(devices@[j].path@, loop_device@),
        decreases devices@.len() - i,
    {
        let path = devices[i].path.as_str();
        if same_text(path, loop_device) {
            assert(devices@[i as int].path@ == loop_device@);
            found = true;
        }
        if text_starts_with(path, "/dev/loop") && !belongs_to_loop(path, loop_device) {
            assert(text::has_prefix(devices@[i as int].path@, "/dev/loop"@));
            return false;
        }
        i += 1;
    }
    found
}

fn find_physical_volume(items: &Vec<LvmIdentity>) -> (found: Lookup)
    ensures
        model::lookup_of(
            items@,
            items@.filter(|e: LvmIdentity| e.kind == LvmIdentityKind::PhysicalVolume),
            found,
        ),
{
    let ghost keep = |e: LvmIdentity| e.kind == LvmIdentityKind::PhysicalVolume;
    let mut found = Lookup::Missing;
    let mut i: usize = 0;
    proof {
        reveal(Seq::filter);
    }
    while i < items.len()
        invariant
            i <= items.len(),
            keep == (|e: LvmIdentity| e.kind == LvmIdentityKind::PhysicalVolume),
            model::lookup_of(items@, items@.take(i as int).filter(keep), found),
        decreases items.len() - i,
    {
        proof {
            model::lemma_filter_next(items@, i as int, keep);
        }
        if matches!(items[i].kind, LvmIdentityKind::PhysicalVolume) {
            found = match found {
                Lookup::Missing => Lookup::Unique(i),
                _ => Lookup::Ambiguous,
            };
            assert(model::lookup_of(items@, items@.take(i + 1).filter(keep), found)) by {
                if found is Unique {
                    assert(items@.take(i + 1).filter(keep) =~= seq![items@[i as int]]);
                }
            }
        }
        i += 1;
    }
    assert(items@.take(items@.len() as int) =~= items@);
    found
}

/// Refuses a target that is not built on the loop device alone.
pub fn verify_target_owned_by_loop(identity: &TargetIdentityManifest, loop_device: &str) -> (result:
    Result<(), DisposablePermitError>)
    ensures
        match result {
            Ok(_) => is_rooted_in_loop(*identity, loop_device@),
            Err(e) => !is_rooted_in_loop(*identity, loop_device@) && e is TargetNotOwnedByLoop,
        },
{
    if !devices_rooted_in_loop(&identity.devices, loop_device) {
        return Err(DisposablePermitError::TargetNotOwnedByLoop);
    }
    match find_physical_volume(&identity.lvm) {
        Lookup::Unique(i) => {
            if belongs_to_loop(identity.lvm[i].name.as_str(), loop_device) {
                Ok(())
            } else {
                Err(DisposablePermitError::TargetNotOwnedByLoop)
            }
        },
        _ => Err(DisposablePermitError::TargetNotOwnedByLoop),
    }
}

/// The association names the device and the file of the ownership proof.
pub open spec fn association_agrees(
    association: AssociationModel,
    ownership: DisposableLoopOwnershipProof,
) -> bool {
    association.loop_device == ownership.loop_device@ && paths::paths_agree(
        association.backing_file,
        ownership.backing_file@,
    )
}

fn association_matches(
    association: &DisposableLoopAssociation,
    ownership: &DisposableLoopOwnershipProof,
) -> (yes: bool)
    ensures
        yes == association_agrees(association@, *ownership),
{
    same_text(association.loop_device(), ownership.loop_device.as_str()) && same_path(
        association.backing_file(),
        ownership.backing_file.as_str(),
    )
}

/// The commands of one step.
pub open spec fn commands_for(commands: Seq<DisposableCommandModel>, id: u32) -> Seq<
    DisposableCommandModel,
> {
    commands.filter(|c: DisposableCommandModel| c.plan_step_id == id)
}

fn find_command(commands: &Vec<DisposableCommandSpec>, id: u32) -> (found: Lookup)
    ensures
        model::lookup_of(
            disposable_argv::command_models(commands@),
            commands_for(disposable_argv::command_models(commands@), id),
            found,
        ),
{
    let ghost models = disposable_argv::command_models(commands@);
    let ghost keep = |c: DisposableCommandModel| c.plan_step_id == id;
    let mut found = Lookup::Missing;
    let mut i: usize = 0;
    proof {
        reveal(Seq::filter);
    }
    while i < commands.len()
        invariant
            i <= commands.len(),
            models == disposable_argv::command_models(commands@),
            keep == (|c: DisposableCommandModel| c.plan_step_id == id),
            model::lookup_of(models, models.take(i as int).filter(keep), found),
        decreases commands.len() - i,
    {
        proof {
            model::lemma_filter_next(models, i as int, keep);
        }
        if commands[i].plan_step_id() == id {
            found = match found {
                Lookup::Missing => Lookup::Unique(i),
                _ => Lookup::Ambiguous,
            };
            assert(model::lookup_of(models, models.take(i + 1).filter(keep), found)) by {
                if found is Unique {
                    assert(models.take(i + 1).filter(keep) =~= seq![models[i as int]]);
                }
            }
        }
        i += 1;
    }
    assert(models.take(models.len() as int) =~= models);
    found
}

/// What a first permit is refused for, if anything.
pub open spec fn permit_refusal(
    plan: DisposablePlanModel,
    fresh: TargetIdentityManifest,
    ownership: DisposableLoopOwnershipProof,
    probe: BackingFileProbe,
    association: AssociationModel,
    execution: ExecutionStartBinding,
    plan_step_id: u32,
) -> Option<DisposablePermitFault> {
    let owned = disposable_ownership::ownership_refusal(ownership, probe);
    if owned is Some {
        Some(DisposablePermitFault::Ownership(owned->Some_0))
    } else if plan.fresh_identity_digest != fresh.manifest_digest@ {
        Some(DisposablePermitFault::FreshIdentityBindingMismatch)
    } else if !association_agrees(association, ownership) {
        Some(DisposablePermitFault::AssociationOwnershipMismatch)
    } else if !is_rooted_in_loop(fresh, ownership.loop_device@) {
        Some(DisposablePermitFault::TargetNotOwnedByLoop)
    } else if !execution.is_sound() {
        Some(DisposablePermitFault::ExecutionBindingIntegrityMismatch)
    } else if execution.source_manifest_id@ != plan.source_manifest_id
        || execution.native_manifest_digest@ != plan.native_manifest_digest
        || execution.fresh_identity_digest@ != plan.fresh_identity_digest {
        Some(DisposablePermitFault::ExecutionBindingMismatch)
    } else if !(execution.mutation_step_ids@.len() > 0 && execution.mutation_step_ids@[0]
        == plan_step_id) {
        Some(DisposablePermitFault::ExecutionStepNotNext(plan_step_id))
    } else if commands_for(plan.commands, plan_step_id).len() != 1 {
        Some(DisposablePermitFault::CommandStepNotUnique(plan_step_id))
    } else {
        None
    }
}

/// Binds one exact command to current ownership and fresh identity, for the first mutation of an
/// execution.
pub fn bind_disposable_execution_permit(
    plan: &DisposableCommandPlan,
    fresh_identity: &TargetIdentityManifest,
    ownership: &DisposableLoopOwnershipProof,
    probe: &BackingFileProbe,
    association: &DisposableLoopAssociation,
    execution: &ExecutionStartBinding,
    plan_step_id: u32,
) -> (result: Result<DisposableExecutionPermit, DisposablePermitError>)
    ensures
        ({
            let refusal = permit_refusal(
                plan@,
                *fresh_identity,
                *ownership,
                *probe,
                association@,
                *execution,
                plan_step_id,
            );
            match result {
                Ok(permit) => refusal is None && permit@ == (DisposablePermitModel {
                    source_manifest_id: plan@.source_manifest_id,
                    native_manifest_digest: plan@.native_manifest_digest,
                    fresh_identity_digest: plan@.fresh_identity_digest,
                    execution_id: execution.execution_id@,
                    loop_device: ownership.loop_device@,
                    command: commands_for(plan@.commands, plan_step_id)[0],
                    ownership: *ownership,
                }),
                Err(e) => refusal == Some(e@),
            }
        }),
{
    match revalidate_disposable_loop_ownership(ownership, probe) {
        Ok(_) => {},
        Err(e) => return Err(DisposablePermitError::Ownership(e)),
    }
    if !same_text(plan.fresh_identity_digest(), fresh_identity.manifest_digest.as_str()) {
        return Err(DisposablePermitError::FreshIdentityBindingMismatch);
    }
    if !association_matches(association, ownership) {
        return Err(DisposablePermitError::AssociationOwnershipMismatch);
    }
    match verify_target_owned_by_loop(fresh_identity, ownership.loop_device.as_str()) {
        Ok(_) => {},
        Err(e) => return Err(e),
    }
    if !execution.sound() {
        return Err(DisposablePermitError::ExecutionBindingIntegrityMismatch);
    }
    if !same_text(execution.source_manifest_id.as_str(), plan.source_manifest_id()) || !same_text(
        execution.native_manifest_digest.as_str(),
        plan.native_manifest_digest(),
    ) || !same_text(execution.fresh_identity_digest.as_str(), plan.fresh_identity_digest()) {
        return Err(DisposablePermitError::ExecutionBindingMismatch);
    }
    if execution.mutation_step_ids.len() == 0 || execution.mutation_step_ids[0] != plan_step_id {
        return Err(DisposablePermitError::ExecutionStepNotNext(plan_step_id));
    }
    match find_command(plan.commands(), plan_step_id) {
        Lookup::Unique(i) => Ok(
            DisposableExecutionPermit {
                source_manifest_id: plan.source_manifest_id().to_owned(),
                native_manifest_digest: plan.native_manifest_digest().to_owned(),
                fresh_identity_digest: plan.fresh_identity_digest().to_owned(),
                execution_id: execution.execution_id.clone(),
                loop_device: ownership.loop_device.clone(),
                command: plan.commands()[i].copied(),
                ownership: ownership.clone(),
            },
        ),
        _ => Err(DisposablePermitError::CommandStepNotUnique(plan_step_id)),
    }
}

/// What a permit for a continuation is refused for, if anything.
pub open spec fn continuation_permit_refusal(
    manifest: NativeCompiledManifest,
    digest: Seq<char>,
    fresh: TargetIdentityManifest,
    ownership: DisposableLoopOwnershipProof,
    probe: BackingFileProbe,
    association: AssociationModel,
    execution: ExecutionStartBinding,
    boundary: DisposableBoundaryModel,
) -> Option<DisposablePermitFault> {
    let owned = disposable_ownership::ownership_refusal(ownership, probe);
    let command = disposable_argv::next_command(manifest, fresh, boundary.next_step_id);
    if owned is Some {
        Some(DisposablePermitFault::Ownership(owned->Some_0))
    } else if !association_agrees(association, ownership) {
        Some(DisposablePermitFault::AssociationOwnershipMismatch)
    } else if !is_rooted_in_loop(fresh, ownership.loop_device@) {
        Some(DisposablePermitFault::TargetNotOwnedByLoop)
    } else if !execution.is_sound() {
        Some(DisposablePermitFault::ExecutionBindingIntegrityMismatch)
    } else if !disposable_verify::names_manifest(execution, manifest, digest) {
        Some(DisposablePermitFault::ExecutionBindingMismatch)
    } else if boundary.execution_id != execution.execution_id@ || boundary.fresh_identity_digest
        != fresh.manifest_digest@ || !model::adjacent(
        execution.mutation_step_ids@,
        boundary.completed_step_id,
        boundary.next_step_id,
    ) {
        Some(DisposablePermitFault::VerifiedBoundaryMismatch)
    } else if command is Err {
        Some(DisposablePermitFault::VerifiedCommand(command->Err_0))
    } else {
        None
    }
}

/// The command that continues an execution belongs to the step that was asked for.
pub proof fn lemma_next_command_step(
    manifest: NativeCompiledManifest,
    identity: TargetIdentityManifest,
    plan_step_id: u32,
)
    requires
        disposable_argv::next_command(manifest, identity, plan_step_id) is Ok,
    ensures
        disposable_argv::next_command(manifest, identity, plan_step_id)->Ok_0.plan_step_id == plan_step_id,
{
    let mutations = native_operation::mutation_steps(manifest.steps@);
    let ids = native_operation::step_ids(mutations);
    ids.index_of_first_ensures(plan_step_id);
    let p = model::step_position(ids, plan_step_id)->Some_0;
    assert(ids[p] == mutations[p].plan_step_id);
    disposable_argv::command_belongs_to_its_step(mutations[p], identity);
}

/// Binds the next command of an execution to a verified boundary, which it consumes. The digest
/// that the execution started from plays no part: it describes the state before the first mutation.
pub fn bind_verified_disposable_execution_permit(
    validated: &ValidatedNativeManifest,
    fresh_identity: &TargetIdentityManifest,
    ownership: &DisposableLoopOwnershipProof,
    probe: &BackingFileProbe,
    association: &DisposableLoopAssociation,
    execution: &ExecutionStartBinding,
    boundary: DisposableVerifiedBoundary,
) -> (result: Result<DisposableExecutionPermit, DisposablePermitError>)
    ensures
        ({
            let manifest = validated.source();
            let refusal = continuation_permit_refusal(
                manifest,
                validated.digest_text(),
                *fresh_identity,
                *ownership,
                *probe,
                association@,
                *execution,
                boundary@,
            );
            match result {
                Ok(permit) => refusal is None && permit@ == (DisposablePermitModel {
                    source_manifest_id: manifest.source_manifest_id@,
                    native_manifest_digest: validated.digest_text(),
                    fresh_identity_digest: fresh_identity.manifest_digest@,
                    execution_id: execution.execution_id@,
                    loop_device: ownership.loop_device@,
                    command: disposable_argv::next_command(
                        manifest,
                        *fresh_identity,
                        boundary@.next_step_id,
                    )->Ok_0,
                    ownership: *ownership,
                }),
                Err(e) => refusal == Some(e@),
            }
        }),
{
    match revalidate_disposable_loop_ownership(ownership, probe) {
        Ok(_) => {},
        Err(e) => return Err(DisposablePermitError::Ownership(e)),
    }
    if !association_matches(association, ownership) {
        return Err(DisposablePermitError::AssociationOwnershipMismatch);
    }
    match verify_target_owned_by_loop(fresh_identity, ownership.loop_device.as_str()) {
        Ok(_) => {},
        Err(e) => return Err(e),
    }
    if !execution.sound() {
        return Err(DisposablePermitError::ExecutionBindingIntegrityMismatch);
    }
    if !same_text(
        execution.source_manifest_id.as_str(),
        validated.manifest().source_manifest_id.as_str(),
    ) || !same_text(execution.native_manifest_digest.as_str(), validated.digest()) {
        return Err(DisposablePermitError::ExecutionBindingMismatch);
    }
    if !same_text(boundary.execution_id(), execution.execution_id.as_str()) || !same_text(
        boundary.fresh_identity_digest(),
        fresh_identity.manifest_digest.as_str(),
    ) || !steps_adjacent(
        &execution.mutation_step_ids,
        boundary.completed_step_id(),
        boundary.next_step_id(),
    ) {
        return Err(DisposablePermitError::VerifiedBoundaryMismatch);
    }
    let next_step_id: u32 = boundary.next_step_id();
    let plan = match compile_verified_disposable_next_command(
        validated,
        fresh_identity,
        next_step_id,
    ) {
        Ok(plan) => plan,
        Err(e) => return Err(DisposablePermitError::VerifiedCommand(e)),
    };
    let commands = plan.commands();
    proof {
        lemma_next_command_step(validated.source(), *fresh_identity, next_step_id);
        assert(disposable_argv::command_models(commands@).len() == 1);
        assert(disposable_argv::command_models(commands@)[0] == commands@[0]@);
    }
    if commands.len() != 1 || commands[0].plan_step_id() != next_step_id {
        return Err(DisposablePermitError::CommandStepNotUnique(next_step_id));
    }
    Ok(
        DisposableExecutionPermit {
            source_manifest_id: plan.source_manifest_id().to_owned(),
            native_manifest_digest: plan.native_manifest_digest().to_owned(),
            fresh_identity_digest: plan.fresh_identity_digest().to_owned(),
            execution_id: execution.execution_id.clone(),
            loop_device: ownership.loop_device.clone(),
            command: commands[0].copied(),
            ownership: ownership.clone(),
        },
    )
}

/// A permit for a continuation never names a step that is already complete: its command is that of
/// the neighbour of the completed step in the order of the execution.
pub proof fn continuation_permit_moves_forward(
    manifest: NativeCompiledManifest,
    digest: Seq<char>,
    fresh: TargetIdentityManifest,
    ownership: DisposableLoopOwnershipProof,
    probe: BackingFileProbe,
    association: AssociationModel,
    execution: ExecutionStartBinding,
    boundary: DisposableBoundaryModel,
)
    requires
        continuation_permit_refusal(
            manifest,
            digest,
            fresh,
            ownership,
            probe,
            association,
            execution,
            boundary,
        ) is None,
    ensures
        model::adjacent(
            execution.mutation_step_ids@,
            boundary.completed_step_id,
            disposable_argv::next_command(manifest, fresh, boundary.next_step_id)->Ok_0.plan_step_id,
        ),
{
    lemma_next_command_step(manifest, fresh, boundary.next_step_id);
}

/// A path is on a loop device exactly where it is that device, or that device, a `p` and a row of
/// digits.
pub proof fn partitions_of_a_loop_device_are_on_it(path: Seq<char>, loop_path: Seq<char>)
    ensures
        is_on_loop(path, loop_path) <==> path == loop_path || exists|digits: Seq<char>|
            #[trigger] reading::is_digit_row(digits) && path == loop_path + seq!['p'] + digits,
{
    let n = loop_path.len() as int;
    if is_on_loop(path, loop_path) && path != loop_path {
        let digits = path.subrange(n + 1, path.len() as int);
        reading::digits_are_read_as_their_number(digits);
        assert(path =~= loop_path + seq!['p'] + digits) by {
            assert(path.subrange(0, n) =~= loop_path);
            assert forall|i: int| 0 <= i < path.len() implies path[i] == (loop_path + seq!['p']
                + digits)[i] by {
                if i < n {
                    assert(path.subrange(0, n)[i] == path[i]);
                }
            }
        }
        assert(reading::is_digit_row(digits));
    }
    if exists|digits: Seq<char>|
        #[trigger] reading::is_digit_row(digits) && path == loop_path + seq!['p'] + digits {
        let digits = choose|digits: Seq<char>|
            #[trigger] reading::is_digit_row(digits) && path == loop_path + seq!['p'] + digits;
        reading::digits_are_read_as_their_number(digits);
        assert(path.subrange(0, n) =~= loop_path);
        assert(path.subrange(n + 1, path.len() as int) =~= digits);
    }
}

/// The volume at `i` is the only physical one.
pub open spec fn only_physical_volume_at(items: Seq<LvmIdentity>, i: int) -> bool {
    &&& 0 <= i < items.len()
    &&& forall|j: int| 0 <= j < items.len() ==> ((#[trigger] items[j]).kind is PhysicalVolume <==> j == i)
}

/// A target is rooted in a loop device exactly where the device is one of its devices, every other
/// loop device among them is a partition of it, and the only physical volume lies on it.
pub proof fn rooted_target_lies_on_its_own_loop_device(
    identity: TargetIdentityManifest,
    loop_device: Seq<char>,
)
    ensures
        is_rooted_in_loop(identity, loop_device) <==> {
            &&& exists|i: int|
                0 <= i < identity.devices@.len() && (#[trigger] identity.devices@[i]).path@
                    == loop_device
            &&& forall|i: int|
                0 <= i < identity.devices@.len() && text::has_prefix(
                    (#[trigger] identity.devices@[i]).path@,
                    "/dev/loop"@,
                ) ==> is_on_loop(identity.devices@[i].path@, loop_device)
            &&& exists|i: int|
                #[trigger] only_physical_volume_at(identity.lvm@, i) && is_on_loop(
                    identity.lvm@[i].name@,
                    loop_device,
                )
        },
{
    let items = identity.lvm@;
    let keep = |e: LvmIdentity| e.kind == LvmIdentityKind::PhysicalVolume;
    reading::lemma_one_kept(items, keep);
    reading::lemma_same_search(items, keep);
    assert forall|i: int| #[trigger] only_physical_volume_at(items, i) <==> reading::only_kept_at(
        items,
        keep,
        i,
    ) by {
        assert(forall|j: int|
            0 <= j < items.len() ==> (keep(#[trigger] items[j]) <==> items[j].kind
                is PhysicalVolume));
    }
    if exists|i: int| reading::only_kept_at(items, keep, i) {
        let i = choose|i: int| reading::only_kept_at(items, keep, i);
        assert(only_physical_volume_at(items, i));
    }
}

/// The command at `i` is the only one of this step.
pub open spec fn only_command_at(
    commands: Seq<DisposableCommandModel>,
    id: u32,
    i: int,
) -> bool {
    &&& 0 <= i < commands.len()
    &&& forall|j: int|
        0 <= j < commands.len() ==> ((#[trigger] commands[j]).plan_step_id == id <==> j == i)
}

/// A first permit is given exactly where the loop device is owned and associated with the owned
/// file, the plan was made for this state of a target rooted in that device, the execution is sound
/// and was made for the plan and that state, and the step is its first with one command of its own.
pub proof fn first_permit_is_for_the_first_step(
    plan: DisposablePlanModel,
    fresh: TargetIdentityManifest,
    ownership: DisposableLoopOwnershipProof,
    probe: BackingFileProbe,
    association: AssociationModel,
    execution: ExecutionStartBinding,
    plan_step_id: u32,
)
    ensures
        permit_refusal(
            plan,
            fresh,
            ownership,
            probe,
            association,
            execution,
            plan_step_id,
        ) is None <==> {
            &&& disposable_ownership::ownership_refusal(ownership, probe) is None
            &&& plan.fresh_identity_digest == fresh.manifest_digest@
            &&& association.loop_device == ownership.loop_device@
            &&& paths::paths_agree(association.backing_file, ownership.backing_file@)
            &&& is_rooted_in_loop(fresh, ownership.loop_device@)
            &&& execution.schema_version == 1
            &&& execution.integrity is Matches
            &&& execution.source_manifest_id@ == plan.source_manifest_id
            &&& execution.native_manifest_digest@ == plan.native_manifest_digest
            &&& execution.fresh_identity_digest@ == fresh.manifest_digest@
            &&& execution.mutation_step_ids@.len() > 0
            &&& execution.mutation_step_ids@[0] == plan_step_id
            &&& exists|i: int| only_command_at(plan.commands, plan_step_id, i)
        },
{
    let keep = |c: DisposableCommandModel| c.plan_step_id == plan_step_id;
    let commands = plan.commands;
    reading::lemma_one_kept(commands, keep);
    reading::lemma_same_search(commands, keep);
    assert forall|i: int| #[trigger] only_command_at(commands, plan_step_id, i) <==> reading::only_kept_at(
        commands,
        keep,
        i,
    ) by {
        assert(forall|j: int|
            0 <= j < commands.len() ==> (keep(#[trigger] commands[j]) <==> commands[j].plan_step_id
                == plan_step_id));
    }
    if exists|i: int| reading::only_kept_at(commands, keep, i) {
        let i = choose|i: int| reading::only_kept_at(commands, keep, i);
        assert(only_command_at(commands, plan_step_id, i));
    }
}

/// A permit to go on is given exactly where the loop device is owned and associated with the owned
/// file, the target is rooted in it, the execution is sound and names the manifest, the boundary is
/// one of this execution between neighbouring steps and for this state, and the next command can be
/// compiled.
pub proof fn further_permit_is_for_the_step_behind_the_boundary(
    manifest: NativeCompiledManifest,
    digest: Seq<char>,
    fresh: TargetIdentityManifest,
    ownership: DisposableLoopOwnershipProof,
    probe: BackingFileProbe,
    association: AssociationModel,
    execution: ExecutionStartBinding,
    boundary: DisposableBoundaryModel,
)
    ensures
        continuation_permit_refusal(
            manifest,
            digest,
            fresh,
            ownership,
            probe,
            association,
            execution,
            boundary,
        ) is None <==> {
            &&& disposable_ownership::ownership_refusal(ownership, probe) is None
            &&& association.loop_device == ownership.loop_device@
            &&& paths::paths_agree(association.backing_file, ownership.backing_file@)
            &&& is_rooted_in_loop(fresh, ownership.loop_device@)
            &&& execution.schema_version == 1
            &&& execution.integrity is Matches
            &&& execution.source_manifest_id@ == manifest.source_manifest_id@
            &&& execution.native_manifest_digest@ == digest
            &&& boundary.execution_id == execution.execution_id@
            &&& boundary.fresh_identity_digest == fresh.manifest_digest@
            &&& exists|k: int|
                {
                    &&& 0 <= k < execution.mutation_step_ids@.len() - 1
                    &&& #[trigger] execution.mutation_step_ids@[k] == boundary.completed_step_id
                    &&& execution.mutation_step_ids@[k + 1] == boundary.next_step_id
                }
            &&& disposable_argv::next_command(manifest, fresh, boundary.next_step_id) is Ok
        },
{
}

/// Each refusal of a permit names something that is wrong.
pub proof fn refused_permit_names_its_reason(
    plan: DisposablePlanModel,
    fresh: TargetIdentityManifest,
    ownership: DisposableLoopOwnershipProof,
    probe: BackingFileProbe,
    association: AssociationModel,
    execution: ExecutionStartBinding,
    plan_step_id: u32,
)
    ensures
        permit_refusal(
            plan,
            fresh,
            ownership,
            probe,
            association,
            execution,
            plan_step_id,
        ) matches Some(e) ==> match e {
            DisposablePermitFault::Ownership(fault) => disposable_ownership::ownership_refusal(
                ownership,
                probe,
            ) == Some(fault),
            DisposablePermitFault::FreshIdentityBindingMismatch => plan.fresh_identity_digest
                != fresh.manifest_digest@,
            DisposablePermitFault::AssociationOwnershipMismatch => association.loop_device
                != ownership.loop_device@ || !paths::paths_agree(
                association.backing_file,
                ownership.backing_file@,
            ),
            DisposablePermitFault::TargetNotOwnedByLoop => !is_rooted_in_loop(
                fresh,
                ownership.loop_device@,
            ),
            DisposablePermitFault::ExecutionBindingIntegrityMismatch => execution.schema_version
                != 1 || !(execution.integrity is Matches),
            DisposablePermitFault::ExecutionBindingMismatch => {
                ||| execution.source_manifest_id@ != plan.source_manifest_id
                ||| execution.native_manifest_digest@ != plan.native_manifest_digest
                ||| execution.fresh_identity_digest@ != plan.fresh_identity_digest
            },
            DisposablePermitFault::ExecutionStepNotNext(id) => id == plan_step_id && (
            execution.mutation_step_ids@.len() == 0 || execution.mutation_step_ids@[0]
                != plan_step_id),
            DisposablePermitFault::CommandStepNotUnique(id) => id == plan_step_id && commands_for(
                plan.commands,
                plan_step_id,
            ).len() != 1,
            _ => false,
        },
{
}

} // verus!
