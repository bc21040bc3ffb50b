//! Decisions of the harness that grows a disposable loop device.

use vstd::prelude::*;
use vstd::string::*;

use crate::reading;
use crate::disposable_verify;
use crate::locked_session;
use crate::text;
use crate::paths;
use crate::native_operation;
use crate::disposable_argv;
use crate::disposable_argv::{DisposableCommandModel, DisposableCommandSpec, DisposableProgram};
use crate::locked_session::same_journal;
use crate::model::{FilesystemDecisionState, JournalPhase, OperationJournal};
use crate::native_operation::{
    find_native_step, NativeCompiledManifest, NativeOperationSpec, ValidatedNativeManifest,
};
use crate::paths::{absolute_path, file_name, file_name_is, same_path};
use crate::text::{chars_of, opt_is, push_decimal};

verus! {

/// How often state is looked at again before the harness gives up.
pub const REDISCOVERY_ATTEMPTS: u32 = 20;

/// One command of the harness, with the size that a logical volume has to reach.
#[derive(Clone, Copy, Debug, PartialEq, Eq, Structural)]
pub struct HarnessCommand {
    pub plan_step_id: u32,
    pub program: DisposableProgram,
    pub expected_lv_size: Option<u64>,
}

/// The size that a step plans for its logical volume.
pub open spec fn planned_lv_size(manifest: NativeCompiledManifest, plan_step_id: u32) -> Option<
    u64,
> {
    match native_operation::step_index(manifest.steps@, plan_step_id) {
        None => None,
        Some(i) => match manifest.steps@[i].operation {
            NativeOperationSpec::ExtendLogicalVolume { expected_lv_size_bytes, .. } => Some(
                expected_lv_size_bytes,
            ),
            _ => None,
        },
    }
}

/// The size that a step plans for its logical volume.
pub fn expected_lv_size(validated: &ValidatedNativeManifest, plan_step_id: u32) -> (size: Option<
    u64,
>)
    ensures
        size == planned_lv_size(validated.source(), plan_step_id),
{
    let manifest = validated.manifest();
    match find_native_step(&manifest.steps, plan_step_id) {
        None => None,
        Some(i) => match &manifest.steps[i].operation {
            NativeOperationSpec::ExtendLogicalVolume { expected_lv_size_bytes, .. } => Some(
                *expected_lv_size_bytes,
            ),
            _ => None,
        },
    }
}

/// The commands of a plan as the harness runs them.
pub open spec fn harness_command(
    manifest: NativeCompiledManifest,
    command: DisposableCommandModel,
) -> HarnessCommand {
    HarnessCommand {
        plan_step_id: command.plan_step_id,
        program: command.program,
        expected_lv_size: planned_lv_size(manifest, command.plan_step_id),
    }
}

/// Lists the commands of a plan as the harness runs them.
pub fn harness_commands(
    validated: &ValidatedNativeManifest,
    commands: &Vec<DisposableCommandSpec>,
) -> (list: Vec<HarnessCommand>)
    ensures
        list@ == disposable_argv::command_models(commands@).map_values(
            |c: DisposableCommandModel| harness_command(validated.source(), c),
        ),
{
    let ghost models = disposable_argv::command_models(commands@);
    let ghost all = models.map_values(
        |c: DisposableCommandModel| harness_command(validated.source(), c),
    );
    let mut list: Vec<HarnessCommand> = Vec::new();
    let mut i: usize = 0;
    while i < commands.len()
        invariant
            i <= commands@.len(),
            models == disposable_argv::command_models(commands@),
            all == models.map_values(
                |c: DisposableCommandModel| harness_command(validated.source(), c),
            ),
            list@ == all.take(i as int),
        decreases commands@.len() - i,
    {
        let plan_step_id: u32 = commands[i].plan_step_id();
        list.push(
            HarnessCommand {
                plan_step_id,
                program: commands[i].program(),
                expected_lv_size: expected_lv_size(validated, plan_step_id),
            },
        );
        proof {
            assert(models[i as int] == commands@[i as int]@);
            assert(all.take(i + 1) =~= all.take(i as int).push(all[i as int]));
        }
        i += 1;
    }
    assert(all.take(all.len() as int) =~= all);
    list
}

/// A filesystem is grown by this program.
pub open spec fn grows_filesystem(program: DisposableProgram) -> bool {
    program == DisposableProgram::Resize2fs || program == DisposableProgram::XfsGrowfs
}

fn is_filesystem_program(program: DisposableProgram) -> (yes: bool)
    ensures
        yes == grows_filesystem(program),
{
    matches!(program, DisposableProgram::Resize2fs | DisposableProgram::XfsGrowfs)
}

/// The approved sequences of commands.
pub open spec fn is_approved_sequence(commands: Seq<DisposableCommandModel>) -> bool {
    ||| {
        &&& commands.len() == 2
        &&& commands[0].program == DisposableProgram::Lvextend
        &&& grows_filesystem(commands[1].program)
    }
    ||| {
        &&& commands.len() == 3
        &&& commands[0].program == DisposableProgram::Pvresize
        &&& commands[1].program == DisposableProgram::Lvextend
        &&& grows_filesystem(commands[2].program)
    }
}

/// Whether a sequence of commands is an approved one.
pub fn approved_sequence(commands: &Vec<DisposableCommandSpec>) -> (yes: bool)
    ensures
        yes == is_approved_sequence(disposable_argv::command_models(commands@)),
{
    let ghost models = disposable_argv::command_models(commands@);
    assert(models.len() == commands@.len());
    if commands.len() == 2 {
        assert(models[0] == commands@[0]@ && models[1] == commands@[1]@);
        matches!(commands[0].program(), DisposableProgram::Lvextend) && is_filesystem_program(
            commands[1].program(),
        )
    } else if commands.len() == 3 {
        assert(models[0] == commands@[0]@ && models[1] == commands@[1]@ && models[2]
            == commands@[2]@);
        matches!(commands[0].program(), DisposableProgram::Pvresize) && matches!(
            commands[1].program(),
            DisposableProgram::Lvextend
        ) && is_filesystem_program(commands[2].program())
    } else {
        false
    }
}

/// Where the harness stands in its sequence.
#[derive(Clone, Copy, Debug, PartialEq, Eq, Structural)]
pub enum HarnessStage {
    Ready,
    Executing,
    Refreshing,
    Discovering,
    Waiting,
    Recording,
    Verifying,
    Finished,
    Failed,
}

/// The state of the harness: the command at hand, the size that its device has to reach, and how
/// often that was looked for.
#[derive(Clone, Copy, Debug, PartialEq, Eq, Structural)]
pub struct HarnessState {
    pub stage: HarnessStage,
    pub index: usize,
    pub expected_size: u64,
    pub attempt: u32,
}

/// What happened outside.
#[derive(Clone, Copy, Debug, PartialEq, Eq, Structural)]
pub enum HarnessEvent {
    Begin,
    CommandFinished { plan_step_id: u32, program: DisposableProgram },
    /// The device manager has caught up; `current_backing_size` is that of the identity that the
    /// command was permitted for.
    Refreshed { current_backing_size: Option<u64> },
    Discovered { backing_size: Option<u64> },
    Waited,
    VerificationRecorded,
    BoundaryVerified,
    CompletionVerified,
    Failed,
}

/// Why the harness stops.
#[derive(Clone, Copy, Debug, PartialEq, Eq, Structural)]
pub enum HarnessFailure {
    OutcomeOutOfOrder,
    InjectedFailure,
    ExpectedSizeLost,
    VolumeFilesystemLost,
    VolumeSizeExceeded { expected: u64, actual: u64 },
    VolumeSizeNotReached { expected: u64 },
    BoundaryFilesystemLost,
    FilesystemNotBack,
    FilesystemSizeExceeded { expected: u64, actual: u64 },
    FilesystemSizeNotReached { expected: u64 },
    NoTerminalVerification,
    UnexpectedEvent,
    External,
}

/// What has to be done next.
#[derive(Clone, Copy, Debug, PartialEq, Eq, Structural)]
pub enum HarnessAction {
    Execute { index: usize },
    RefreshDevice,
    SettleDevices,
    Discover,
    WaitAndRefresh,
    RecordVerification,
    VerifyBoundary { plan_step_id: u32 },
    VerifyCompletion { plan_step_id: u32 },
    Finish,
    Interrupt(HarnessFailure),
}

/// The harness stops.
pub open spec fn stopped(state: HarnessState, failure: HarnessFailure) -> (
    HarnessState,
    HarnessAction,
) {
    (HarnessState { stage: HarnessStage::Failed, ..state }, HarnessAction::Interrupt(failure))
}

/// The harness enters another stage.
pub open spec fn entered(state: HarnessState, stage: HarnessStage, action: HarnessAction) -> (
    HarnessState,
    HarnessAction,
) {
    (HarnessState { stage, ..state }, action)
}

/// The harness starts to look for one size.
pub open spec fn looking_for(state: HarnessState, expected_size: u64) -> (
    HarnessState,
    HarnessAction,
) {
    (
        HarnessState { stage: HarnessStage::Discovering, expected_size, attempt: 0, ..state },
        HarnessAction::Discover,
    )
}

/// The harness waits once more, or gives up.
pub open spec fn again_or(state: HarnessState, failure: HarnessFailure) -> (
    HarnessState,
    HarnessAction,
) {
    if state.attempt < REDISCOVERY_ATTEMPTS - 1 {
        entered(state, HarnessStage::Waiting, HarnessAction::WaitAndRefresh)
    } else {
        stopped(state, failure)
    }
}

/// What a discovered size means after a command.
pub open spec fn after_discovery(
    program: DisposableProgram,
    state: HarnessState,
    backing_size: Option<u64>,
) -> (HarnessState, HarnessAction) {
    let expected = state.expected_size;
    let on_volume = program == DisposableProgram::Lvextend;
    if program == DisposableProgram::Pvresize {
        entered(state, HarnessStage::Recording, HarnessAction::RecordVerification)
    } else {
        match backing_size {
            None => if on_volume {
                stopped(state, HarnessFailure::VolumeFilesystemLost)
            } else {
                again_or(state, HarnessFailure::FilesystemNotBack)
            },
            Some(actual) => {
                if actual == expected {
                    entered(state, HarnessStage::Recording, HarnessAction::RecordVerification)
                } else if actual > expected {
                    stopped(
                        state,
                        if on_volume {
                            HarnessFailure::VolumeSizeExceeded { expected, actual }
                        } else {
                            HarnessFailure::FilesystemSizeExceeded { expected, actual }
                        },
                    )
                } else {
                    again_or(
                        state,
                        if on_volume {
                            HarnessFailure::VolumeSizeNotReached { expected }
                        } else {
                            HarnessFailure::FilesystemSizeNotReached { expected }
                        },
                    )
                }
            },
        }
    }
}

/// What a finished refresh means after a command.
pub open spec fn after_refresh(
    command: HarnessCommand,
    state: HarnessState,
    current_backing_size: Option<u64>,
) -> (HarnessState, HarnessAction) {
    if command.program == DisposableProgram::Lvextend {
        match command.expected_lv_size {
            None => stopped(state, HarnessFailure::ExpectedSizeLost),
            Some(expected) => looking_for(state, expected),
        }
    } else if command.program == DisposableProgram::Pvresize {
        looking_for(state, 0)
    } else {
        match current_backing_size {
            None => stopped(state, HarnessFailure::BoundaryFilesystemLost),
            Some(expected) => looking_for(state, expected),
        }
    }
}

/// What a finished command means.
pub open spec fn after_command(
    command: HarnessCommand,
    inject_failure_after_resize2fs: bool,
    state: HarnessState,
    plan_step_id: u32,
    program: DisposableProgram,
) -> (HarnessState, HarnessAction) {
    if plan_step_id != command.plan_step_id || program != command.program {
        stopped(state, HarnessFailure::OutcomeOutOfOrder)
    } else if inject_failure_after_resize2fs && program == DisposableProgram::Resize2fs {
        stopped(state, HarnessFailure::InjectedFailure)
    } else {
        entered(
            state,
            HarnessStage::Refreshing,
            if program == DisposableProgram::Lvextend {
                HarnessAction::RefreshDevice
            } else {
                HarnessAction::SettleDevices
            },
        )
    }
}

/// One step of the harness: what an event means in a state.
pub open spec fn harness_step(
    commands: Seq<HarnessCommand>,
    inject_failure_after_resize2fs: bool,
    state: HarnessState,
    event: HarnessEvent,
) -> (HarnessState, HarnessAction) {
    let last = state.index + 1 == commands.len();
    if event == HarnessEvent::Failed {
        stopped(state, HarnessFailure::External)
    } else if state.stage == HarnessStage::Ready && event == HarnessEvent::Begin {
        if commands.len() == 0 {
            stopped(state, HarnessFailure::NoTerminalVerification)
        } else {
            (
                HarnessState { stage: HarnessStage::Executing, index: 0, ..state },
                HarnessAction::Execute { index: 0 },
            )
        }
    } else if state.index >= commands.len() {
        stopped(state, HarnessFailure::UnexpectedEvent)
    } else {
        let command = commands[state.index as int];
        match (state.stage, event) {
            (
                HarnessStage::Executing,
                HarnessEvent::CommandFinished { plan_step_id, program },
            ) => after_command(
                command,
                inject_failure_after_resize2fs,
                state,
                plan_step_id,
                program,
            ),
            (HarnessStage::Refreshing, HarnessEvent::Refreshed { current_backing_size }) => {
                after_refresh(command, state, current_backing_size)
            },
            (HarnessStage::Discovering, HarnessEvent::Discovered { backing_size }) => {
                after_discovery(command.program, state, backing_size)
            },
            (HarnessStage::Waiting, HarnessEvent::Waited) => {
                if state.attempt < REDISCOVERY_ATTEMPTS - 1 {
                    (
                        HarnessState {
                            stage: HarnessStage::Discovering,
                            attempt: (state.attempt + 1) as u32,
                            ..state
                        },
                        HarnessAction::Discover,
                    )
                } else {
                    stopped(state, HarnessFailure::UnexpectedEvent)
                }
            },
            (HarnessStage::Recording, HarnessEvent::VerificationRecorded) => entered(
                state,
                HarnessStage::Verifying,
                if last {
                    HarnessAction::VerifyCompletion { plan_step_id: command.plan_step_id }
                } else {
                    HarnessAction::VerifyBoundary { plan_step_id: command.plan_step_id }
                },
            ),
            (HarnessStage::Verifying, HarnessEvent::BoundaryVerified) => {
                if last {
                    stopped(state, HarnessFailure::UnexpectedEvent)
                } else {
                    (
                        HarnessState {
                            stage: HarnessStage::Executing,
                            index: (state.index + 1) as usize,
                            ..state
                        },
                        HarnessAction::Execute { index: (state.index + 1) as usize },
                    )
                }
            },
            (HarnessStage::Verifying, HarnessEvent::CompletionVerified) => {
                if last {
                    entered(state, HarnessStage::Finished, HarnessAction::Finish)
                } else {
                    stopped(state, HarnessFailure::UnexpectedEvent)
                }
            },
            _ => stopped(state, HarnessFailure::UnexpectedEvent),
        }
    }
}

fn stop(state: HarnessState, failure: HarnessFailure) -> (next: (HarnessState, HarnessAction))
    ensures
        next == stopped(state, failure),
{
    (
        HarnessState {
            stage: HarnessStage::Failed,
            index: state.index,
            expected_size: state.expected_size,
            attempt: state.attempt,
        },
        HarnessAction::Interrupt(failure),
    )
}

fn enter(state: HarnessState, stage: HarnessStage, action: HarnessAction) -> (next: (
    HarnessState,
    HarnessAction,
))
    ensures
        next == entered(state, stage, action),
{
    (
        HarnessState {
            stage,
            index: state.index,
            expected_size: state.expected_size,
            attempt: state.attempt,
        },
        action,
    )
}

fn look_for(state: HarnessState, expected_size: u64) -> (next: (HarnessState, HarnessAction))
    ensures
        next == looking_for(state, expected_size),
{
    (
        HarnessState {
            stage: HarnessStage::Discovering,
            index: state.index,
            expected_size,
            attempt: 0,
        },
        HarnessAction::Discover,
    )
}

fn try_again_or(state: HarnessState, failure: HarnessFailure) -> (next: (
    HarnessState,
    HarnessAction,
))
    ensures
        next == again_or(state, failure),
{
    if state.attempt < REDISCOVERY_ATTEMPTS - 1 {
        enter(state, HarnessStage::Waiting, HarnessAction::WaitAndRefresh)
    } else {
        stop(state, failure)
    }
}

fn judge_discovery(
    program: DisposableProgram,
    state: HarnessState,
    backing_size: Option<u64>,
) -> (next: (HarnessState, HarnessAction))
    ensures
        next == after_discovery(program, state, backing_size),
{
    let expected: u64 = state.expected_size;
    let on_volume = matches!(program, DisposableProgram::Lvextend);
    if matches!(program, DisposableProgram::Pvresize) {
        return enter(state, HarnessStage::Recording, HarnessAction::RecordVerification);
    }
    match backing_size {
        None => {
            if on_volume {
                stop(state, HarnessFailure::VolumeFilesystemLost)
            } else {
                try_again_or(state, HarnessFailure::FilesystemNotBack)
            }
        },
        Some(actual) => {
            if actual == expected {
                enter(state, HarnessStage::Recording, HarnessAction::RecordVerification)
            } else if actual > expected {
                if on_volume {
                    stop(state, HarnessFailure::VolumeSizeExceeded { expected, actual })
                } else {
                    stop(state, HarnessFailure::FilesystemSizeExceeded { expected, actual })
                }
            } else if on_volume {
                try_again_or(state, HarnessFailure::VolumeSizeNotReached { expected })
            } else {
                try_again_or(state, HarnessFailure::FilesystemSizeNotReached { expected })
            }
        },
    }
}

fn judge_refresh(command: HarnessCommand, state: HarnessState, current_backing_size: Option<u64>) -> (next:
    (HarnessState, HarnessAction))
    ensures
        next == after_refresh(command, state, current_backing_size),
{
    match command.program {
        DisposableProgram::Lvextend => match command.expected_lv_size {
            None => stop(state, HarnessFailure::ExpectedSizeLost),
            Some(expected) => look_for(state, expected),
        },
        DisposableProgram::Pvresize => look_for(state, 0),
        _ => match current_backing_size {
            None => stop(state, HarnessFailure::BoundaryFilesystemLost),
            Some(expected) => look_for(state, expected),
        },
    }
}

/// Takes one step of the harness.
pub fn advance_harness(
    commands: &Vec<HarnessCommand>,
    inject_failure_after_resize2fs: bool,
    state: HarnessState,
    event: HarnessEvent,
) -> (next: (HarnessState, HarnessAction))
    ensures
        next == harness_step(commands@, inject_failure_after_resize2fs, state, event),
{
    if event == HarnessEvent::Failed {
        return stop(state, HarnessFailure::External);
    }
    if state.stage == HarnessStage::Ready && event == HarnessEvent::Begin {
        if commands.len() == 0 {
            return stop(state, HarnessFailure::NoTerminalVerification);
        }
        return (
            HarnessState {
                stage: HarnessStage::Executing,
                index: 0,
                expected_size: state.expected_size,
                attempt: state.attempt,
            },
            HarnessAction::Execute { index: 0 },
        );
    }
    if state.index >= commands.len() {
        return stop(state, HarnessFailure::UnexpectedEvent);
    }
    let command = commands[state.index];
    let last = commands.len() - state.index == 1;
    match (state.stage, event) {
        (HarnessStage::Executing, HarnessEvent::CommandFinished { plan_step_id, program }) => {
            if plan_step_id != command.plan_step_id || program != command.program {
                return stop(state, HarnessFailure::OutcomeOutOfOrder);
            }
            if inject_failure_after_resize2fs && program == DisposableProgram::Resize2fs {
                return stop(state, HarnessFailure::InjectedFailure);
            }
            if program == DisposableProgram::Lvextend {
                enter(state, HarnessStage::Refreshing, HarnessAction::RefreshDevice)
            } else {
                enter(state, HarnessStage::Refreshing, HarnessAction::SettleDevices)
            }
        },
        (HarnessStage::Refreshing, HarnessEvent::Refreshed { current_backing_size }) => {
            judge_refresh(command, state, current_backing_size)
        },
        (HarnessStage::Discovering, HarnessEvent::Discovered { backing_size }) => {
            judge_discovery(command.program, state, backing_size)
        },
        (HarnessStage::Waiting, HarnessEvent::Waited) => {
            if state.attempt < REDISCOVERY_ATTEMPTS - 1 {
                (
                    HarnessState {
                        stage: HarnessStage::Discovering,
                        index: state.index,
                        expected_size: state.expected_size,
                        attempt: state.attempt + 1,
                    },
                    HarnessAction::Discover,
                )
            } else {
                stop(state, HarnessFailure::UnexpectedEvent)
            }
        },
        (HarnessStage::Recording, HarnessEvent::VerificationRecorded) => {
            if last {
                enter(
                    state,
                    HarnessStage::Verifying,
                    HarnessAction::VerifyCompletion { plan_step_id: command.plan_step_id },
                )
            } else {
                enter(
                    state,
                    HarnessStage::Verifying,
                    HarnessAction::VerifyBoundary { plan_step_id: command.plan_step_id },
                )
            }
        },
        (HarnessStage::Verifying, HarnessEvent::BoundaryVerified) => {
            if last {
                return stop(state, HarnessFailure::UnexpectedEvent);
            }
            let index: usize = state.index + 1;
            (
                HarnessState {
                    stage: HarnessStage::Executing,
                    index,
                    expected_size: state.expected_size,
                    attempt: state.attempt,
                },
                HarnessAction::Execute { index },
            )
        },
        (HarnessStage::Verifying, HarnessEvent::CompletionVerified) => {
            if last {
                enter(state, HarnessStage::Finished, HarnessAction::Finish)
            } else {
                stop(state, HarnessFailure::UnexpectedEvent)
            }
        },
        _ => stop(state, HarnessFailure::UnexpectedEvent),
    }
}

/// Where the harness starts.
pub fn harness_start() -> (state: HarnessState)
    ensures
        state == (HarnessState {
            stage: HarnessStage::Ready,
            index: 0,
            expected_size: 0,
            attempt: 0,
        }),
{
    HarnessState { stage: HarnessStage::Ready, index: 0, expected_size: 0, attempt: 0 }
}

/// The message of a failure.
pub open spec fn failure_message(failure: HarnessFailure) -> Seq<char> {
    match failure {
        HarnessFailure::OutcomeOutOfOrder => "executor returned a mutation outcome out of order"@,
        HarnessFailure::InjectedFailure => {
            "injected failure after resize2fs before terminal verification"@
        },
        HarnessFailure::ExpectedSizeLost => "executed LV step lost its exact expected size"@,
        HarnessFailure::VolumeFilesystemLost => "fresh LV target lost filesystem identity"@,
        HarnessFailure::VolumeSizeExceeded { expected, actual } => {
            "fresh LV backing size exceeded approved size: expected="@ + text::decimal_text(
                expected as nat,
            ) + " actual="@ + text::decimal_text(actual as nat)
        },
        HarnessFailure::VolumeSizeNotReached { expected } => {
            "fresh LV backing size did not converge to approved size "@ + text::decimal_text(
                expected as nat,
            )
        },
        HarnessFailure::BoundaryFilesystemLost => {
            "pre-filesystem boundary lost filesystem identity"@
        },
        HarnessFailure::FilesystemNotBack => {
            "terminal filesystem identity did not reappear after bounded rediscovery"@
        },
        HarnessFailure::FilesystemSizeExceeded { expected, actual } => {
            "terminal filesystem backing size exceeded verified LV size: expected="@ + text::decimal_text(
                expected as nat,
            ) + " actual="@ + text::decimal_text(actual as nat)
        },
        HarnessFailure::FilesystemSizeNotReached { expected } => {
            "terminal filesystem backing size did not converge to verified LV size "@
                + text::decimal_text(expected as nat)
        },
        HarnessFailure::NoTerminalVerification => {
            "disposable mutation sequence ended without terminal verification"@
        },
        HarnessFailure::UnexpectedEvent => "harness was told of an event out of order"@,
        HarnessFailure::External => "a step outside the harness failed"@,
    }
}

fn sizes_message(prefix: &str, expected: u64, actual: u64) -> (message: String)
    ensures
        message@ == prefix@ + text::decimal_text(expected as nat) + " actual="@ + text::decimal_text(
            actual as nat,
        ),
{
    let mut message = prefix.to_owned();
    push_decimal(&mut message, expected);
    message.append(" actual=");
    push_decimal(&mut message, actual);
    message
}

fn size_message(prefix: &str, expected: u64) -> (message: String)
    ensures
        message@ == prefix@ + text::decimal_text(expected as nat),
{
    let mut message = prefix.to_owned();
    push_decimal(&mut message, expected);
    message
}

impl HarnessFailure {
    /// The message of the failure.
    pub fn message(self) -> (message: String)
        ensures
            message@ == failure_message(self),
    {
        match self {
            HarnessFailure::OutcomeOutOfOrder => {
                "executor returned a mutation outcome out of order".to_owned()
            },
            HarnessFailure::InjectedFailure => {
                "injected failure after resize2fs before terminal verification".to_owned()
            },
            HarnessFailure::ExpectedSizeLost => {
                "executed LV step lost its exact expected size".to_owned()
            },
            HarnessFailure::VolumeFilesystemLost => {
                "fresh LV target lost filesystem identity".to_owned()
            },
            HarnessFailure::VolumeSizeExceeded { expected, actual } => sizes_message(
                "fresh LV backing size exceeded approved size: expected=",
                expected,
                actual,
            ),
            HarnessFailure::VolumeSizeNotReached { expected } => size_message(
                "fresh LV backing size did not converge to approved size ",
                expected,
            ),
            HarnessFailure::BoundaryFilesystemLost => {
                "pre-filesystem boundary lost filesystem identity".to_owned()
            },
            HarnessFailure::FilesystemNotBack => {
                "terminal filesystem identity did not reappear after bounded rediscovery".to_owned()
            },
            HarnessFailure::FilesystemSizeExceeded { expected, actual } => sizes_message(
                "terminal filesystem backing size exceeded verified LV size: expected=",
                expected,
                actual,
            ),
            HarnessFailure::FilesystemSizeNotReached { expected } => size_message(
                "terminal filesystem backing size did not converge to verified LV size ",
                expected,
            ),
            HarnessFailure::NoTerminalVerification => {
                "disposable mutation sequence ended without terminal verification".to_owned()
            },
            HarnessFailure::UnexpectedEvent => {
                "harness was told of an event out of order".to_owned()
            },
            HarnessFailure::External => "a step outside the harness failed".to_owned(),
        }
    }
}

/// Commands run in their order: the first at the beginning, each later one only after the boundary
/// behind its predecessor was verified.
pub proof fn commands_run_in_order(
    commands: Seq<HarnessCommand>,
    inject: bool,
    state: HarnessState,
    event: HarnessEvent,
    k: usize,
)
    requires
        commands.len() <= usize::MAX,
        harness_step(commands, inject, state, event).1 == (HarnessAction::Execute { index: k }),
    ensures
        k < commands.len(),
        ({
            ||| k == 0 && state.stage == HarnessStage::Ready && event == HarnessEvent::Begin
            ||| k == state.index + 1 && state.stage == HarnessStage::Verifying && event
                == HarnessEvent::BoundaryVerified
        }),
{
}

/// The harness finishes only once the completion of its last command was verified.
pub proof fn finish_needs_the_last_verification(
    commands: Seq<HarnessCommand>,
    inject: bool,
    state: HarnessState,
    event: HarnessEvent,
)
    requires
        harness_step(commands, inject, state, event).1 == HarnessAction::Finish,
    ensures
        event == HarnessEvent::CompletionVerified,
        state.stage == HarnessStage::Verifying,
        state.index + 1 == commands.len(),
{
}

/// Verification is recorded before it takes place, for the size that was looked for.
pub proof fn verification_is_recorded_first(
    commands: Seq<HarnessCommand>,
    inject: bool,
    state: HarnessState,
    event: HarnessEvent,
)
    requires
        harness_step(commands, inject, state, event).0.stage == HarnessStage::Recording,
    ensures
        state.stage == HarnessStage::Discovering,
        commands[state.index as int].program == DisposableProgram::Pvresize || event == (
        HarnessEvent::Discovered { backing_size: Some(state.expected_size) }),
{
}

/// State is looked at a bounded number of times.
pub proof fn rediscovery_is_bounded(
    commands: Seq<HarnessCommand>,
    inject: bool,
    state: HarnessState,
    event: HarnessEvent,
)
    requires
        state.attempt < REDISCOVERY_ATTEMPTS,
    ensures
        harness_step(commands, inject, state, event).0.attempt < REDISCOVERY_ATTEMPTS,
{
}

/// A stopped harness stays stopped, and so does a finished one, whatever it is told.
pub proof fn stopping_is_final(
    commands: Seq<HarnessCommand>,
    inject: bool,
    state: HarnessState,
    event: HarnessEvent,
)
    requires
        state.stage == HarnessStage::Failed || state.stage == HarnessStage::Finished,
    ensures
        harness_step(commands, inject, state, event).1 is Interrupt,
        harness_step(commands, inject, state, event).0.stage == HarnessStage::Failed,
{
}

/// What the end of a run is refused for.
#[derive(Clone, Copy, Debug, PartialEq, Eq, Structural)]
pub enum HarnessCompletionError {
    NotCompleted,
    RecordMismatch,
    BoundaryMissing,
    TerminalIdentityMissing,
}

/// What the end of a run is refused for, if anything: the journal has to be completed, the record
/// on disk has to be the same, and it has to name the terminal step and identity.
pub open spec fn run_end_refusal(
    journal: OperationJournal,
    persisted: OperationJournal,
    final_step_id: u32,
    final_identity_digest: Seq<char>,
) -> Option<HarnessCompletionError> {
    if journal.phase != JournalPhase::Completed {
        Some(HarnessCompletionError::NotCompleted)
    } else if !locked_session::journals_agree(persisted, journal) {
        Some(HarnessCompletionError::RecordMismatch)
    } else {
        match persisted.verified_boundary {
            None => Some(HarnessCompletionError::BoundaryMissing),
            Some(boundary) => {
                if boundary.final_step_id != Some(final_step_id) || text::opt_text(
                    boundary.final_identity_digest,
                ) != Some(final_identity_digest) {
                    Some(HarnessCompletionError::TerminalIdentityMissing)
                } else {
                    None
                }
            },
        }
    }
}

/// Checks the end of a run: completed, recorded, and with its terminal identity.
pub fn check_run_end(
    journal: &OperationJournal,
    persisted: &OperationJournal,
    final_step_id: u32,
    final_identity_digest: &str,
) -> (result: Result<(), HarnessCompletionError>)
    ensures
        match result {
            Ok(_) => run_end_refusal(
                *journal,
                *persisted,
                final_step_id,
                final_identity_digest@,
            ) is None,
            Err(e) => run_end_refusal(*journal, *persisted, final_step_id, final_identity_digest@)
                == Some(e),
        },
{
    if !matches!(journal.phase, JournalPhase::Completed) {
        return Err(HarnessCompletionError::NotCompleted);
    }
    if !same_journal(persisted, journal) {
        return Err(HarnessCompletionError::RecordMismatch);
    }
    match &persisted.verified_boundary {
        None => Err(HarnessCompletionError::BoundaryMissing),
        Some(boundary) => {
            let same_step = match boundary.final_step_id {
                Some(id) => id == final_step_id,
                None => false,
            };
            if !same_step || !opt_is(&boundary.final_identity_digest, final_identity_digest) {
                Err(HarnessCompletionError::TerminalIdentityMissing)
            } else {
                Ok(())
            }
        },
    }
}

/// The message of a run that ended otherwise.
pub open spec fn run_end_message(error: HarnessCompletionError) -> Seq<char> {
    match error {
        HarnessCompletionError::NotCompleted => {
            "successful executor run did not end in Completed"@
        },
        HarnessCompletionError::RecordMismatch => {
            "completed durable journal does not match live session state"@
        },
        HarnessCompletionError::BoundaryMissing => {
            "completed journal is missing verified boundary"@
        },
        HarnessCompletionError::TerminalIdentityMissing => {
            "completed journal is missing exact terminal verification identity"@
        },
    }
}

impl HarnessCompletionError {
    /// The message of the error.
    pub fn message(self) -> (message: &'static str)
        ensures
            message@ == run_end_message(self),
    {
        match self {
            HarnessCompletionError::NotCompleted => {
                "successful executor run did not end in Completed"
            },
            HarnessCompletionError::RecordMismatch => {
                "completed durable journal does not match live session state"
            },
            HarnessCompletionError::BoundaryMissing => {
                "completed journal is missing verified boundary"
            },
            HarnessCompletionError::TerminalIdentityMissing => {
                "completed journal is missing exact terminal verification identity"
            },
        }
    }
}

/// The tools of explicit health checks.
#[derive(Clone, Copy, Debug, PartialEq, Eq, Structural)]
pub enum HealthTool {
    XfsScrub,
    E2fsck,
}

/// The tool that a decision about a filesystem asks for.
pub open spec fn health_tool_of(state: FilesystemDecisionState) -> Option<HealthTool> {
    match state {
        FilesystemDecisionState::ReadOnlyHealthCheckRequired => Some(HealthTool::XfsScrub),
        FilesystemDecisionState::OfflineHealthCheckRequired => Some(HealthTool::E2fsck),
        _ => None,
    }
}

/// The tool that a decision about a filesystem asks for.
pub fn health_tool(state: FilesystemDecisionState) -> (tool: Option<HealthTool>)
    ensures
        tool == health_tool_of(state),
{
    match state {
        FilesystemDecisionState::ReadOnlyHealthCheckRequired => Some(HealthTool::XfsScrub),
        FilesystemDecisionState::OfflineHealthCheckRequired => Some(HealthTool::E2fsck),
        _ => None,
    }
}

/// A character that a device name may hold.
pub open spec fn is_sysname_char(c: char) -> bool {
    ||| text::is_digit_char(c)
    ||| ('a' <= c && c <= 'z')
    ||| ('A' <= c && c <= 'Z')
    ||| c == '.'
    ||| c == '_'
    ||| c == '+'
    ||| c == '!'
    ||| c == '-'
}

/// A device name that can be handed to the device manager.
pub open spec fn is_safe_sysname(name: Seq<char>) -> bool {
    name.len() > 0 && forall|i: int| 0 <= i < name.len() ==> is_sysname_char(#[trigger] name[i])
}

/// Whether a device name can be handed to the device manager.
pub fn safe_sysname(name: &str) -> (yes: bool)
    ensures
        yes == is_safe_sysname(name@),
{
    let chars = chars_of(name);
    if chars.len() == 0 {
        return false;
    }
    let mut i: usize = 0;
    while i < chars.len()
        invariant
            i <= chars@.len(),
            chars@ == name@,
            forall|j: int| 0 <= j < i ==> is_sysname_char(#[trigger] name@[j]),
        decreases chars@.len() - i,
    {
        let c = chars[i];
        if !(('0' <= c && c <= '9') || ('a' <= c && c <= 'z') || ('A' <= c && c <= 'Z') || c == '.'
            || c == '_' || c == '+' || c == '!' || c == '-') {
            assert(!is_sysname_char(name@[i as int]));
            return false;
        }
        i += 1;
    }
    true
}

/// What the device manager is told to look for, or the message about a device without a usable
/// name.
pub open spec fn sysname_match(canonical_device: Seq<char>) -> Result<Seq<char>, Seq<char>> {
    match paths::path_file_name(canonical_device) {
        None => Err("resolved device has no UTF-8 sysname"@),
        Some(name) => {
            if is_safe_sysname(name) {
                Ok("--sysname-match="@ + name)
            } else {
                Err("resolved device has unsafe sysname"@)
            }
        },
    }
}

/// Builds what the device manager is told to look for.
pub fn sysname_match_argument(canonical_device: &str) -> (result: Result<String, String>)
    ensures
        match result {
            Ok(argument) => sysname_match(canonical_device@) == Ok::<Seq<char>, Seq<char>>(
                argument@,
            ),
            Err(message) => sysname_match(canonical_device@) == Err::<Seq<char>, Seq<char>>(
                message@,
            ),
        },
{
    match file_name(canonical_device) {
        None => Err("resolved device has no UTF-8 sysname".to_owned()),
        Some(name) => {
            if safe_sysname(name.as_str()) {
                Ok(labelled_message("--sysname-match=", name.as_str()))
            } else {
                Err("resolved device has unsafe sysname".to_owned())
            }
        },
    }
}

/// What the file system says of a path below the owned root.
#[derive(Debug, PartialEq, Eq)]
pub struct OwnedPathProbe {
    /// The canonical parent directory; absent where the path has no parent.
    pub canonical_parent: Option<Result<String, String>>,
    /// Whether something stands at the path.
    pub exists: Result<bool, String>,
}

/// The message about a directory that the harness is to create, if anything is wrong with it.
pub open spec fn direct_child_fault(
    root: Seq<char>,
    path: Seq<char>,
    label: Seq<char>,
    probe: OwnedPathProbe,
) -> Option<Seq<char>> {
    if !paths::is_absolute_path(path) {
        Some(label + " must be absolute"@)
    } else {
        match probe.canonical_parent {
            None => Some(label + " has no parent"@),
            Some(Err(reason)) => Some(reason@),
            Some(Ok(parent)) => {
                if !paths::paths_agree(parent@, root) {
                    Some(label + " must be a direct child of the owned root"@)
                } else {
                    match probe.exists {
                        Err(reason) => Some(reason@),
                        Ok(true) => Some(label + " already exists"@),
                        Ok(false) => None,
                    }
                }
            },
        }
    }
}

fn labelled_message(label: &str, rest: &str) -> (message: String)
    ensures
        message@ == label@ + rest@,
{
    let mut message = label.to_owned();
    message.append(rest);
    message
}

/// Checks a directory that the harness is to create directly below the owned root.
pub fn require_direct_child(root: &str, path: &str, label: &str, probe: &OwnedPathProbe) -> (result:
    Result<(), String>)
    ensures
        match result {
            Ok(_) => direct_child_fault(root@, path@, label@, *probe) is None,
            Err(message) => direct_child_fault(root@, path@, label@, *probe) == Some(message@),
        },
{
    if !absolute_path(path) {
        return Err(labelled_message(label, " must be absolute"));
    }
    match &probe.canonical_parent {
        None => return Err(labelled_message(label, " has no parent")),
        Some(Err(reason)) => return Err(reason.clone()),
        Some(Ok(parent)) => {
            if !same_path(parent.as_str(), root) {
                return Err(labelled_message(label, " must be a direct child of the owned root"));
            }
        },
    }
    match &probe.exists {
        Err(reason) => Err(reason.clone()),
        Ok(exists) => {
            if *exists {
                Err(labelled_message(label, " already exists"))
            } else {
                Ok(())
            }
        },
    }
}

/// The message about a path to the device manager, if anything is wrong with it.
pub open spec fn udevadm_fault(path: Seq<char>, regular: Result<bool, String>) -> Option<Seq<char>> {
    if !paths::is_absolute_path(path) || paths::path_file_name(path) != Some("udevadm"@) {
        Some("udevadm path is not exact"@)
    } else {
        match regular {
            Err(reason) => Some(reason@),
            Ok(false) => Some("udevadm path is not a file"@),
            Ok(true) => None,
        }
    }
}

/// Checks a path to the device manager.
pub fn validate_udevadm(path: &str, regular: &Result<bool, String>) -> (result: Result<(), String>)
    ensures
        match result {
            Ok(_) => udevadm_fault(path@, *regular) is None,
            Err(message) => udevadm_fault(path@, *regular) == Some(message@),
        },
{
    if !absolute_path(path) || !file_name_is(path, "udevadm") {
        return Err("udevadm path is not exact".to_owned());
    }
    match regular {
        Err(reason) => Err(reason.clone()),
        Ok(is_regular) => {
            if *is_regular {
                Ok(())
            } else {
                Err("udevadm path is not a file".to_owned())
            }
        },
    }
}

/// The message about a directory that is to be removed, if anything is wrong with it.
pub open spec fn cleanup_fault(
    root: Seq<char>,
    canonical_parent: Option<Result<String, String>>,
    plain_directory: Result<bool, String>,
) -> Option<Seq<char>> {
    match canonical_parent {
        None => Some("owned cleanup path has no parent"@),
        Some(Err(reason)) => Some(reason@),
        Some(Ok(parent)) => {
            if !paths::paths_agree(parent@, root) {
                Some("refusing cleanup outside owned root"@)
            } else {
                match plain_directory {
                    Err(reason) => Some(reason@),
                    Ok(false) => Some("owned cleanup path is not an exact directory"@),
                    Ok(true) => None,
                }
            }
        },
    }
}

/// Checks a directory that the harness is to remove. `plain_directory` says whether it is a
/// directory and no link.
pub fn check_cleanup(
    root: &str,
    canonical_parent: &Option<Result<String, String>>,
    plain_directory: &Result<bool, String>,
) -> (result: Result<(), String>)
    ensures
        match result {
            Ok(_) => cleanup_fault(root@, *canonical_parent, *plain_directory) is None,
            Err(message) => cleanup_fault(root@, *canonical_parent, *plain_directory) == Some(
                message@,
            ),
        },
{
    match canonical_parent {
        None => return Err("owned cleanup path has no parent".to_owned()),
        Some(Err(reason)) => return Err(reason.clone()),
        Some(Ok(parent)) => {
            if !same_path(parent.as_str(), root) {
                return Err("refusing cleanup outside owned root".to_owned());
            }
        },
    }
    match plain_directory {
        Err(reason) => Err(reason.clone()),
        Ok(plain) => {
            if *plain {
                Ok(())
            } else {
                Err("owned cleanup path is not an exact directory".to_owned())
            }
        },
    }
}

/// A command is followed only by its own outcome: any other stops the run. An outcome of `lvextend`
/// leads to a refresh of its device, any other to settling, unless a failure is to be injected.
pub proof fn harness_goes_on_with_the_right_outcome(
    commands: Seq<HarnessCommand>,
    inject: bool,
    state: HarnessState,
    plan_step_id: u32,
    program: DisposableProgram,
)
    requires
        state.stage is Executing,
        state.index < commands.len(),
    ensures
        ({
            let (next, action) = harness_step(
                commands,
                inject,
                state,
                HarnessEvent::CommandFinished { plan_step_id, program },
            );
            let command = commands[state.index as int];
            let right = plan_step_id == command.plan_step_id && program == command.program;
            let injected = inject && program is Resize2fs;
            &&& !right ==> action == HarnessAction::Interrupt(HarnessFailure::OutcomeOutOfOrder)
            &&& right && injected ==> action == HarnessAction::Interrupt(
                HarnessFailure::InjectedFailure,
            )
            &&& right && !injected && program is Lvextend ==> action is RefreshDevice
            &&& right && !injected && !(program is Lvextend) ==> action is SettleDevices
            &&& right && !injected <==> next.stage is Refreshing
            &&& !(right && !injected) <==> next.stage is Failed
            &&& next.index == state.index
        }),
{
}

/// After a refresh the harness looks for the planned size behind `lvextend`, and for the size of the
/// device behind a filesystem tool, from the first attempt on. A size that is not known stops it.
pub proof fn harness_looks_for_the_planned_size(
    commands: Seq<HarnessCommand>,
    inject: bool,
    state: HarnessState,
    current_backing_size: Option<u64>,
)
    requires
        state.stage is Refreshing,
        state.index < commands.len(),
    ensures
        ({
            let (next, action) = harness_step(
                commands,
                inject,
                state,
                HarnessEvent::Refreshed { current_backing_size },
            );
            let command = commands[state.index as int];
            let wanted = match command.program {
                DisposableProgram::Lvextend => command.expected_lv_size,
                DisposableProgram::Pvresize => Some(0u64),
                _ => current_backing_size,
            };
            &&& wanted matches Some(size) ==> {
                &&& next.stage is Discovering
                &&& next.expected_size == size
                &&& next.attempt == 0
                &&& next.index == state.index
                &&& action is Discover
            }
            &&& wanted is None ==> next.stage is Failed && action is Interrupt
        }),
{
}

/// A discovered size is recorded exactly where it is the wanted one, or where nothing is wanted
/// behind `pvresize`. A larger one stops the run, a smaller one is waited for while attempts are
/// left, and a filesystem that is gone stops the run behind `lvextend` and is waited for elsewhere.
pub proof fn harness_records_the_wanted_size_alone(
    commands: Seq<HarnessCommand>,
    inject: bool,
    state: HarnessState,
    backing_size: Option<u64>,
)
    requires
        state.stage is Discovering,
        state.index < commands.len(),
    ensures
        ({
            let (next, action) = harness_step(
                commands,
                inject,
                state,
                HarnessEvent::Discovered { backing_size },
            );
            let program = commands[state.index as int].program;
            let found = program is Pvresize || backing_size == Some(state.expected_size);
            let late = !found && {
                ||| backing_size is Some && backing_size->Some_0 < state.expected_size
                ||| backing_size is None && !(program is Lvextend)
            };
            &&& next.stage is Recording <==> found
            &&& action is RecordVerification <==> found
            &&& next.stage is Waiting <==> late && state.attempt + 1 < 20
            &&& action is WaitAndRefresh <==> late && state.attempt + 1 < 20
            &&& next.stage is Failed <==> !found && !(late && state.attempt + 1 < 20)
            &&& next.index == state.index
            &&& next.expected_size == state.expected_size
            &&& next.attempt == state.attempt
        }),
{
}

/// A wait is followed by the next attempt. A record is followed by the verification of the boundary
/// behind this step, or of the completion behind the last one. A verified boundary is followed by
/// the next command, a verified completion by the end, and neither by anything else.
pub proof fn harness_verifies_each_step_before_the_next(
    commands: Seq<HarnessCommand>,
    inject: bool,
    state: HarnessState,
)
    requires
        state.index < commands.len() <= usize::MAX,
    ensures
        ({
            let last = state.index + 1 == commands.len();
            let id = commands[state.index as int].plan_step_id;
            let waited = harness_step(commands, inject, state, HarnessEvent::Waited);
            let recorded = harness_step(
                commands,
                inject,
                state,
                HarnessEvent::VerificationRecorded,
            );
            let boundary = harness_step(commands, inject, state, HarnessEvent::BoundaryVerified);
            let completion = harness_step(
                commands,
                inject,
                state,
                HarnessEvent::CompletionVerified,
            );
            &&& waited.1 is Discover <==> state.stage is Waiting && state.attempt + 1 < 20
            &&& waited.1 is Discover ==> waited.0.attempt == state.attempt + 1
                && waited.0.stage is Discovering && waited.0.index == state.index
            &&& recorded.1 == (HarnessAction::VerifyCompletion { plan_step_id: id }) <==> last
                && state.stage is Recording
            &&& recorded.1 == (HarnessAction::VerifyBoundary { plan_step_id: id }) <==> !last
                && state.stage is Recording
            &&& recorded.0.stage is Verifying <==> state.stage is Recording
            &&& boundary.1 is Execute <==> state.stage is Verifying && !last
            &&& boundary.1 is Execute ==> boundary.1->index == state.index + 1
                && boundary.0.index == state.index + 1 && boundary.0.stage is Executing
            &&& completion.1 is Finish <==> state.stage is Verifying && last
            &&& completion.0.stage is Finished <==> state.stage is Verifying && last
        }),
{
}

/// A run begins with its first command, and not at all without one. A failure outside stops it.
pub proof fn harness_begins_with_the_first_command(
    commands: Seq<HarnessCommand>,
    inject: bool,
    state: HarnessState,
)
    ensures
        state.stage is Ready && commands.len() > 0 ==> {
            let (next, action) = harness_step(commands, inject, state, HarnessEvent::Begin);
            &&& next.stage is Executing
            &&& next.index == 0
            &&& action is Execute
            &&& action->index == 0
        },
        state.stage is Ready && commands.len() == 0 ==> harness_step(
            commands,
            inject,
            state,
            HarnessEvent::Begin,
        ).1 is Interrupt,
        harness_step(commands, inject, state, HarnessEvent::Failed).1 == HarnessAction::Interrupt(
            HarnessFailure::External,
        ),
        harness_step(commands, inject, state, HarnessEvent::Failed).0.stage is Failed,
{
}

/// A sequence is approved exactly where `lvextend` is followed by one filesystem tool and nothing
/// else, with or without `pvresize` in front.
pub proof fn approved_sequence_grows_from_below(commands: Seq<DisposableCommandModel>)
    ensures
        is_approved_sequence(commands) <==> {
            let n = commands.len();
            &&& n == 2 || n == 3
            &&& n == 3 ==> commands[0].program is Pvresize
            &&& commands[n - 2].program is Lvextend
            &&& commands[n - 1].program is Resize2fs || commands[n - 1].program is XfsGrowfs
        },
{
}

/// The planned size of a step is that of the first step of its number, where it grows a logical
/// volume.
pub proof fn planned_size_is_that_of_the_step(
    manifest: NativeCompiledManifest,
    command: DisposableCommandModel,
    operation: NativeOperationSpec,
)
    requires
        disposable_verify::manifest_has_step(manifest.steps@, command.plan_step_id, operation),
    ensures
        ({
            let run = harness_command(manifest, command);
            &&& run.plan_step_id == command.plan_step_id
            &&& run.program == command.program
            &&& operation is ExtendLogicalVolume ==> run.expected_lv_size == Some(
                operation->ExtendLogicalVolume_expected_lv_size_bytes,
            )
            &&& !(operation is ExtendLogicalVolume) ==> run.expected_lv_size is None
        }),
{
    let steps = manifest.steps@;
    let id = command.plan_step_id;
    native_operation::looked_up_step_is_the_first(steps, id);
    let k = choose|k: int|
        {
            &&& 0 <= k < steps.len()
            &&& (#[trigger] steps[k]).plan_step_id == id
            &&& steps[k].operation == operation
            &&& forall|j: int| 0 <= j < k ==> (#[trigger] steps[j]).plan_step_id != id
        };
    let i = native_operation::step_index(steps, id)->Some_0;
    if k < i {
        assert(steps[k].plan_step_id != id);
    } else if i < k {
        assert(steps[i].plan_step_id != id);
    }
}

/// A run has ended well exactly where the journal is completed, the record on disk is the same, and
/// it names the last step and its state.
pub proof fn run_ends_with_its_last_step_on_record(
    journal: OperationJournal,
    persisted: OperationJournal,
    final_step_id: u32,
    final_identity_digest: Seq<char>,
)
    ensures
        run_end_refusal(journal, persisted, final_step_id, final_identity_digest) is None <==> {
            &&& journal.phase is Completed
            &&& locked_session::journals_agree(persisted, journal)
            &&& persisted.verified_boundary matches Some(boundary)
            &&& boundary.final_step_id == Some(final_step_id)
            &&& reading::reads(boundary.final_identity_digest, final_identity_digest)
        },
{
}

/// A mounted check is made with the xfs tool, an unmounted one with the ext4 tool, and nothing else
/// needs a tool.
pub proof fn pending_check_names_its_tool(state: FilesystemDecisionState)
    ensures
        health_tool_of(state) == Some(HealthTool::XfsScrub) <==> state
            is ReadOnlyHealthCheckRequired,
        health_tool_of(state) == Some(HealthTool::E2fsck) <==> state is OfflineHealthCheckRequired,
{
}

/// The device manager is asked for a device by its last name, which is made of letters, digits and a
/// few signs.
pub proof fn device_is_asked_for_by_its_name(canonical_device: Seq<char>)
    ensures
        sysname_match(canonical_device) is Ok <==> {
            &&& paths::path_file_name(canonical_device) matches Some(name)
            &&& name.len() > 0
            &&& forall|i: int|
                0 <= i < name.len() ==> {
                    ||| '0' <= #[trigger] name[i] <= '9'
                    ||| 'a' <= name[i] <= 'z'
                    ||| 'A' <= name[i] <= 'Z'
                    ||| seq!['.', '_', '+', '!', '-'].contains(name[i])
                }
        },
        sysname_match(canonical_device) matches Ok(argument) ==> argument == "--sysname-match="@
            + paths::path_file_name(canonical_device)->Some_0,
{
    let signs = seq!['.', '_', '+', '!', '-'];
    assert(signs[0] == '.' && signs[1] == '_' && signs[2] == '+' && signs[3] == '!' && signs[4]
        == '-');
    if paths::path_file_name(canonical_device) is Some {
        let name = paths::path_file_name(canonical_device)->Some_0;
        assert forall|i: int| 0 <= i < name.len() implies (is_sysname_char(#[trigger] name[i]) <==> {
            ||| '0' <= name[i] <= '9'
            ||| 'a' <= name[i] <= 'z'
            ||| 'A' <= name[i] <= 'Z'
            ||| signs.contains(name[i])
        }) by {
            if signs.contains(name[i]) {
                let k = choose|k: int| 0 <= k < signs.len() && signs[k] == name[i];
                assert(0 <= k < 5);
            }
        }
    }
}

/// A directory is created only as a direct child of the owned root, at an absolute path where
/// nothing stands; one is removed only where it is a plain directory right below that root; and the
/// device manager is reached only by an absolute path to a file of its name.
pub proof fn harness_stays_in_its_own_root(
    root: Seq<char>,
    path: Seq<char>,
    label: Seq<char>,
    probe: OwnedPathProbe,
    parent: Option<Result<String, String>>,
    plain: Result<bool, String>,
)
    ensures
        direct_child_fault(root, path, label, probe) is None <==> {
            &&& path.len() > 0 && path[0] == '/'
            &&& probe.canonical_parent matches Some(found)
            &&& found matches Ok(directory)
            &&& paths::paths_agree(directory@, root)
            &&& probe.exists == Result::<bool, String>::Ok(false)
        },
        cleanup_fault(root, parent, plain) is None <==> {
            &&& parent matches Some(found)
            &&& found matches Ok(directory)
            &&& paths::paths_agree(directory@, root)
            &&& plain == Result::<bool, String>::Ok(true)
        },
        udevadm_fault(path, plain) is None <==> {
            &&& path.len() > 0 && path[0] == '/'
            &&& paths::path_file_name(path) == Some("udevadm"@)
            &&& plain == Result::<bool, String>::Ok(true)
        },
{
}

/// The messages about a size name the size that was expected and, where it was exceeded, the one
/// that was found.
pub proof fn message_about_a_size_names_it(expected: u64, actual: u64)
    ensures
        exists|e: Seq<char>, a: Seq<char>|
            {
                &&& #[trigger] reading::spells(e, expected as int)
                &&& #[trigger] reading::spells(a, actual as int)
                &&& failure_message(HarnessFailure::VolumeSizeExceeded { expected, actual })
                    == "fresh LV backing size exceeded approved size: expected="@ + e + " actual="@
                    + a
                &&& failure_message(HarnessFailure::FilesystemSizeExceeded { expected, actual })
                    == "terminal filesystem backing size exceeded verified LV size: expected="@ + e
                    + " actual="@ + a
                &&& failure_message(HarnessFailure::VolumeSizeNotReached { expected })
                    == "fresh LV backing size did not converge to approved size "@ + e
                &&& failure_message(HarnessFailure::FilesystemSizeNotReached { expected })
                    == "terminal filesystem backing size did not converge to verified LV size "@ + e
            },
{
    reading::written_number_is_read_back(expected as nat);
    reading::written_number_is_read_back(actual as nat);
    assert(reading::spells(text::decimal_text(expected as nat), expected as int));
    assert(reading::spells(text::decimal_text(actual as nat), actual as int));
}

} // verus!
