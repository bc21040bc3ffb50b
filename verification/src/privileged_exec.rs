//! What a launch by descriptor has to hold, and what comes back from one.

use vstd::prelude::*;
use vstd::string::*;

use crate::reading;
use crate::digest;
use crate::privileged_spawn;
use crate::privileged_pin;
use crate::privileged_permit;
use crate::text;
use crate::privileged_launch;
use crate::privileged_argv;
use crate::digest::fingerprint_text;
use crate::privileged_argv::{PrivilegedCommandModel, PrivilegedCommandSpec, PrivilegedProgram};
use crate::privileged_launch::{
    validate_text, DescriptorProbe, PrivilegedDescriptorLaunchSpec, StageModel,
};
use crate::privileged_permit::PrivilegedLaunchPermit;
use crate::privileged_pin::{OpenedTool, PinnedPrivilegedTools};
use crate::privileged_prepared::PreparedPrivilegedInvocation;
use crate::privileged_spawn::PrivilegedSpawnAuthorization;
use crate::privileged_start::PrivilegedExecutionStartReceipt;
use crate::privileged_tools::PrivilegedToolResolution;
use crate::text::{opt_is, same_text};
use crate::MUTATION_ENABLED;

verus! {

/// How much of each output stream is kept.
pub const OUTPUT_CAPTURE_LIMIT: usize = 65536;

/// What one process left behind.
#[derive(Debug, PartialEq, Eq)]
pub struct DescriptorExecOutcome {
    pub exit_code: i32,
    pub stdout: Vec<u8>,
    pub stderr: Vec<u8>,
    pub stdout_truncated: bool,
    pub stderr_truncated: bool,
}

/// What the processes of a launch left behind.
#[derive(Debug, PartialEq, Eq)]
pub struct PrivilegedDescriptorSequenceOutcome {
    pub primary: DescriptorExecOutcome,
    pub kernel_refresh: Option<DescriptorExecOutcome>,
}

#[derive(Clone, Copy, Debug, PartialEq, Eq, Structural)]
pub enum PrivilegedDescriptorExecError {
    PermitIntegrityMismatch,
    LaunchIntegrityMismatch,
    PinIntegrityMismatch,
    BindingMismatch,
    StdinBindingMismatch,
    KernelRefreshBindingMismatch,
    ProductionMutationDisabled,
    EmbeddedNul,
    ChildSignaled,
}

/// An output stream, cut off at a limit.
#[derive(Debug, PartialEq, Eq)]
pub struct CapturedOutput {
    pub bytes: Vec<u8>,
    pub truncated: bool,
}

/// The kept part of a stream.
pub open spec fn kept_bytes(stream: Seq<u8>) -> Seq<u8> {
    if stream.len() <= OUTPUT_CAPTURE_LIMIT {
        stream
    } else {
        stream.take(OUTPUT_CAPTURE_LIMIT as int)
    }
}

impl CapturedOutput {
    /// What is kept of a stream, and whether anything of it was lost.
    pub open spec fn captures(&self, stream: Seq<u8>) -> bool {
        self.bytes@ == kept_bytes(stream) && self.truncated == (stream.len()
            > OUTPUT_CAPTURE_LIMIT)
    }

    pub fn new() -> (output: Self)
        ensures
            output.captures(Seq::empty()),
    {
        CapturedOutput { bytes: Vec::new(), truncated: false }
    }

    /// Takes in the next part of a stream.
    pub fn append(&mut self, chunk: &[u8])
        requires
            old(self).bytes@.len() <= OUTPUT_CAPTURE_LIMIT,
        ensures
            final(self).bytes@ == kept_bytes(old(self).bytes@ + chunk@),
            final(self).truncated == (old(self).truncated || old(self).bytes@.len() + chunk@.len()
                > OUTPUT_CAPTURE_LIMIT),
            final(self).bytes@.len() <= OUTPUT_CAPTURE_LIMIT,
    {
        let mut i: usize = 0;
        while i < chunk.len() && self.bytes.len() < OUTPUT_CAPTURE_LIMIT
            invariant
                i <= chunk@.len(),
                self.truncated == old(self).truncated,
                self.bytes@ == old(self).bytes@ + chunk@.take(i as int),
                self.bytes@.len() <= OUTPUT_CAPTURE_LIMIT,
            decreases chunk@.len() - i,
        {
            self.bytes.push(chunk[i]);
            assert(old(self).bytes@ + chunk@.take(i + 1) =~= (old(self).bytes@ + chunk@.take(
                i as int,
            )).push(chunk@[i as int]));
            i += 1;
        }
        if i < chunk.len() {
            self.truncated = true;
        }
        assert(self.bytes@ =~= kept_bytes(old(self).bytes@ + chunk@));
    }
}

/// A stream is captured the same way however it is cut into parts.
pub proof fn capture_ignores_part_limits(before: CapturedOutput, stream: Seq<u8>, chunk: Seq<u8>)
    requires
        before.captures(stream),
    ensures
        kept_bytes(before.bytes@ + chunk) == kept_bytes(stream + chunk),
        (before.truncated || before.bytes@.len() + chunk.len() > OUTPUT_CAPTURE_LIMIT) == ((stream
            + chunk).len() > OUTPUT_CAPTURE_LIMIT),
{
    if stream.len() > OUTPUT_CAPTURE_LIMIT {
        assert(kept_bytes(before.bytes@ + chunk) =~= kept_bytes(stream));
        assert(kept_bytes(stream + chunk) =~= kept_bytes(stream));
    }
}

/// The command has the input that the launch was frozen with.
pub open spec fn is_frozen_input(
    command: PrivilegedCommandModel,
    launch: PrivilegedDescriptorLaunchSpec,
) -> bool {
    launch.stdin_len == privileged_launch::stdin_length(command.stdin_payload) && text::opt_text(launch.stdin_sha256)
        == privileged_launch::stdin_fingerprint(command.stdin_payload)
}

/// Whether the command has the input that the launch was frozen with.
pub fn stdin_matches_launch(
    command: &PrivilegedCommandSpec,
    launch: &PrivilegedDescriptorLaunchSpec,
) -> (yes: bool)
    ensures
        yes == is_frozen_input(command@, *launch),
{
    match &command.stdin_payload {
        Some(payload) => {
            let length: u64 = payload.as_str().as_bytes().len() as u64;
            launch.stdin_len == length && opt_is(
                &launch.stdin_sha256,
                fingerprint_text(payload.as_str()).as_str(),
            )
        },
        None => launch.stdin_len == 0 && launch.stdin_sha256.is_none(),
    }
}

/// The command has the kernel refresh that the launch was frozen with.
pub open spec fn is_frozen_refresh(
    command: PrivilegedCommandModel,
    refresh: Option<StageModel>,
) -> bool {
    match (command.kernel_refresh, refresh) {
        (Some(spec), Some(stage)) => {
            &&& spec.program == stage.program
            &&& stage.argv == seq![privileged_argv::privileged_program_name(spec.program)] + spec.args
        },
        (None, None) => true,
        _ => false,
    }
}

/// Whether the command has the kernel refresh that the launch was frozen with.
pub fn kernel_refresh_matches_launch(
    command: &PrivilegedCommandSpec,
    launch: &PrivilegedDescriptorLaunchSpec,
) -> (yes: bool)
    ensures
        yes == is_frozen_refresh(command@, privileged_launch::opt_stage(launch.kernel_refresh)),
{
    match (&command.kernel_refresh, &launch.kernel_refresh) {
        (Some(spec), Some(stage)) => {
            if spec.program != stage.program {
                return false;
            }
            let ghost owed = seq![privileged_argv::privileged_program_name(spec.program)] + text::texts(spec.args@);
            if stage.argv.len() == 0 || stage.argv.len() - 1 != spec.args.len() {
                assert(text::texts(stage.argv@).len() != owed.len());
                return false;
            }
            if !same_text(stage.argv[0].as_str(), spec.program.as_str()) {
                assert(text::texts(stage.argv@)[0] != owed[0]);
                return false;
            }
            let mut i: usize = 0;
            while i < spec.args.len()
                invariant
                    i <= spec.args@.len(),
                    stage.argv@.len() == spec.args@.len() + 1,
                    owed == seq![privileged_argv::privileged_program_name(spec.program)] + text::texts(spec.args@),
                    spec.program == stage.program,
                    command@.kernel_refresh == Some(spec@),
                    privileged_launch::opt_stage(launch.kernel_refresh) == Some(stage@),
                    stage.argv@[0]@ == privileged_argv::privileged_program_name(spec.program),
                    forall|j: int| 0 <= j < i ==> stage.argv@[j + 1]@ == #[trigger] spec.args@[j]@,
                decreases spec.args@.len() - i,
            {
                if !same_text(stage.argv[i + 1].as_str(), spec.args[i].as_str()) {
                    assert(text::texts(stage.argv@)[i + 1] != owed[i + 1]);
                    return false;
                }
                i += 1;
            }
            proof {
                assert forall|k: int| 0 <= k < owed.len() implies text::texts(stage.argv@)[k]
                    == owed[k] by {
                    if k > 0 {
                        assert(stage.argv@[k - 1 + 1]@ == spec.args@[k - 1]@);
                    }
                }
                assert(text::texts(stage.argv@) =~= owed);
            }
            true
        },
        (None, None) => true,
        _ => false,
    }
}

/// Permit, launch, pins and command all name each other, and no process was spawned yet.
pub open spec fn is_sealed_launch(
    permit: PrivilegedLaunchPermit,
    launch: PrivilegedDescriptorLaunchSpec,
    pinned: PinnedPrivilegedTools,
    command: PrivilegedCommandModel,
) -> bool {
    &&& permit.launch_id@ == launch.launch_id@
    &&& permit.authorization_id@ == launch.authorization_id@
    &&& permit.plan_step_id == launch.plan_step_id
    &&& permit.command_digest@ == launch.command_digest@
    &&& launch.command_digest@ == privileged_argv::command_fingerprint(command)
    &&& pinned.pin_id@ == launch.pin_id@
    &&& pinned.authorization_id@ == launch.authorization_id@
    &&& pinned.plan_step_id == launch.plan_step_id
    &&& pinned.command_digest@ == launch.command_digest@
    &&& command.plan_step_id == launch.plan_step_id
    &&& !permit.mutation_enabled
    &&& !permit.process_spawned
    &&& !launch.process_spawned
}

/// What the start of a launch is refused for, if anything.
pub open spec fn execution_gate(
    permit: PrivilegedLaunchPermit,
    launch: PrivilegedDescriptorLaunchSpec,
    pinned: PinnedPrivilegedTools,
    command: PrivilegedCommandModel,
) -> Option<PrivilegedDescriptorExecError> {
    if !permit.is_intact() {
        Some(PrivilegedDescriptorExecError::PermitIntegrityMismatch)
    } else if !launch.is_intact() {
        Some(PrivilegedDescriptorExecError::LaunchIntegrityMismatch)
    } else if !pinned.is_intact() {
        Some(PrivilegedDescriptorExecError::PinIntegrityMismatch)
    } else if !is_sealed_launch(permit, launch, pinned, command) {
        Some(PrivilegedDescriptorExecError::BindingMismatch)
    } else if !is_frozen_input(command, launch) {
        Some(PrivilegedDescriptorExecError::StdinBindingMismatch)
    } else if !is_frozen_refresh(command, privileged_launch::opt_stage(launch.kernel_refresh)) {
        Some(PrivilegedDescriptorExecError::KernelRefreshBindingMismatch)
    } else if !MUTATION_ENABLED {
        Some(PrivilegedDescriptorExecError::ProductionMutationDisabled)
    } else {
        None
    }
}

/// Validates the complete launch chain against the pinned descriptors. While mutation is switched
/// off, every chain is refused, however exact it is.
pub fn execute_privileged_descriptor_launch(
    permit: &PrivilegedLaunchPermit,
    launch: &PrivilegedDescriptorLaunchSpec,
    pinned: &PinnedPrivilegedTools,
    command: &PrivilegedCommandSpec,
) -> (result: Result<(), PrivilegedDescriptorExecError>)
    ensures
        match result {
            Ok(_) => execution_gate(*permit, *launch, *pinned, command@) is None,
            Err(e) => execution_gate(*permit, *launch, *pinned, command@) == Some(e),
        },
{
    if !permit.intact() {
        return Err(PrivilegedDescriptorExecError::PermitIntegrityMismatch);
    }
    if !launch.intact() {
        return Err(PrivilegedDescriptorExecError::LaunchIntegrityMismatch);
    }
    if !pinned.intact() {
        return Err(PrivilegedDescriptorExecError::PinIntegrityMismatch);
    }
    let command_digest = command.fingerprint();
    if !same_text(permit.launch_id.as_str(), launch.launch_id.as_str()) || !same_text(
        permit.authorization_id.as_str(),
        launch.authorization_id.as_str(),
    ) || permit.plan_step_id != launch.plan_step_id || !same_text(
        permit.command_digest.as_str(),
        launch.command_digest.as_str(),
    ) || !same_text(launch.command_digest.as_str(), command_digest.as_str()) || !same_text(
        pinned.pin_id.as_str(),
        launch.pin_id.as_str(),
    ) || !same_text(pinned.authorization_id.as_str(), launch.authorization_id.as_str())
        || pinned.plan_step_id != launch.plan_step_id || !same_text(
        pinned.command_digest.as_str(),
        launch.command_digest.as_str(),
    ) || command.plan_step_id != launch.plan_step_id || permit.mutation_enabled
        || permit.process_spawned || launch.process_spawned {
        return Err(PrivilegedDescriptorExecError::BindingMismatch);
    }
    if !stdin_matches_launch(command, launch) {
        return Err(PrivilegedDescriptorExecError::StdinBindingMismatch);
    }
    if !kernel_refresh_matches_launch(command, launch) {
        return Err(PrivilegedDescriptorExecError::KernelRefreshBindingMismatch);
    }
    if !MUTATION_ENABLED {
        return Err(PrivilegedDescriptorExecError::ProductionMutationDisabled);
    }
    Ok(())
}

/// No launch is ever let through while mutation is switched off.
pub proof fn no_launch_is_let_through(
    permit: PrivilegedLaunchPermit,
    launch: PrivilegedDescriptorLaunchSpec,
    pinned: PinnedPrivilegedTools,
    command: PrivilegedCommandModel,
)
    ensures
        execution_gate(permit, launch, pinned, command) is Some,
{
}

/// What one stage is refused for right before it is started, if anything.
pub open spec fn stage_gate(
    program: PrivilegedProgram,
    argv: Seq<Seq<char>>,
    environment: Seq<Seq<char>>,
) -> Option<PrivilegedDescriptorExecError> {
    if argv.len() == 0 || argv[0] != privileged_argv::privileged_program_name(program) {
        Some(PrivilegedDescriptorExecError::BindingMismatch)
    } else if privileged_launch::any_nul(argv) || privileged_launch::any_nul(environment) {
        Some(PrivilegedDescriptorExecError::EmbeddedNul)
    } else {
        None
    }
}

fn holds_nul(values: &Vec<String>) -> (found: bool)
    ensures
        found == privileged_launch::any_nul(text::texts(values@)),
{
    let mut i: usize = 0;
    while i < values.len()
        invariant
            i <= values@.len(),
            forall|j: int| 0 <= j < i ==> !privileged_launch::has_nul(#[trigger] text::texts(values@)[j]),
        decreases values@.len() - i,
    {
        if validate_text(values[i].as_str()).is_err() {
            assert(privileged_launch::has_nul(text::texts(values@)[i as int]));
            return true;
        }
        i += 1;
    }
    false
}

/// Checks one stage right before it is started: its first argument names its program, and nothing
/// that it is handed holds a NUL.
pub fn check_descriptor_stage(
    program: PrivilegedProgram,
    argv: &Vec<String>,
    environment: &Vec<String>,
) -> (result: Result<(), PrivilegedDescriptorExecError>)
    ensures
        match result {
            Ok(_) => stage_gate(program, text::texts(argv@), text::texts(environment@)) is None,
            Err(e) => stage_gate(program, text::texts(argv@), text::texts(environment@)) == Some(e),
        },
{
    if argv.len() == 0 || !same_text(argv[0].as_str(), program.as_str()) {
        return Err(PrivilegedDescriptorExecError::BindingMismatch);
    }
    if holds_nul(argv) || holds_nul(environment) {
        return Err(PrivilegedDescriptorExecError::EmbeddedNul);
    }
    Ok(())
}

/// The environment of a launched process: the search path and the locale, nothing else.
pub fn launch_environment(launch: &PrivilegedDescriptorLaunchSpec) -> (environment: Vec<String>)
    ensures
        text::texts(environment@) == seq![
            "PATH="@ + launch.fixed_path@,
            "LC_ALL="@ + launch.fixed_locale@,
        ],
{
    let mut path = "PATH=".to_owned();
    path.append(launch.fixed_path.as_str());
    let mut locale = "LC_ALL=".to_owned();
    locale.append(launch.fixed_locale.as_str());
    let mut environment: Vec<String> = Vec::new();
    environment.push(path);
    environment.push(locale);
    assert(text::texts(environment@) =~= seq![
        "PATH="@ + launch.fixed_path@,
        "LC_ALL="@ + launch.fixed_locale@,
    ]);
    environment
}

/// Whether the kernel refresh follows: after a successful primary process, where both the launch
/// and the pins have one.
pub fn refresh_follows(
    primary_exit_code: i32,
    refresh_pinned: bool,
    launch: &PrivilegedDescriptorLaunchSpec,
) -> (result: Result<bool, PrivilegedDescriptorExecError>)
    ensures
        match result {
            Ok(follows) => follows == (primary_exit_code == 0 && launch.kernel_refresh is Some) && (
            primary_exit_code == 0 ==> refresh_pinned == launch.kernel_refresh is Some),
            Err(e) => e == PrivilegedDescriptorExecError::KernelRefreshBindingMismatch
                && primary_exit_code == 0 && refresh_pinned != launch.kernel_refresh is Some,
        },
{
    if primary_exit_code != 0 {
        return Ok(false);
    }
    if refresh_pinned != launch.kernel_refresh.is_some() {
        return Err(PrivilegedDescriptorExecError::KernelRefreshBindingMismatch);
    }
    Ok(refresh_pinned)
}

/// A child ended by itself: no signal stands in the low seven bits of its wait status.
pub open spec fn exited(status: i32) -> bool {
    status & 0x7f == 0
}

/// The code that a child exited with: the second byte of its wait status.
pub open spec fn exit_code_of(status: i32) -> i32 {
    (status >> 8) & 0xff
}

/// `libc::WIFEXITED` tests the low seven bits of a wait status for a signal.
pub assume_specification[ libc::WIFEXITED ](status: libc::c_int) -> (yes: bool)
    ensures
        yes == exited(status),
;

/// `libc::WEXITSTATUS` takes the second byte of a wait status.
pub assume_specification[ libc::WEXITSTATUS ](status: libc::c_int) -> (code: libc::c_int)
    ensures
        code == exit_code_of(status),
;

/// Concludes one stage from the wait status of its process and its captured streams.
pub fn conclude_descriptor_stage(
    status: i32,
    stdout: CapturedOutput,
    stderr: CapturedOutput,
) -> (result: Result<DescriptorExecOutcome, PrivilegedDescriptorExecError>)
    ensures
        match result {
            Ok(outcome) => exited(status) && outcome == (DescriptorExecOutcome {
                exit_code: exit_code_of(status),
                stdout: stdout.bytes,
                stderr: stderr.bytes,
                stdout_truncated: stdout.truncated,
                stderr_truncated: stderr.truncated,
            }),
            Err(e) => !exited(status) && e == PrivilegedDescriptorExecError::ChildSignaled,
        },
{
    if libc::WIFEXITED(status) {
        Ok(
            DescriptorExecOutcome {
                exit_code: libc::WEXITSTATUS(status),
                stdout: stdout.bytes,
                stderr: stderr.bytes,
                stdout_truncated: stdout.truncated,
                stderr_truncated: stderr.truncated,
            },
        )
    } else {
        Err(PrivilegedDescriptorExecError::ChildSignaled)
    }
}

/// A chain without a gap gets its permit: authorised for the prepared command, pinned, launched as
/// pinned. What stops its start is the switch alone.
pub proof fn only_the_switch_stops_an_exact_chain(
    start: PrivilegedExecutionStartReceipt,
    prepared: PreparedPrivilegedInvocation,
    command: PrivilegedCommandModel,
    tools: PrivilegedToolResolution,
    authorization: PrivilegedSpawnAuthorization,
    opened: (Result<OpenedTool, String>, Result<OpenedTool, String>),
    pinned: PinnedPrivilegedTools,
    descriptors: (DescriptorProbe, Option<DescriptorProbe>),
    launch: PrivilegedDescriptorLaunchSpec,
    permit: PrivilegedLaunchPermit,
)
    requires
        privileged_spawn::spawn_refusal(start, prepared, command, tools) is None,
        privileged_spawn::authorizes(authorization, start, prepared),
        privileged_pin::pin_refusal(authorization, command, tools, opened.0, opened.1) is None,
        privileged_pin::pins(pinned, authorization, tools),
        privileged_launch::launch_refusal(pinned, command, descriptors.0, descriptors.1) is None,
        privileged_launch::launches(launch, pinned, command, descriptors.0, descriptors.1),
        privileged_permit::permits(permit, start.execution_id@, start.receipt_id@, authorization, launch),
    ensures
        privileged_permit::first_permit_refusal(start, authorization, launch) is None,
        execution_gate(permit, launch, pinned, command) == Some(
            PrivilegedDescriptorExecError::ProductionMutationDisabled,
        ),
{
}

/// What is kept of a stream is its front, as much as fits, and it is marked as cut exactly where
/// something was left out.
pub proof fn kept_output_is_the_front_of_the_stream(output: CapturedOutput, stream: Seq<u8>)
    requires
        output.captures(stream),
    ensures
        output.bytes@.len() <= 65536,
        output.truncated <==> output.bytes@.len() < stream.len(),
        output.truncated ==> output.bytes@.len() == 65536,
        forall|i: int| 0 <= i < output.bytes@.len() ==> #[trigger] output.bytes@[i] == stream[i],
{
}

/// A chain can be started only where permit, launch and pins are intact, all of them are about one
/// authorisation, step and command, nothing was started yet, and the input and the refresh are the
/// frozen ones; and even then only where mutations are switched on.
pub proof fn started_chain_names_one_command(
    permit: PrivilegedLaunchPermit,
    launch: PrivilegedDescriptorLaunchSpec,
    pinned: PinnedPrivilegedTools,
    command: PrivilegedCommandModel,
)
    ensures
        execution_gate(permit, launch, pinned, command) is None || execution_gate(
            permit,
            launch,
            pinned,
            command,
        ) == Some(PrivilegedDescriptorExecError::ProductionMutationDisabled) <==> {
            &&& permit.is_intact()
            &&& launch.is_intact()
            &&& pinned.is_intact()
            &&& permit.launch_id@ == launch.launch_id@
            &&& pinned.pin_id@ == launch.pin_id@
            &&& permit.authorization_id@ == launch.authorization_id@
            &&& pinned.authorization_id@ == launch.authorization_id@
            &&& permit.plan_step_id == launch.plan_step_id
            &&& pinned.plan_step_id == launch.plan_step_id
            &&& command.plan_step_id == launch.plan_step_id
            &&& permit.command_digest@ == launch.command_digest@
            &&& pinned.command_digest@ == launch.command_digest@
            &&& privileged_argv::command_fingerprint(command) == launch.command_digest@
            &&& !permit.mutation_enabled
            &&& !permit.process_spawned
            &&& !launch.process_spawned
            &&& command.stdin_payload is None ==> launch.stdin_len == 0
                && launch.stdin_sha256 is None
            &&& command.stdin_payload matches Some(input) ==> {
                &&& launch.stdin_len == vstd::utf8::encode_utf8(input).len()
                &&& reading::reads(launch.stdin_sha256, digest::text_fingerprint(input))
            }
            &&& command.kernel_refresh is Some <==> launch.kernel_refresh is Some
            &&& command.kernel_refresh matches Some(spec) ==> {
                &&& launch.kernel_refresh->Some_0@.program == spec.program
                &&& launch.kernel_refresh->Some_0@.argv == seq![
                    privileged_argv::privileged_program_name(spec.program),
                ] + spec.args
            }
        },
        execution_gate(permit, launch, pinned, command) is Some,
{
}

/// A stage is started exactly where its first argument is the name of its program and neither an
/// argument nor the environment holds a NUL.
pub proof fn started_stage_goes_by_its_name(
    program: PrivilegedProgram,
    argv: Seq<Seq<char>>,
    environment: Seq<Seq<char>>,
)
    ensures
        stage_gate(program, argv, environment) is None <==> {
            &&& argv.len() > 0
            &&& argv[0] == privileged_argv::privileged_program_name(program)
            &&& forall|i: int| 0 <= i < argv.len() ==> !(#[trigger] argv[i]).contains('\0')
            &&& forall|i: int|
                0 <= i < environment.len() ==> !(#[trigger] environment[i]).contains('\0')
        },
{
    if privileged_launch::any_nul(argv) {
        let i = choose|i: int| 0 <= i < argv.len() && privileged_launch::has_nul(#[trigger] argv[i]);
        assert(argv[i].contains('\0'));
    } else {
        assert forall|i: int| 0 <= i < argv.len() implies !(#[trigger] argv[i]).contains('\0') by {
            assert(!privileged_launch::has_nul(argv[i]));
        }
    }
    if privileged_launch::any_nul(environment) {
        let i = choose|i: int|
            0 <= i < environment.len() && privileged_launch::has_nul(#[trigger] environment[i]);
        assert(environment[i].contains('\0'));
    } else {
        assert forall|i: int| 0 <= i < environment.len() implies !(
        #[trigger] environment[i]).contains('\0') by {
            assert(!privileged_launch::has_nul(environment[i]));
        }
    }
}

/// A status is that of an exited child exactly where its low seven bits are zero, and the code is
/// what stands in its second byte.
pub proof fn exit_code_is_the_second_byte(status: i32)
    requires
        status >= 0,
    ensures
        exited(status) <==> status % 128 == 0,
        exit_code_of(status) == (status / 256) % 256,
{
    assert((status & 0x7f == 0) == (status % 128 == 0)) by (bit_vector)
        requires
            status >= 0,
    ;
    assert((status >> 8) & 0xff == (status / 256) % 256) by (bit_vector)
        requires
            status >= 0,
    ;
}

/// Each refusal to start a chain names something that is wrong.
pub proof fn refused_chain_names_its_reason(
    permit: PrivilegedLaunchPermit,
    launch: PrivilegedDescriptorLaunchSpec,
    pinned: PinnedPrivilegedTools,
    command: PrivilegedCommandModel,
)
    ensures
        execution_gate(permit, launch, pinned, command) matches Some(e) ==> match e {
            PrivilegedDescriptorExecError::PermitIntegrityMismatch => !permit.is_intact(),
            PrivilegedDescriptorExecError::LaunchIntegrityMismatch => !launch.is_intact(),
            PrivilegedDescriptorExecError::PinIntegrityMismatch => !pinned.is_intact(),
            PrivilegedDescriptorExecError::BindingMismatch => !is_sealed_launch(
                permit,
                launch,
                pinned,
                command,
            ),
            PrivilegedDescriptorExecError::StdinBindingMismatch => !is_frozen_input(command, launch),
            PrivilegedDescriptorExecError::KernelRefreshBindingMismatch => !is_frozen_refresh(
                command,
                privileged_launch::opt_stage(launch.kernel_refresh),
            ),
            PrivilegedDescriptorExecError::ProductionMutationDisabled => true,
            _ => false,
        },
{
}

} // verus!
