//! The exact launch of a pinned command by descriptor. Nothing here creates a process.

use vstd::prelude::*;
use vstd::string::*;
use vstd::utf8::*;

use crate::reading;
use crate::text;
use crate::privileged_pin;
use crate::privileged_argv;
use crate::json;
use crate::json_reading;
use crate::digest;
use crate::digest::fingerprint_text;
use crate::json::{null_literal, texts_literal, Parts};
use crate::privileged_argv::{PrivilegedCommandModel, PrivilegedCommandSpec, PrivilegedProgram};
use crate::privileged_pin::{pin_receipt_literal, PinnedPrivilegedTools, PinnedToolReceipt};
use crate::text::{chars_of, copy_texts, same_text};

verus! {

/// The executable search path of a launched process.
pub open spec fn fixed_path() -> Seq<char> {
    "/usr/sbin:/usr/bin:/sbin:/bin"@
}

/// The locale of a launched process.
pub open spec fn fixed_locale() -> Seq<char> {
    "C"@
}

/// The system call that starts a launched process.
pub open spec fn descriptor_exec_api() -> Seq<char> {
    "fexecve"@
}

#[derive(Clone, Copy, Debug, PartialEq, Eq, Structural)]
pub enum ElfClass {
    Elf32,
    Elf64,
}

#[derive(Clone, Copy, Debug, PartialEq, Eq, Structural)]
pub enum ElfDataEncoding {
    LittleEndian,
    BigEndian,
}

/// What the header of an executable says.
#[derive(Clone, Copy, Debug, PartialEq, Eq, Structural)]
pub struct ElfExecutionIdentity {
    pub class: ElfClass,
    pub data_encoding: ElfDataEncoding,
    pub version: u8,
}

/// One process of a launch.
#[derive(Debug, PartialEq, Eq)]
pub struct DescriptorLaunchStage {
    pub program: PrivilegedProgram,
    pub argv: Vec<String>,
    pub executable: PinnedToolReceipt,
    pub elf: ElfExecutionIdentity,
}

/// The content of a stage.
pub struct StageModel {
    pub program: PrivilegedProgram,
    pub argv: Seq<Seq<char>>,
    pub executable: PinnedToolReceipt,
    pub elf: ElfExecutionIdentity,
}

impl View for DescriptorLaunchStage {
    type V = StageModel;

    open spec fn view(&self) -> StageModel {
        StageModel {
            program: self.program,
            argv: text::texts(self.argv@),
            executable: self.executable,
            elf: self.elf,
        }
    }
}

impl Clone for DescriptorLaunchStage {
    fn clone(&self) -> (copy: Self)
        ensures
            copy@ == self@,
    {
        DescriptorLaunchStage {
            program: self.program,
            argv: copy_texts(&self.argv),
            executable: self.executable.clone(),
            elf: self.elf,
        }
    }
}

/// The content of an optional stage.
pub open spec fn opt_stage(stage: Option<DescriptorLaunchStage>) -> Option<StageModel> {
    match stage {
        Some(s) => Some(s@),
        None => None,
    }
}

/// The exact launch of a command: its processes, its input and its environment.
#[derive(Debug, PartialEq, Eq)]
pub struct PrivilegedDescriptorLaunchSpec {
    pub schema_version: u32,
    pub launch_id: String,
    pub pin_id: String,
    pub authorization_id: String,
    pub plan_step_id: u32,
    pub command_digest: String,
    pub primary: DescriptorLaunchStage,
    pub kernel_refresh: Option<DescriptorLaunchStage>,
    pub stdin_len: u64,
    pub stdin_sha256: Option<String>,
    pub fixed_path: String,
    pub fixed_locale: String,
    pub descriptor_exec_api: String,
    pub process_spawned: bool,
}

/// The name of a class in JSON.
pub open spec fn elf_class_name(class: ElfClass) -> Seq<char> {
    match class {
        ElfClass::Elf32 => "elf32"@,
        ElfClass::Elf64 => "elf64"@,
    }
}

/// Different variants have different names.
proof fn lemma_elf_class_name_told(a: ElfClass, b: ElfClass)
    requires
        elf_class_name(a) == elf_class_name(b),
    ensures
        a == b,
{
    reveal_strlit("elf32");
    reveal_strlit("elf64");
    assert("elf32"@.len() == 5);
    assert("elf64"@.len() == 5);
    assert(elf_class_name(a).len() == elf_class_name(b).len());
    assert("elf32"@[3] == '3');
    assert("elf64"@[3] == '6');
    assert(elf_class_name(a)[3] == elf_class_name(b)[3]);
}

/// The name of an encoding in JSON.
pub open spec fn elf_encoding_name(encoding: ElfDataEncoding) -> Seq<char> {
    match encoding {
        ElfDataEncoding::LittleEndian => "little_endian"@,
        ElfDataEncoding::BigEndian => "big_endian"@,
    }
}

/// Different variants have different names.
proof fn lemma_elf_encoding_name_told(a: ElfDataEncoding, b: ElfDataEncoding)
    requires
        elf_encoding_name(a) == elf_encoding_name(b),
    ensures
        a == b,
{
    reveal_strlit("little_endian");
    reveal_strlit("big_endian");
    assert("little_endian"@.len() == 13);
    assert("big_endian"@.len() == 10);
    assert(elf_encoding_name(a).len() == elf_encoding_name(b).len());
}

/// What an executable format is fingerprinted by, in order.
pub open spec fn elf_parts(elf: ElfExecutionIdentity) -> Seq<Seq<char>> {
    Seq::empty()
        .push(json::json_field("class"@, json::json_text(elf_class_name(elf.class))))
        .push(json::json_field("data_encoding"@, json::json_text(elf_encoding_name(elf.data_encoding))))
        .push(json::json_field("version"@, json::json_number(elf.version as int)))
}

/// The JSON form of a header.
pub open spec fn elf_json(elf: ElfExecutionIdentity) -> Seq<char> {
    json::json_object(elf_parts(elf))
}

/// What a stage is fingerprinted by, in order.
pub open spec fn stage_parts(stage: StageModel) -> Seq<Seq<char>> {
    Seq::empty()
        .push(json::json_field("program"@, json::json_text(privileged_argv::privileged_program_name(stage.program))))
        .push(json::json_field("argv"@, json::json_texts(stage.argv)))
        .push(json::json_field("executable"@, privileged_pin::pin_receipt_json(stage.executable)))
        .push(json::json_field("elf"@, elf_json(stage.elf)))
}

/// The JSON form of a stage.
pub open spec fn stage_json(stage: StageModel) -> Seq<char> {
    json::json_object(stage_parts(stage))
}

/// The JSON form of an optional stage.
pub open spec fn opt_stage_json(stage: Option<StageModel>) -> Seq<char> {
    match stage {
        Some(s) => stage_json(s),
        None => json::json_null(),
    }
}

/// What a launch is fingerprinted by, in order.
pub open spec fn launch_parts(launch: PrivilegedDescriptorLaunchSpec) -> Seq<Seq<char>> {
    Seq::empty()
        .push(json::json_number(launch.schema_version as int))
        .push(json::json_text(launch.pin_id@))
        .push(json::json_text(launch.authorization_id@))
        .push(json::json_number(launch.plan_step_id as int))
        .push(json::json_text(launch.command_digest@))
        .push(stage_json(launch.primary@))
        .push(opt_stage_json(opt_stage(launch.kernel_refresh)))
        .push(json::json_number(launch.stdin_len as int))
        .push(json::json_opt_text(text::opt_text(launch.stdin_sha256)))
        .push(json::json_text(launch.fixed_path@))
        .push(json::json_text(launch.fixed_locale@))
        .push(json::json_text(launch.descriptor_exec_api@))
        .push(json::json_bool(launch.process_spawned))
}

/// The JSON form that a launch is fingerprinted by.
pub open spec fn launch_json(launch: PrivilegedDescriptorLaunchSpec) -> Seq<char> {
    json::json_array(launch_parts(launch))
}

fn elf_literal(elf: ElfExecutionIdentity) -> (text: String)
    ensures
        text@ == elf_json(elf),
{
    let class = match elf.class {
        ElfClass::Elf32 => "elf32",
        ElfClass::Elf64 => "elf64",
    };
    let encoding = match elf.data_encoding {
        ElfDataEncoding::LittleEndian => "little_endian",
        ElfDataEncoding::BigEndian => "big_endian",
    };
    let mut parts = Parts::new();
    parts.field_text("class", class);
    parts.field_text("data_encoding", encoding);
    parts.field_number("version", elf.version as u64);
    parts.object()
}

fn stage_literal(stage: &DescriptorLaunchStage) -> (text: String)
    ensures
        text@ == stage_json(stage@),
{
    let mut parts = Parts::new();
    parts.field_text("program", stage.program.as_str());
    parts.field("argv", texts_literal(&stage.argv));
    parts.field("executable", pin_receipt_literal(&stage.executable));
    parts.field("elf", elf_literal(stage.elf));
    parts.object()
}

impl PrivilegedDescriptorLaunchSpec {
    /// The identifier is the fingerprint of the other fields.
    pub open spec fn is_intact(self) -> bool {
        self.launch_id@ == digest::text_fingerprint(launch_json(self))
    }

    pub fn integrity_matches(&self) -> (result: Result<bool, serde_json::Error>)
        ensures
            result is Ok,
            result->Ok_0 == self.is_intact(),
    {
        Ok(self.intact())
    }

    /// The identifier that the other fields ask for.
    pub fn expected_launch_id(&self) -> (result: Result<String, serde_json::Error>)
        ensures
            result is Ok,
            result->Ok_0@ == digest::text_fingerprint(launch_json(*self)),
    {
        Ok(self.fingerprint())
    }

    fn fingerprint(&self) -> (id: String)
        ensures
            id@ == digest::text_fingerprint(launch_json(*self)),
    {
        let refresh = match &self.kernel_refresh {
            Some(stage) => stage_literal(stage),
            None => null_literal(),
        };
        let mut parts = Parts::new();
        parts.push_number(self.schema_version as u64);
        parts.push_text(self.pin_id.as_str());
        parts.push_text(self.authorization_id.as_str());
        parts.push_number(self.plan_step_id as u64);
        parts.push_text(self.command_digest.as_str());
        parts.push(stage_literal(&self.primary));
        parts.push(refresh);
        parts.push_number(self.stdin_len);
        parts.push_opt_text(&self.stdin_sha256);
        parts.push_text(self.fixed_path.as_str());
        parts.push_text(self.fixed_locale.as_str());
        parts.push_text(self.descriptor_exec_api.as_str());
        parts.push_bool(self.process_spawned);
        fingerprint_text(parts.array().as_str())
    }

    pub(crate) fn intact(&self) -> (yes: bool)
        ensures
            yes == self.is_intact(),
    {
        same_text(self.launch_id.as_str(), self.fingerprint().as_str())
    }
}

#[derive(Clone, Debug, PartialEq, Eq)]
pub enum PrivilegedLaunchSpecError {
    PinIntegrityMismatch,
    PinCommandMismatch,
    PinnedDescriptorClosed,
    KernelRefreshPresenceMismatch,
    UnsupportedExecutableFormat,
    EmbeddedNul,
    Io(String),
}

/// The content of a refusal.
pub enum LaunchFault {
    PinIntegrityMismatch,
    PinCommandMismatch,
    PinnedDescriptorClosed,
    KernelRefreshPresenceMismatch,
    UnsupportedExecutableFormat,
    EmbeddedNul,
    Io(Seq<char>),
}

impl View for PrivilegedLaunchSpecError {
    type V = LaunchFault;

    open spec fn view(&self) -> LaunchFault {
        match *self {
            PrivilegedLaunchSpecError::PinIntegrityMismatch => LaunchFault::PinIntegrityMismatch,
            PrivilegedLaunchSpecError::PinCommandMismatch => LaunchFault::PinCommandMismatch,
            PrivilegedLaunchSpecError::PinnedDescriptorClosed => {
                LaunchFault::PinnedDescriptorClosed
            },
            PrivilegedLaunchSpecError::KernelRefreshPresenceMismatch => {
                LaunchFault::KernelRefreshPresenceMismatch
            },
            PrivilegedLaunchSpecError::UnsupportedExecutableFormat => {
                LaunchFault::UnsupportedExecutableFormat
            },
            PrivilegedLaunchSpecError::EmbeddedNul => LaunchFault::EmbeddedNul,
            PrivilegedLaunchSpecError::Io(s) => LaunchFault::Io(s@),
        }
    }
}

/// The identity that sixteen header bytes of an executable give it.
pub open spec fn elf_identity(header: Seq<u8>) -> Option<ElfExecutionIdentity> {
    if header.len() != 16 || header[0] != 0x7f || header[1] != 0x45 || header[2] != 0x4c
        || header[3] != 0x46 || header[6] != 1 || !(header[4] == 1 || header[4] == 2) || !(header[5]
        == 1 || header[5] == 2) {
        None
    } else {
        Some(
            ElfExecutionIdentity {
                class: if header[4] == 1 {
                    ElfClass::Elf32
                } else {
                    ElfClass::Elf64
                },
                data_encoding: if header[5] == 1 {
                    ElfDataEncoding::LittleEndian
                } else {
                    ElfDataEncoding::BigEndian
                },
                version: header[6],
            },
        )
    }
}

/// Reads the header of an executable. `header` holds what a read of its first sixteen bytes gave.
pub fn inspect_elf(header: &[u8]) -> (result: Result<
    ElfExecutionIdentity,
    PrivilegedLaunchSpecError,
>)
    ensures
        match result {
            Ok(elf) => elf_identity(header@) == Some(elf),
            Err(e) => elf_identity(header@) is None && e is UnsupportedExecutableFormat,
        },
{
    if header.len() != 16 || header[0] != 0x7f || header[1] != 0x45 || header[2] != 0x4c
        || header[3] != 0x46 || header[6] != 1 {
        return Err(PrivilegedLaunchSpecError::UnsupportedExecutableFormat);
    }
    let class = match header[4] {
        1 => ElfClass::Elf32,
        2 => ElfClass::Elf64,
        _ => return Err(PrivilegedLaunchSpecError::UnsupportedExecutableFormat),
    };
    let data_encoding = match header[5] {
        1 => ElfDataEncoding::LittleEndian,
        2 => ElfDataEncoding::BigEndian,
        _ => return Err(PrivilegedLaunchSpecError::UnsupportedExecutableFormat),
    };
    Ok(ElfExecutionIdentity { class, data_encoding, version: header[6] })
}

/// The text holds a NUL.
pub open spec fn has_nul(s: Seq<char>) -> bool {
    s.contains('\0')
}

/// Refuses a text that no process can be given.
pub fn validate_text(value: &str) -> (result: Result<(), PrivilegedLaunchSpecError>)
    ensures
        match result {
            Ok(_) => !has_nul(value@),
            Err(e) => has_nul(value@) && e is EmbeddedNul,
        },
{
    let chars = chars_of(value);
    let mut i: usize = 0;
    while i < chars.len()
        invariant
            i <= chars@.len(),
            chars@ == value@,
            forall|j: int| 0 <= j < i ==> value@[j] != '\0',
        decreases chars@.len() - i,
    {
        if chars[i] == '\0' {
            assert(value@[i as int] == '\0');
            return Err(PrivilegedLaunchSpecError::EmbeddedNul);
        }
        i += 1;
    }
    Ok(())
}

/// What a pinned descriptor gives: whether it is open, and the first bytes of its file.
#[derive(Debug, PartialEq, Eq)]
pub struct DescriptorProbe {
    pub open: bool,
    pub header: Result<Vec<u8>, String>,
}

/// Some argument holds a NUL.
pub open spec fn any_nul(args: Seq<Seq<char>>) -> bool {
    exists|i: int| 0 <= i < args.len() && has_nul(#[trigger] args[i])
}

/// What one stage is refused for, if anything.
pub open spec fn stage_refusal(
    program: PrivilegedProgram,
    args: Seq<Seq<char>>,
    receipt: PinnedToolReceipt,
    descriptor: DescriptorProbe,
) -> Option<LaunchFault> {
    if receipt.program != program || !descriptor.open {
        Some(LaunchFault::PinnedDescriptorClosed)
    } else if any_nul(args) {
        Some(LaunchFault::EmbeddedNul)
    } else {
        match descriptor.header {
            Err(reason) => Some(LaunchFault::Io(reason@)),
            Ok(header) => {
                if elf_identity(header@) is None {
                    Some(LaunchFault::UnsupportedExecutableFormat)
                } else {
                    None
                }
            },
        }
    }
}

/// The stage that runs a pinned program with exact arguments.
pub open spec fn stage_of(
    program: PrivilegedProgram,
    args: Seq<Seq<char>>,
    receipt: PinnedToolReceipt,
    descriptor: DescriptorProbe,
) -> StageModel {
    StageModel {
        program,
        argv: seq![privileged_argv::privileged_program_name(program)] + args,
        executable: receipt,
        elf: elf_identity(descriptor.header->Ok_0@)->Some_0,
    }
}

fn build_stage(
    program: PrivilegedProgram,
    args: &Vec<String>,
    receipt: &PinnedToolReceipt,
    descriptor: &DescriptorProbe,
) -> (result: Result<DescriptorLaunchStage, PrivilegedLaunchSpecError>)
    ensures
        match result {
            Ok(stage) => stage_refusal(program, text::texts(args@), *receipt, *descriptor) is None
                && stage@ == stage_of(program, text::texts(args@), *receipt, *descriptor),
            Err(e) => stage_refusal(program, text::texts(args@), *receipt, *descriptor) == Some(e@),
        },
{
    if receipt.program != program || !descriptor.open {
        return Err(PrivilegedLaunchSpecError::PinnedDescriptorClosed);
    }
    let mut argv: Vec<String> = Vec::new();
    argv.push(program.as_str().to_owned());
    assert(text::texts(argv@) =~= seq![privileged_argv::privileged_program_name(program)] + text::texts(args@).take(0));
    let mut i: usize = 0;
    while i < args.len()
        invariant
            i <= args@.len(),
            receipt.program == program,
            descriptor.open,
            text::texts(argv@) == seq![privileged_argv::privileged_program_name(program)] + text::texts(args@).take(i as int),
            forall|j: int| 0 <= j < i ==> !has_nul(#[trigger] text::texts(args@)[j]),
        decreases args@.len() - i,
    {
        match validate_text(args[i].as_str()) {
            Ok(_) => {},
            Err(e) => {
                assert(has_nul(text::texts(args@)[i as int]));
                return Err(e);
            },
        }
        let ghost before = text::texts(argv@);
        argv.push(args[i].clone());
        proof {
            assert(text::texts(argv@) =~= before.push(args@[i as int]@));
            assert(text::texts(args@).take(i + 1) =~= text::texts(args@).take(i as int).push(
                args@[i as int]@,
            ));
            assert(seq![privileged_argv::privileged_program_name(program)] + text::texts(args@).take(i + 1) =~= (seq![
                privileged_argv::privileged_program_name(program),
            ] + text::texts(args@).take(i as int)).push(args@[i as int]@));
        }
        i += 1;
    }
    assert(text::texts(args@).take(text::texts(args@).len() as int) =~= text::texts(args@));
    match &descriptor.header {
        Err(reason) => Err(PrivilegedLaunchSpecError::Io(reason.clone())),
        Ok(header) => match inspect_elf(header.as_slice()) {
            Err(e) => Err(e),
            Ok(elf) => Ok(
                DescriptorLaunchStage { program, argv, executable: receipt.clone(), elf },
            ),
        },
    }
}

/// What the kernel refresh of a launch is refused for, if anything.
pub open spec fn refresh_stage_refusal(
    pinned: PinnedPrivilegedTools,
    command: PrivilegedCommandModel,
    refresh: Option<DescriptorProbe>,
) -> Option<LaunchFault> {
    match (command.kernel_refresh, pinned.kernel_refresh, refresh) {
        (Some(spec), Some(receipt), Some(descriptor)) => stage_refusal(
            spec.program,
            spec.args,
            receipt,
            descriptor,
        ),
        (None, None, None) => None,
        _ => Some(LaunchFault::KernelRefreshPresenceMismatch),
    }
}

/// The refresh descriptor is there and open exactly where a refresh is pinned.
pub open spec fn is_refresh_open(
    pinned: PinnedPrivilegedTools,
    refresh: Option<DescriptorProbe>,
) -> bool {
    match pinned.kernel_refresh {
        Some(_) => refresh is Some && refresh->Some_0.open,
        None => refresh is None,
    }
}

/// What a launch is refused for, if anything.
pub open spec fn launch_refusal(
    pinned: PinnedPrivilegedTools,
    command: PrivilegedCommandModel,
    primary: DescriptorProbe,
    refresh: Option<DescriptorProbe>,
) -> Option<LaunchFault> {
    let on_primary = stage_refusal(command.program, command.args, pinned.primary, primary);
    let on_refresh = refresh_stage_refusal(pinned, command, refresh);
    if !pinned.is_intact() {
        Some(LaunchFault::PinIntegrityMismatch)
    } else if pinned.plan_step_id != command.plan_step_id || pinned.command_digest@
        != privileged_argv::command_fingerprint(command) {
        Some(LaunchFault::PinCommandMismatch)
    } else if !primary.open || !is_refresh_open(pinned, refresh) {
        Some(LaunchFault::PinnedDescriptorClosed)
    } else if on_primary is Some {
        on_primary
    } else if on_refresh is Some {
        on_refresh
    } else if command.stdin_payload is Some && has_nul(command.stdin_payload->Some_0) {
        Some(LaunchFault::EmbeddedNul)
    } else {
        None
    }
}

/// The number of bytes of an input.
pub open spec fn stdin_length(payload: Option<Seq<char>>) -> nat {
    match payload {
        Some(s) => encode_utf8(s).len(),
        None => 0,
    }
}

/// The fingerprint of an input.
pub open spec fn stdin_fingerprint(payload: Option<Seq<char>>) -> Option<Seq<char>> {
    match payload {
        Some(s) => Some(digest::text_fingerprint(s)),
        None => None,
    }
}

/// The launch of a pinned command: exactly its processes and its input, in a fixed environment,
/// and no process yet.
pub open spec fn launches(
    launch: PrivilegedDescriptorLaunchSpec,
    pinned: PinnedPrivilegedTools,
    command: PrivilegedCommandModel,
    primary: DescriptorProbe,
    refresh: Option<DescriptorProbe>,
) -> bool {
    &&& launch.schema_version == 1
    &&& launch.is_intact()
    &&& launch.pin_id@ == pinned.pin_id@
    &&& launch.authorization_id@ == pinned.authorization_id@
    &&& launch.plan_step_id == command.plan_step_id
    &&& launch.command_digest@ == privileged_argv::command_fingerprint(command)
    &&& launch.primary@ == stage_of(command.program, command.args, pinned.primary, primary)
    &&& opt_stage(launch.kernel_refresh) == match command.kernel_refresh {
        Some(spec) => Some(
            stage_of(
                spec.program,
                spec.args,
                pinned.kernel_refresh->Some_0,
                refresh->Some_0,
            ),
        ),
        None => None,
    }
    &&& launch.stdin_len == stdin_length(command.stdin_payload)
    &&& text::opt_text(launch.stdin_sha256) == stdin_fingerprint(command.stdin_payload)
    &&& launch.fixed_path@ == fixed_path()
    &&& launch.fixed_locale@ == fixed_locale()
    &&& launch.descriptor_exec_api@ == descriptor_exec_api()
    &&& !launch.process_spawned
}

/// Freezes the exact launch of a pinned command. `primary` and `refresh` tell of the pinned
/// descriptors.
pub fn build_privileged_descriptor_launch_spec(
    pinned: &PinnedPrivilegedTools,
    command: &PrivilegedCommandSpec,
    primary: &DescriptorProbe,
    refresh: &Option<DescriptorProbe>,
) -> (result: Result<PrivilegedDescriptorLaunchSpec, PrivilegedLaunchSpecError>)
    ensures
        match result {
            Ok(launch) => launch_refusal(*pinned, command@, *primary, *refresh) is None
                && launches(launch, *pinned, command@, *primary, *refresh),
            Err(e) => launch_refusal(*pinned, command@, *primary, *refresh) == Some(e@),
        },
{
    if !pinned.intact() {
        return Err(PrivilegedLaunchSpecError::PinIntegrityMismatch);
    }
    let command_digest = command.fingerprint();
    if pinned.plan_step_id != command.plan_step_id || !same_text(
        pinned.command_digest.as_str(),
        command_digest.as_str(),
    ) {
        return Err(PrivilegedLaunchSpecError::PinCommandMismatch);
    }
    let refresh_open = match (&pinned.kernel_refresh, refresh) {
        (Some(_), Some(descriptor)) => descriptor.open,
        (None, None) => true,
        _ => false,
    };
    if !primary.open || !refresh_open {
        return Err(PrivilegedLaunchSpecError::PinnedDescriptorClosed);
    }
    let primary_stage = match build_stage(
        command.program,
        &command.args,
        &pinned.primary,
        primary,
    ) {
        Ok(stage) => stage,
        Err(e) => return Err(e),
    };
    let refresh_stage = match (&command.kernel_refresh, &pinned.kernel_refresh, refresh) {
        (Some(spec), Some(receipt), Some(descriptor)) => match build_stage(
            spec.program,
            &spec.args,
            receipt,
            descriptor,
        ) {
            Ok(stage) => Some(stage),
            Err(e) => return Err(e),
        },
        (None, None, None) => None,
        _ => return Err(PrivilegedLaunchSpecError::KernelRefreshPresenceMismatch),
    };
    let mut stdin_len: u64 = 0;
    let mut stdin_sha256: Option<String> = None;
    match &command.stdin_payload {
        Some(payload) => {
            match validate_text(payload.as_str()) {
                Ok(_) => {},
                Err(e) => return Err(e),
            }
            stdin_len = payload.as_str().as_bytes().len() as u64;
            stdin_sha256 = Some(fingerprint_text(payload.as_str()));
        },
        None => {},
    }
    let mut launch = PrivilegedDescriptorLaunchSpec {
        schema_version: 1,
        launch_id: String::new(),
        pin_id: pinned.pin_id.clone(),
        authorization_id: pinned.authorization_id.clone(),
        plan_step_id: command.plan_step_id,
        command_digest,
        primary: primary_stage,
        kernel_refresh: refresh_stage,
        stdin_len,
        stdin_sha256,
        fixed_path: "/usr/sbin:/usr/bin:/sbin:/bin".to_owned(),
        fixed_locale: "C".to_owned(),
        descriptor_exec_api: "fexecve".to_owned(),
        process_spawned: false,
    };
    let launch_id = launch.fingerprint();
    launch.launch_id = launch_id;
    Ok(launch)
}

proof fn lemma_elf_value(elf: ElfExecutionIdentity)
    ensures
        json_reading::is_value(elf_json(elf)),
{
    broadcast use crate::json_reading::group_json_reading;

    assert(json_reading::are_values(elf_parts(elf)));
}

proof fn lemma_elf_told(a: ElfExecutionIdentity, b: ElfExecutionIdentity)
    requires
        elf_json(a) == elf_json(b),
    ensures
        a == b,
{
    broadcast use crate::json_reading::group_json_reading;

    let p = elf_parts(a);
    let q = elf_parts(b);
    assert(json_reading::are_values(p) && json_reading::are_values(q));
    assert(p[0] == q[0]);
    assert(p[1] == q[1]);
    assert(p[2] == q[2]);
    lemma_elf_class_name_told(a.class, b.class);
    lemma_elf_encoding_name_told(a.data_encoding, b.data_encoding);
}

/// The two hold the same.
pub open spec fn same_stage(a: StageModel, b: StageModel) -> bool {
    &&& a.program == b.program
    &&& a.argv == b.argv
    &&& privileged_pin::same_pin_receipt(a.executable, b.executable)
    &&& a.elf == b.elf
}

/// The two hold the same, or neither is there.
pub open spec fn same_opt_stage(a: Option<StageModel>, b: Option<StageModel>) -> bool {
    match (a, b) {
        (Some(x), Some(y)) => same_stage(x, y),
        (None, None) => true,
        _ => false,
    }
}

pub proof fn lemma_stage_value(stage: StageModel)
    ensures
        json_reading::is_value(stage_json(stage)),
{
    broadcast use crate::json_reading::group_json_reading;

    privileged_pin::lemma_pin_receipt_value(stage.executable);
    lemma_elf_value(stage.elf);
    assert(json_reading::are_values(stage_parts(stage)));
}

pub proof fn lemma_opt_stage_value(stage: Option<StageModel>)
    ensures
        json_reading::is_value(opt_stage_json(stage)),
{
    match stage {
        Some(s) => lemma_stage_value(s),
        None => json_reading::null_is_value(),
    }
}

proof fn lemma_stage_told(a: StageModel, b: StageModel)
    requires
        stage_json(a) == stage_json(b),
    ensures
        same_stage(a, b),
{
    broadcast use crate::json_reading::group_json_reading;

    privileged_pin::lemma_pin_receipt_value(a.executable);
    privileged_pin::lemma_pin_receipt_value(b.executable);
    lemma_elf_value(a.elf);
    lemma_elf_value(b.elf);
    let p = stage_parts(a);
    let q = stage_parts(b);
    assert(json_reading::are_values(p) && json_reading::are_values(q));
    assert(p[0] == q[0]);
    assert(p[1] == q[1]);
    assert(p[2] == q[2]);
    assert(p[3] == q[3]);
    privileged_argv::lemma_privileged_program_name_told(a.program, b.program);
    privileged_pin::lemma_pin_receipt_told(a.executable, b.executable);
    lemma_elf_told(a.elf, b.elf);
}

proof fn lemma_opt_stage_told(a: Option<StageModel>, b: Option<StageModel>)
    requires
        opt_stage_json(a) == opt_stage_json(b),
    ensures
        same_opt_stage(a, b),
{
    if a is Some {
        json_reading::object_is_not_null(stage_parts(a->Some_0));
    }
    if b is Some {
        json_reading::object_is_not_null(stage_parts(b->Some_0));
    }
    if a is Some && b is Some {
        lemma_stage_told(a->Some_0, b->Some_0);
    }
}

/// The two hold the same, apart from their identifiers.
pub open spec fn same_launch(a: PrivilegedDescriptorLaunchSpec, b: PrivilegedDescriptorLaunchSpec) -> bool {
    &&& a.schema_version == b.schema_version
    &&& a.pin_id@ == b.pin_id@
    &&& a.authorization_id@ == b.authorization_id@
    &&& a.plan_step_id == b.plan_step_id
    &&& a.command_digest@ == b.command_digest@
    &&& same_stage(a.primary@, b.primary@)
    &&& same_opt_stage(opt_stage(a.kernel_refresh), opt_stage(b.kernel_refresh))
    &&& a.stdin_len == b.stdin_len
    &&& text::opt_text(a.stdin_sha256) == text::opt_text(b.stdin_sha256)
    &&& a.fixed_path@ == b.fixed_path@
    &&& a.fixed_locale@ == b.fixed_locale@
    &&& a.descriptor_exec_api@ == b.descriptor_exec_api@
    &&& a.process_spawned == b.process_spawned
}

proof fn lemma_launch_told(a: PrivilegedDescriptorLaunchSpec, b: PrivilegedDescriptorLaunchSpec)
    requires
        launch_json(a) == launch_json(b),
    ensures
        same_launch(a, b),
{
    broadcast use crate::json_reading::group_json_reading;

    lemma_stage_value(a.primary@);
    lemma_stage_value(b.primary@);
    lemma_opt_stage_value(opt_stage(a.kernel_refresh));
    lemma_opt_stage_value(opt_stage(b.kernel_refresh));
    let p = launch_parts(a);
    let q = launch_parts(b);
    assert(json_reading::are_values(p) && json_reading::are_values(q));
    assert(p[0] == q[0]);
    assert(p[1] == q[1]);
    assert(p[2] == q[2]);
    assert(p[3] == q[3]);
    assert(p[4] == q[4]);
    assert(p[5] == q[5]);
    assert(p[6] == q[6]);
    assert(p[7] == q[7]);
    assert(p[8] == q[8]);
    assert(p[9] == q[9]);
    assert(p[10] == q[10]);
    assert(p[11] == q[11]);
    assert(p[12] == q[12]);
    lemma_stage_told(a.primary@, b.primary@);
    lemma_opt_stage_told(opt_stage(a.kernel_refresh), opt_stage(b.kernel_refresh));
}

/// A launch that was changed under its identifier is noticed, short of a SHA-256 collision.
pub proof fn changed_launch_is_detected(a: PrivilegedDescriptorLaunchSpec, b: PrivilegedDescriptorLaunchSpec)
    requires
        a.is_intact(),
        b.launch_id@ == a.launch_id@,
        !same_launch(a, b),
    ensures
        !b.is_intact() || digest::is_collision(launch_json(a), launch_json(b)),
{
    if b.is_intact() {
        digest::fingerprint_tells_its_text(launch_json(a), launch_json(b));
        if launch_json(a) == launch_json(b) {
            lemma_launch_told(a, b);
        }
    }
}

/// A header is that of an executable exactly where it is sixteen bytes that start with the magic
/// number, and class, encoding and version are known. The class is of 64 bits exactly where the
/// fifth byte is two, the encoding big-endian exactly where the sixth is.
pub proof fn executable_is_known_by_its_header(header: Seq<u8>)
    ensures
        elf_identity(header) is Some <==> {
            &&& header.len() == 16
            &&& header.take(4) == seq![0x7fu8, 0x45u8, 0x4cu8, 0x46u8]
            &&& 1 <= header[4] <= 2
            &&& 1 <= header[5] <= 2
            &&& header[6] == 1
        },
        elf_identity(header) matches Some(elf) ==> {
            &&& elf.class is Elf64 <==> header[4] == 2
            &&& elf.class is Elf32 <==> header[4] == 1
            &&& elf.data_encoding is BigEndian <==> header[5] == 2
            &&& elf.data_encoding is LittleEndian <==> header[5] == 1
            &&& elf.version == 1
        },
{
    if header.len() == 16 {
        assert(header.take(4)[0] == header[0]);
        assert(header.take(4)[1] == header[1]);
        assert(header.take(4)[2] == header[2]);
        assert(header.take(4)[3] == header[3]);
        if elf_identity(header) is Some {
            assert(header.take(4) =~= seq![0x7fu8, 0x45u8, 0x4cu8, 0x46u8]);
        }
    }
}

/// A stage can be launched exactly where the pinned tool is that of the program, its descriptor is
/// open on a known executable, and no argument holds a NUL. It runs the program under its own name
/// with just the arguments of the command.
pub proof fn stage_runs_the_pinned_program(
    program: PrivilegedProgram,
    args: Seq<Seq<char>>,
    receipt: PinnedToolReceipt,
    descriptor: DescriptorProbe,
)
    ensures
        stage_refusal(program, args, receipt, descriptor) is None <==> {
            &&& receipt.program == program
            &&& descriptor.open
            &&& forall|i: int, j: int|
                0 <= i < args.len() && 0 <= j < args[i].len() ==> #[trigger] args[i][j] != '\0'
            &&& descriptor.header matches Ok(header)
            &&& elf_identity(header@) is Some
        },
        ({
            let stage = stage_of(program, args, receipt, descriptor);
            &&& stage.program == program
            &&& stage.argv.len() == args.len() + 1
            &&& stage.argv[0] == privileged_argv::privileged_program_name(program)
            &&& forall|i: int| 0 <= i < args.len() ==> stage.argv[i + 1] == #[trigger] args[i]
            &&& stage.executable == receipt
            &&& stage_refusal(program, args, receipt, descriptor) is None ==> Some(stage.elf)
                == elf_identity(descriptor.header->Ok_0@)
        }),
{
    if any_nul(args) {
        let i = choose|i: int| 0 <= i < args.len() && has_nul(#[trigger] args[i]);
        let j = choose|j: int| 0 <= j < args[i].len() && args[i][j] == '\0';
        assert(args[i][j] == '\0');
    } else {
        assert forall|i: int, j: int|
            0 <= i < args.len() && 0 <= j < args[i].len() implies #[trigger] args[i][j] != '\0' by {
            assert(!has_nul(args[i]));
            assert(args[i].contains(args[i][j]));
        }
    }
}

/// A command is launched exactly where the pins are intact and made for this step and this command,
/// both stages can be launched, there is a refresh everywhere or nowhere, and the input holds no
/// NUL.
pub proof fn command_is_launched_as_it_was_pinned(
    pinned: PinnedPrivilegedTools,
    command: PrivilegedCommandModel,
    primary: DescriptorProbe,
    refresh: Option<DescriptorProbe>,
)
    ensures
        launch_refusal(pinned, command, primary, refresh) is None <==> {
            &&& pinned.is_intact()
            &&& pinned.plan_step_id == command.plan_step_id
            &&& pinned.command_digest@ == privileged_argv::command_fingerprint(command)
            &&& stage_refusal(command.program, command.args, pinned.primary, primary) is None
            &&& command.kernel_refresh is Some <==> pinned.kernel_refresh is Some
            &&& command.kernel_refresh is Some <==> refresh is Some
            &&& command.kernel_refresh is Some ==> stage_refusal(
                command.kernel_refresh->Some_0.program,
                command.kernel_refresh->Some_0.args,
                pinned.kernel_refresh->Some_0,
                refresh->Some_0,
            ) is None
            &&& command.stdin_payload is Some ==> !command.stdin_payload->Some_0.contains('\0')
        },
{
}

/// A launch repeats its pins and its command: their step, the two stages, the length and the
/// fingerprint of the input. Its environment is fixed, and no process runs yet.
pub proof fn launch_repeats_its_command(
    launch: PrivilegedDescriptorLaunchSpec,
    pinned: PinnedPrivilegedTools,
    command: PrivilegedCommandModel,
    primary: DescriptorProbe,
    refresh: Option<DescriptorProbe>,
)
    requires
        launches(launch, pinned, command, primary, refresh),
    ensures
        launch.schema_version == 1,
        launch.pin_id@ == pinned.pin_id@,
        launch.authorization_id@ == pinned.authorization_id@,
        launch.plan_step_id == command.plan_step_id,
        launch.command_digest@ == privileged_argv::command_fingerprint(command),
        launch.primary@.program == command.program,
        launch.primary@.argv == seq![privileged_argv::privileged_program_name(command.program)]
            + command.args,
        launch.primary@.executable == pinned.primary,
        launch.kernel_refresh is Some <==> command.kernel_refresh is Some,
        command.kernel_refresh matches Some(spec) ==> {
            &&& launch.kernel_refresh->Some_0@.program == spec.program
            &&& launch.kernel_refresh->Some_0@.argv == seq![
                privileged_argv::privileged_program_name(spec.program),
            ] + spec.args
            &&& launch.kernel_refresh->Some_0@.executable == pinned.kernel_refresh->Some_0
        },
        command.stdin_payload is None ==> launch.stdin_len == 0 && launch.stdin_sha256 is None,
        command.stdin_payload matches Some(input) ==> {
            &&& launch.stdin_len == encode_utf8(input).len()
            &&& reading::reads(launch.stdin_sha256, digest::text_fingerprint(input))
        },
        launch.fixed_path@ == "/usr/sbin:/usr/bin:/sbin:/bin"@,
        launch.fixed_locale@ == "C"@,
        launch.descriptor_exec_api@ == "fexecve"@,
        !launch.process_spawned,
{
}

/// Each refusal of a launch names something that is wrong.
pub proof fn refused_launch_names_its_reason(
    pinned: PinnedPrivilegedTools,
    command: PrivilegedCommandModel,
    primary: DescriptorProbe,
    refresh: Option<DescriptorProbe>,
)
    ensures
        launch_refusal(pinned, command, primary, refresh) matches Some(e) ==> match e {
            LaunchFault::PinIntegrityMismatch => !pinned.is_intact(),
            LaunchFault::PinCommandMismatch => pinned.plan_step_id != command.plan_step_id
                || pinned.command_digest@ != privileged_argv::command_fingerprint(command),
            LaunchFault::PinnedDescriptorClosed => {
                ||| !primary.open
                ||| pinned.primary.program != command.program
                ||| pinned.kernel_refresh is Some && (refresh is None || !refresh->Some_0.open)
                ||| pinned.kernel_refresh is None && refresh is Some
                ||| command.kernel_refresh is Some && pinned.kernel_refresh is Some
                    && pinned.kernel_refresh->Some_0.program
                    != command.kernel_refresh->Some_0.program
            },
            LaunchFault::KernelRefreshPresenceMismatch => command.kernel_refresh is Some
                != pinned.kernel_refresh is Some,
            LaunchFault::EmbeddedNul => {
                ||| any_nul(command.args)
                ||| command.kernel_refresh is Some && any_nul(command.kernel_refresh->Some_0.args)
                ||| command.stdin_payload is Some && command.stdin_payload->Some_0.contains('\0')
            },
            LaunchFault::UnsupportedExecutableFormat => {
                ||| primary.header matches Ok(h) && elf_identity(h@) is None
                ||| refresh is Some && refresh->Some_0.header is Ok && elf_identity(
                    refresh->Some_0.header->Ok_0@,
                ) is None
            },
            LaunchFault::Io(reason) => {
                ||| primary.header matches Err(s) && s@ == reason
                ||| refresh is Some && refresh->Some_0.header is Err
                    && refresh->Some_0.header->Err_0@ == reason
            },
            _ => false,
        },
{
}

} // verus!
