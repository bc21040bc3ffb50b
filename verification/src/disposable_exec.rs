//! Judgements around the execution of one disposable command.

use vstd::prelude::*;
use vstd::utf8::*;

use crate::reading;
use crate::text;
use crate::paths;
use crate::disposable_ownership;
use crate::disposable_argv;
use crate::disposable_argv::DisposableProgram;
use crate::disposable_ownership::{
    revalidate_disposable_loop_ownership, BackingFileProbe, DisposableOwnershipError,
    OwnershipFault,
};
use crate::disposable_permit::{DisposableExecutionPermit, DisposablePermitModel};
use crate::locked_session::{LockedExecutionSession, SessionModel};
use crate::model::{BindingIntegrity, JournalPhase};
use crate::paths::{absolute_path, file_name_is, same_path, trimmed, valid_loop_path};
use crate::text::{chars_of, digits_from, lossy_text, parse_decimal_u32, same_text, text_of_chars};

verus! {

/// Where the programs of the profile are installed.
#[derive(Clone, Debug, PartialEq, Eq)]
pub struct DisposableToolPaths {
    pvresize: String,
    lvextend: String,
    resize2fs: String,
    xfs_growfs: String,
}

impl DisposableToolPaths {
    /// The path of one program.
    pub closed spec fn at(&self, program: DisposableProgram) -> Seq<char> {
        match program {
            DisposableProgram::Pvresize => self.pvresize@,
            DisposableProgram::Lvextend => self.lvextend@,
            DisposableProgram::Resize2fs => self.resize2fs@,
            DisposableProgram::XfsGrowfs => self.xfs_growfs@,
        }
    }

    pub fn new(pvresize: String, lvextend: String, resize2fs: String, xfs_growfs: String) -> (paths:
        Self)
        ensures
            paths.at(DisposableProgram::Pvresize) == pvresize@,
            paths.at(DisposableProgram::Lvextend) == lvextend@,
            paths.at(DisposableProgram::Resize2fs) == resize2fs@,
            paths.at(DisposableProgram::XfsGrowfs) == xfs_growfs@,
    {
        DisposableToolPaths { pvresize, lvextend, resize2fs, xfs_growfs }
    }

    pub fn path_for(&self, program: DisposableProgram) -> (path: &str)
        ensures
            path@ == self.at(program),
    {
        match program {
            DisposableProgram::Pvresize => self.pvresize.as_str(),
            DisposableProgram::Lvextend => self.lvextend.as_str(),
            DisposableProgram::Resize2fs => self.resize2fs.as_str(),
            DisposableProgram::XfsGrowfs => self.xfs_growfs.as_str(),
        }
    }
}

/// What a successful command left behind.
#[derive(Clone, Debug, PartialEq, Eq)]
pub struct DisposableCommandOutcome {
    pub plan_step_id: u32,
    pub program: DisposableProgram,
    pub stdout: Vec<u8>,
    pub stderr: Vec<u8>,
}

#[derive(Clone, Debug, PartialEq, Eq)]
pub enum DisposableExecutionError {
    Ownership(DisposableOwnershipError),
    LoopDeviceNotBlock,
    LoopMajorMismatch,
    LoopBackingMismatch,
    DurableExecutionStateMismatch,
    UnsafeToolPath(DisposableProgram),
    Io(String),
    Spawn { step_id: u32, source: String },
    CommandFailed { step_id: u32, status: Option<i32>, stderr: String },
}

/// The content of a failure.
pub enum DisposableExecutionFault {
    Ownership(OwnershipFault),
    LoopDeviceNotBlock,
    LoopMajorMismatch,
    LoopBackingMismatch,
    DurableExecutionStateMismatch,
    UnsafeToolPath(DisposableProgram),
    Io(Seq<char>),
    Spawn { step_id: u32, source: Seq<char> },
    CommandFailed { step_id: u32, status: Option<i32>, stderr: Seq<char> },
}

impl View for DisposableExecutionError {
    type V = DisposableExecutionFault;

    open spec fn view(&self) -> DisposableExecutionFault {
        match *self {
            DisposableExecutionError::Ownership(e) => DisposableExecutionFault::Ownership(e@),
            DisposableExecutionError::LoopDeviceNotBlock => {
                DisposableExecutionFault::LoopDeviceNotBlock
            },
            DisposableExecutionError::LoopMajorMismatch => {
                DisposableExecutionFault::LoopMajorMismatch
            },
            DisposableExecutionError::LoopBackingMismatch => {
                DisposableExecutionFault::LoopBackingMismatch
            },
            DisposableExecutionError::DurableExecutionStateMismatch => {
                DisposableExecutionFault::DurableExecutionStateMismatch
            },
            DisposableExecutionError::UnsafeToolPath(p) => {
                DisposableExecutionFault::UnsafeToolPath(p)
            },
            DisposableExecutionError::Io(s) => DisposableExecutionFault::Io(s@),
            DisposableExecutionError::Spawn { step_id, source } => {
                DisposableExecutionFault::Spawn { step_id, source: source@ }
            },
            DisposableExecutionError::CommandFailed { step_id, status, stderr } => {
                DisposableExecutionFault::CommandFailed { step_id, status, stderr: stderr@ }
            },
        }
    }
}

/// The kernel name of a whole loop device.
pub fn loop_device_name(path: &str) -> (name: Option<String>)
    ensures
        match name {
            Some(n) => paths::is_loop_path(path@) && n@ == path@.subrange(5, path@.len() as int),
            None => !paths::is_loop_path(path@),
        },
{
    if !valid_loop_path(path) {
        return None;
    }
    proof {
        reveal_strlit("/dev/loop");
    }
    let chars = chars_of(path);
    Some(text_of_chars(&chars, 5, chars.len()))
}

/// The durable journal of a session is in the middle of the execution that a permit was made for.
pub open spec fn is_executing(permit: DisposablePermitModel, session: SessionModel) -> bool {
    &&& session.durable_current()
    &&& session.journal.execution is Some
    &&& session.journal.phase == JournalPhase::Executing
    &&& session.journal.mutation_may_have_started
    &&& session.journal.execution->Some_0.execution_id@ == permit.execution_id
    &&& session.journal.execution->Some_0.integrity == BindingIntegrity::Matches
}

/// Whether the durable journal admits the permit.
pub fn validate_durable_execution_state(
    permit: &DisposableExecutionPermit,
    session: &LockedExecutionSession,
) -> (result: Result<(), DisposableExecutionError>)
    ensures
        match result {
            Ok(_) => is_executing(permit@, session@),
            Err(e) => !is_executing(permit@, session@) && e is DurableExecutionStateMismatch,
        },
{
    match session.require_current_durable_journal() {
        Ok(_) => {},
        Err(_) => return Err(DisposableExecutionError::DurableExecutionStateMismatch),
    }
    let journal = session.journal();
    match &journal.execution {
        None => Err(DisposableExecutionError::DurableExecutionStateMismatch),
        Some(binding) => {
            if !matches!(journal.phase, JournalPhase::Executing)
                || !journal.mutation_may_have_started || !same_text(
                binding.execution_id.as_str(),
                permit.execution_id(),
            ) || !matches!(binding.integrity, BindingIntegrity::Matches) {
                Err(DisposableExecutionError::DurableExecutionStateMismatch)
            } else {
                Ok(())
            }
        },
    }
}

/// A number of 32 bits in decimal, with an optional plus sign.
pub open spec fn is_u32_text(s: Seq<char>) -> bool {
    let digits = if s.len() > 0 && s[0] == '+' {
        s.subrange(1, s.len() as int)
    } else {
        s
    };
    &&& digits.len() > 0
    &&& text::all_digits(digits)
    &&& text::decimal_value(digits) <= u32::MAX
}

/// A device number whose major part is that of loop devices.
pub open spec fn is_loop_number(s: Seq<char>) -> bool {
    let number = paths::trimmed_text(s);
    match number.index_of_first(':') {
        None => false,
        Some(i) => number.take(i) == seq!['7'] && is_u32_text(
            number.subrange(i + 1, number.len() as int),
        ),
    }
}

/// Whether a device number, as `major:minor`, is that of a loop device.
pub fn loop_number(number: &str) -> (yes: bool)
    ensures
        yes == is_loop_number(number@),
{
    let line = trimmed(number);
    let chars = chars_of(line.as_str());
    let mut i: usize = 0;
    while i < chars.len() && chars[i] != ':'
        invariant
            i <= chars@.len(),
            forall|j: int| 0 <= j < i ==> chars@[j] != ':',
        decreases chars@.len() - i,
    {
        i += 1;
    }
    proof {
        line@.index_of_first_ensures(':');
    }
    if i == chars.len() {
        return false;
    }
    assert(line@[i as int] == ':');
    assert(line@.index_of_first(':') == Some(i as int));
    let major = i == 1 && chars[0] == '7';
    proof {
        if major {
            assert(line@.take(1) =~= seq!['7']);
        } else if i == 1 {
            assert(line@.take(1)[0] != seq!['7'][0]);
        } else {
            assert(line@.take(i as int).len() != seq!['7'].len());
        }
    }
    if !major {
        return false;
    }
    let ghost minor = line@.subrange(2, line@.len() as int);
    let from: usize = if chars.len() > 2 && chars[2] == '+' {
        3
    } else {
        2
    };
    proof {
        if from == 3 {
            assert(minor.subrange(1, minor.len() as int) =~= line@.subrange(
                3,
                line@.len() as int,
            ));
        }
    }
    if chars.len() == from || !digits_from(&chars, from) {
        return false;
    }
    parse_decimal_u32(&chars, from).is_some()
}

/// What the system says of a loop device. Where it says nothing, the reason stands in its place.
#[derive(Debug, PartialEq, Eq)]
pub struct LiveLoopProbe {
    pub block_device: Result<bool, String>,
    pub device_number: Result<String, String>,
    pub backing_file: Result<String, String>,
    pub canonical_backing_file: Result<String, String>,
    pub canonical_owned_file: Result<String, String>,
}

/// What a live loop device is refused for, if anything.
pub open spec fn live_loop_refusal(
    permit: DisposablePermitModel,
    backing: BackingFileProbe,
    live: LiveLoopProbe,
) -> Option<DisposableExecutionFault> {
    let owned = disposable_ownership::ownership_refusal(permit.ownership, backing);
    if owned is Some {
        Some(DisposableExecutionFault::Ownership(owned->Some_0))
    } else if !paths::is_loop_path(permit.loop_device) {
        Some(DisposableExecutionFault::LoopDeviceNotBlock)
    } else if live.block_device is Err {
        Some(DisposableExecutionFault::Io(live.block_device->Err_0@))
    } else if !live.block_device->Ok_0 {
        Some(DisposableExecutionFault::LoopDeviceNotBlock)
    } else if live.device_number is Err {
        Some(DisposableExecutionFault::Io(live.device_number->Err_0@))
    } else if !is_loop_number(live.device_number->Ok_0@) {
        Some(DisposableExecutionFault::LoopMajorMismatch)
    } else if live.backing_file is Err {
        Some(DisposableExecutionFault::Io(live.backing_file->Err_0@))
    } else if !paths::is_absolute_path(paths::trimmed_text(live.backing_file->Ok_0@)) {
        Some(DisposableExecutionFault::LoopBackingMismatch)
    } else if live.canonical_backing_file is Err {
        Some(DisposableExecutionFault::Io(live.canonical_backing_file->Err_0@))
    } else if live.canonical_owned_file is Err {
        Some(DisposableExecutionFault::Io(live.canonical_owned_file->Err_0@))
    } else if !paths::paths_agree(
        live.canonical_backing_file->Ok_0@,
        live.canonical_owned_file->Ok_0@,
    ) {
        Some(DisposableExecutionFault::LoopBackingMismatch)
    } else {
        None
    }
}

/// Whether the live loop device is still the owned one.
pub fn validate_live_loop(
    permit: &DisposableExecutionPermit,
    backing: &BackingFileProbe,
    live: &LiveLoopProbe,
) -> (result: Result<(), DisposableExecutionError>)
    ensures
        match result {
            Ok(_) => live_loop_refusal(permit@, *backing, *live) is None,
            Err(e) => live_loop_refusal(permit@, *backing, *live) == Some(e@),
        },
{
    match revalidate_disposable_loop_ownership(permit.ownership(), backing) {
        Ok(_) => {},
        Err(e) => return Err(DisposableExecutionError::Ownership(e)),
    }
    if !valid_loop_path(permit.loop_device()) {
        return Err(DisposableExecutionError::LoopDeviceNotBlock);
    }
    match &live.block_device {
        Err(reason) => return Err(DisposableExecutionError::Io(reason.clone())),
        Ok(block) => {
            if !*block {
                return Err(DisposableExecutionError::LoopDeviceNotBlock);
            }
        },
    }
    match &live.device_number {
        Err(reason) => return Err(DisposableExecutionError::Io(reason.clone())),
        Ok(number) => {
            if !loop_number(number.as_str()) {
                return Err(DisposableExecutionError::LoopMajorMismatch);
            }
        },
    }
    match &live.backing_file {
        Err(reason) => return Err(DisposableExecutionError::Io(reason.clone())),
        Ok(file) => {
            if !absolute_path(trimmed(file.as_str()).as_str()) {
                return Err(DisposableExecutionError::LoopBackingMismatch);
            }
        },
    }
    let canonical = match &live.canonical_backing_file {
        Err(reason) => return Err(DisposableExecutionError::Io(reason.clone())),
        Ok(canonical) => canonical,
    };
    let expected = match &live.canonical_owned_file {
        Err(reason) => return Err(DisposableExecutionError::Io(reason.clone())),
        Ok(expected) => expected,
    };
    if !same_path(canonical.as_str(), expected.as_str()) {
        return Err(DisposableExecutionError::LoopBackingMismatch);
    }
    Ok(())
}

/// What the file system says of a directory, links not followed.
#[derive(Clone, Copy, Debug, PartialEq, Eq, Structural)]
pub struct DirectoryStatus {
    pub symlink: bool,
    pub directory: bool,
    pub owner: u32,
    pub mode: u32,
}

/// A directory of the superuser that nobody else can write to.
pub open spec fn is_root_owned_directory(status: Option<DirectoryStatus>) -> bool {
    match status {
        None => false,
        Some(d) => !d.symlink && d.directory && d.owner == 0 && d.mode & 0o022 == 0,
    }
}

/// Whether every directory of a chain belongs to the superuser and is closed to others.
pub fn root_owned_non_writable_directory_chain(chain: &Vec<Option<DirectoryStatus>>) -> (yes: bool)
    ensures
        yes == forall|i: int| 0 <= i < chain@.len() ==> is_root_owned_directory(#[trigger] chain@[i]),
{
    let mut i: usize = 0;
    while i < chain.len()
        invariant
            i <= chain@.len(),
            forall|j: int| 0 <= j < i ==> is_root_owned_directory(#[trigger] chain@[j]),
        decreases chain@.len() - i,
    {
        match &chain[i] {
            None => {
                assert(!is_root_owned_directory(chain@[i as int]));
                return false;
            },
            Some(d) => {
                if d.symlink || !d.directory || d.owner != 0 || d.mode & 0o022 != 0 {
                    assert(!is_root_owned_directory(chain@[i as int]));
                    return false;
                }
            },
        }
        i += 1;
    }
    true
}

/// What the file system says of a path, links not followed.
#[derive(Clone, Copy, Debug, PartialEq, Eq, Structural)]
pub struct LinkStatus {
    pub symlink: bool,
    pub owner: u32,
}

/// What the file system says of a file, links followed.
#[derive(Clone, Copy, Debug, PartialEq, Eq, Structural)]
pub struct ToolStatus {
    pub regular: bool,
    pub mode: u32,
}

/// Where a link to a tool leads.
#[derive(Debug, PartialEq, Eq)]
pub struct LinkedTool {
    pub canonical: Result<LinkStatus, String>,
    /// The directories that lead to the link, from the root down, those that cannot be read absent.
    pub directories: Vec<Option<DirectoryStatus>>,
    /// The directories that lead to the canonical file; absent where it has no parent.
    pub canonical_directories: Option<Vec<Option<DirectoryStatus>>>,
}

/// What the file system says of an installed tool. Where it says nothing, the reason stands in its
/// place. `linked` is looked at only for a link.
#[derive(Debug, PartialEq, Eq)]
pub struct ToolFileProbe {
    pub link: Result<LinkStatus, String>,
    pub status: Result<ToolStatus, String>,
    pub linked: Result<LinkedTool, String>,
}

/// An executable regular file that only its owner can write to.
pub open spec fn is_safe_executable(status: ToolStatus) -> bool {
    status.regular && status.mode & 0o111 != 0 && status.mode & 0o022 == 0
}

/// What is said of a tool: whether it is safe, or why that could not be found out.
pub open spec fn tool_verdict(path: Seq<char>, name: Seq<char>, probe: ToolFileProbe) -> Result<
    bool,
    Seq<char>,
> {
    if !paths::is_absolute_path(path) || paths::path_file_name(path) != Some(name) {
        Ok(false)
    } else if probe.link is Err {
        Err(probe.link->Err_0@)
    } else if probe.status is Err {
        Err(probe.status->Err_0@)
    } else if !is_safe_executable(probe.status->Ok_0) {
        Ok(false)
    } else if !probe.link->Ok_0.symlink {
        Ok(true)
    } else {
        match probe.linked {
            Err(reason) => Err(reason@),
            Ok(linked) => {
                if linked.canonical_directories is None {
                    Ok(false)
                } else if linked.canonical is Err {
                    Err(linked.canonical->Err_0@)
                } else {
                    Ok(
                        probe.link->Ok_0.owner == 0 && !linked.canonical->Ok_0.symlink
                            && linked.canonical->Ok_0.owner == 0 && (forall|i: int|
                            0 <= i < linked.directories@.len() ==> is_root_owned_directory(
                                #[trigger] linked.directories@[i],
                            )) && (forall|i: int|
                            0 <= i < linked.canonical_directories->Some_0@.len()
                                ==> is_root_owned_directory(
                                #[trigger] linked.canonical_directories->Some_0@[i],
                            )),
                    )
                }
            },
        }
    }
}

/// Whether a path is exactly a safely installed tool.
pub fn exact_safe_system_tool_path(path: &str, expected_name: &str, probe: &ToolFileProbe) -> (result:
    Result<bool, String>)
    ensures
        match result {
            Ok(safe) => tool_verdict(path@, expected_name@, *probe) == Result::<
                bool,
                Seq<char>,
            >::Ok(safe),
            Err(reason) => tool_verdict(path@, expected_name@, *probe) == Result::<
                bool,
                Seq<char>,
            >::Err(reason@),
        },
{
    if !absolute_path(path) || !file_name_is(path, expected_name) {
        return Ok(false);
    }
    let link = match &probe.link {
        Err(reason) => return Err(reason.clone()),
        Ok(link) => link,
    };
    match &probe.status {
        Err(reason) => return Err(reason.clone()),
        Ok(status) => {
            if !status.regular || status.mode & 0o111 == 0 || status.mode & 0o022 != 0 {
                return Ok(false);
            }
        },
    }
    if !link.symlink {
        return Ok(true);
    }
    match &probe.linked {
        Err(reason) => Err(reason.clone()),
        Ok(linked) => match &linked.canonical_directories {
            None => Ok(false),
            Some(directories) => match &linked.canonical {
                Err(reason) => Err(reason.clone()),
                Ok(canonical) => Ok(
                    link.owner == 0 && !canonical.symlink && canonical.owner == 0
                        && root_owned_non_writable_directory_chain(&linked.directories)
                        && root_owned_non_writable_directory_chain(directories),
                ),
            },
        },
    }
}

/// What a tool path is refused for, if anything.
pub open spec fn tool_refusal(
    program: DisposableProgram,
    paths: DisposableToolPaths,
    probe: ToolFileProbe,
) -> Option<DisposableExecutionFault> {
    match tool_verdict(paths.at(program), disposable_argv::disposable_program_name(program), probe) {
        Err(reason) => Some(DisposableExecutionFault::Io(reason)),
        Ok(false) => Some(DisposableExecutionFault::UnsafeToolPath(program)),
        Ok(true) => None,
    }
}

/// The path of a program, if it is safely installed there.
pub fn validate_tool_path(
    program: DisposableProgram,
    paths: &DisposableToolPaths,
    probe: &ToolFileProbe,
) -> (result: Result<String, DisposableExecutionError>)
    ensures
        match result {
            Ok(path) => tool_refusal(program, *paths, *probe) is None && path@ == paths.at(program),
            Err(e) => tool_refusal(program, *paths, *probe) == Some(e@),
        },
{
    let path = paths.path_for(program);
    match exact_safe_system_tool_path(path, program.as_str(), probe) {
        Err(reason) => Err(DisposableExecutionError::Io(reason)),
        Ok(safe) => {
            if safe {
                Ok(path.to_owned())
            } else {
                Err(DisposableExecutionError::UnsafeToolPath(program))
            }
        },
    }
}

/// What the start of a command is refused for, if anything: the durable journal first, then the
/// loop device, then the tool.
pub open spec fn command_refusal(
    permit: DisposablePermitModel,
    session: SessionModel,
    backing: BackingFileProbe,
    live: LiveLoopProbe,
    paths: DisposableToolPaths,
    tool: ToolFileProbe,
) -> Option<DisposableExecutionFault> {
    let loop_fault = live_loop_refusal(permit, backing, live);
    if !is_executing(permit, session) {
        Some(DisposableExecutionFault::DurableExecutionStateMismatch)
    } else if loop_fault is Some {
        loop_fault
    } else {
        tool_refusal(permit.command.program, paths, tool)
    }
}

/// Admits one command right before it is started. Yields the path of its program.
pub fn admit_disposable_command(
    permit: &DisposableExecutionPermit,
    session: &LockedExecutionSession,
    backing: &BackingFileProbe,
    live: &LiveLoopProbe,
    paths: &DisposableToolPaths,
    tool: &ToolFileProbe,
) -> (result: Result<String, DisposableExecutionError>)
    ensures
        match result {
            Ok(path) => command_refusal(permit@, session@, *backing, *live, *paths, *tool) is None
                && path@ == paths.at(permit@.command.program),
            Err(e) => command_refusal(permit@, session@, *backing, *live, *paths, *tool) == Some(
                e@,
            ),
        },
{
    match validate_durable_execution_state(permit, session) {
        Ok(_) => {},
        Err(e) => return Err(e),
    }
    match validate_live_loop(permit, backing, live) {
        Ok(_) => {},
        Err(e) => return Err(e),
    }
    validate_tool_path(permit.command().program(), paths, tool)
}

/// What a finished process reported.
#[derive(Clone, Debug, PartialEq, Eq)]
pub struct ProcessReport {
    pub success: bool,
    pub code: Option<i32>,
    pub stdout: Vec<u8>,
    pub stderr: Vec<u8>,
}

/// Judges what a finished command reported. The permit is consumed.
pub fn conclude_disposable_command(permit: DisposableExecutionPermit, report: ProcessReport) -> (result:
    Result<DisposableCommandOutcome, DisposableExecutionError>)
    ensures
        match result {
            Ok(outcome) => {
                &&& report.success
                &&& outcome.plan_step_id == permit@.command.plan_step_id
                &&& outcome.program == permit@.command.program
                &&& outcome.stdout == report.stdout
                &&& outcome.stderr == report.stderr
            },
            Err(e) => !report.success && e@ == (DisposableExecutionFault::CommandFailed {
                step_id: permit@.command.plan_step_id,
                status: report.code,
                stderr: text::lossy_text_of(summary_bytes(report.stderr@)),
            }),
        },
{
    let step_id: u32 = permit.command().plan_step_id();
    let program = permit.command().program();
    if !report.success {
        return Err(
            DisposableExecutionError::CommandFailed {
                step_id,
                status: report.code,
                stderr: stderr_summary(report.stderr.as_slice()),
            },
        );
    }
    Ok(
        DisposableCommandOutcome {
            plan_step_id: step_id,
            program,
            stdout: report.stdout,
            stderr: report.stderr,
        },
    )
}

/// The leading bytes of an error stream that a summary shows.
pub open spec fn summary_bytes(stderr: Seq<u8>) -> Seq<u8> {
    if stderr.len() <= 4096 {
        stderr
    } else {
        stderr.take(4096)
    }
}

/// A bounded summary of an error stream.
pub fn stderr_summary(stderr: &[u8]) -> (summary: String)
    ensures
        summary@ == text::lossy_text_of(summary_bytes(stderr@)),
        valid_utf8(summary_bytes(stderr@)) ==> summary@ == decode_utf8(summary_bytes(stderr@)),
{
    let mut shown: Vec<u8> = Vec::new();
    let mut i: usize = 0;
    while i < stderr.len() && i < 4096
        invariant
            i <= stderr@.len(),
            i <= 4096,
            shown@ == stderr@.take(i as int),
        decreases stderr@.len() - i,
    {
        shown.push(stderr[i]);
        assert(stderr@.take(i + 1) =~= stderr@.take(i as int).push(stderr@[i as int]));
        i += 1;
    }
    assert(stderr@.take(stderr@.len() as int) =~= stderr@);
    assert(shown@ =~= summary_bytes(stderr@));
    lossy_text(shown.as_slice())
}

/// A command may run exactly where the durable journal is in the middle of the very execution that
/// the permit was made for, the loop device is the owned one, and the tool is safe.
pub proof fn command_runs_in_its_own_execution(
    permit: DisposablePermitModel,
    session: SessionModel,
    backing: BackingFileProbe,
    live: LiveLoopProbe,
    paths: DisposableToolPaths,
    tool: ToolFileProbe,
)
    ensures
        command_refusal(permit, session, backing, live, paths, tool) is None <==> {
            &&& session.durable_current()
            &&& session.journal.phase is Executing
            &&& session.journal.mutation_may_have_started
            &&& session.journal.execution matches Some(execution)
            &&& execution.execution_id@ == permit.execution_id
            &&& execution.integrity is Matches
            &&& live_loop_refusal(permit, backing, live) is None
            &&& tool_verdict(
                paths.at(permit.command.program),
                disposable_argv::disposable_program_name(permit.command.program),
                tool,
            ) == Result::<bool, Seq<char>>::Ok(true)
        },
{
}

/// A loop device is the owned one exactly where its backing file is owned, its path is that of a
/// whole loop device, it is a block device with the number of loop devices, and what backs it leads
/// to the owned file.
pub proof fn live_loop_leads_to_the_owned_file(
    permit: DisposablePermitModel,
    backing: BackingFileProbe,
    live: LiveLoopProbe,
)
    ensures
        live_loop_refusal(permit, backing, live) is None <==> {
            &&& disposable_ownership::ownership_refusal(permit.ownership, backing) is None
            &&& paths::is_loop_path(permit.loop_device)
            &&& live.block_device == Result::<bool, String>::Ok(true)
            &&& live.device_number is Ok
            &&& is_loop_number(live.device_number->Ok_0@)
            &&& live.backing_file is Ok
            &&& paths::is_absolute_path(paths::trimmed_text(live.backing_file->Ok_0@))
            &&& live.canonical_backing_file is Ok
            &&& live.canonical_owned_file is Ok
            &&& paths::paths_agree(
                live.canonical_backing_file->Ok_0@,
                live.canonical_owned_file->Ok_0@,
            )
        },
{
}

/// The number of a loop device is, between white space, a seven, a colon, and a number of 32 bits.
pub proof fn loop_devices_have_major_number_seven(s: Seq<char>)
    ensures
        is_loop_number(s) <==> exists|minor: Seq<char>|
            {
                &&& #[trigger] reading::is_digit_row(minor)
                &&& reading::number_in(minor) <= 0xffff_ffff
                &&& {
                    ||| paths::trimmed_text(s) == seq!['7', ':'] + minor
                    ||| paths::trimmed_text(s) == seq!['7', ':', '+'] + minor
                }
            },
{
    let number = paths::trimmed_text(s);
    number.index_of_first_ensures(':');
    if is_loop_number(s) {
        let i = number.index_of_first(':')->Some_0;
        let rest = number.subrange(i + 1, number.len() as int);
        assert(number.take(i).len() == 1);
        assert(number[0] == number.take(i)[0]);
        assert(number =~= seq!['7', ':'] + rest);
        if rest.len() > 0 && rest[0] == '+' {
            let minor = rest.subrange(1, rest.len() as int);
            reading::digits_are_read_as_their_number(minor);
            assert(number =~= seq!['7', ':', '+'] + minor);
            assert(reading::is_digit_row(minor));
        } else {
            reading::digits_are_read_as_their_number(rest);
            assert(reading::is_digit_row(rest));
        }
    }
    if exists|minor: Seq<char>|
        {
            &&& #[trigger] reading::is_digit_row(minor)
            &&& reading::number_in(minor) <= 0xffff_ffff
            &&& {
                ||| paths::trimmed_text(s) == seq!['7', ':'] + minor
                ||| paths::trimmed_text(s) == seq!['7', ':', '+'] + minor
            }
        } {
        let minor = choose|minor: Seq<char>|
            {
                &&& #[trigger] reading::is_digit_row(minor)
                &&& reading::number_in(minor) <= 0xffff_ffff
                &&& {
                    ||| paths::trimmed_text(s) == seq!['7', ':'] + minor
                    ||| paths::trimmed_text(s) == seq!['7', ':', '+'] + minor
                }
            };
        reading::digits_are_read_as_their_number(minor);
        assert('0' <= minor[0] <= '9');
        assert(number[0] == '7' && number[1] == ':');
        assert(number.contains(number[1]));
        let i = number.index_of_first(':')->Some_0;
        assert(i == 1);
        assert(number.take(1) =~= seq!['7']);
        let rest = number.subrange(2, number.len() as int);
        if number == seq!['7', ':'] + minor {
            assert(rest =~= minor);
        } else {
            assert(rest =~= seq!['+'] + minor);
            assert(rest.subrange(1, rest.len() as int) =~= minor);
        }
    }
}

/// A tool is safe exactly where its path is absolute and ends in its name, it is a regular file that
/// someone may run and only its owner may write to, and, where it is reached by a link, link and
/// target belong to the superuser and so does every directory on both ways, which nobody else can
/// write to.
pub proof fn safe_tool_is_out_of_reach(path: Seq<char>, name: Seq<char>, probe: ToolFileProbe)
    ensures
        tool_verdict(path, name, probe) == Result::<bool, Seq<char>>::Ok(true) <==> {
            &&& path.len() > 0 && path[0] == '/'
            &&& paths::path_file_name(path) == Some(name)
            &&& probe.link matches Ok(link)
            &&& probe.status matches Ok(status)
            &&& status.regular
            &&& status.mode & 0o111 != 0
            &&& status.mode & 0o022 == 0
            &&& link.symlink ==> {
                &&& probe.linked matches Ok(linked)
                &&& link.owner == 0
                &&& linked.canonical matches Ok(canonical)
                &&& !canonical.symlink
                &&& canonical.owner == 0
                &&& linked.canonical_directories matches Some(ways)
                &&& forall|i: int|
                    0 <= i < linked.directories@.len() ==> {
                        &&& (#[trigger] linked.directories@[i]) is Some
                        &&& !linked.directories@[i]->Some_0.symlink
                        &&& linked.directories@[i]->Some_0.directory
                        &&& linked.directories@[i]->Some_0.owner == 0
                        &&& linked.directories@[i]->Some_0.mode & 0o022 == 0
                    }
                &&& forall|i: int|
                    0 <= i < ways@.len() ==> {
                        &&& (#[trigger] ways@[i]) is Some
                        &&& !ways@[i]->Some_0.symlink
                        &&& ways@[i]->Some_0.directory
                        &&& ways@[i]->Some_0.owner == 0
                        &&& ways@[i]->Some_0.mode & 0o022 == 0
                    }
            }
        },
{
}

/// A summary shows the first 4096 bytes of an error stream, or all of it where it is shorter.
pub proof fn summary_is_the_front_of_the_stream(stderr: Seq<u8>)
    ensures
        summary_bytes(stderr).len() <= 4096,
        stderr.len() <= 4096 ==> summary_bytes(stderr) == stderr,
        stderr.len() > 4096 ==> summary_bytes(stderr).len() == 4096,
        forall|i: int| 0 <= i < summary_bytes(stderr).len() ==> summary_bytes(stderr)[i] == stderr[i],
{
}

} // verus!
