//! Provenance of the system tools that the helper may run.

use vstd::prelude::*;
use vstd::string::*;

use crate::reading;
use crate::text;
use crate::privileged_argv;
use crate::paths;
use crate::json;
use crate::json_reading;
use crate::disposable_exec;
use crate::digest;
use crate::digest::{fingerprint, fingerprint_text};
use crate::disposable_exec::{root_owned_non_writable_directory_chain, DirectoryStatus, LinkStatus};
use crate::json::{null_literal, Parts};
use crate::paths::{absolute_path, file_name_is};
use crate::privileged_argv::{PrivilegedCommandModel, PrivilegedCommandSpec, PrivilegedProgram};

verus! {

/// How many directories are searched for a tool.
pub const TRUSTED_TOOL_DIRECTORY_COUNT: usize = 4;

/// The directories that are searched for a tool, in order.
pub open spec fn trusted_tool_directory(i: int) -> Seq<char> {
    if i == 0 {
        "/usr/sbin/"@
    } else if i == 1 {
        "/usr/bin/"@
    } else if i == 2 {
        "/sbin/"@
    } else {
        "/bin/"@
    }
}

/// Where a tool is looked for.
pub open spec fn tool_candidate_path(program: PrivilegedProgram, i: int) -> Seq<char> {
    trusted_tool_directory(i) + privileged_argv::privileged_program_name(program)
}

/// Where a tool is looked for, for `i` below the number of directories.
pub fn trusted_tool_candidate(program: PrivilegedProgram, i: usize) -> (path: String)
    ensures
        path@ == tool_candidate_path(program, i as int),
{
    let directory = if i == 0 {
        "/usr/sbin/"
    } else if i == 1 {
        "/usr/bin/"
    } else if i == 2 {
        "/sbin/"
    } else {
        "/bin/"
    };
    let mut path = directory.to_owned();
    path.append(program.as_str());
    path
}

/// One exact executable.
#[derive(Debug, PartialEq, Eq)]
pub struct TrustedToolIdentity {
    pub program: PrivilegedProgram,
    pub requested_path: String,
    pub canonical_path: String,
    pub device_id: u64,
    pub inode: u64,
    pub uid: u32,
    pub mode: u32,
    pub size_bytes: u64,
    pub sha256: String,
}

impl Clone for TrustedToolIdentity {
    fn clone(&self) -> (copy: Self)
        ensures
            copy == *self,
    {
        TrustedToolIdentity {
            program: self.program,
            requested_path: self.requested_path.clone(),
            canonical_path: self.canonical_path.clone(),
            device_id: self.device_id,
            inode: self.inode,
            uid: self.uid,
            mode: self.mode,
            size_bytes: self.size_bytes,
            sha256: self.sha256.clone(),
        }
    }
}

/// The executables of one exact command.
#[derive(Debug, PartialEq, Eq)]
pub struct PrivilegedToolResolution {
    pub command_digest: String,
    pub primary: TrustedToolIdentity,
    pub kernel_refresh: Option<TrustedToolIdentity>,
}

impl Clone for PrivilegedToolResolution {
    fn clone(&self) -> (copy: Self)
        ensures
            copy == *self,
    {
        PrivilegedToolResolution {
            command_digest: self.command_digest.clone(),
            primary: self.primary.clone(),
            kernel_refresh: match &self.kernel_refresh {
                Some(tool) => Some(tool.clone()),
                None => None,
            },
        }
    }
}

/// What an executable is fingerprinted by, in order.
pub open spec fn tool_parts(tool: TrustedToolIdentity) -> Seq<Seq<char>> {
    Seq::empty()
        .push(json::json_field("program"@, json::json_text(privileged_argv::privileged_program_name(tool.program))))
        .push(json::json_field("requested_path"@, json::json_text(tool.requested_path@)))
        .push(json::json_field("canonical_path"@, json::json_text(tool.canonical_path@)))
        .push(json::json_field("device_id"@, json::json_number(tool.device_id as int)))
        .push(json::json_field("inode"@, json::json_number(tool.inode as int)))
        .push(json::json_field("uid"@, json::json_number(tool.uid as int)))
        .push(json::json_field("mode"@, json::json_number(tool.mode as int)))
        .push(json::json_field("size_bytes"@, json::json_number(tool.size_bytes as int)))
        .push(json::json_field("sha256"@, json::json_text(tool.sha256@)))
}

/// The JSON form of an executable.
pub open spec fn tool_json(tool: TrustedToolIdentity) -> Seq<char> {
    json::json_object(tool_parts(tool))
}

/// The JSON form of an optional executable.
pub open spec fn opt_tool_json(tool: Option<TrustedToolIdentity>) -> Seq<char> {
    match tool {
        Some(t) => tool_json(t),
        None => json::json_null(),
    }
}

/// What a resolution is fingerprinted by, in order.
pub open spec fn resolution_parts(tools: PrivilegedToolResolution) -> Seq<Seq<char>> {
    Seq::empty()
        .push(json::json_field("command_digest"@, json::json_text(tools.command_digest@)))
        .push(json::json_field("primary"@, tool_json(tools.primary)))
        .push(json::json_field("kernel_refresh"@, opt_tool_json(tools.kernel_refresh)))
}

/// The JSON form of a resolution.
pub open spec fn resolution_json(tools: PrivilegedToolResolution) -> Seq<char> {
    json::json_object(resolution_parts(tools))
}

/// The fingerprint of a resolution.
pub open spec fn resolution_fingerprint(tools: PrivilegedToolResolution) -> Seq<char> {
    digest::text_fingerprint(resolution_json(tools))
}

fn tool_literal(tool: &TrustedToolIdentity) -> (text: String)
    ensures
        text@ == tool_json(*tool),
{
    let mut parts = Parts::new();
    parts.field_text("program", tool.program.as_str());
    parts.field_text("requested_path", tool.requested_path.as_str());
    parts.field_text("canonical_path", tool.canonical_path.as_str());
    parts.field_number("device_id", tool.device_id);
    parts.field_number("inode", tool.inode);
    parts.field_number("uid", tool.uid as u64);
    parts.field_number("mode", tool.mode as u64);
    parts.field_number("size_bytes", tool.size_bytes);
    parts.field_text("sha256", tool.sha256.as_str());
    parts.object()
}

impl PrivilegedToolResolution {
    /// The fingerprint of the resolution.
    pub fn digest(&self) -> (result: Result<String, TrustedToolError>)
        ensures
            result is Ok,
            result->Ok_0@ == resolution_fingerprint(*self),
            text::is_digest_text(result->Ok_0@),
    {
        Ok(self.fingerprint())
    }

    pub(crate) fn fingerprint(&self) -> (digest: String)
        ensures
            digest@ == resolution_fingerprint(*self),
            text::is_digest_text(digest@),
    {
        let refresh = match &self.kernel_refresh {
            Some(tool) => tool_literal(tool),
            None => null_literal(),
        };
        let mut parts = Parts::new();
        parts.field_text("command_digest", self.command_digest.as_str());
        parts.field("primary", tool_literal(&self.primary));
        parts.field("kernel_refresh", refresh);
        fingerprint_text(parts.object().as_str())
    }
}

#[derive(Clone, Debug, PartialEq, Eq)]
pub enum TrustedToolError {
    NotFound(PrivilegedProgram),
    UnsafeCandidate(String),
    Ambiguous(PrivilegedProgram),
    NonUtf8Path,
    Io(String),
}

/// The content of a refusal.
pub enum TrustedToolFault {
    NotFound(PrivilegedProgram),
    UnsafeCandidate(Seq<char>),
    Ambiguous(PrivilegedProgram),
    NonUtf8Path,
    Io(Seq<char>),
}

impl View for TrustedToolError {
    type V = TrustedToolFault;

    open spec fn view(&self) -> TrustedToolFault {
        match *self {
            TrustedToolError::NotFound(p) => TrustedToolFault::NotFound(p),
            TrustedToolError::UnsafeCandidate(s) => TrustedToolFault::UnsafeCandidate(s@),
            TrustedToolError::Ambiguous(p) => TrustedToolFault::Ambiguous(p),
            TrustedToolError::NonUtf8Path => TrustedToolFault::NonUtf8Path,
            TrustedToolError::Io(s) => TrustedToolFault::Io(s@),
        }
    }
}

/// What the file system says of a file, links not followed.
#[derive(Clone, Copy, Debug, PartialEq, Eq, Structural)]
pub struct FileStatus {
    pub symlink: bool,
    pub regular: bool,
    pub device: u64,
    pub inode: u64,
    pub owner: u32,
    pub mode: u32,
    pub size: u64,
}

/// What the file system says of a candidate. Where it says nothing, the reason stands in its place.
#[derive(Debug, PartialEq, Eq)]
pub struct CandidateProbe {
    pub link: Result<LinkStatus, String>,
    /// The canonical path; an inner absence where it is not UTF-8.
    pub canonical_path: Result<Option<String>, String>,
    pub canonical: Result<FileStatus, String>,
    /// The directories that lead to the candidate, from the root down, those that cannot be read
    /// absent.
    pub directories: Vec<Option<DirectoryStatus>>,
    /// The directories that lead to the canonical file; absent where it has no parent.
    pub canonical_directories: Option<Vec<Option<DirectoryStatus>>>,
    pub content: Result<Vec<u8>, String>,
}

/// Every directory of a chain belongs to the superuser and is closed to others.
pub open spec fn is_root_owned_chain(chain: Seq<Option<DirectoryStatus>>) -> bool {
    forall|i: int| 0 <= i < chain.len() ==> disposable_exec::is_root_owned_directory(#[trigger] chain[i])
}

/// An executable of the superuser that nobody else can write to.
pub open spec fn is_trusted_file(status: FileStatus) -> bool {
    &&& !status.symlink
    &&& status.regular
    &&& status.owner == 0
    &&& status.mode & 0o111 != 0
    &&& status.mode & 0o022 == 0
}

/// What is said of one candidate.
pub enum CandidateVerdict {
    Unsafe,
    Trusted,
    Failed(TrustedToolFault),
}

/// What is said of a candidate at `path`.
pub open spec fn candidate_verdict(
    program: PrivilegedProgram,
    path: Seq<char>,
    probe: CandidateProbe,
) -> CandidateVerdict {
    if !paths::is_absolute_path(path) || paths::path_file_name(path) != Some(privileged_argv::privileged_program_name(program)) {
        CandidateVerdict::Unsafe
    } else if probe.link is Err {
        CandidateVerdict::Failed(TrustedToolFault::Io(probe.link->Err_0@))
    } else if probe.canonical_path is Err {
        CandidateVerdict::Failed(TrustedToolFault::Io(probe.canonical_path->Err_0@))
    } else if probe.canonical is Err {
        CandidateVerdict::Failed(TrustedToolFault::Io(probe.canonical->Err_0@))
    } else if !is_trusted_file(probe.canonical->Ok_0) || probe.canonical_directories is None
        || !is_root_owned_chain(probe.directories@) || !is_root_owned_chain(
        probe.canonical_directories->Some_0@,
    ) || probe.link->Ok_0.owner != 0 {
        CandidateVerdict::Unsafe
    } else if probe.canonical_path->Ok_0 is None {
        CandidateVerdict::Failed(TrustedToolFault::NonUtf8Path)
    } else if probe.content is Err {
        CandidateVerdict::Failed(TrustedToolFault::Io(probe.content->Err_0@))
    } else {
        CandidateVerdict::Trusted
    }
}

/// The identity is exactly what the file system says of a trusted candidate.
pub open spec fn identifies(
    identity: TrustedToolIdentity,
    program: PrivilegedProgram,
    path: Seq<char>,
    probe: CandidateProbe,
) -> bool {
    let status = probe.canonical->Ok_0;
    &&& identity.program == program
    &&& identity.requested_path@ == path
    &&& identity.canonical_path@ == probe.canonical_path->Ok_0->Some_0@
    &&& identity.device_id == status.device
    &&& identity.inode == status.inode
    &&& identity.uid == status.owner
    &&& identity.mode == status.mode
    &&& identity.size_bytes == status.size
    &&& identity.sha256@ == digest::fingerprint_of(probe.content->Ok_0@)
    &&& text::is_digest_text(identity.sha256@)
}

/// Judges one candidate: trusted with its identity, unsafe, or not to be judged.
pub fn inspect_candidate(program: PrivilegedProgram, path: &str, probe: &CandidateProbe) -> (result:
    Result<Option<TrustedToolIdentity>, TrustedToolError>)
    ensures
        match result {
            Ok(Some(identity)) => candidate_verdict(program, path@, *probe) is Trusted
                && identifies(identity, program, path@, *probe),
            Ok(None) => candidate_verdict(program, path@, *probe) is Unsafe,
            Err(e) => candidate_verdict(program, path@, *probe) == CandidateVerdict::Failed(e@),
        },
{
    if !absolute_path(path) || !file_name_is(path, program.as_str()) {
        return Ok(None);
    }
    let link = match &probe.link {
        Ok(link) => link,
        Err(reason) => return Err(TrustedToolError::Io(reason.clone())),
    };
    let canonical_path = match &probe.canonical_path {
        Ok(canonical_path) => canonical_path,
        Err(reason) => return Err(TrustedToolError::Io(reason.clone())),
    };
    let status = match &probe.canonical {
        Ok(status) => status,
        Err(reason) => return Err(TrustedToolError::Io(reason.clone())),
    };
    if status.symlink || !status.regular || status.owner != 0 || status.mode & 0o111 == 0
        || status.mode & 0o022 != 0 {
        return Ok(None);
    }
    match &probe.canonical_directories {
        None => return Ok(None),
        Some(directories) => {
            if !root_owned_non_writable_directory_chain(&probe.directories)
                || !root_owned_non_writable_directory_chain(directories) {
                return Ok(None);
            }
        },
    }
    if link.owner != 0 {
        return Ok(None);
    }
    let canonical_path = match canonical_path {
        Some(canonical_path) => canonical_path,
        None => return Err(TrustedToolError::NonUtf8Path),
    };
    match &probe.content {
        Err(reason) => Err(TrustedToolError::Io(reason.clone())),
        Ok(content) => Ok(
            Some(
                TrustedToolIdentity {
                    program,
                    requested_path: path.to_owned(),
                    canonical_path: canonical_path.clone(),
                    device_id: status.device,
                    inode: status.inode,
                    uid: status.owner,
                    mode: status.mode,
                    size_bytes: status.size,
                    sha256: fingerprint(content.as_slice()),
                },
            ),
        ),
    }
}

/// What was found at one of the places where a tool is looked for.
#[derive(Debug, PartialEq, Eq)]
pub enum CandidateState {
    Absent,
    Unreadable(String),
    Present(CandidateProbe),
}

/// The states of all places where a tool is looked for, in order.
pub type CandidateStates = [CandidateState; TRUSTED_TOOL_DIRECTORY_COUNT];

/// Why the place at `i` stops the search, if it does.
pub open spec fn stops_at(
    program: PrivilegedProgram,
    states: Seq<CandidateState>,
    i: int,
) -> Option<TrustedToolFault> {
    match states[i] {
        CandidateState::Absent => None,
        CandidateState::Unreadable(reason) => Some(TrustedToolFault::Io(reason@)),
        CandidateState::Present(probe) => match candidate_verdict(
            program,
            tool_candidate_path(program, i),
            probe,
        ) {
            CandidateVerdict::Failed(fault) => Some(fault),
            _ => None,
        },
    }
}

/// The place at `i` holds a trusted tool.
pub open spec fn is_trusted_at(
    program: PrivilegedProgram,
    states: Seq<CandidateState>,
    i: int,
) -> bool {
    states[i] is Present && candidate_verdict(
        program,
        tool_candidate_path(program, i),
        states[i]->Present_0,
    ) is Trusted
}

/// The place at `i` holds something that is not trusted.
pub open spec fn is_unsafe_at(
    program: PrivilegedProgram,
    states: Seq<CandidateState>,
    i: int,
) -> bool {
    states[i] is Present && candidate_verdict(
        program,
        tool_candidate_path(program, i),
        states[i]->Present_0,
    ) is Unsafe
}

/// The first of `n` places with a trusted tool.
pub open spec fn first_trusted(
    program: PrivilegedProgram,
    states: Seq<CandidateState>,
    n: int,
) -> Option<int> {
    text::first_some(
        n,
        |i: int|
            if is_trusted_at(program, states, i) {
                Some(i)
            } else {
                None
            },
    )
}

/// The first of `n` places with something that is not trusted.
pub open spec fn first_unsafe(
    program: PrivilegedProgram,
    states: Seq<CandidateState>,
    n: int,
) -> Option<int> {
    text::first_some(
        n,
        |i: int|
            if is_unsafe_at(program, states, i) {
                Some(i)
            } else {
                None
            },
    )
}

/// Two places hold the same file.
pub open spec fn is_same_file(states: Seq<CandidateState>, i: int, j: int) -> bool {
    let a = states[i]->Present_0.canonical->Ok_0;
    let b = states[j]->Present_0.canonical->Ok_0;
    a.device == b.device && a.inode == b.inode
}

/// Why no single trusted tool was found, if none was.
pub open spec fn tool_search_refusal(
    program: PrivilegedProgram,
    states: Seq<CandidateState>,
) -> Option<TrustedToolFault> {
    let n = states.len() as int;
    let stopped = text::first_some(n, |i: int| stops_at(program, states, i));
    if stopped is Some {
        stopped
    } else {
        match first_trusted(program, states, n) {
            None => match first_unsafe(program, states, n) {
                Some(i) => Some(
                    TrustedToolFault::UnsafeCandidate(tool_candidate_path(program, i)),
                ),
                None => Some(TrustedToolFault::NotFound(program)),
            },
            Some(first) => {
                if exists|i: int|
                    0 <= i < n && #[trigger] is_trusted_at(program, states, i) && !is_same_file(
                        states,
                        first,
                        i,
                    ) {
                    Some(TrustedToolFault::Ambiguous(program))
                } else {
                    None
                }
            },
        }
    }
}

/// The tool is the first trusted one that was found.
pub open spec fn is_resolved_tool(
    identity: TrustedToolIdentity,
    program: PrivilegedProgram,
    states: Seq<CandidateState>,
) -> bool {
    match first_trusted(program, states, states.len() as int) {
        None => false,
        Some(i) => identifies(
            identity,
            program,
            tool_candidate_path(program, i),
            states[i]->Present_0,
        ),
    }
}

/// Resolves a tool from what was found in the trusted directories. Links between the directories
/// may lead to one file; two different files are refused.
pub fn resolve_trusted_privileged_tool(program: PrivilegedProgram, states: &CandidateStates) -> (result:
    Result<TrustedToolIdentity, TrustedToolError>)
    ensures
        match result {
            Ok(identity) => tool_search_refusal(program, states@) is None && is_resolved_tool(
                identity,
                program,
                states@,
            ),
            Err(e) => tool_search_refusal(program, states@) == Some(e@),
        },
{
    let ghost stop = |i: int| stops_at(program, states@, i);
    let ghost trust = |i: int|
        if is_trusted_at(program, states@, i) {
            Some(i)
        } else {
            None
        };
    let ghost doubt = |i: int|
        if is_unsafe_at(program, states@, i) {
            Some(i)
        } else {
            None
        };
    let mut found: Option<TrustedToolIdentity> = None;
    let mut refused: Option<usize> = None;
    let mut ambiguous = false;
    let mut i: usize = 0;
    while i < TRUSTED_TOOL_DIRECTORY_COUNT
        invariant
            i <= TRUSTED_TOOL_DIRECTORY_COUNT,
            states@.len() == TRUSTED_TOOL_DIRECTORY_COUNT,
            stop == (|i: int| stops_at(program, states@, i)),
            trust == (|i: int|
                if is_trusted_at(program, states@, i) {
                    Some(i)
                } else {
                    None
                }),
            doubt == (|i: int|
                if is_unsafe_at(program, states@, i) {
                    Some(i)
                } else {
                    None
                }),
            text::first_some(i as int, stop) is None,
            match found {
                Some(identity) => text::first_some(i as int, trust) is Some && 0 <= text::first_some(
                    i as int,
                    trust,
                )->Some_0 < i && is_trusted_at(
                    program,
                    states@,
                    text::first_some(i as int, trust)->Some_0,
                ) && identifies(
                    identity,
                    program,
                    tool_candidate_path(program, text::first_some(i as int, trust)->Some_0),
                    states@[text::first_some(i as int, trust)->Some_0]->Present_0,
                ),
                None => text::first_some(i as int, trust) is None,
            },
            match refused {
                Some(k) => text::first_some(i as int, doubt) == Some(k as int),
                None => text::first_some(i as int, doubt) is None,
            },
            ambiguous == (found is Some && exists|j: int|
                0 <= j < i && #[trigger] is_trusted_at(program, states@, j) && !is_same_file(
                    states@,
                    text::first_some(i as int, trust)->Some_0,
                    j,
                )),
            found is None ==> forall|j: int|
                0 <= j < i ==> !(#[trigger] is_trusted_at(program, states@, j)),
        decreases TRUSTED_TOOL_DIRECTORY_COUNT - i,
    {
        match &states[i] {
            CandidateState::Absent => {},
            CandidateState::Unreadable(reason) => {
                proof {
                    assert(text::first_some(i + 1, stop) == Some(TrustedToolFault::Io(reason@)));
                    text::lemma_first_some_stays(i + 1, states@.len() as int, stop);
                }
                return Err(TrustedToolError::Io(reason.clone()));
            },
            CandidateState::Present(probe) => {
                let path = trusted_tool_candidate(program, i);
                match inspect_candidate(program, path.as_str(), probe) {
                    Err(e) => {
                        proof {
                            assert(text::first_some(i + 1, stop) == Some(e@));
                            text::lemma_first_some_stays(i + 1, states@.len() as int, stop);
                        }
                        return Err(e);
                    },
                    Ok(None) => {
                        if refused.is_none() {
                            refused = Some(i);
                        }
                    },
                    Ok(Some(identity)) => {
                        assert(is_trusted_at(program, states@, i as int));
                        match &found {
                            Some(first) => {
                                if first.device_id != identity.device_id || first.inode
                                    != identity.inode {
                                    ambiguous = true;
                                }
                            },
                            None => {
                                found = Some(identity);
                            },
                        }
                    },
                }
            },
        }
        i += 1;
    }
    match found {
        None => match refused {
            Some(k) => Err(TrustedToolError::UnsafeCandidate(trusted_tool_candidate(program, k))),
            None => Err(TrustedToolError::NotFound(program)),
        },
        Some(identity) => {
            if ambiguous {
                Err(TrustedToolError::Ambiguous(program))
            } else {
                Ok(identity)
            }
        },
    }
}

/// Why the tools of a command were not resolved, if they were not.
pub open spec fn resolution_refusal(
    command: PrivilegedCommandModel,
    primary: Seq<CandidateState>,
    refresh: Seq<CandidateState>,
) -> Option<TrustedToolFault> {
    let on_primary = tool_search_refusal(command.program, primary);
    if on_primary is Some {
        on_primary
    } else {
        match command.kernel_refresh {
            Some(spec) => tool_search_refusal(spec.program, refresh),
            None => None,
        }
    }
}

/// The resolution names the command and its tools.
pub open spec fn is_resolution_of(
    tools: PrivilegedToolResolution,
    command: PrivilegedCommandModel,
    primary: Seq<CandidateState>,
    refresh: Seq<CandidateState>,
) -> bool {
    &&& tools.command_digest@ == privileged_argv::command_fingerprint(command)
    &&& is_resolved_tool(tools.primary, command.program, primary)
    &&& match (command.kernel_refresh, tools.kernel_refresh) {
        (Some(spec), Some(tool)) => is_resolved_tool(tool, spec.program, refresh),
        (None, None) => true,
        _ => false,
    }
}

/// Resolves the tools of a command. `refresh` is looked at only where the command has a kernel
/// refresh.
pub fn resolve_privileged_command_tools(
    command: &PrivilegedCommandSpec,
    primary: &CandidateStates,
    refresh: &CandidateStates,
) -> (result: Result<PrivilegedToolResolution, TrustedToolError>)
    ensures
        match result {
            Ok(tools) => resolution_refusal(command@, primary@, refresh@) is None
                && is_resolution_of(tools, command@, primary@, refresh@),
            Err(e) => resolution_refusal(command@, primary@, refresh@) == Some(e@),
        },
{
    let command_digest = command.fingerprint();
    let tool = match resolve_trusted_privileged_tool(command.program, primary) {
        Ok(tool) => tool,
        Err(e) => return Err(e),
    };
    let kernel_refresh = match &command.kernel_refresh {
        None => None,
        Some(spec) => match resolve_trusted_privileged_tool(spec.program, refresh) {
            Ok(tool) => Some(tool),
            Err(e) => return Err(e),
        },
    };
    Ok(PrivilegedToolResolution { command_digest, primary: tool, kernel_refresh })
}

/// A resolved tool belongs to the superuser, can be executed and can be written by nobody else.
pub proof fn resolved_tool_is_trusted(
    identity: TrustedToolIdentity,
    program: PrivilegedProgram,
    states: Seq<CandidateState>,
)
    requires
        tool_search_refusal(program, states) is None,
        is_resolved_tool(identity, program, states),
    ensures
        identity.program == program,
        identity.uid == 0,
        identity.mode & 0o111 != 0,
        identity.mode & 0o022 == 0,
        text::is_digest_text(identity.sha256@),
{
    lemma_first_trusted(program, states, states.len() as int);
}

proof fn lemma_first_trusted(program: PrivilegedProgram, states: Seq<CandidateState>, n: int)
    requires
        first_trusted(program, states, n) is Some,
    ensures
        0 <= first_trusted(program, states, n)->Some_0 < n,
        is_trusted_at(program, states, first_trusted(program, states, n)->Some_0),
    decreases n,
{
    let at = |i: int|
        if is_trusted_at(program, states, i) {
            Some(i)
        } else {
            None
        };
    if text::first_some(n - 1, at) is Some {
        lemma_first_trusted(program, states, n - 1);
    }
}

/// The two hold the same.
pub open spec fn same_tool(a: TrustedToolIdentity, b: TrustedToolIdentity) -> bool {
    &&& a.program == b.program
    &&& a.requested_path@ == b.requested_path@
    &&& a.canonical_path@ == b.canonical_path@
    &&& a.device_id == b.device_id
    &&& a.inode == b.inode
    &&& a.uid == b.uid
    &&& a.mode == b.mode
    &&& a.size_bytes == b.size_bytes
    &&& a.sha256@ == b.sha256@
}

/// The form is one value.
pub proof fn lemma_tool_value(x: TrustedToolIdentity)
    ensures
        json_reading::is_value(tool_json(x)),
{
    broadcast use crate::json_reading::group_json_reading;

    assert(json_reading::are_values(tool_parts(x)));
}

proof fn lemma_tool_told(a: TrustedToolIdentity, b: TrustedToolIdentity)
    requires
        tool_json(a) == tool_json(b),
    ensures
        same_tool(a, b),
{
    broadcast use crate::json_reading::group_json_reading;

    let p = tool_parts(a);
    let q = tool_parts(b);
    assert(json_reading::are_values(p) && json_reading::are_values(q));
    assert(p[0] == q[0]);
    assert(p[1] == q[1]);
    assert(p[2] == q[2]);
    assert(p[3] == q[3]);
    assert(p[4] == q[4]);
    assert(p[5] == q[5]);
    assert(p[6] == q[6]);
    assert(p[7] == q[7]);
    assert(p[8] == q[8]);
    privileged_argv::lemma_privileged_program_name_told(a.program, b.program);
}

/// The two hold the same, or neither is there.
pub open spec fn same_opt_tool(a: Option<TrustedToolIdentity>, b: Option<TrustedToolIdentity>) -> bool {
    match (a, b) {
        (Some(x), Some(y)) => same_tool(x, y),
        (None, None) => true,
        _ => false,
    }
}

pub proof fn lemma_opt_tool_value(x: Option<TrustedToolIdentity>)
    ensures
        json_reading::is_value(opt_tool_json(x)),
{
    match x {
        Some(y) => lemma_tool_value(y),
        None => json_reading::null_is_value(),
    }
}

proof fn lemma_opt_tool_told(a: Option<TrustedToolIdentity>, b: Option<TrustedToolIdentity>)
    requires
        opt_tool_json(a) == opt_tool_json(b),
    ensures
        same_opt_tool(a, b),
{
    if a is Some {
        json_reading::object_is_not_null(tool_parts(a->Some_0));
    }
    if b is Some {
        json_reading::object_is_not_null(tool_parts(b->Some_0));
    }
    if a is Some && b is Some {
        lemma_tool_told(a->Some_0, b->Some_0);
    }
}

/// The two hold the same.
pub open spec fn same_resolution(a: PrivilegedToolResolution, b: PrivilegedToolResolution) -> bool {
    &&& a.command_digest@ == b.command_digest@
    &&& same_tool(a.primary, b.primary)
    &&& same_opt_tool(a.kernel_refresh, b.kernel_refresh)
}

proof fn lemma_resolution_told(a: PrivilegedToolResolution, b: PrivilegedToolResolution)
    requires
        resolution_json(a) == resolution_json(b),
    ensures
        same_resolution(a, b),
{
    broadcast use crate::json_reading::group_json_reading;

    lemma_tool_value(a.primary);
    lemma_tool_value(b.primary);
    lemma_opt_tool_value(a.kernel_refresh);
    lemma_opt_tool_value(b.kernel_refresh);
    let p = resolution_parts(a);
    let q = resolution_parts(b);
    assert(json_reading::are_values(p) && json_reading::are_values(q));
    assert(p[0] == q[0]);
    assert(p[1] == q[1]);
    assert(p[2] == q[2]);
    lemma_tool_told(a.primary, b.primary);
    lemma_opt_tool_told(a.kernel_refresh, b.kernel_refresh);
}

/// Resolutions that differ in any tool have different digests, short of a SHA-256 collision.
pub proof fn different_tools_have_different_digests(a: PrivilegedToolResolution, b: PrivilegedToolResolution)
    requires
        !same_resolution(a, b),
    ensures
        resolution_fingerprint(a) != resolution_fingerprint(b) || digest::is_collision(resolution_json(a), resolution_json(b)),
{
    if resolution_fingerprint(a) == resolution_fingerprint(b) {
        digest::fingerprint_tells_its_text(resolution_json(a), resolution_json(b));
        if resolution_json(a) == resolution_json(b) {
            lemma_resolution_told(a, b);
        }
    }
}

/// A tool is looked for in four directories, in this order, under the name of its program.
pub proof fn tool_is_looked_for_in_four_directories(program: PrivilegedProgram)
    ensures
        tool_candidate_path(program, 0) == "/usr/sbin/"@ + privileged_argv::privileged_program_name(
            program,
        ),
        tool_candidate_path(program, 1) == "/usr/bin/"@ + privileged_argv::privileged_program_name(
            program,
        ),
        tool_candidate_path(program, 2) == "/sbin/"@ + privileged_argv::privileged_program_name(
            program,
        ),
        tool_candidate_path(program, 3) == "/bin/"@ + privileged_argv::privileged_program_name(
            program,
        ),
{
}

/// The directory belongs to the superuser and is closed to others.
pub open spec fn is_closed_directory(found: Option<DirectoryStatus>) -> bool {
    found matches Some(d) && !d.symlink && d.directory && d.owner == 0 && d.mode & 0o022 == 0
}

/// A candidate is trusted exactly where its path is absolute and ends in the name of the program,
/// the link belongs to the superuser, and it leads to a regular file of the superuser that someone
/// may run and nobody else may write to, through closed directories both ways, under a path that is
/// text, and with bytes that can be read.
pub proof fn trusted_candidate_belongs_to_the_superuser(
    program: PrivilegedProgram,
    path: Seq<char>,
    probe: CandidateProbe,
)
    ensures
        candidate_verdict(program, path, probe) is Trusted <==> {
            &&& path.len() > 0 && path[0] == '/'
            &&& paths::path_file_name(path) == Some(
                privileged_argv::privileged_program_name(program),
            )
            &&& probe.link matches Ok(link)
            &&& link.owner == 0
            &&& probe.canonical_path matches Ok(leads_to)
            &&& leads_to is Some
            &&& probe.canonical matches Ok(file)
            &&& !file.symlink
            &&& file.regular
            &&& file.owner == 0
            &&& file.mode & 0o111 != 0
            &&& file.mode & 0o022 == 0
            &&& probe.canonical_directories matches Some(ways)
            &&& forall|i: int|
                0 <= i < probe.directories@.len() ==> is_closed_directory(
                    #[trigger] probe.directories@[i],
                )
            &&& forall|i: int| 0 <= i < ways@.len() ==> is_closed_directory(#[trigger] ways@[i])
            &&& probe.content is Ok
        },
{
}

/// What identifies a tool is what the file system said of it, and the fingerprint of its bytes.
pub proof fn tool_is_identified_by_its_file(
    identity: TrustedToolIdentity,
    program: PrivilegedProgram,
    path: Seq<char>,
    probe: CandidateProbe,
)
    requires
        candidate_verdict(program, path, probe) is Trusted,
        identifies(identity, program, path, probe),
    ensures
        identity.program == program,
        identity.requested_path@ == path,
        identity.canonical_path@ == probe.canonical_path->Ok_0->Some_0@,
        identity.device_id == probe.canonical->Ok_0.device,
        identity.inode == probe.canonical->Ok_0.inode,
        identity.uid == probe.canonical->Ok_0.owner,
        identity.mode == probe.canonical->Ok_0.mode,
        identity.size_bytes == probe.canonical->Ok_0.size,
        identity.sha256@ == digest::fingerprint_of(probe.content->Ok_0@),
{
}

/// A search finds a tool exactly where no place stops it, some place holds a trusted one, and all
/// trusted ones are the same file. The tool is then the first of them.
pub proof fn search_finds_the_one_trusted_tool(
    program: PrivilegedProgram,
    states: Seq<CandidateState>,
    identity: TrustedToolIdentity,
)
    ensures
        tool_search_refusal(program, states) is None <==> {
            &&& forall|i: int|
                0 <= i < states.len() ==> !((#[trigger] states[i]) is Unreadable) && (
                states[i] is Present ==> !(candidate_verdict(
                    program,
                    tool_candidate_path(program, i),
                    states[i]->Present_0,
                ) is Failed))
            &&& exists|i: int| 0 <= i < states.len() && #[trigger] is_trusted_at(program, states, i)
            &&& forall|i: int, j: int|
                {
                    &&& 0 <= i < states.len()
                    &&& 0 <= j < states.len()
                    &&& #[trigger] is_trusted_at(program, states, i)
                    &&& #[trigger] is_trusted_at(program, states, j)
                } ==> {
                    let a = states[i]->Present_0.canonical->Ok_0;
                    let b = states[j]->Present_0.canonical->Ok_0;
                    a.device == b.device && a.inode == b.inode
                }
        },
        is_resolved_tool(identity, program, states) <==> exists|i: int|
            {
                &&& 0 <= i < states.len()
                &&& #[trigger] is_trusted_at(program, states, i)
                &&& forall|j: int| 0 <= j < i ==> !#[trigger] is_trusted_at(program, states, j)
                &&& identifies(
                    identity,
                    program,
                    tool_candidate_path(program, i),
                    states[i]->Present_0,
                )
            },
{
    let n = states.len() as int;
    let stop = |i: int| stops_at(program, states, i);
    let trusted = |i: int|
        if is_trusted_at(program, states, i) {
            Some(i)
        } else {
            None
        };
    reading::report_is_the_first_one(n, stop);
    reading::report_is_the_first_one(n, trusted);
    let first = first_trusted(program, states, n);
    assert(first == text::first_some(n, trusted));
    if first is None {
        assert forall|i: int| 0 <= i < n implies !#[trigger] is_trusted_at(program, states, i) by {
            assert(trusted(i) is None);
        }
    } else {
        let k = choose|k: int| reading::is_first_report(n, trusted, k);
        assert(first == Some(k));
        assert(is_trusted_at(program, states, k));
        assert forall|j: int| 0 <= j < k implies !#[trigger] is_trusted_at(program, states, j) by {
            assert(trusted(j) is None);
        }
    }
    let stopped = text::first_some(n, stop);
    let never = forall|i: int|
        0 <= i < states.len() ==> !((#[trigger] states[i]) is Unreadable) && (states[i] is Present
            ==> !(candidate_verdict(
            program,
            tool_candidate_path(program, i),
            states[i]->Present_0,
        ) is Failed));
    assert(stopped is None <==> never) by {
        if stopped is None {
            assert forall|i: int| 0 <= i < states.len() implies !((
            #[trigger] states[i]) is Unreadable) && (states[i] is Present ==> !(candidate_verdict(
                program,
                tool_candidate_path(program, i),
                states[i]->Present_0,
            ) is Failed)) by {
                assert(stop(i) is None);
            }
        } else {
            let i = choose|i: int| reading::is_first_report(n, stop, i);
            assert(stops_at(program, states, i) is Some);
            assert(states[i] is Unreadable || states[i] is Present);
        }
    }
}

/// The tools of a command are resolved exactly where the tool of each of its programs is found.
pub proof fn command_is_resolved_where_each_tool_is_found(
    command: PrivilegedCommandModel,
    primary: Seq<CandidateState>,
    refresh: Seq<CandidateState>,
    tools: PrivilegedToolResolution,
)
    ensures
        resolution_refusal(command, primary, refresh) is None <==> {
            &&& tool_search_refusal(command.program, primary) is None
            &&& command.kernel_refresh matches Some(spec) ==> tool_search_refusal(
                spec.program,
                refresh,
            ) is None
        },
        is_resolution_of(tools, command, primary, refresh) ==> {
            &&& tools.command_digest@ == privileged_argv::command_fingerprint(command)
            &&& is_resolved_tool(tools.primary, command.program, primary)
            &&& tools.kernel_refresh is Some <==> command.kernel_refresh is Some
            &&& tools.kernel_refresh is Some ==> is_resolved_tool(
                tools.kernel_refresh->Some_0,
                command.kernel_refresh->Some_0.program,
                refresh,
            )
        },
{
}

} // verus!
